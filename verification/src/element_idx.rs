//! Typed addresses for the physical elements of the control surface, and the
//! bidirectional mapping between each address and its raw wire byte.
//!
//! Reserved sub-ranges of the raw note byte:
//! grid buttons 0..=63, bottom buttons 64..=71, side buttons 82..=89, the
//! corner button 98; sliders use controller indices 48..=55 on a separate
//! byte stream. Bytes 72..=81, 90..=97 and 99..=127 belong to no address.

use vstd::prelude::*;
use crate::midi::MidiNote;

verus! {

/// Error: the raw note byte lies outside the grid-button range.
#[derive(Clone, Copy, Debug, PartialEq, Eq, Structural)]
pub struct GridButtonIdxFromMidiError;

/// Index of a button on the main 8x8 grid, addressed by column and row.
#[derive(Clone, Copy, Debug, PartialEq, Eq, Structural)]
pub struct GridButtonIdx {
    pub col: u8,
    pub row: u8,
}

impl GridButtonIdx {
    /// Both coordinates lie on the 8x8 grid.
    pub open spec fn wf(self) -> bool {
        self.col < 8 && self.row < 8
    }

    /// The wire byte of a grid address: row 7 sits at the low bytes.
    pub open spec fn to_raw_spec(self) -> MidiNote {
        MidiNote((8 * (7 - self.row as int) + self.col as int) as u8)
    }

    /// Decoding of a raw byte as a grid address: defined exactly on 0..=63.
    pub open spec fn from_raw_spec(note: MidiNote) -> Result<GridButtonIdx, GridButtonIdxFromMidiError> {
        if note.0 < 64 {
            Ok(GridButtonIdx { col: (note.0 as int % 8) as u8, row: (7 - note.0 as int / 8) as u8 })
        } else {
            Err(GridButtonIdxFromMidiError)
        }
    }

    /// Create a grid address for the given column and row, if both are in range.
    pub fn new(col: u8, row: u8) -> (r: Option<GridButtonIdx>)
        ensures
            col < 8 && row < 8 ==> r == Some(GridButtonIdx { col, row }),
            !(col < 8 && row < 8) ==> r is None,
    {
        if col < 8 && row < 8 {
            Some(GridButtonIdx { col, row })
        } else {
            None
        }
    }

    /// Every grid address exactly once: column is the outer dimension,
    /// row the inner one.
    pub fn all() -> (r: Vec<GridButtonIdx>)
        ensures
            r@.len() == 64,
            forall|i: int| 0 <= i < 64 ==> #[trigger] r@[i] == (GridButtonIdx { col: (i / 8) as u8, row: (i % 8) as u8 }),
    {
        let mut r: Vec<GridButtonIdx> = Vec::new();
        let mut col: u8 = 0;
        while col < 8
            invariant
                col <= 8,
                r@.len() == 8 * col,
                forall|i: int| 0 <= i < r@.len() ==> #[trigger] r@[i] == (GridButtonIdx { col: (i / 8) as u8, row: (i % 8) as u8 }),
            decreases 8 - col,
        {
            let mut row: u8 = 0;
            while row < 8
                invariant
                    col < 8,
                    row <= 8,
                    r@.len() == 8 * col + row,
                    forall|i: int| 0 <= i < r@.len() ==> #[trigger] r@[i] == (GridButtonIdx { col: (i / 8) as u8, row: (i % 8) as u8 }),
                decreases 8 - row,
            {
                r.push(GridButtonIdx { col, row });
                row = row + 1;
            }
            col = col + 1;
        }
        r
    }

    /// Decode a raw note byte as a grid address.
    pub fn from_raw(note: MidiNote) -> (r: Result<GridButtonIdx, GridButtonIdxFromMidiError>)
        ensures
            r == Self::from_raw_spec(note),
    {
        if note.0 >= 64 {
            return Err(GridButtonIdxFromMidiError);
        }
        let row: u8 = 7 - note.0 / 8;
        let col: u8 = note.0 % 8;
        match Self::new(col, row) {
            Some(g) => Ok(g),
            None => Err(GridButtonIdxFromMidiError),
        }
    }

    /// Encode a grid address as its raw note byte.
    pub fn to_raw(self) -> (r: MidiNote)
        requires
            self.wf(),
        ensures
            r == self.to_raw_spec(),
            r.0 < 64,
    {
        MidiNote(8 * (7 - self.row) + self.col)
    }
}

/// Encoding a valid grid address and decoding the byte again yields the
/// same address.
pub proof fn lemma_grid_round_trip(g: GridButtonIdx)
    requires
        g.wf(),
    ensures
        GridButtonIdx::from_raw_spec(g.to_raw_spec()) == Ok::<GridButtonIdx, GridButtonIdxFromMidiError>(g),
{
}

/// Error: the raw controller byte lies outside the slider range.
#[derive(Clone, Copy, Debug, PartialEq, Eq, Structural)]
pub struct SliderIdxFromMidiError;

/// Index of one of the eight sliders. Its wire bytes are controller
/// indices 48..=55, a byte stream separate from the note bytes.
#[derive(Clone, Copy, Debug, PartialEq, Eq, Structural)]
pub struct SliderIdx(pub u8);

impl SliderIdx {
    /// The index lies among the eight sliders.
    pub open spec fn wf(self) -> bool {
        self.0 < 8
    }

    /// The wire byte of a slider address: the index plus the range base.
    pub open spec fn to_raw_spec(self) -> MidiNote {
        MidiNote((self.0 + 48) as u8)
    }

    /// Decoding of a raw byte as a slider address: defined exactly on 48..=55.
    pub open spec fn from_raw_spec(note: MidiNote) -> Result<SliderIdx, SliderIdxFromMidiError> {
        if 48 <= note.0 && note.0 < 56 {
            Ok(SliderIdx((note.0 - 48) as u8))
        } else {
            Err(SliderIdxFromMidiError)
        }
    }

    /// Create a slider address for the given index, if it is in range.
    pub fn new(index: u8) -> (r: Option<SliderIdx>)
        ensures
            index < 8 ==> r == Some(SliderIdx(index)),
            index >= 8 ==> r is None,
    {
        if index < 8 {
            Some(SliderIdx(index))
        } else {
            None
        }
    }

    /// Every slider address exactly once, in increasing index order.
    pub fn all() -> (r: Vec<SliderIdx>)
        ensures
            r@.len() == 8,
            forall|i: int| 0 <= i < 8 ==> #[trigger] r@[i] == (SliderIdx(i as u8)),
    {
        let mut r: Vec<SliderIdx> = Vec::new();
        let mut index: u8 = 0;
        while index < 8
            invariant
                index <= 8,
                r@.len() == index,
                forall|i: int| 0 <= i < r@.len() ==> #[trigger] r@[i] == (SliderIdx(i as u8)),
            decreases 8 - index,
        {
            r.push(SliderIdx(index));
            index = index + 1;
        }
        r
    }

    /// Decode a raw controller byte as a slider address.
    pub fn from_raw(note: MidiNote) -> (r: Result<SliderIdx, SliderIdxFromMidiError>)
        ensures
            r == Self::from_raw_spec(note),
    {
        if note.0 >= 48 {
            match Self::new(note.0 - 48) {
                Some(s) => Ok(s),
                None => Err(SliderIdxFromMidiError),
            }
        } else {
            Err(SliderIdxFromMidiError)
        }
    }

    /// Encode a slider address as its raw controller byte.
    pub fn to_raw(self) -> (r: MidiNote)
        requires
            self.wf(),
        ensures
            r == self.to_raw_spec(),
            48 <= r.0 < 56,
    {
        MidiNote(self.0 + 48)
    }
}

/// Encoding a valid slider address and decoding the byte again yields the
/// same address.
pub proof fn lemma_slider_round_trip(s: SliderIdx)
    requires
        s.wf(),
    ensures
        SliderIdx::from_raw_spec(s.to_raw_spec()) == Ok::<SliderIdx, SliderIdxFromMidiError>(s),
{
}

/// Error: the raw note byte lies outside the bottom-button range.
#[derive(Clone, Copy, Debug, PartialEq, Eq, Structural)]
pub struct BottomButtonIdxFromMidiError;

/// Index of one of the eight buttons along the bottom edge; wire bytes 64..=71.
#[derive(Clone, Copy, Debug, PartialEq, Eq, Structural)]
pub struct BottomButtonIdx(pub u8);

impl BottomButtonIdx {
    /// The index lies among the eight bottom buttons.
    pub open spec fn wf(self) -> bool {
        self.0 < 8
    }

    /// The wire byte of a bottom-button address: the index plus the range base.
    pub open spec fn to_raw_spec(self) -> MidiNote {
        MidiNote((self.0 + 64) as u8)
    }

    /// Decoding of a raw byte as a bottom-button address: defined exactly on 64..=71.
    pub open spec fn from_raw_spec(note: MidiNote) -> Result<BottomButtonIdx, BottomButtonIdxFromMidiError> {
        if 64 <= note.0 && note.0 < 72 {
            Ok(BottomButtonIdx((note.0 - 64) as u8))
        } else {
            Err(BottomButtonIdxFromMidiError)
        }
    }

    /// Create a bottom-button address for the given index, if it is in range.
    pub fn new(index: u8) -> (r: Option<BottomButtonIdx>)
        ensures
            index < 8 ==> r == Some(BottomButtonIdx(index)),
            index >= 8 ==> r is None,
    {
        if index < 8 {
            Some(BottomButtonIdx(index))
        } else {
            None
        }
    }

    /// Every bottom-button address exactly once, in increasing index order.
    pub fn all() -> (r: Vec<BottomButtonIdx>)
        ensures
            r@.len() == 8,
            forall|i: int| 0 <= i < 8 ==> #[trigger] r@[i] == (BottomButtonIdx(i as u8)),
    {
        let mut r: Vec<BottomButtonIdx> = Vec::new();
        let mut index: u8 = 0;
        while index < 8
            invariant
                index <= 8,
                r@.len() == index,
                forall|i: int| 0 <= i < r@.len() ==> #[trigger] r@[i] == (BottomButtonIdx(i as u8)),
            decreases 8 - index,
        {
            r.push(BottomButtonIdx(index));
            index = index + 1;
        }
        r
    }

    /// Decode a raw note byte as a bottom-button address.
    pub fn from_raw(note: MidiNote) -> (r: Result<BottomButtonIdx, BottomButtonIdxFromMidiError>)
        ensures
            r == Self::from_raw_spec(note),
    {
        if note.0 >= 64 {
            match Self::new(note.0 - 64) {
                Some(b) => Ok(b),
                None => Err(BottomButtonIdxFromMidiError),
            }
        } else {
            Err(BottomButtonIdxFromMidiError)
        }
    }

    /// Encode a bottom-button address as its raw note byte.
    pub fn to_raw(self) -> (r: MidiNote)
        requires
            self.wf(),
        ensures
            r == self.to_raw_spec(),
            64 <= r.0 < 72,
    {
        MidiNote(self.0 + 64)
    }
}

/// Encoding a valid bottom-button address and decoding the byte again yields
/// the same address.
pub proof fn lemma_bottom_round_trip(b: BottomButtonIdx)
    requires
        b.wf(),
    ensures
        BottomButtonIdx::from_raw_spec(b.to_raw_spec()) == Ok::<BottomButtonIdx, BottomButtonIdxFromMidiError>(b),
{
}

/// Error: the raw note byte lies outside the side-button range.
#[derive(Clone, Copy, Debug, PartialEq, Eq, Structural)]
pub struct SideButtonIdxFromMidiError;

/// Index of one of the eight buttons along the side; wire bytes 82..=89.
#[derive(Clone, Copy, Debug, PartialEq, Eq, Structural)]
pub struct SideButtonIdx(pub u8);

impl SideButtonIdx {
    /// The index lies among the eight side buttons.
    pub open spec fn wf(self) -> bool {
        self.0 < 8
    }

    /// The wire byte of a side-button address: the index plus the range base.
    pub open spec fn to_raw_spec(self) -> MidiNote {
        MidiNote((self.0 + 82) as u8)
    }

    /// Decoding of a raw byte as a side-button address: defined exactly on 82..=89.
    pub open spec fn from_raw_spec(note: MidiNote) -> Result<SideButtonIdx, SideButtonIdxFromMidiError> {
        if 82 <= note.0 && note.0 < 90 {
            Ok(SideButtonIdx((note.0 - 82) as u8))
        } else {
            Err(SideButtonIdxFromMidiError)
        }
    }

    /// Create a side-button address for the given index, if it is in range.
    pub fn new(index: u8) -> (r: Option<SideButtonIdx>)
        ensures
            index < 8 ==> r == Some(SideButtonIdx(index)),
            index >= 8 ==> r is None,
    {
        if index < 8 {
            Some(SideButtonIdx(index))
        } else {
            None
        }
    }

    /// Every side-button address exactly once, in increasing index order.
    pub fn all() -> (r: Vec<SideButtonIdx>)
        ensures
            r@.len() == 8,
            forall|i: int| 0 <= i < 8 ==> #[trigger] r@[i] == (SideButtonIdx(i as u8)),
    {
        let mut r: Vec<SideButtonIdx> = Vec::new();
        let mut index: u8 = 0;
        while index < 8
            invariant
                index <= 8,
                r@.len() == index,
                forall|i: int| 0 <= i < r@.len() ==> #[trigger] r@[i] == (SideButtonIdx(i as u8)),
            decreases 8 - index,
        {
            r.push(SideButtonIdx(index));
            index = index + 1;
        }
        r
    }

    /// Decode a raw note byte as a side-button address.
    pub fn from_raw(note: MidiNote) -> (r: Result<SideButtonIdx, SideButtonIdxFromMidiError>)
        ensures
            r == Self::from_raw_spec(note),
    {
        if note.0 >= 82 {
            match Self::new(note.0 - 82) {
                Some(s) => Ok(s),
                None => Err(SideButtonIdxFromMidiError),
            }
        } else {
            Err(SideButtonIdxFromMidiError)
        }
    }

    /// Encode a side-button address as its raw note byte.
    pub fn to_raw(self) -> (r: MidiNote)
        requires
            self.wf(),
        ensures
            r == self.to_raw_spec(),
            82 <= r.0 < 90,
    {
        MidiNote(self.0 + 82)
    }
}

/// Encoding a valid side-button address and decoding the byte again yields
/// the same address.
pub proof fn lemma_side_round_trip(s: SideButtonIdx)
    requires
        s.wf(),
    ensures
        SideButtonIdx::from_raw_spec(s.to_raw_spec()) == Ok::<SideButtonIdx, SideButtonIdxFromMidiError>(s),
{
}

/// Error: the raw note byte is not the corner button's byte.
#[derive(Clone, Copy, Debug, PartialEq, Eq, Structural)]
pub struct CornerButtonIdxFromMidiError;

/// Address of the single corner button; wire byte 98.
#[derive(Clone, Copy, Debug, PartialEq, Eq, Structural)]
pub struct CornerButtonIdx;

impl CornerButtonIdx {
    /// The wire byte of the corner button.
    pub open spec fn to_raw_spec(self) -> MidiNote {
        MidiNote(98)
    }

    /// Decoding of a raw byte as the corner button: defined exactly on 98.
    pub open spec fn from_raw_spec(note: MidiNote) -> Result<CornerButtonIdx, CornerButtonIdxFromMidiError> {
        if note.0 == 98 {
            Ok(CornerButtonIdx)
        } else {
            Err(CornerButtonIdxFromMidiError)
        }
    }

    /// The one corner-button address.
    pub fn all() -> (r: Vec<CornerButtonIdx>)
        ensures
            r@.len() == 1,
            r@[0] == CornerButtonIdx,
    {
        let mut r: Vec<CornerButtonIdx> = Vec::new();
        r.push(CornerButtonIdx);
        r
    }

    /// Decode a raw note byte as the corner button.
    pub fn from_raw(note: MidiNote) -> (r: Result<CornerButtonIdx, CornerButtonIdxFromMidiError>)
        ensures
            r == Self::from_raw_spec(note),
    {
        if note.0 == 98 {
            Ok(CornerButtonIdx)
        } else {
            Err(CornerButtonIdxFromMidiError)
        }
    }

    /// Encode the corner button as its raw note byte.
    pub fn to_raw(self) -> (r: MidiNote)
        ensures
            r == self.to_raw_spec(),
            r.0 == 98,
    {
        MidiNote(98)
    }
}

/// Encoding the corner button and decoding the byte again yields the corner
/// button.
pub proof fn lemma_corner_round_trip(c: CornerButtonIdx)
    ensures
        CornerButtonIdx::from_raw_spec(c.to_raw_spec()) == Ok::<CornerButtonIdx, CornerButtonIdxFromMidiError>(c),
{
}

/// Error: the raw note byte belongs to no button address kind.
#[derive(Clone, Copy, Debug, PartialEq, Eq, Structural)]
pub struct ButtonIdxFromMidiError;

/// Address of one physical button of any kind: exactly one button per value.
#[derive(Clone, Copy, Debug, PartialEq, Eq, Structural)]
pub enum ButtonIdx {
    GridButtonIdx(GridButtonIdx),
    SideButtonIdx(SideButtonIdx),
    BottomButtonIdx(BottomButtonIdx),
    CornerButtonIdx(CornerButtonIdx),
}

impl ButtonIdx {
    /// The wrapped address is valid for its kind.
    pub open spec fn wf(self) -> bool {
        match self {
            ButtonIdx::GridButtonIdx(g) => g.wf(),
            ButtonIdx::SideButtonIdx(s) => s.wf(),
            ButtonIdx::BottomButtonIdx(b) => b.wf(),
            ButtonIdx::CornerButtonIdx(_) => true,
        }
    }

    /// The wire byte of a button address: each kind encodes into its own
    /// reserved sub-range.
    pub open spec fn to_raw_spec(self) -> MidiNote {
        match self {
            ButtonIdx::GridButtonIdx(g) => g.to_raw_spec(),
            ButtonIdx::SideButtonIdx(s) => s.to_raw_spec(),
            ButtonIdx::BottomButtonIdx(b) => b.to_raw_spec(),
            ButtonIdx::CornerButtonIdx(c) => c.to_raw_spec(),
        }
    }

    /// Decoding of a raw byte as a button address. The kinds are tried in a
    /// fixed order; since their sub-ranges never overlap, the order does not
    /// matter. Defined exactly on 0..=71, 82..=89 and 98.
    pub open spec fn from_raw_spec(note: MidiNote) -> Result<ButtonIdx, ButtonIdxFromMidiError> {
        if GridButtonIdx::from_raw_spec(note) is Ok {
            Ok(ButtonIdx::GridButtonIdx(GridButtonIdx::from_raw_spec(note)->Ok_0))
        } else if SideButtonIdx::from_raw_spec(note) is Ok {
            Ok(ButtonIdx::SideButtonIdx(SideButtonIdx::from_raw_spec(note)->Ok_0))
        } else if BottomButtonIdx::from_raw_spec(note) is Ok {
            Ok(ButtonIdx::BottomButtonIdx(BottomButtonIdx::from_raw_spec(note)->Ok_0))
        } else if CornerButtonIdx::from_raw_spec(note) is Ok {
            Ok(ButtonIdx::CornerButtonIdx(CornerButtonIdx::from_raw_spec(note)->Ok_0))
        } else {
            Err(ButtonIdxFromMidiError)
        }
    }

    /// Decode a raw note byte as a button address, trying the grid, side,
    /// bottom and corner sub-ranges in turn.
    pub fn from_raw(note: MidiNote) -> (r: Result<ButtonIdx, ButtonIdxFromMidiError>)
        ensures
            r == Self::from_raw_spec(note),
            r matches Ok(idx) ==> idx.wf(),
    {
        if let Ok(g) = GridButtonIdx::from_raw(note) {
            Ok(ButtonIdx::GridButtonIdx(g))
        } else if let Ok(s) = SideButtonIdx::from_raw(note) {
            Ok(ButtonIdx::SideButtonIdx(s))
        } else if let Ok(b) = BottomButtonIdx::from_raw(note) {
            Ok(ButtonIdx::BottomButtonIdx(b))
        } else if let Ok(c) = CornerButtonIdx::from_raw(note) {
            Ok(ButtonIdx::CornerButtonIdx(c))
        } else {
            Err(ButtonIdxFromMidiError)
        }
    }

    /// Encode a button address as its raw note byte.
    pub fn to_raw(self) -> (r: MidiNote)
        requires
            self.wf(),
        ensures
            r == self.to_raw_spec(),
    {
        match self {
            ButtonIdx::GridButtonIdx(g) => g.to_raw(),
            ButtonIdx::SideButtonIdx(s) => s.to_raw(),
            ButtonIdx::BottomButtonIdx(b) => b.to_raw(),
            ButtonIdx::CornerButtonIdx(c) => c.to_raw(),
        }
    }
}

/// Encoding a valid button address of any kind and decoding the byte again
/// yields the same address.
pub proof fn lemma_button_round_trip(b: ButtonIdx)
    requires
        b.wf(),
    ensures
        ButtonIdx::from_raw_spec(b.to_raw_spec()) == Ok::<ButtonIdx, ButtonIdxFromMidiError>(b),
{
}

/// The four button sub-ranges partition the raw byte space: each kind decodes
/// exactly its own sub-range, no byte decodes under two kinds, and the bytes
/// that no kind accepts are exactly the gap bytes 72..=81, 90..=97 and
/// 99 and above.
pub proof fn lemma_button_raw_partition(note: MidiNote)
    ensures
        GridButtonIdx::from_raw_spec(note) is Ok <==> note.0 < 64,
        BottomButtonIdx::from_raw_spec(note) is Ok <==> 64 <= note.0 < 72,
        SideButtonIdx::from_raw_spec(note) is Ok <==> 82 <= note.0 < 90,
        CornerButtonIdx::from_raw_spec(note) is Ok <==> note.0 == 98,
        !(GridButtonIdx::from_raw_spec(note) is Ok && BottomButtonIdx::from_raw_spec(note) is Ok),
        !(GridButtonIdx::from_raw_spec(note) is Ok && SideButtonIdx::from_raw_spec(note) is Ok),
        !(GridButtonIdx::from_raw_spec(note) is Ok && CornerButtonIdx::from_raw_spec(note) is Ok),
        !(BottomButtonIdx::from_raw_spec(note) is Ok && SideButtonIdx::from_raw_spec(note) is Ok),
        !(BottomButtonIdx::from_raw_spec(note) is Ok && CornerButtonIdx::from_raw_spec(note) is Ok),
        !(SideButtonIdx::from_raw_spec(note) is Ok && CornerButtonIdx::from_raw_spec(note) is Ok),
        ButtonIdx::from_raw_spec(note) is Ok <==> !((72 <= note.0 < 82) || (90 <= note.0 < 98) || note.0 >= 99),
{
}

} // verus!
