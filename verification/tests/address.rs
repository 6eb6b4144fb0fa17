use apc_mini::element_idx::{
    BottomButtonIdx, ButtonIdx, CornerButtonIdx, GridButtonIdx, SideButtonIdx, SliderIdx,
};
use apc_mini::midi::MidiNote;

#[test]
fn round_trip_grid() {
    for g in GridButtonIdx::all() {
        assert_eq!(GridButtonIdx::from_raw(g.to_raw()), Ok(g));
    }
}

#[test]
fn round_trip_slider() {
    for s in SliderIdx::all() {
        assert_eq!(SliderIdx::from_raw(s.to_raw()), Ok(s));
    }
}

#[test]
fn round_trip_bottom() {
    for b in BottomButtonIdx::all() {
        assert_eq!(BottomButtonIdx::from_raw(b.to_raw()), Ok(b));
    }
}

#[test]
fn round_trip_side() {
    for s in SideButtonIdx::all() {
        assert_eq!(SideButtonIdx::from_raw(s.to_raw()), Ok(s));
    }
}

#[test]
fn round_trip_corner() {
    for c in CornerButtonIdx::all() {
        assert_eq!(CornerButtonIdx::from_raw(c.to_raw()), Ok(c));
    }
}

#[test]
fn round_trip_button_all_kinds() {
    let mut buttons: Vec<ButtonIdx> = Vec::new();
    for g in GridButtonIdx::all() {
        buttons.push(ButtonIdx::GridButtonIdx(g));
    }
    for s in SideButtonIdx::all() {
        buttons.push(ButtonIdx::SideButtonIdx(s));
    }
    for b in BottomButtonIdx::all() {
        buttons.push(ButtonIdx::BottomButtonIdx(b));
    }
    for c in CornerButtonIdx::all() {
        buttons.push(ButtonIdx::CornerButtonIdx(c));
    }
    assert_eq!(buttons.len(), 64 + 8 + 8 + 1);
    for b in buttons {
        assert_eq!(ButtonIdx::from_raw(b.to_raw()), Ok(b));
    }
}

#[test]
fn partition_of_raw_bytes() {
    for b in 0u8..=127u8 {
        let note = MidiNote(b);
        let mut hits: u32 = 0;
        if GridButtonIdx::from_raw(note).is_ok() {
            hits += 1;
        }
        if SideButtonIdx::from_raw(note).is_ok() {
            hits += 1;
        }
        if BottomButtonIdx::from_raw(note).is_ok() {
            hits += 1;
        }
        if CornerButtonIdx::from_raw(note).is_ok() {
            hits += 1;
        }
        assert!(hits <= 1, "byte {} decodes under {} button kinds", b, hits);
        let gap = (72..82).contains(&b) || (90..98).contains(&b) || b >= 99;
        assert_eq!(hits == 0, gap, "byte {} coverage is wrong", b);
        assert_eq!(ButtonIdx::from_raw(note).is_ok(), !gap);
    }
}

#[test]
fn boundary_values() {
    assert_eq!(
        GridButtonIdx::from_raw(MidiNote(0)),
        Ok(GridButtonIdx { col: 0, row: 7 })
    );
    assert_eq!(
        GridButtonIdx::from_raw(MidiNote(7)),
        Ok(GridButtonIdx { col: 7, row: 7 })
    );
    assert_eq!(
        GridButtonIdx::from_raw(MidiNote(56)),
        Ok(GridButtonIdx { col: 0, row: 0 })
    );
    assert_eq!(
        GridButtonIdx::from_raw(MidiNote(63)),
        Ok(GridButtonIdx { col: 7, row: 0 })
    );
    assert_eq!(
        BottomButtonIdx::from_raw(MidiNote(64)),
        Ok(BottomButtonIdx(0))
    );
    assert_eq!(
        BottomButtonIdx::from_raw(MidiNote(71)),
        Ok(BottomButtonIdx(7))
    );
    assert!(ButtonIdx::from_raw(MidiNote(72)).is_err());
    assert_eq!(SideButtonIdx::from_raw(MidiNote(82)), Ok(SideButtonIdx(0)));
    assert_eq!(
        CornerButtonIdx::from_raw(MidiNote(98)),
        Ok(CornerButtonIdx)
    );
    for b in 0u8..=255u8 {
        if b != 98 {
            assert!(CornerButtonIdx::from_raw(MidiNote(b)).is_err());
        }
    }
}

#[test]
fn constructors_check_range() {
    assert_eq!(GridButtonIdx::new(3, 5), Some(GridButtonIdx { col: 3, row: 5 }));
    assert_eq!(GridButtonIdx::new(8, 0), None);
    assert_eq!(GridButtonIdx::new(0, 8), None);
    assert_eq!(SliderIdx::new(7), Some(SliderIdx(7)));
    assert_eq!(SliderIdx::new(8), None);
    assert_eq!(BottomButtonIdx::new(0), Some(BottomButtonIdx(0)));
    assert_eq!(BottomButtonIdx::new(200), None);
    assert_eq!(SideButtonIdx::new(7), Some(SideButtonIdx(7)));
    assert_eq!(SideButtonIdx::new(9), None);
}

#[test]
fn enumeration_order() {
    let grid = GridButtonIdx::all();
    assert_eq!(grid.len(), 64);
    for (i, g) in grid.iter().enumerate() {
        assert_eq!(g.col as usize, i / 8, "column is the outer dimension");
        assert_eq!(g.row as usize, i % 8, "row is the inner dimension");
    }
    assert_eq!(grid[0], GridButtonIdx { col: 0, row: 0 });
    assert_eq!(grid[1], GridButtonIdx { col: 0, row: 1 });
    assert_eq!(grid[8], GridButtonIdx { col: 1, row: 0 });

    let sliders = SliderIdx::all();
    assert_eq!(sliders.len(), 8);
    for (i, s) in sliders.iter().enumerate() {
        assert_eq!(s.0 as usize, i);
    }
    assert_eq!(BottomButtonIdx::all().len(), 8);
    assert_eq!(SideButtonIdx::all().len(), 8);
    assert_eq!(CornerButtonIdx::all(), vec![CornerButtonIdx]);
}

#[test]
fn encode_is_injective() {
    let mut seen = [false; 128];
    for g in GridButtonIdx::all() {
        let MidiNote(raw) = g.to_raw();
        assert!(!seen[raw as usize]);
        seen[raw as usize] = true;
    }
    for s in SideButtonIdx::all() {
        let MidiNote(raw) = s.to_raw();
        assert!(!seen[raw as usize]);
        seen[raw as usize] = true;
    }
    for b in BottomButtonIdx::all() {
        let MidiNote(raw) = b.to_raw();
        assert!(!seen[raw as usize]);
        seen[raw as usize] = true;
    }
    for c in CornerButtonIdx::all() {
        let MidiNote(raw) = c.to_raw();
        assert!(!seen[raw as usize]);
        seen[raw as usize] = true;
    }
}
