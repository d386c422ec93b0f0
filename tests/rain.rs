use digital_rain::grid::{trail_cell, GridBuffer, GridCell};
use digital_rain::ledger::TrailLedger;
use digital_rain::pool::DropPool;
use digital_rain::raindrop::{DigitDrop, Snapshot};
use digital_rain::sim::{grid_width, SetupError, Simulation};

const A: char = '\u{3042}';

fn drop_at(column: usize, row: usize, height: usize, fall_period: u64) -> DigitDrop {
    DigitDrop { column, row, height, glyph: A, fall_period, glyph_period: 7 }
}

fn snap(row: usize) -> Snapshot {
    Snapshot { column: 0, row, glyph: A }
}

#[test]
fn one_drop_on_ten_by_five_with_depth_three() {
    let mut sim = Simulation::new(10, 5, 3, 0, 0).unwrap();
    sim.add_drop(drop_at(3, 0, 5, 1));

    sim.frame();
    assert_eq!(sim.pool().len(), 1);
    assert_eq!(sim.pool().get(0).row, 1);
    assert_eq!(sim.ledger().len(), 1);
    assert_eq!(sim.ledger().frame(0), &vec![Snapshot { column: 3, row: 0, glyph: A }]);

    sim.frame();
    sim.frame();
    sim.frame();
    assert_eq!(sim.pool().get(0).row, 4);
    assert_eq!(sim.ledger().len(), 3);
    let rows: Vec<usize> = (0..3).map(|i| sim.ledger().frame(i)[0].row).collect();
    assert_eq!(rows, vec![3, 2, 1]);

    // Trails of frame four: rows 2, 1, 0 at levels 1, 2, 3; level 3 erases.
    let g = sim.grid();
    assert_eq!(g.cell(0, 3), GridCell::Blank);
    assert_eq!(g.cell(1, 3), GridCell::Glyph { level: 2, glyph: A });
    assert_eq!(g.cell(2, 3), GridCell::Glyph { level: 1, glyph: A });
    assert_eq!(g.cell(3, 3), GridCell::Glyph { level: 0, glyph: A });
    assert_eq!(g.cell(4, 3), GridCell::Glyph { level: 0, glyph: A });
    assert_eq!(g.cell(4, 4), GridCell::Untouched);
}

#[test]
fn drop_at_the_bottom_is_retired_on_its_next_move() {
    let mut sim = Simulation::new(10, 5, 3, 0, 0).unwrap();
    sim.add_drop(drop_at(2, 5, 5, 1));
    sim.frame();
    assert_eq!(sim.pool().len(), 0);
    assert_eq!(sim.ledger().frame(0), &vec![Snapshot { column: 2, row: 5, glyph: A }]);
    for r in 0..5 {
        for c in 0..10 {
            assert_eq!(sim.grid().cell(r, c), GridCell::Untouched);
        }
    }
    sim.frame();
    assert_eq!(sim.pool().len(), 0);
    assert_eq!(sim.ledger().len(), 2);
    assert_eq!(sim.ledger().frame(1)[0].row, 5);
    assert!(sim.ledger().frame(0).is_empty());
}

#[test]
fn retired_drop_never_comes_back() {
    let mut sim = Simulation::new(4, 3, 2, 0, 0).unwrap();
    sim.add_drop(drop_at(1, 2, 3, 1));
    sim.frame();
    assert_eq!(sim.pool().get(0).row, 3);
    sim.frame();
    assert_eq!(sim.pool().len(), 0);
    for _ in 0..5 {
        sim.frame();
        assert_eq!(sim.pool().len(), 0);
    }
}

#[test]
fn slow_drop_stays_below_screen_until_it_moves() {
    let mut sim = Simulation::new(4, 3, 2, 0, 0).unwrap();
    // Frame counting starts at 1: with a period of 2 it moves on frames 2, 4, ...
    sim.add_drop(drop_at(1, 3, 3, 2));
    sim.frame();
    assert_eq!(sim.pool().len(), 1);
    assert_eq!(sim.pool().get(0).row, 3);
    sim.frame();
    assert_eq!(sim.pool().len(), 0);
}

#[test]
fn row_moves_by_zero_or_one() {
    let mut d = drop_at(0, 4, 10, 3);
    d.action(3, A);
    assert_eq!(d.row, 5);
    d.action(4, A);
    assert_eq!(d.row, 5);
    d.action(0, A);
    assert_eq!(d.row, 6);
    let mut e = drop_at(0, 0, 10, 1);
    for step in 1..20u64 {
        let before = e.row;
        e.action(step, A);
        assert_eq!(e.row, before + 1);
    }
}

#[test]
fn action_resamples_only_on_glyph_frames() {
    let mut d = DigitDrop { column: 0, row: 0, height: 9, glyph: A, fall_period: 5, glyph_period: 3 };
    d.action(4, 'x');
    assert_eq!(d.glyph, A);
    assert_eq!(d.row, 0);
    d.action(6, 'x');
    assert_eq!(d.glyph, 'x');
    assert_eq!(d.row, 0);
    d.action(15, 'y');
    assert_eq!(d.glyph, 'y');
    assert_eq!(d.row, 1);
}

#[test]
fn out_of_screen_only_past_the_bottom() {
    assert!(!drop_at(0, 4, 5, 1).is_out_of_screen());
    assert!(!drop_at(0, 5, 5, 1).is_out_of_screen());
    assert!(drop_at(0, 6, 5, 1).is_out_of_screen());
}

#[test]
fn ledger_keeps_at_most_its_depth() {
    let mut l = TrailLedger::new(3);
    for r in 0..3 {
        l.record(vec![snap(r)]);
        assert_eq!(l.len(), r + 1);
    }
    l.record(vec![snap(3)]);
    assert_eq!(l.len(), 3);
    assert_eq!(l.frame(0), &vec![snap(3)]);
    assert_eq!(l.frame(1), &vec![snap(2)]);
    assert_eq!(l.frame(2), &vec![snap(1)]);
    l.record(vec![snap(4)]);
    assert_eq!(l.len(), 3);
    assert_eq!(l.frame(2), &vec![snap(2)]);
}

#[test]
fn level_is_the_number_of_frames_since_recording() {
    let mut l = TrailLedger::new(4);
    l.record(vec![snap(7)]);
    for t in 1..4 {
        // Recorded `t` recordings ago: at index t - 1, decay level t.
        assert_eq!(l.frame(t - 1), &vec![snap(7)]);
        l.record(vec![snap(100 + t)]);
    }
    assert_eq!(l.frame(3), &vec![snap(7)]);
    l.record(vec![snap(200)]);
    assert_eq!(l.len(), 4);
    for i in 0..4 {
        assert_ne!(l.frame(i), &vec![snap(7)]);
    }
}

#[test]
fn fresher_trail_wins_and_drop_wins_over_trail() {
    // A drop that moves on even frames leaves two snapshots on row 0.
    let mut sim = Simulation::new(3, 4, 4, 0, 0).unwrap();
    sim.add_drop(DigitDrop { column: 0, row: 0, height: 4, glyph: A, fall_period: 2, glyph_period: 97 });
    sim.frame();
    assert_eq!(sim.grid().cell(0, 0), GridCell::Glyph { level: 0, glyph: A });
    sim.frame();
    assert_eq!(sim.pool().get(0).row, 1);
    assert_eq!(sim.grid().cell(0, 0), GridCell::Glyph { level: 1, glyph: A });
    sim.frame();
    // Trails of frame three: row 0 at levels 1 and 2; level 1 is painted last.
    assert_eq!(sim.ledger().frame(0)[0].row, 1);
    assert_eq!(sim.ledger().frame(1)[0].row, 0);
    assert_eq!(sim.ledger().frame(2)[0].row, 0);
    assert_eq!(sim.grid().cell(0, 0), GridCell::Glyph { level: 1, glyph: A });
    assert_eq!(sim.grid().cell(1, 0), GridCell::Glyph { level: 0, glyph: A });
}

#[test]
fn top_up_at_target_changes_nothing() {
    let mut p = DropPool::new(6, 4);
    p.push(drop_at(1, 2, 4, 2));
    p.push(drop_at(5, 0, 4, 3));
    let before: Vec<DigitDrop> = (0..2).map(|i| p.get(i)).collect();
    p.top_up(2);
    assert_eq!(p.len(), 2);
    assert_eq!((0..2).map(|i| p.get(i)).collect::<Vec<_>>(), before);
    p.top_up(1);
    assert_eq!(p.len(), 2);
    assert_eq!((0..2).map(|i| p.get(i)).collect::<Vec<_>>(), before);
}

#[test]
fn top_up_spawns_at_most_ten_per_call() {
    let mut p = DropPool::new(6, 4);
    p.top_up(25);
    assert_eq!(p.len(), 10);
    p.top_up(25);
    assert_eq!(p.len(), 20);
    p.top_up(25);
    assert_eq!(p.len(), 25);
    for i in 0..25 {
        let d = p.get(i);
        assert_eq!(d.row, 0);
        assert!(d.column < 6);
        assert_eq!(d.height, 4);
    }
}

#[test]
fn spawned_drops_draw_from_their_ranges() {
    let p = DropPool::spawn_initial(400, 7, 9);
    assert_eq!(p.len(), 400);
    let mut falls = std::collections::BTreeSet::new();
    let mut columns = std::collections::BTreeSet::new();
    let mut glyphs = std::collections::BTreeSet::new();
    for i in 0..400 {
        let d = p.get(i);
        assert_eq!(d.row, 0);
        assert!(d.column < 7);
        assert!((1..6).contains(&d.fall_period));
        assert!((1..10).contains(&d.glyph_period));
        let code = d.glyph as u32;
        assert!((0x3041..=0x3096).contains(&code) || (0x309B..=0x309F).contains(&code));
        falls.insert(d.fall_period);
        columns.insert(d.column);
        glyphs.insert(d.glyph);
    }
    assert!(falls.len() > 1);
    assert!(columns.len() > 1);
    assert!(glyphs.len() > 1);
}

#[test]
fn last_level_erases_whatever_the_glyph() {
    assert_eq!(trail_cell(3, A, 3), GridCell::Blank);
    assert_eq!(trail_cell(3, 'z', 3), GridCell::Blank);
    assert_eq!(trail_cell(2, 'z', 3), GridCell::Glyph { level: 2, glyph: 'z' });
    assert_eq!(trail_cell(16, A, 16), trail_cell(16, '\u{3093}', 16));
}

#[test]
fn setup_rejects_empty_geometry() {
    assert_eq!(Simulation::new(0, 5, 3, 0, 0).err(), Some(SetupError::ZeroWidth));
    assert_eq!(Simulation::new(0, 0, 0, 0, 0).err(), Some(SetupError::ZeroWidth));
    assert_eq!(Simulation::new(10, 0, 3, 0, 0).err(), Some(SetupError::ZeroHeight));
    assert_eq!(Simulation::new(10, 5, 0, 0, 0).err(), Some(SetupError::ZeroFadeDepth));
    let sim = Simulation::new(10, 5, 3, 40, 60).unwrap();
    assert_eq!(sim.pool().len(), 40);
    assert_eq!(sim.step(), 1);
    assert_eq!(sim.ledger().depth(), 3);
}

#[test]
fn grid_width_halves_the_terminal() {
    assert_eq!(grid_width(81), 40);
    assert_eq!(grid_width(80), 40);
    assert_eq!(grid_width(1), 0);
}

#[test]
fn population_grows_toward_target() {
    let mut sim = Simulation::new(20, 30, 16, 0, 15).unwrap();
    sim.frame();
    assert_eq!(sim.pool().len(), 10);
    sim.frame();
    assert_eq!(sim.pool().len(), 15);
    assert_eq!(sim.step(), 3);
}

#[test]
fn rendered_rows_show_colors_and_glyphs() {
    let mut sim = Simulation::new(3, 2, 2, 0, 0).unwrap();
    sim.add_drop(drop_at(1, 0, 2, 1));
    sim.frame();
    let rows = sim.render_rows();
    assert_eq!(rows.len(), 2);
    assert_eq!(rows[0], "      ");
    assert_eq!(rows[1], format!("  \x1B[38;2;0;255;0m{}  ", A));
    sim.frame();
    let rows = sim.render_rows();
    assert_eq!(rows[0], "  \x1B[38;2;0;240;0m\u{3042}  ");
    sim.frame();
    let rows = sim.render_rows();
    assert_eq!(rows[0], "  \x1B[38;2;0;255;0m    ");
    assert_eq!(rows[1], "  \x1B[38;2;0;240;0m\u{3042}  ");
}

#[test]
fn print_paints_inside_the_grid_only() {
    let mut g = GridBuffer::new(4, 3);
    drop_at(2, 1, 3, 1).print(&mut g, 0, 5);
    assert_eq!(g.cell(1, 2), GridCell::Glyph { level: 0, glyph: A });
    drop_at(2, 1, 3, 1).print(&mut g, 5, 5);
    assert_eq!(g.cell(1, 2), GridCell::Blank);
    drop_at(3, 0, 3, 1).print(&mut g, 4, 5);
    assert_eq!(g.cell(0, 3), GridCell::Glyph { level: 4, glyph: A });
    let before: Vec<GridCell> = (0..3).flat_map(|r| (0..4).map(move |c| (r, c))).map(|(r, c)| g.cell(r, c)).collect();
    drop_at(1, 3, 3, 1).print(&mut g, 0, 5);
    drop_at(9, 0, 3, 1).print(&mut g, 0, 5);
    let after: Vec<GridCell> = (0..3).flat_map(|r| (0..4).map(move |c| (r, c))).map(|(r, c)| g.cell(r, c)).collect();
    assert_eq!(before, after);
    assert_eq!(g.render_row(0), "      \x1B[38;2;0;192;0m\u{3042}");
}
