use digital_rain::explorer::{pick_direction, Cell, Direction, Explorer, Mark, Warm};

fn cell(up: bool, down: bool, left: bool, right: bool) -> Cell {
    Cell { up, down, left, right }
}

#[test]
fn box_characters_for_every_cell() {
    let expected = [
        ' ', '╶', '╴', '─', '╷', '┌', '┐', '┬', '╵', '└', '┘', '┴', '│', '├', '┤', '┼',
    ];
    for (i, e) in expected.iter().enumerate() {
        let c = cell(i & 8 != 0, i & 4 != 0, i & 2 != 0, i & 1 != 0);
        assert_eq!(c.get_char(), *e);
    }
    assert_eq!(Cell::new().get_char(), ' ');
}

#[test]
fn branches_join_entry_and_exit() {
    let w = Warm { x: 1, y: 1, prev_x: 1, prev_y: 2, dir: Direction::Right, prev_dir: Direction::Up };
    let mut c = Cell::new();
    c.update_branches(&w);
    assert_eq!(c, cell(false, true, false, true));
    assert_eq!(c.get_char(), '┌');
}

#[test]
fn directions_by_index() {
    assert_eq!(Direction::from_index(0), Direction::Up);
    assert_eq!(Direction::from_index(1), Direction::Down);
    assert_eq!(Direction::from_index(2), Direction::Left);
    assert_eq!(Direction::from_index(3), Direction::Right);
    assert_eq!(Direction::from_index(9), Direction::Right);
}

#[test]
fn walker_steps_and_remembers() {
    let mut w = Warm { x: 2, y: 2, prev_x: 2, prev_y: 2, dir: Direction::Down, prev_dir: Direction::Left };
    w.move_to(Direction::Up, 5, 5);
    assert_eq!(w, Warm { x: 2, y: 1, prev_x: 2, prev_y: 2, dir: Direction::Up, prev_dir: Direction::Down });
    w.move_to(Direction::Left, 5, 5);
    assert_eq!((w.x, w.y, w.prev_x, w.prev_y), (1, 1, 2, 1));
}

#[test]
fn random_moves_stay_on_screen() {
    let mut w = Warm::new(0, 0);
    let mut moves = std::collections::BTreeSet::new();
    for _ in 0..500 {
        let (x, y) = (w.x, w.y);
        w.move_randomly(3, 2);
        assert!(w.x < 3 && w.y < 2);
        assert_eq!((w.prev_x, w.prev_y), (x, y));
        assert_eq!(x.abs_diff(w.x) + y.abs_diff(w.y), 1);
        moves.insert((w.x, w.y));
    }
    assert!(moves.len() > 1);
}

#[test]
fn corner_has_two_ways_out() {
    for _ in 0..50 {
        let d = pick_direction(0, 0, 4, 4);
        assert!(d == Direction::Down || d == Direction::Right);
    }
    for _ in 0..50 {
        assert_eq!(pick_direction(0, 0, 1, 3), Direction::Down);
    }
}

#[test]
fn explorer_needs_room_to_move() {
    assert!(Explorer::new(1, 1).is_none());
    assert!(Explorer::new(0, 4).is_none());
    assert!(Explorer::new(4, 0).is_none());
    assert!(Explorer::new(1, 2).is_some());
}

#[test]
fn explorer_tick_shows_trail_then_walker() {
    let mut e = Explorer::new(10, 6).unwrap();
    let w = e.warm();
    assert_eq!((w.x, w.y), (5, 3));
    let start = e.cell(3, 5);
    let marks = e.step_with(Direction::Right);
    assert_eq!(
        marks,
        vec![
            Mark { row: 3, column: 5, glyph: start.get_char() },
            Mark { row: 3, column: 5, glyph: '+' },
        ]
    );
    let w2 = e.warm();
    assert_eq!((w2.x, w2.y, w2.prev_x, w2.prev_y, w2.dir), (6, 3, 5, 3, Direction::Right));
    assert!(e.cell(3, 5).right);
    let marks = e.step_with(Direction::Down);
    assert_eq!(marks[0], Mark { row: 3, column: 5, glyph: e.cell(3, 5).get_char() });
    assert_eq!(marks[1], Mark { row: 3, column: 6, glyph: '+' });
    assert_eq!(e.cell(3, 6), cell(false, true, true, false));
    assert_eq!(e.cell(3, 6).get_char(), '┐');
}

#[test]
fn explorer_random_ticks_stay_on_screen() {
    let mut e = Explorer::new(3, 3).unwrap();
    for _ in 0..200 {
        let marks = e.step();
        assert_eq!(marks.len(), 2);
        let w = e.warm();
        assert!(w.x < 3 && w.y < 3);
    }
}
