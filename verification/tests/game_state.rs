use simon_game::{Area, Colors, GameMode, GameState, Key};

fn awaiting() -> GameState {
    let mut g = GameState::new();
    g.mode = GameMode::AwaitingInput;
    g
}

#[test]
fn new_round_is_empty() {
    let g = GameState::new();
    assert_eq!(g.mode, GameMode::Preparing);
    assert!(g.current_pattern.is_empty());
    assert_eq!(g.shown_color, None);
    assert_eq!(g.hovered_color, None);
    assert_eq!(g.mouse_pos, (0, 0));
    assert!(g.clickables.is_empty());
    assert_eq!(g.current_score, 0);
}

#[test]
fn hover_only_while_awaiting_input() {
    let mut g = GameState::new();
    g.handle_hovered_color(Colors::BLUE);
    assert_eq!(g.hovered_color, None);
    g.mode = GameMode::AwaitingInput;
    g.handle_hovered_color(Colors::BLUE);
    assert_eq!(g.hovered_color, Some(Colors::BLUE));
}

#[test]
fn add_to_pattern_appends_random_colours() {
    let mut pattern = vec![Colors::GREEN];
    GameState::add_to_pattern(&mut pattern, 4);
    assert_eq!(pattern.len(), 5);
    assert_eq!(pattern[0], Colors::GREEN);
    GameState::add_to_pattern(&mut pattern, 0);
    assert_eq!(pattern.len(), 5);
    GameState::add_to_pattern(&mut pattern, -3);
    assert_eq!(pattern.len(), 5);
    let mut many = Vec::new();
    GameState::add_to_pattern(&mut many, 100);
    assert_eq!(many.len(), 100);
    // over a hundred draws, more than one colour comes up
    assert!(many.iter().any(|c| *c != many[0]));
}

#[test]
fn keyboard_moves_on_the_grid() {
    let mut g = awaiting();
    g.handle_keyboard_color_selection(Key::Right);
    assert_eq!(g.hovered_color, Some(Colors::YELLOW));
    g.handle_keyboard_color_selection(Key::Down);
    assert_eq!(g.hovered_color, Some(Colors::BLUE));
    g.handle_keyboard_color_selection(Key::Right);
    assert_eq!(g.hovered_color, Some(Colors::BLUE));
    g.handle_keyboard_color_selection(Key::Down);
    assert_eq!(g.hovered_color, Some(Colors::BLUE));
    g.handle_keyboard_color_selection(Key::Left);
    assert_eq!(g.hovered_color, Some(Colors::GREEN));
    g.handle_keyboard_color_selection(Key::Char('w'));
    assert_eq!(g.hovered_color, Some(Colors::RED));
    g.handle_keyboard_color_selection(Key::Char('a'));
    assert_eq!(g.hovered_color, Some(Colors::RED));
    g.handle_keyboard_color_selection(Key::Char('s'));
    assert_eq!(g.hovered_color, Some(Colors::GREEN));
    g.handle_keyboard_color_selection(Key::Char('d'));
    assert_eq!(g.hovered_color, Some(Colors::BLUE));
    g.handle_keyboard_color_selection(Key::Char('x'));
    assert_eq!(g.hovered_color, Some(Colors::BLUE));
}

#[test]
fn keyboard_from_nothing_starts_at_red() {
    let mut g = awaiting();
    g.handle_keyboard_color_selection(Key::Tab);
    assert_eq!(g.hovered_color, Some(Colors::RED));
}

#[test]
fn keyboard_ignored_outside_input() {
    let mut g = GameState::new();
    g.mode = GameMode::ShowingPattern;
    g.handle_keyboard_color_selection(Key::Right);
    assert_eq!(g.hovered_color, None);
}

#[test]
fn area_contains_uses_half_open_edges() {
    let a = Area { x: 1, y: 2, width: 3, height: 4 };
    assert!(a.contains(1, 2));
    assert!(a.contains(3, 5));
    assert!(!a.contains(4, 2));
    assert!(!a.contains(1, 6));
    assert!(!a.contains(0, 3));
    let edge = Area { x: 65530, y: 0, width: 100, height: 1 };
    assert!(edge.contains(65534, 0));
    assert!(!edge.contains(65535, 0));
    let empty = Area { x: 5, y: 5, width: 0, height: 3 };
    assert!(!empty.contains(5, 5));
}

#[test]
fn color_at_prefers_last_drawn() {
    let mut g = GameState::new();
    g.clickables = vec![
        (Colors::RED, Area { x: 0, y: 0, width: 10, height: 10 }),
        (Colors::BLUE, Area { x: 5, y: 5, width: 10, height: 10 }),
    ];
    assert_eq!(g.color_at(1, 1), Some(Colors::RED));
    assert_eq!(g.color_at(6, 6), Some(Colors::BLUE));
    assert_eq!(g.color_at(14, 14), Some(Colors::BLUE));
    assert_eq!(g.color_at(15, 15), None);
}

#[test]
fn set_clickables_records_buttons_in_order() {
    let mut g = GameState::new();
    let a = |x: u16| Area { x, y: 0, width: 1, height: 1 };
    g.set_clickables(a(0), a(1), a(2), a(3));
    assert_eq!(g.clickables, vec![(Colors::RED, a(0)), (Colors::YELLOW, a(1)), (Colors::GREEN, a(2)), (Colors::BLUE, a(3))]);
    g.set_clickables(a(4), a(5), a(6), a(7));
    assert_eq!(g.clickables.len(), 4);
    assert_eq!(g.color_at(7, 0), Some(Colors::BLUE));
}
