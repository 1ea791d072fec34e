use simon_game::{Colors, GameMode, GameState, Key, MouseAction, Scene, ScoreItem, ScoreState, Simon};

#[test]
fn tab_twice_restores_name_entry() {
    let mut s = Simon::new(Vec::new());
    s.handle_key(Key::Tab);
    assert!(s.app_state.enable_text_entry);
    s.handle_key(Key::Tab);
    assert!(!s.app_state.enable_text_entry);
}

#[test]
fn menu_up_then_down_returns() {
    for start in 0..3usize {
        let mut s = Simon::new(Vec::new());
        s.app_state.menu_list.state.select(Some(start));
        s.select_previous_list_item();
        s.select_next_list_item();
        assert_eq!(s.app_state.menu_list.state.selected, Some(start));
    }
}

#[test]
fn opposite_cursor_moves_undo_each_other() {
    let pairs = [(Key::Up, Key::Down), (Key::Down, Key::Up), (Key::Left, Key::Right), (Key::Right, Key::Left),
        (Key::Char('w'), Key::Char('s')), (Key::Char('a'), Key::Char('d'))];
    for c in [Colors::RED, Colors::YELLOW, Colors::GREEN, Colors::BLUE] {
        for (k, back) in pairs {
            let mut g = GameState::new();
            g.mode = GameMode::AwaitingInput;
            g.hovered_color = Some(c);
            g.handle_keyboard_color_selection(k);
            if g.hovered_color != Some(c) {
                g.handle_keyboard_color_selection(back);
                assert_eq!(g.hovered_color, Some(c));
            }
        }
    }
}

#[test]
fn sorting_keeps_every_result() {
    let st = ScoreState::new(vec![
        ScoreItem::new("a".to_string(), 2),
        ScoreItem::new("a".to_string(), 2),
        ScoreItem::new("b".to_string(), 9),
        ScoreItem::new("c".to_string(), 0),
    ]);
    let mut seen: Vec<(String, u8)> = st.score_list.scores.iter().map(|s| (s.name.clone(), s.score)).collect();
    seen.sort();
    assert_eq!(
        seen,
        vec![("a".to_string(), 2), ("a".to_string(), 2), ("b".to_string(), 9), ("c".to_string(), 0)]
    );
}

#[test]
fn events_keep_the_pattern_and_the_turn() {
    let mut s = Simon::new(Vec::new());
    GameState::add_to_pattern(&mut s.game_state.current_pattern, 3);
    let first = s.game_state.current_pattern.clone();
    s.handle_key(Key::Enter);
    assert_eq!(s.app_state.current_scene, Scene::Game);
    s.game_state.mode = GameMode::AwaitingInput;
    for round in 0..6 {
        let color = s.game_state.current_pattern[s.step_index];
        let guess = if round == 5 { Colors::from_index((Colors::to_index(color) + 1) % 4).unwrap() } else { color };
        s.game_state.hovered_color = Some(guess);
        assert!(s.try_handle_mouse(0, 0, MouseAction::LeftDown));
        assert_eq!(&s.game_state.current_pattern[..first.len()], &first[..]);
        if s.game_state.mode == GameMode::AwaitingInput {
            assert!(s.step_index < s.game_state.current_pattern.len());
        }
        if s.game_state.mode == GameMode::Preparing {
            s.game_state.mode = GameMode::AwaitingInput;
            s.step_index = 0;
        }
        assert!(s.try_handle_tick().is_some());
        assert!(s.app_state.menu_list.items.len() > 0);
    }
    assert_eq!(s.game_state.mode, GameMode::GameOver);
}

#[test]
fn tick_leaves_menus_and_scores() {
    let mut s = Simon::new(vec![ScoreItem::new("x".to_string(), 1)]);
    s.app_state.change_scene(Scene::Game);
    s.handle_tick();
    assert_eq!(s.app_state.current_scene, Scene::Game);
    assert_eq!(s.score_state.score_list.scores.len(), 1);
    assert_eq!(s.app_state.menu_list.items.len(), 3);
}
