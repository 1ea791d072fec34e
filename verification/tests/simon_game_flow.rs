use std::time::{Duration, Instant};
use simon_game::{Area, Colors, GameMode, Key, MouseAction, Scene, ScoreItem, Simon};

const MS: u128 = 1_000_000;

fn in_game(pattern: Vec<Colors>) -> Simon {
    let mut s = Simon::new(Vec::new());
    s.app_state.change_scene(Scene::Game);
    s.game_state.current_pattern = pattern;
    s
}

fn awaiting(pattern: Vec<Colors>) -> Simon {
    let mut s = in_game(pattern);
    s.game_state.mode = GameMode::AwaitingInput;
    s.game_state.hovered_color = Some(Colors::RED);
    s
}

#[test]
fn new_game_starts_at_main_menu() {
    let s = Simon::new(vec![ScoreItem::new("a".to_string(), 1), ScoreItem::new("b".to_string(), 4)]);
    assert_eq!(s.app_state.current_scene, Scene::MainMenu);
    assert_eq!(s.game_state.mode, GameMode::Preparing);
    assert_eq!(s.step_index, 0);
    assert_eq!(s.debug_msg, "debug");
    assert_eq!(s.score_state.score_list.scores[0].name, "b");
}

#[test]
fn preparing_waits_a_second() {
    let mut s = in_game(vec![Colors::GREEN, Colors::BLUE]);
    s.game_state.shown_color = Some(Colors::RED);
    assert!(!s.advance_pattern(150 * MS, 150 * MS));
    assert_eq!(s.game_state.shown_color, Some(Colors::RED));
    assert!(!s.advance_pattern(200 * MS + 1, 200 * MS + 1));
    assert_eq!(s.game_state.shown_color, None);
    assert!(!s.advance_pattern(1000 * MS, 1000 * MS));
    assert_eq!(s.game_state.mode, GameMode::Preparing);
    assert!(s.advance_pattern(1000 * MS + 1, 1000 * MS + 1));
    assert_eq!(s.game_state.mode, GameMode::ShowingPattern);
    assert_eq!(s.step_index, 0);
}

#[test]
fn preparing_reads_the_clock_twice() {
    let mut s = in_game(vec![Colors::GREEN]);
    s.game_state.shown_color = Some(Colors::RED);
    // the first reading decides the flash going out, the second the start
    assert!(s.advance_pattern(150 * MS, 1001 * MS));
    assert_eq!(s.game_state.shown_color, Some(Colors::RED));
    assert_eq!(s.game_state.mode, GameMode::ShowingPattern);
}

#[test]
fn tick_refuses_only_an_overflowing_step() {
    let mut s = in_game(vec![Colors::GREEN]);
    s.game_state.mode = GameMode::ShowingPattern;
    s.step_index = usize::MAX;
    // the step clock has just started, so the step does not end yet
    assert_eq!(s.try_handle_tick(), Some(false));
    assert_eq!(s.step_index, usize::MAX);
}

#[test]
fn next_cycles_through_the_menu() {
    let mut s = Simon::new(Vec::new());
    s.app_state.menu_list.state.select(Some(1));
    let n = s.app_state.menu_list.items.len();
    for _ in 0..n {
        s.select_next_list_item();
        assert!(s.app_state.menu_list.state.selected.unwrap() < n);
    }
    assert_eq!(s.app_state.menu_list.state.selected, Some(1));
}

#[test]
fn showing_flashes_each_colour_then_hands_over() {
    let mut s = in_game(vec![Colors::GREEN, Colors::BLUE]);
    s.game_state.mode = GameMode::ShowingPattern;
    assert!(!s.advance_pattern(100 * MS, 100 * MS));
    assert_eq!(s.game_state.shown_color, Some(Colors::GREEN));
    assert!(!s.advance_pattern(701 * MS, 701 * MS));
    assert_eq!(s.game_state.shown_color, None);
    assert!(s.advance_pattern(1001 * MS, 1001 * MS));
    assert_eq!(s.step_index, 1);
    assert_eq!(s.game_state.mode, GameMode::ShowingPattern);
    assert!(!s.advance_pattern(0, 0));
    assert_eq!(s.game_state.shown_color, Some(Colors::BLUE));
    assert!(s.advance_pattern(2000 * MS, 2000 * MS));
    assert_eq!(s.game_state.mode, GameMode::AwaitingInput);
    assert_eq!(s.step_index, 0);
    assert_eq!(s.game_state.shown_color, None);
    assert_eq!(s.game_state.hovered_color, Some(Colors::RED));
}

#[test]
fn nothing_moves_while_paused_or_elsewhere() {
    let mut s = in_game(vec![Colors::GREEN]);
    s.app_state.is_paused = true;
    assert!(!s.advance_pattern(5000 * MS, 5000 * MS));
    assert_eq!(s.game_state.mode, GameMode::Preparing);
    let mut t = Simon::new(Vec::new());
    assert!(!t.advance_pattern(5000 * MS, 5000 * MS));
    assert_eq!(t.game_state.mode, GameMode::Preparing);
}

#[test]
fn show_pattern_reads_the_clock() {
    let mut s = in_game(vec![Colors::GREEN]);
    s.show_pattern();
    // the clock was just started: far less than a second has passed
    assert_eq!(s.game_state.mode, GameMode::Preparing);
}

#[test]
fn right_guesses_score_and_grow_the_pattern() {
    let mut s = awaiting(vec![Colors::RED, Colors::BLUE]);
    s.handle_player_guess(Colors::RED);
    assert_eq!(s.game_state.current_score, 1);
    assert_eq!(s.step_index, 1);
    assert_eq!(s.game_state.shown_color, Some(Colors::RED));
    assert_eq!(s.debug_msg, "Correct! Score: 1");
    assert_eq!(s.game_state.mode, GameMode::AwaitingInput);
    s.handle_player_guess(Colors::BLUE);
    assert_eq!(s.game_state.current_score, 2);
    assert_eq!(s.debug_msg, "New pattern!");
    assert_eq!(s.game_state.mode, GameMode::Preparing);
    assert_eq!(s.game_state.current_pattern.len(), 3);
    assert_eq!(&s.game_state.current_pattern[..2], &[Colors::RED, Colors::BLUE]);
}

#[test]
fn score_message_in_decimal() {
    let mut s = awaiting(vec![Colors::RED, Colors::BLUE]);
    s.game_state.current_score = 122;
    s.handle_player_guess(Colors::RED);
    assert_eq!(s.debug_msg, "Correct! Score: 123");
}

#[test]
fn wrong_guess_ends_the_game() {
    let mut s = awaiting(vec![Colors::RED, Colors::BLUE]);
    s.game_state.current_score = 7;
    s.handle_player_guess(Colors::GREEN);
    assert_eq!(s.game_state.mode, GameMode::GameOver);
    assert!(s.app_state.enable_text_entry);
    assert_eq!(s.debug_msg, "");
    assert_eq!(s.game_state.current_score, 7);
    assert_eq!(s.game_state.shown_color, Some(Colors::GREEN));
}

#[test]
fn guesses_ignored_outside_input() {
    let mut s = in_game(vec![Colors::RED]);
    s.handle_player_guess(Colors::RED);
    assert_eq!(s.game_state.current_score, 0);
    assert_eq!(s.game_state.shown_color, None);
}

#[test]
fn menu_cursor_wraps_both_ways() {
    let mut s = Simon::new(Vec::new());
    s.select_previous_list_item();
    assert_eq!(s.app_state.menu_list.state.selected, Some(usize::MAX));
    s.select_next_list_item();
    assert_eq!(s.app_state.menu_list.state.selected, Some(0));
    s.select_next_list_item();
    s.select_next_list_item();
    assert_eq!(s.app_state.menu_list.state.selected, Some(2));
    s.select_next_list_item();
    assert_eq!(s.app_state.menu_list.state.selected, Some(0));
    s.app_state.menu_list.state.select(None);
    s.select_next_list_item();
    assert_eq!(s.app_state.menu_list.state.selected, Some(0));
}

#[test]
fn choosing_a_menu_entry_changes_scene_and_unpauses() {
    let mut s = Simon::new(Vec::new());
    s.app_state.is_paused = true;
    s.app_state.menu_list.state.select(Some(1));
    s.select_menu_item();
    assert_eq!(s.app_state.current_scene, Scene::Scores);
    assert!(!s.app_state.is_paused);
    s.app_state.menu_list.state.select(None);
    s.select_menu_item();
    assert_eq!(s.app_state.current_scene, Scene::Scores);
}

#[test]
fn enter_and_space_choose_in_menus() {
    let mut s = Simon::new(Vec::new());
    assert_eq!(s.handle_key(Key::Enter), false);
    assert_eq!(s.app_state.current_scene, Scene::Game);
    let mut t = Simon::new(Vec::new());
    t.handle_key(Key::Char('s'));
    t.handle_key(Key::Char(' '));
    assert_eq!(t.app_state.current_scene, Scene::Scores);
    t.handle_key(Key::Char('w'));
    assert_eq!(t.app_state.menu_list.state.selected, Some(usize::MAX));
}

#[test]
fn escape_pauses_and_resumes_the_game() {
    let mut s = in_game(vec![Colors::RED]);
    s.handle_key(Key::Esc);
    assert!(s.app_state.is_paused);
    s.handle_key(Key::Esc);
    assert!(!s.app_state.is_paused);
    let mut m = Simon::new(Vec::new());
    m.handle_key(Key::Esc);
    assert!(!m.app_state.is_paused);
}

#[test]
fn arrows_move_buttons_in_game_and_menu_when_paused() {
    let mut s = awaiting(vec![Colors::RED]);
    s.handle_key(Key::Right);
    assert_eq!(s.game_state.hovered_color, Some(Colors::YELLOW));
    s.handle_key(Key::Esc);
    s.handle_key(Key::Down);
    assert_eq!(s.game_state.hovered_color, Some(Colors::YELLOW));
    assert_eq!(s.app_state.menu_list.state.selected, Some(1));
}

#[test]
fn space_guesses_the_hovered_colour() {
    let mut s = awaiting(vec![Colors::YELLOW, Colors::RED]);
    s.handle_key(Key::Char('d'));
    s.handle_key(Key::Char(' '));
    assert_eq!(s.game_state.current_score, 1);
    assert_eq!(s.step_index, 1);
}

#[test]
fn typing_a_name_respects_the_byte_limit() {
    let mut s = Simon::new(Vec::new());
    s.app_state.enable_text_entry = true;
    for c in "abcdefghij".chars() {
        s.handle_key(Key::Char(c));
    }
    assert_eq!(s.score_state.new_score_name, "abcdefgh");
    s.handle_key(Key::Backspace);
    assert_eq!(s.score_state.new_score_name, "abcdefg");
    s.handle_key(Key::Char('é'));
    assert_eq!(s.score_state.new_score_name, "abcdefgé");
    s.handle_key(Key::Char('z'));
    assert_eq!(s.score_state.new_score_name, "abcdefgé");
    s.handle_key(Key::Tab);
    s.handle_key(Key::Backspace);
    assert_eq!(s.score_state.new_score_name, "abcdefgé");
}

#[test]
fn enter_saves_a_new_name_and_returns_to_menu() {
    let mut s = awaiting(vec![Colors::RED]);
    s.handle_player_guess(Colors::BLUE);
    s.game_state.current_score = 5;
    for c in "ann".chars() {
        s.handle_key(Key::Char(c));
    }
    assert!(s.handle_key(Key::Enter));
    assert_eq!(s.score_state.score_list.scores.len(), 1);
    assert_eq!(s.score_state.score_list.scores[0].name, "ann");
    assert_eq!(s.score_state.score_list.scores[0].score, 5);
    assert_eq!(s.app_state.current_scene, Scene::MainMenu);
    assert_eq!(s.game_state.mode, GameMode::Preparing);
    assert_eq!(s.game_state.current_score, 0);
    assert!(s.score_state.new_score_name.is_empty());
    assert_eq!(s.debug_msg, "");
}

#[test]
fn enter_refuses_a_taken_name() {
    let mut s = awaiting(vec![Colors::RED]);
    s.score_state.save_score("ann".to_string(), 9);
    s.handle_player_guess(Colors::BLUE);
    s.game_state.current_score = 3;
    for c in "ann".chars() {
        s.handle_key(Key::Char(c));
    }
    assert!(!s.handle_key(Key::Enter));
    assert_eq!(s.debug_msg, "That name is already taken");
    assert_eq!(s.score_state.score_list.scores.len(), 1);
    assert_eq!(s.game_state.mode, GameMode::GameOver);
    assert_eq!(s.game_state.current_score, 0);
    assert!(s.score_state.new_score_name.is_empty());
}

#[test]
fn escape_from_score_dialog_goes_to_menu() {
    let mut s = awaiting(vec![Colors::RED]);
    s.handle_player_guess(Colors::GREEN);
    s.handle_key(Key::Esc);
    assert_eq!(s.game_state.mode, GameMode::Preparing);
    assert_eq!(s.app_state.current_scene, Scene::MainMenu);
}

#[test]
fn try_handle_key_refuses_a_selection_past_the_menu() {
    let mut s = Simon::new(Vec::new());
    s.handle_key(Key::Up);
    assert_eq!(s.app_state.menu_list.state.selected, Some(usize::MAX));
    assert!(!s.key_is_defined(Key::Enter));
    assert_eq!(s.try_handle_key(Key::Enter), None);
    assert_eq!(s.app_state.current_scene, Scene::MainMenu);
    assert_eq!(s.try_handle_key(Key::Down), Some(false));
    assert_eq!(s.try_handle_key(Key::Enter), Some(false));
    assert_eq!(s.app_state.current_scene, Scene::Game);
}

#[test]
fn mouse_hovers_and_clicks_buttons() {
    let mut s = awaiting(vec![Colors::BLUE]);
    s.game_state.clickables = vec![
        (Colors::RED, Area { x: 0, y: 0, width: 5, height: 5 }),
        (Colors::BLUE, Area { x: 5, y: 5, width: 5, height: 5 }),
    ];
    s.handle_mouse(6, 7, MouseAction::Moved);
    assert_eq!(s.game_state.mouse_pos, (6, 7));
    assert_eq!(s.game_state.hovered_color, Some(Colors::BLUE));
    s.handle_mouse(20, 20, MouseAction::Moved);
    assert_eq!(s.game_state.hovered_color, Some(Colors::BLUE));
    assert!(s.try_handle_mouse(6, 7, MouseAction::LeftDown));
    assert_eq!(s.game_state.current_score, 1);
    assert_eq!(s.game_state.hovered_color, None);
    assert_eq!(s.game_state.mode, GameMode::Preparing);
}

#[test]
fn mouse_moves_outside_input_clear_the_cursor() {
    let mut s = in_game(vec![Colors::BLUE]);
    s.game_state.hovered_color = Some(Colors::RED);
    s.handle_mouse(1, 1, MouseAction::Moved);
    assert_eq!(s.game_state.hovered_color, None);
}

#[test]
fn tick_on_exit_ends_the_game() {
    let mut s = Simon::new(Vec::new());
    assert!(!s.handle_tick());
    s.app_state.change_scene(Scene::Exit);
    assert!(s.handle_tick());
    assert_eq!(s.try_handle_tick(), Some(true));
}

#[test]
fn show_pattern_measures_from_the_step_clock() {
    let mut s = in_game(vec![Colors::GREEN, Colors::BLUE]);
    s.game_state.shown_color = Some(Colors::RED);
    let started = Instant::now().checked_sub(Duration::from_millis(1500)).unwrap();
    s.last_step_time = started;
    s.show_pattern();
    assert_eq!(s.game_state.mode, GameMode::ShowingPattern);
    assert_eq!(s.game_state.shown_color, None);
    assert!(s.last_step_time > started);
    s.last_step_time = Instant::now().checked_sub(Duration::from_millis(800)).unwrap();
    s.show_pattern();
    assert_eq!(s.game_state.shown_color, None);
    assert_eq!(s.step_index, 0);
}
