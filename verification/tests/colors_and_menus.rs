use simon_game::{AppState, Colors, ListSelection, MenuItem, MenuList, Scene};

#[test]
fn from_index_maps_grid_positions() {
    assert_eq!(Colors::from_index(0), Some(Colors::RED));
    assert_eq!(Colors::from_index(1), Some(Colors::YELLOW));
    assert_eq!(Colors::from_index(2), Some(Colors::GREEN));
    assert_eq!(Colors::from_index(3), Some(Colors::BLUE));
    assert_eq!(Colors::from_index(4), None);
    assert_eq!(Colors::from_index(255), None);
}

#[test]
fn to_index_inverts_from_index() {
    for c in [Colors::RED, Colors::YELLOW, Colors::GREEN, Colors::BLUE] {
        assert_eq!(Colors::from_index(Colors::to_index(c)), Some(c));
    }
    assert_eq!(Colors::to_index(Colors::BLUE), 3);
    assert_eq!(Colors::to_index(Colors::YELLOW), 1);
}

#[test]
fn colors_have_display_names() {
    assert_eq!(Colors::RED.to_string(), "Red");
    assert_eq!(Colors::YELLOW.to_string(), "Yellow");
    assert_eq!(Colors::GREEN.to_string(), "Green");
    assert_eq!(Colors::BLUE.to_string(), "Blue");
}

#[test]
fn selection_moves_and_saturates() {
    let mut s = ListSelection::new();
    assert_eq!(s.selected(), None);
    s.select_next();
    assert_eq!(s.selected(), Some(0));
    s.select_next();
    assert_eq!(s.selected(), Some(1));
    s.select_previous();
    s.select_previous();
    assert_eq!(s.selected(), Some(0));
    let mut t = ListSelection::new();
    t.select_previous();
    assert_eq!(t.selected(), Some(usize::MAX));
    t.select_next();
    assert_eq!(t.selected(), Some(usize::MAX));
    t.select_last();
    assert_eq!(t.selected(), Some(usize::MAX));
    t.select_first();
    assert_eq!(t.selected(), Some(0));
}

#[test]
fn clearing_selection_scrolls_to_top() {
    let mut s = ListSelection { offset: 5, selected: Some(7) };
    s.select(Some(2));
    assert_eq!(s.offset, 5);
    s.select(None);
    assert_eq!(s.offset, 0);
    assert_eq!(s.selected, None);
}

#[test]
fn menu_item_new_keeps_fields() {
    let item = MenuItem::new("Play", Scene::Game);
    assert_eq!(item.name, "Play");
    assert_eq!(item.scene, Scene::Game);
}

#[test]
fn menu_list_from_entries_selects_first() {
    let list = MenuList::from_iter(vec![("A", Scene::Scores), ("B", Scene::Exit)]);
    assert_eq!(list.items.len(), 2);
    assert_eq!(list.items[0].name, "A");
    assert_eq!(list.items[1].scene, Scene::Exit);
    assert_eq!(list.state.selected, Some(0));
}

#[test]
fn start_menu_offers_play_scores_exit() {
    let app = AppState::new();
    assert_eq!(app.current_scene, Scene::MainMenu);
    let names: Vec<&str> = app.menu_list.items.iter().map(|i| i.name).collect();
    assert_eq!(names, vec!["Play", "Scores", "Exit game"]);
    assert_eq!(app.menu_list.state.selected, Some(0));
    assert!(!app.is_paused);
    assert!(!app.enable_text_entry);
}

#[test]
fn change_scene_offers_the_other_scenes() {
    let mut app = AppState::new();
    app.menu_list.state.select(Some(2));
    app.is_paused = true;
    app.change_scene(Scene::Game);
    assert_eq!(app.current_scene, Scene::Game);
    let names: Vec<&str> = app.menu_list.items.iter().map(|i| i.name).collect();
    assert_eq!(names, vec!["Main Menu", "Scores", "Exit game"]);
    assert_eq!(app.menu_list.state.selected, Some(0));
    assert!(app.is_paused);
    app.change_scene(Scene::MainMenu);
    let scenes: Vec<Scene> = app.menu_list.items.iter().map(|i| i.scene).collect();
    assert_eq!(scenes, vec![Scene::Game, Scene::Scores, Scene::Exit]);
    app.change_scene(Scene::Exit);
    let scenes: Vec<Scene> = app.menu_list.items.iter().map(|i| i.scene).collect();
    assert_eq!(scenes, vec![Scene::MainMenu, Scene::Game, Scene::Scores]);
}
