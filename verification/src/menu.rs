use vstd::prelude::*;
use crate::selection::ListSelection;

verus! {

/// The screens of the game.
#[derive(Debug, Clone, Copy, PartialEq, Eq, Structural)]
pub enum Scene {
    MainMenu,
    Game,
    Scores,
    Exit,
}

/// An entry of a menu: the label shown and the scene it leads to.
#[derive(Debug, Clone, Copy)]
pub struct MenuItem {
    pub name: &'static str,
    pub scene: Scene,
}

impl MenuItem {
    /// A menu entry labelled `name` that leads to `scene`.
    pub fn new(name: &'static str, scene: Scene) -> (res: MenuItem)
        ensures
            res.name == name,
            res.scene == scene,
    {
        MenuItem { name, scene }
    }
}

/// A menu: its entries and its cursor.
pub struct MenuList {
    pub items: Vec<MenuItem>,
    pub state: ListSelection,
}

/// The menu entry made of a (label, scene) pair.
pub open spec fn entry_item(entry: (&'static str, Scene)) -> MenuItem {
    MenuItem { name: entry.0, scene: entry.1 }
}

/// The entries of the menu shown when the game starts.
pub open spec fn start_menu() -> Seq<MenuItem> {
    seq![
        MenuItem { name: "Play", scene: Scene::Game },
        MenuItem { name: "Scores", scene: Scene::Scores },
        MenuItem { name: "Exit game", scene: Scene::Exit },
    ]
}

/// Every scene with its menu label, in menu order.
pub open spec fn all_scenes_menu() -> Seq<MenuItem> {
    seq![
        MenuItem { name: "Main Menu", scene: Scene::MainMenu },
        MenuItem { name: "Play", scene: Scene::Game },
        MenuItem { name: "Scores", scene: Scene::Scores },
        MenuItem { name: "Exit game", scene: Scene::Exit },
    ]
}

/// The menu offered while `scene` is shown: every other scene, in menu order.
pub open spec fn menu_for(scene: Scene) -> Seq<MenuItem> {
    all_scenes_menu().filter(|item: MenuItem| item.scene != scene)
}

impl MenuList {
    /// A menu with one entry per (label, scene) pair, in order, and its first entry selected.
    pub fn from_iter(entries: Vec<(&'static str, Scene)>) -> (res: MenuList)
        ensures
            res.items@ == entries@.map_values(|e: (&'static str, Scene)| entry_item(e)),
            res.state.selected == Some(0usize),
            res.state.offset == 0,
    {
        let mut items: Vec<MenuItem> = Vec::new();
        let n = entries.len();
        for i in 0..n
            invariant
                n == entries@.len(),
                items@ == entries@.take(i as int).map_values(|e: (&'static str, Scene)| entry_item(e)),
        {
            let (name, scene) = entries[i];
            items.push(MenuItem::new(name, scene));
            assert(entries@.take(i + 1) == entries@.take(i as int).push(entries@[i as int]));
        }
        assert(entries@.take(n as int) == entries@);
        let mut state = ListSelection::new();
        state.select_first();
        MenuList { items, state }
    }
}

/// What the application shows: the current scene, its menu, whether the game
/// is paused and whether key presses are typed into the name of a new score.
pub struct AppState {
    pub current_scene: Scene,
    pub menu_list: MenuList,
    pub is_paused: bool,
    pub enable_text_entry: bool,
}

/// `new` shows `scene` with a fresh menu offering every other scene, its first
/// entry selected and the view at the top; the pause is `paused`, the name entry
/// as in `old`.
pub open spec fn scene_shown(old: AppState, new: AppState, scene: Scene, paused: bool) -> bool {
    &&& new.current_scene == scene
    &&& new.menu_list.items@ == menu_for(scene)
    &&& new.menu_list.state == (ListSelection { offset: 0, selected: Some(0) })
    &&& new.is_paused == paused
    &&& new.enable_text_entry == old.enable_text_entry
}

impl AppState {
    /// The main menu, offering Play, Scores and Exit game, with Play selected.
    pub fn new() -> (res: AppState)
        ensures
            res.current_scene == Scene::MainMenu,
            res.menu_list.items@ == start_menu(),
            res.menu_list.state.selected == Some(0usize),
            res.menu_list.state.offset == 0,
            !res.is_paused,
            !res.enable_text_entry,
    {
        let entries: Vec<(&'static str, Scene)> = vec![
            ("Play", Scene::Game),
            ("Scores", Scene::Scores),
            ("Exit game", Scene::Exit),
        ];
        let menu_list = MenuList::from_iter(entries);
        assert(menu_list.items@ == start_menu());
        AppState { current_scene: Scene::MainMenu, menu_list, is_paused: false, enable_text_entry: false }
    }

    /// Shows `scene`, with a fresh menu that offers every other scene and has
    /// its first entry selected.
    pub fn change_scene(&mut self, scene: Scene)
        ensures
            scene_shown(*old(self), *final(self), scene, old(self).is_paused),
    {
        match scene {
            Scene::MainMenu => { self.current_scene = Scene::MainMenu }
            Scene::Game => { self.current_scene = Scene::Game }
            Scene::Scores => { self.current_scene = Scene::Scores }
            Scene::Exit => { self.current_scene = Scene::Exit }
        }
        let entries: Vec<(&'static str, Scene)> = vec![
            ("Main Menu", Scene::MainMenu),
            ("Play", Scene::Game),
            ("Scores", Scene::Scores),
            ("Exit game", Scene::Exit),
        ];
        let full = MenuList::from_iter(entries);
        assert(full.items@ == all_scenes_menu());
        let ghost keep = |item: MenuItem| item.scene != scene;
        let mut kept: Vec<MenuItem> = Vec::new();
        let n = full.items.len();
        for i in 0..n
            invariant
                n == full.items@.len(),
                full.items@ == all_scenes_menu(),
                keep == (|item: MenuItem| item.scene != scene),
                kept@ == full.items@.take(i as int).filter(keep),
        {
            let item = full.items[i];
            proof {
                assert(full.items@.take(i + 1) == full.items@.take(i as int).push(item));
                full.items@.take(i as int).lemma_filter_push(item, keep);
            }
            if item.scene != scene {
                kept.push(item);
            }
        }
        assert(full.items@.take(n as int) == full.items@);
        self.menu_list = MenuList { items: kept, state: full.state };
    }
}

/// The menu offered while a scene is shown holds the three other scenes, each
/// once, in the order main menu, play, scores, exit: it never offers the scene
/// already shown, and never runs empty.
pub proof fn lemma_menu_for(scene: Scene)
    ensures
        menu_for(scene).len() == 3,
        forall|i: int| 0 <= i < 3 ==> #[trigger] menu_for(scene)[i].scene != scene,
        scene == Scene::MainMenu ==> menu_for(scene) == seq![
            MenuItem { name: "Play", scene: Scene::Game },
            MenuItem { name: "Scores", scene: Scene::Scores },
            MenuItem { name: "Exit game", scene: Scene::Exit },
        ],
        scene == Scene::Game ==> menu_for(scene) == seq![
            MenuItem { name: "Main Menu", scene: Scene::MainMenu },
            MenuItem { name: "Scores", scene: Scene::Scores },
            MenuItem { name: "Exit game", scene: Scene::Exit },
        ],
        scene == Scene::Scores ==> menu_for(scene) == seq![
            MenuItem { name: "Main Menu", scene: Scene::MainMenu },
            MenuItem { name: "Play", scene: Scene::Game },
            MenuItem { name: "Exit game", scene: Scene::Exit },
        ],
        scene == Scene::Exit ==> menu_for(scene) == seq![
            MenuItem { name: "Main Menu", scene: Scene::MainMenu },
            MenuItem { name: "Play", scene: Scene::Game },
            MenuItem { name: "Scores", scene: Scene::Scores },
        ],
{
    let keep = |item: MenuItem| item.scene != scene;
    let a = MenuItem { name: "Main Menu", scene: Scene::MainMenu };
    let b = MenuItem { name: "Play", scene: Scene::Game };
    let c = MenuItem { name: "Scores", scene: Scene::Scores };
    let d = MenuItem { name: "Exit game", scene: Scene::Exit };
    let e = Seq::<MenuItem>::empty();
    assert(all_scenes_menu() == e.push(a).push(b).push(c).push(d));
    assert(e.filter(keep) == e) by { reveal(Seq::filter); }
    e.lemma_filter_push(a, keep);
    e.push(a).lemma_filter_push(b, keep);
    e.push(a).push(b).lemma_filter_push(c, keep);
    e.push(a).push(b).push(c).lemma_filter_push(d, keep);
    let m = menu_for(scene);
    match scene {
        Scene::MainMenu => {
            assert(m == seq![b, c, d]);
            assert(m[0].scene == Scene::Game && m[1].scene == Scene::Scores && m[2].scene == Scene::Exit);
        },
        Scene::Game => {
            assert(m == seq![a, c, d]);
            assert(m[0].scene == Scene::MainMenu && m[1].scene == Scene::Scores && m[2].scene == Scene::Exit);
        },
        Scene::Scores => {
            assert(m == seq![a, b, d]);
            assert(m[0].scene == Scene::MainMenu && m[1].scene == Scene::Game && m[2].scene == Scene::Exit);
        },
        Scene::Exit => {
            assert(m == seq![a, b, c]);
            assert(m[0].scene == Scene::MainMenu && m[1].scene == Scene::Game && m[2].scene == Scene::Scores);
        },
    }
}

} // verus!
