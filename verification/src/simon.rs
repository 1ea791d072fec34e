use vstd::prelude::*;
use vstd::string::*;
use std::time::{Duration, Instant};
use crate::colors::Colors;
use crate::game::{GameMode, GameState, Key, keyboard_target, color_hit};
use crate::menu::{AppState, MenuList, Scene, scene_shown, start_menu};
use crate::scores::{ScoreItem, ScoreState, stably_sorted_from};
use crate::selection::{ListSelection, next_index, previous_index};
use crate::text::{byte_len, decimal, correct_guess_message, string_byte_len, string_pop, string_push};

verus! {

/// The standard library's clock reading, carried through the game unopened.
#[verifier::external_type_specification]
#[verifier::external_body]
pub struct ExInstant(Instant);

/// Reads the clock with `Instant::now`. What it reads depends on the time, so
/// nothing is stated of the result.
#[verifier::external_body]
fn clock_now() -> Instant {
    Instant::now()
}

/// The time from the clock reading `earlier` to the reading `later`, as
/// `Instant::duration_since` gives it.
pub uninterp spec fn duration_between(earlier: Instant, later: Instant) -> Duration;

/// A duration in whole nanoseconds, as `Duration::as_nanos` gives it.
pub uninterp spec fn nanos_of(d: Duration) -> u128;

/// The nanoseconds from the clock reading `earlier` to the reading `later`.
pub open spec fn nanos_between(earlier: Instant, later: Instant) -> u128 {
    nanos_of(duration_between(earlier, later))
}

/// Calls `Instant::duration_since`, which the standard library documents as the
/// time elapsed from `earlier` to `later` (zero where `earlier` is the later of
/// the two, without panicking). It depends on the two readings alone; the
/// contract names it (`duration_between`) and does not open the readings.
#[verifier::external_body]
fn duration_from_to(earlier: &Instant, later: &Instant) -> (res: Duration)
    ensures
        res == duration_between(*earlier, *later),
{
    later.duration_since(*earlier)
}

/// Calls `Duration::as_nanos`, the whole duration in nanoseconds. It depends on
/// the duration alone; the contract names it (`nanos_of`), since a duration is
/// carried here unopened.
#[verifier::external_body]
fn duration_nanos(d: Duration) -> (res: u128)
    ensures
        res == nanos_of(d),
{
    d.as_nanos()
}

/// The nanoseconds from the clock reading `earlier` to the reading `later`.
fn nanos_from_to(earlier: &Instant, later: &Instant) -> (res: u128)
    ensures
        res == nanos_between(*earlier, *later),
{
    duration_nanos(duration_from_to(earlier, later))
}

/// `n` milliseconds, in nanoseconds.
pub open spec fn ms(n: int) -> int {
    n * 1_000_000
}

/// The whole game: where the pattern is being shown or repeated, when the last
/// colour was flashed, the round, the menus, the score table and a status line.
pub struct Simon {
    pub step_index: usize,
    pub last_step_time: Instant,
    pub game_state: GameState,
    pub app_state: AppState,
    pub score_state: ScoreState,
    pub debug_msg: String,
}

/// How the clock moves the showing of the pattern along: the new step index,
/// mode, colour shown and colour hovered, and whether the step clock starts
/// again. `elapsed` is the nanoseconds since the last step; while preparing,
/// the clock is read a second time (`elapsed_again`) to decide whether the
/// pattern starts. While the game scene is not shown or is paused, and in the
/// modes where the player acts, nothing moves.
pub open spec fn pattern_phase(s: Simon, elapsed: u128, elapsed_again: u128)
    -> (usize, GameMode, Option<Colors>, Option<Colors>, bool)
{
    let g = s.game_state;
    let unchanged = (s.step_index, g.mode, g.shown_color, g.hovered_color, false);
    if s.app_state.current_scene != Scene::Game || s.app_state.is_paused {
        unchanged
    } else {
        match g.mode {
            GameMode::Preparing => {
                // after 200 ms the last flash goes out; after a second the pattern starts
                let shown = if elapsed > ms(200) { None } else { g.shown_color };
                if elapsed_again > ms(1000) {
                    (0usize, GameMode::ShowingPattern, shown, g.hovered_color, true)
                } else {
                    (s.step_index, g.mode, shown, g.hovered_color, false)
                }
            },
            GameMode::ShowingPattern => {
                // each step lasts a second: the colour is lit for 700 ms, then dark
                if elapsed > ms(1000) {
                    let step = s.step_index + 1;
                    if step >= g.current_pattern@.len() {
                        (0usize, GameMode::AwaitingInput, None, Some(Colors::RED), true)
                    } else {
                        (step as usize, g.mode, g.shown_color, g.hovered_color, true)
                    }
                } else if elapsed > ms(700) {
                    (s.step_index, g.mode, None, g.hovered_color, false)
                } else if s.step_index < g.current_pattern@.len() {
                    (s.step_index, g.mode, Some(g.current_pattern@[s.step_index as int]), g.hovered_color, false)
                } else {
                    unchanged
                }
            },
            _ => unchanged,
        }
    }
}

/// Moving the pattern along at a clock reading of `elapsed` cannot overflow
/// the step index.
pub open spec fn pattern_step_defined_at(s: Simon, elapsed: u128) -> bool {
    s.app_state.current_scene == Scene::Game && !s.app_state.is_paused
        && s.game_state.mode == GameMode::ShowingPattern && elapsed > ms(1000) ==> s.step_index < usize::MAX
}

/// Moving the pattern along cannot overflow the step index, whatever the clock reads.
pub open spec fn pattern_step_defined(s: Simon) -> bool {
    s.app_state.current_scene == Scene::Game && !s.app_state.is_paused
        && s.game_state.mode == GameMode::ShowingPattern ==> s.step_index < usize::MAX
}

/// `new` is `old` with the step index, mode, colour shown and colour hovered of `phase`.
pub open spec fn phase_applied(
    old: Simon,
    new: Simon,
    phase: (usize, GameMode, Option<Colors>, Option<Colors>, bool),
) -> bool {
    &&& new.step_index == phase.0
    &&& new.game_state.mode == phase.1
    &&& new.game_state.shown_color == phase.2
    &&& new.game_state.hovered_color == phase.3
    &&& new.game_state.current_pattern == old.game_state.current_pattern
    &&& new.game_state.mouse_pos == old.game_state.mouse_pos
    &&& new.game_state.clickables == old.game_state.clickables
    &&& new.game_state.current_score == old.game_state.current_score
    &&& new.app_state == old.app_state
    &&& new.score_state == old.score_state
    &&& new.debug_msg == old.debug_msg
}

/// How the showing of the pattern moves when the clock reads `now` and then
/// `now_again`: the nanoseconds since the last step (`last_step_time`) to each
/// reading go into `pattern_phase`.
pub open spec fn phase_at(s: Simon, now: Instant, now_again: Instant)
    -> (usize, GameMode, Option<Colors>, Option<Colors>, bool)
{
    pattern_phase(s, nanos_between(s.last_step_time, now), nanos_between(s.last_step_time, now_again))
}

/// What reading the clock does to the showing of the pattern: for two readings
/// of the clock, the step index, mode and colours move as `pattern_phase` says
/// for the nanoseconds from the last step to each reading; the step clock is
/// left alone unless a step ends (it is then read again).
pub open spec fn pattern_shown_result(old: Simon, new: Simon) -> bool {
    exists|now: Instant, now_again: Instant| {
        &&& phase_applied(old, new, #[trigger] phase_at(old, now, now_again))
        &&& !phase_at(old, now, now_again).4 ==> new.last_step_time == old.last_step_time
    }
}

/// A guess of `color` while the player is to answer cannot index past the
/// pattern nor overflow the score.
pub open spec fn guess_defined(s: Simon, color: Colors) -> bool {
    s.game_state.mode == GameMode::AwaitingInput ==> {
        &&& s.step_index < s.game_state.current_pattern@.len()
        &&& color == s.game_state.current_pattern@[s.step_index as int] ==> s.game_state.current_score < u8::MAX
    }
}

/// What guessing `color` does. Outside the player's turn, nothing. A right guess
/// lights the colour, adds a point and moves to the next step; after the last step
/// the pattern grows by one colour drawn at random and a new round is prepared.
/// A wrong guess ends the game and opens the entry of a name for the score.
pub open spec fn guess_result(old: Simon, new: Simon, color: Colors) -> bool {
    let g = old.game_state;
    if g.mode != GameMode::AwaitingInput {
        new == old
    } else {
        &&& new.game_state.shown_color == Some(color)
        &&& new.game_state.hovered_color == g.hovered_color
        &&& new.game_state.mouse_pos == g.mouse_pos
        &&& new.game_state.clickables == g.clickables
        &&& new.score_state == old.score_state
        &&& new.app_state.current_scene == old.app_state.current_scene
        &&& new.app_state.menu_list == old.app_state.menu_list
        &&& new.app_state.is_paused == old.app_state.is_paused
        &&& if color == g.current_pattern@[old.step_index as int] {
            let step = old.step_index + 1;
            &&& new.game_state.current_score == g.current_score + 1
            &&& new.step_index == step
            &&& new.app_state.enable_text_entry == old.app_state.enable_text_entry
            &&& if step >= g.current_pattern@.len() {
                &&& new.game_state.mode == GameMode::Preparing
                &&& new.game_state.current_pattern@.len() == g.current_pattern@.len() + 1
                &&& new.game_state.current_pattern@.take(g.current_pattern@.len() as int) == g.current_pattern@
                &&& new.debug_msg@ == "New pattern!"@
            } else {
                &&& new.game_state.mode == GameMode::AwaitingInput
                &&& new.game_state.current_pattern == g.current_pattern
                &&& new.debug_msg@ == "Correct! Score: "@ + decimal((g.current_score + 1) as nat)
            }
        } else {
            &&& new.game_state.mode == GameMode::GameOver
            &&& new.game_state.current_pattern == g.current_pattern
            &&& new.game_state.current_score == g.current_score
            &&& new.step_index == old.step_index
            &&& new.app_state.enable_text_entry
            &&& new.debug_msg@ == Seq::<char>::empty()
        }
    }
}

/// `s` with the menu cursor on `selected` (the view left where it was).
pub open spec fn with_menu_selected(s: Simon, selected: Option<usize>) -> Simon {
    Simon {
        app_state: AppState {
            menu_list: MenuList {
                state: ListSelection { selected, ..s.app_state.menu_list.state },
                ..s.app_state.menu_list
            },
            ..s.app_state
        },
        ..s
    }
}

/// Where "next" moves the menu cursor: one entry down, and from the last entry
/// (or past it) back to the first.
pub open spec fn next_menu_target(s: Simon) -> Option<usize> {
    let selected = s.app_state.menu_list.state.selected;
    let at = match selected { Some(i) => i as int, None => 0 };
    if at >= s.app_state.menu_list.items@.len() - 1 {
        Some(0usize)
    } else {
        Some(next_index(selected))
    }
}

/// Where "previous" moves the menu cursor: one entry up, and from the first
/// entry to the last.
pub open spec fn previous_menu_target(s: Simon) -> Option<usize> {
    let selected = s.app_state.menu_list.state.selected;
    if selected == Some(0usize) {
        Some(usize::MAX)
    } else {
        Some(previous_index(selected))
    }
}

/// Choosing the selected menu entry cannot index past the menu.
pub open spec fn menu_choice_defined(s: Simon) -> bool {
    s.app_state.menu_list.state.selected matches Some(i) ==> i < s.app_state.menu_list.items@.len()
}

/// What choosing the selected menu entry does: with an entry selected, shows its
/// scene, unpaused; with none, nothing.
pub open spec fn menu_choice_result(old: Simon, new: Simon) -> bool {
    match old.app_state.menu_list.state.selected {
        None => new == old,
        Some(i) => {
            &&& scene_shown(old.app_state, new.app_state, old.app_state.menu_list.items@[i as int].scene, false)
            &&& new == (Simon { app_state: new.app_state, ..old })
        },
    }
}

/// The character has the Unicode White_Space property: the 25 code points of
/// the Unicode Character Database's PropList.txt (tab to carriage return, space,
/// next line, no-break space, ogham space mark, the spaces from en quad to hair
/// space, line and paragraph separators, narrow no-break space, medium
/// mathematical space and ideographic space).
pub open spec fn white_space(c: char) -> bool {
    let v = c as u32;
    ||| 0x09 <= v <= 0x0D
    ||| v == 0x20
    ||| v == 0x85
    ||| v == 0xA0
    ||| v == 0x1680
    ||| 0x2000 <= v <= 0x200A
    ||| v == 0x2028
    ||| v == 0x2029
    ||| v == 0x202F
    ||| v == 0x205F
    ||| v == 0x3000
}

/// Calls `char::is_whitespace`, which the standard library documents as true
/// exactly for the characters with the Unicode White_Space property.
#[verifier::external_body]
fn char_is_whitespace(c: char) -> (res: bool)
    ensures
        res == white_space(c),
{
    c.is_whitespace()
}

/// The name of a new result is not yet in the table.
pub open spec fn name_is_new(st: ScoreState, name: Seq<char>) -> bool {
    !exists|i: int| 0 <= i < st.score_list.scores@.len() && #[trigger] st.score_list.scores@[i].name@ == name
}

/// What Esc does: in the score dialog it drops the result and goes back to the
/// main menu; elsewhere but in the main menu it pauses or resumes the game.
pub open spec fn escape_result(old: Simon, new: Simon) -> bool {
    if old.game_state.mode == GameMode::GameOver {
        &&& scene_shown(old.app_state, new.app_state, Scene::MainMenu, old.app_state.is_paused)
        &&& new == (Simon {
            app_state: new.app_state,
            game_state: GameState { mode: GameMode::Preparing, ..old.game_state },
            ..old
        })
    } else if old.app_state.current_scene != Scene::MainMenu {
        new == (Simon { app_state: AppState { is_paused: !old.app_state.is_paused, ..old.app_state }, ..old })
    } else {
        new == old
    }
}

/// What Tab does: switches the typing of a name on or off.
pub open spec fn tab_result(old: Simon, new: Simon) -> bool {
    new == (Simon {
        app_state: AppState { enable_text_entry: !old.app_state.enable_text_entry, ..old.app_state },
        ..old
    })
}

/// `old` with the name being typed replaced by the one of `new`.
pub open spec fn with_name_of(old: Simon, new: Simon) -> Simon {
    Simon {
        score_state: ScoreState { new_score_name: new.score_state.new_score_name, ..old.score_state },
        ..old
    }
}

/// What Backspace does: while a name is typed, removes its last character.
pub open spec fn backspace_result(old: Simon, new: Simon) -> bool {
    let name = old.score_state.new_score_name@;
    if old.app_state.enable_text_entry {
        &&& new.score_state.new_score_name@ == (if name.len() == 0 { name } else { name.drop_last() })
        &&& new == with_name_of(old, new)
    } else {
        new == old
    }
}

/// What a typed character does while a name is typed: appends it, unless the
/// name already takes the most bytes allowed.
pub open spec fn typing_result(old: Simon, new: Simon, c: char) -> bool {
    let name = old.score_state.new_score_name@;
    if byte_len(name) >= old.score_state.max_name_length {
        new == old
    } else {
        &&& new.score_state.new_score_name@ == name.push(c)
        &&& new == with_name_of(old, new)
    }
}

/// What Enter does in the score dialog. The name typed and the score are taken
/// out (both reset). A new name saves the result in the table, clears the status
/// line and goes back to the main menu, preparing the next round; a name already
/// in the table saves nothing and says so. `saved` tells whether the table changed.
pub open spec fn save_result(old: Simon, new: Simon, saved: bool) -> bool {
    let name = old.score_state.new_score_name;
    let score = old.game_state.current_score;
    &&& new.score_state.new_score_name@ == Seq::<char>::empty()
    &&& new.game_state.current_score == 0
    &&& new.step_index == old.step_index
    &&& new.last_step_time == old.last_step_time
    &&& if name_is_new(old.score_state, name@) {
        &&& saved
        &&& stably_sorted_from(
            new.score_state.score_list.scores@,
            old.score_state.score_list.scores@.push(ScoreItem { name, score }),
        )
        &&& new.score_state.score_list.state == old.score_state.score_list.state
        &&& new.score_state.max_name_length == old.score_state.max_name_length
        &&& new.debug_msg@ == Seq::<char>::empty()
        &&& scene_shown(old.app_state, new.app_state, Scene::MainMenu, old.app_state.is_paused)
        &&& new.game_state == (GameState { mode: GameMode::Preparing, current_score: 0, ..old.game_state })
    } else {
        &&& !saved
        &&& new.debug_msg@ == "That name is already taken"@
        &&& new == (Simon {
            score_state: ScoreState { new_score_name: new.score_state.new_score_name, ..old.score_state },
            game_state: GameState { current_score: 0, ..old.game_state },
            debug_msg: new.debug_msg,
            ..old
        })
    }
}

/// What moving the keyboard cursor over the buttons does (see `keyboard_target`).
pub open spec fn cursor_move_result(old: Simon, new: Simon, key: Key) -> bool {
    let g = old.game_state;
    new == (Simon {
        game_state: GameState {
            hovered_color: if g.mode == GameMode::AwaitingInput {
                Some(keyboard_target(g.hovered_color, key))
            } else {
                g.hovered_color
            },
            ..g
        },
        ..old
    })
}

/// What a character does in a menu, outside name typing: a white-space
/// character chooses the selected entry; then 'w' or 'a' moves the cursor up,
/// 's' or 'd' down.
pub open spec fn menu_char_result(old: Simon, new: Simon, c: char) -> bool {
    exists|mid: Simon| {
        &&& #[trigger] menu_char_first(old, mid, c)
        &&& if c == 'w' || c == 'a' {
            new == with_menu_selected(mid, previous_menu_target(mid))
        } else if c == 's' || c == 'd' {
            new == with_menu_selected(mid, next_menu_target(mid))
        } else {
            new == mid
        }
    }
}

/// The first half of a character in a menu: a white-space character chooses the entry.
pub open spec fn menu_char_first(old: Simon, mid: Simon, c: char) -> bool {
    if white_space(c) { menu_choice_result(old, mid) } else { mid == old }
}

/// What a character does in the game scene, outside name typing: a white-space
/// character guesses the colour under the cursor, if any; then w/a/s/d move the
/// cursor.
pub open spec fn game_char_result(old: Simon, new: Simon, c: char) -> bool {
    exists|mid: Simon| {
        &&& #[trigger] game_char_first(old, mid, c)
        &&& if c == 'w' || c == 'a' || c == 's' || c == 'd' {
            cursor_move_result(mid, new, Key::Char(c))
        } else {
            new == mid
        }
    }
}

/// The first half of a character in the game scene: a white-space character guesses.
pub open spec fn game_char_first(old: Simon, mid: Simon, c: char) -> bool {
    if white_space(c) {
        match old.game_state.hovered_color {
            Some(color) => guess_result(old, mid, color),
            None => mid == old,
        }
    } else {
        mid == old
    }
}

/// What a character key does.
pub open spec fn char_result(old: Simon, new: Simon, c: char) -> bool {
    if old.app_state.enable_text_entry {
        typing_result(old, new, c)
    } else if old.app_state.current_scene != Scene::Game {
        menu_char_result(old, new, c)
    } else {
        game_char_result(old, new, c)
    }
}

/// What a key press does to the game; `saved` tells whether the score table
/// changed and is to be written out. Arrow keys move the cursor over the buttons
/// in an unpaused game, and the menu cursor elsewhere.
pub open spec fn key_result(old: Simon, new: Simon, key: Key, saved: bool) -> bool {
    match key {
        Key::Esc => !saved && escape_result(old, new),
        Key::Tab => !saved && tab_result(old, new),
        Key::Backspace => !saved && backspace_result(old, new),
        Key::Enter => if old.game_state.mode == GameMode::GameOver {
            save_result(old, new, saved)
        } else {
            !saved && menu_choice_result(old, new)
        },
        Key::Up | Key::Down | Key::Left | Key::Right => {
            &&& !saved
            &&& if old.app_state.current_scene == Scene::Game && !old.app_state.is_paused {
                cursor_move_result(old, new, key)
            } else if key == Key::Right || key == Key::Down {
                new == with_menu_selected(old, next_menu_target(old))
            } else {
                new == with_menu_selected(old, previous_menu_target(old))
            }
        },
        Key::Char(c) => !saved && char_result(old, new, c),
        Key::Other => !saved && new == old,
    }
}

/// A key press cannot index past the menu or the pattern, nor overflow.
pub open spec fn key_defined(s: Simon, key: Key) -> bool {
    let in_game = s.app_state.current_scene == Scene::Game;
    let items = s.app_state.menu_list.items@;
    match key {
        Key::Enter => s.game_state.mode != GameMode::GameOver ==> menu_choice_defined(s),
        Key::Right | Key::Down => !(in_game && !s.app_state.is_paused) ==> items.len() > 0,
        Key::Char(c) => {
            if s.app_state.enable_text_entry {
                true
            } else if !in_game {
                &&& white_space(c) ==> menu_choice_defined(s)
                &&& (c == 's' || c == 'd') ==> items.len() > 0
            } else {
                white_space(c) && s.game_state.hovered_color is Some
                    ==> guess_defined(s, s.game_state.hovered_color->0)
            }
        },
        _ => true,
    }
}

/// The mouse events the game reacts to.
#[derive(Debug, Clone, Copy, PartialEq, Eq, Structural)]
pub enum MouseAction {
    /// The left button went down.
    LeftDown,
    /// The mouse moved.
    Moved,
    /// Any other mouse event.
    Other,
}

/// `s` with the colour under the cursor set to `hovered`.
pub open spec fn with_hovered(s: Simon, hovered: Option<Colors>) -> Simon {
    Simon { game_state: GameState { hovered_color: hovered, ..s.game_state }, ..s }
}

/// A mouse event cannot index past the pattern nor overflow.
pub open spec fn mouse_defined(s: Simon, action: MouseAction) -> bool {
    action == MouseAction::LeftDown && s.game_state.hovered_color is Some
        ==> guess_defined(s, s.game_state.hovered_color->0)
}

/// What a mouse event at (`column`, `row`) does. The position is recorded. A
/// click guesses the colour under the cursor, if any. A move while the player is
/// to answer puts the cursor on the button under the mouse, if any; every other
/// event takes the cursor off the buttons.
pub open spec fn mouse_result(old: Simon, new: Simon, column: u16, row: u16, action: MouseAction) -> bool {
    let placed = Simon { game_state: GameState { mouse_pos: (column, row), ..old.game_state }, ..old };
    if action == MouseAction::Moved && placed.game_state.mode == GameMode::AwaitingInput {
        match color_hit(placed.game_state.clickables@, column, row) {
            Some(color) => new == with_hovered(placed, Some(color)),
            None => new == placed,
        }
    } else {
        &&& new.game_state.hovered_color is None
        &&& if action == MouseAction::LeftDown && placed.game_state.hovered_color is Some {
            guess_result(placed, with_hovered(new, placed.game_state.hovered_color), placed.game_state.hovered_color->0)
        } else {
            new == with_hovered(placed, None)
        }
    }
}

/// What a clock tick does: on the exit scene, nothing (the game ends); elsewhere
/// the pattern moves along (see `pattern_shown_result`).
pub open spec fn tick_result(old: Simon, new: Simon, exit: bool) -> bool {
    if old.app_state.current_scene == Scene::Exit {
        exit && new == old
    } else {
        !exit && pattern_shown_result(old, new)
    }
}

impl Simon {
    /// A game at the main menu, before the first round, with `initial_scores`
    /// sorted as the score table.
    pub fn new(initial_scores: Vec<ScoreItem>) -> (res: Simon)
        ensures
            res.step_index == 0,
            res.game_state.mode == GameMode::Preparing,
            res.game_state.current_pattern@ == Seq::<Colors>::empty(),
            res.game_state.shown_color is None,
            res.game_state.hovered_color is None,
            res.game_state.mouse_pos == (0u16, 0u16),
            res.game_state.clickables@.len() == 0,
            res.game_state.current_score == 0,
            res.app_state.current_scene == Scene::MainMenu,
            res.app_state.menu_list.items@ == start_menu(),
            res.app_state.menu_list.state == (ListSelection { offset: 0, selected: Some(0) }),
            !res.app_state.is_paused,
            !res.app_state.enable_text_entry,
            stably_sorted_from(res.score_state.score_list.scores@, initial_scores@),
            res.score_state.score_list.state == (ListSelection { offset: 0, selected: None }),
            res.score_state.new_score_name@ == Seq::<char>::empty(),
            res.score_state.max_name_length == 8,
            res.debug_msg@ == "debug"@,
    {
        Simon {
            step_index: 0,
            last_step_time: clock_now(),
            game_state: GameState::new(),
            app_state: AppState::new(),
            score_state: ScoreState::new(initial_scores),
            debug_msg: String::from_str("debug"),
        }
    }

    /// Moves the showing of the pattern along for clock readings of `elapsed`
    /// and, while preparing, `elapsed_again`
    /// nanoseconds since the last step (see `pattern_phase`); returns whether
    /// the step clock starts again.
    pub fn advance_pattern(&mut self, elapsed: u128, elapsed_again: u128) -> (restart: bool)
        requires
            pattern_step_defined_at(*old(self), elapsed),
        ensures
            phase_applied(*old(self), *final(self), pattern_phase(*old(self), elapsed, elapsed_again)),
            restart == pattern_phase(*old(self), elapsed, elapsed_again).4,
            final(self).last_step_time == old(self).last_step_time,
    {
        if self.app_state.current_scene != Scene::Game {
            return false;
        }
        if self.app_state.is_paused {
            return false;
        }
        match self.game_state.mode {
            GameMode::Preparing => {
                if elapsed > 200_000_000 {
                    self.game_state.shown_color = None;
                }
                if elapsed_again > 1_000_000_000 {
                    self.game_state.mode = GameMode::ShowingPattern;
                    self.step_index = 0;
                    return true;
                }
                false
            },
            GameMode::ShowingPattern => {
                if elapsed > 1_000_000_000 {
                    self.step_index += 1;
                    if self.step_index >= self.game_state.current_pattern.len() {
                        self.game_state.mode = GameMode::AwaitingInput;
                        self.game_state.shown_color = None;
                        self.game_state.hovered_color = Some(Colors::RED);
                        self.step_index = 0;
                    }
                    true
                } else if elapsed > 700_000_000 {
                    self.game_state.shown_color = None;
                    false
                } else {
                    if self.step_index < self.game_state.current_pattern.len() {
                        let color = self.game_state.current_pattern[self.step_index];
                        self.game_state.shown_color = Some(color);
                    }
                    false
                }
            },
            _ => false,
        }
    }

    /// Simon's turn: reads the clock and moves the showing of the pattern along
    /// (see `pattern_phase`), restarting the step clock where a step ends.
    pub fn show_pattern(&mut self)
        requires
            pattern_step_defined(*old(self)),
        ensures
            pattern_shown_result(*old(self), *final(self)),
    {
        let now = clock_now();
        let elapsed = nanos_from_to(&self.last_step_time, &now);
        let now_again = clock_now();
        let elapsed_again = nanos_from_to(&self.last_step_time, &now_again);
        let restart = self.advance_pattern(elapsed, elapsed_again);
        assert(phase_applied(*old(self), *self, phase_at(*old(self), now, now_again)));
        if restart {
            self.last_step_time = clock_now();
        }
    }

    /// The player guesses `color` (see `guess_result`); the step clock starts again.
    pub fn handle_player_guess(&mut self, color: Colors)
        requires
            guess_defined(*old(self), color),
        ensures
            guess_result(*old(self), *final(self), color),
    {
        if self.game_state.mode != GameMode::AwaitingInput {
            return;
        }
        let pattern_len = self.game_state.current_pattern.len();
        self.game_state.shown_color = Some(color);
        self.last_step_time = clock_now();
        if color == self.game_state.current_pattern[self.step_index] {
            self.game_state.current_score += 1;
            self.debug_msg = correct_guess_message(self.game_state.current_score);
            self.step_index += 1;
            if self.step_index >= pattern_len {
                self.debug_msg = String::from_str("New pattern!");
                GameState::add_to_pattern(&mut self.game_state.current_pattern, 1);
                self.game_state.mode = GameMode::Preparing;
            }
        } else {
            self.debug_msg = String::new();
            self.game_state.mode = GameMode::GameOver;
            self.app_state.enable_text_entry = true;
        }
    }

    /// Moves the menu cursor to the next entry, wrapping to the first (see `next_menu_target`).
    pub fn select_next_list_item(&mut self)
        requires
            old(self).app_state.menu_list.items@.len() > 0,
        ensures
            *final(self) == with_menu_selected(*old(self), next_menu_target(*old(self))),
    {
        let last = self.app_state.menu_list.items.len() - 1;
        let at = match self.app_state.menu_list.state.selected() {
            Some(i) => i,
            None => 0,
        };
        if at >= last {
            self.app_state.menu_list.state.select_first();
        } else {
            self.app_state.menu_list.state.select_next();
        }
    }

    /// Moves the menu cursor to the previous entry, wrapping to the last (see `previous_menu_target`).
    pub fn select_previous_list_item(&mut self)
        ensures
            *final(self) == with_menu_selected(*old(self), previous_menu_target(*old(self))),
    {
        if self.app_state.menu_list.state.selected() == Some(0usize) {
            self.app_state.menu_list.state.select_last();
        } else {
            self.app_state.menu_list.state.select_previous();
        }
    }

    /// Chooses the selected menu entry (see `menu_choice_result`).
    pub fn select_menu_item(&mut self)
        requires
            menu_choice_defined(*old(self)),
        ensures
            menu_choice_result(*old(self), *final(self)),
    {
        if let Some(selection) = self.app_state.menu_list.state.selected() {
            let selected_scene = self.app_state.menu_list.items[selection].scene;
            self.app_state.change_scene(selected_scene);
            if self.app_state.is_paused {
                self.app_state.is_paused = false;
            }
        }
    }

    /// Esc (see `escape_result`).
    fn press_escape(&mut self)
        ensures
            escape_result(*old(self), *final(self)),
    {
        if self.game_state.mode == GameMode::GameOver {
            self.game_state.mode = GameMode::Preparing;
            self.app_state.change_scene(Scene::MainMenu);
        } else if self.app_state.current_scene != Scene::MainMenu {
            self.app_state.is_paused = !self.app_state.is_paused;
        }
    }

    /// Enter in the score dialog (see `save_result`).
    fn save_typed_score(&mut self) -> (saved: bool)
        ensures
            save_result(*old(self), *final(self), saved),
    {
        let mut name = String::new();
        std::mem::swap(&mut name, &mut self.score_state.new_score_name);
        let score = self.game_state.current_score;
        self.game_state.current_score = 0;
        if self.score_state.is_name_new(&name) {
            self.score_state.save_score(name, score);
            self.debug_msg = String::new();
            self.app_state.change_scene(Scene::MainMenu);
            self.game_state.mode = GameMode::Preparing;
            true
        } else {
            self.debug_msg = String::from_str("That name is already taken");
            false
        }
    }

    /// A character key (see `char_result`).
    fn press_char(&mut self, c: char)
        requires
            key_defined(*old(self), Key::Char(c)),
        ensures
            char_result(*old(self), *final(self), c),
    {
        if !self.app_state.enable_text_entry {
            if self.app_state.current_scene != Scene::Game {
                if char_is_whitespace(c) {
                    self.select_menu_item();
                    proof {
                        if old(self).app_state.menu_list.state.selected is Some {
                            crate::menu::lemma_menu_for(self.app_state.current_scene);
                        }
                    }
                }
                let ghost mid = *self;
                match c {
                    'w' | 'a' => { self.select_previous_list_item(); }
                    's' | 'd' => { self.select_next_list_item(); }
                    _ => {}
                }
                assert(menu_char_first(*old(self), mid, c));
            } else {
                if char_is_whitespace(c) {
                    if let Some(color) = self.game_state.hovered_color {
                        self.handle_player_guess(color);
                    }
                }
                let ghost mid = *self;
                match c {
                    'w' | 'a' | 's' | 'd' => { self.game_state.handle_keyboard_color_selection(Key::Char(c)); }
                    _ => {}
                }
                assert(game_char_first(*old(self), mid, c));
            }
        } else {
            let len = string_byte_len(&self.score_state.new_score_name);
            if len >= self.score_state.max_name_length as usize {
            } else {
                string_push(&mut self.score_state.new_score_name, c);
            }
        }
    }

    /// A key press (see `key_result`); returns whether the score table changed
    /// and is to be written out.
    pub fn handle_key(&mut self, key: Key) -> (saved: bool)
        requires
            key_defined(*old(self), key),
        ensures
            key_result(*old(self), *final(self), key, saved),
    {
        match key {
            Key::Esc => {
                self.press_escape();
                false
            },
            Key::Tab => {
                self.app_state.enable_text_entry = !self.app_state.enable_text_entry;
                false
            },
            Key::Backspace => {
                if self.app_state.enable_text_entry {
                    string_pop(&mut self.score_state.new_score_name);
                }
                false
            },
            Key::Enter => {
                if self.game_state.mode == GameMode::GameOver {
                    self.save_typed_score()
                } else {
                    self.select_menu_item();
                    false
                }
            },
            Key::Up | Key::Down | Key::Left | Key::Right => {
                if self.app_state.current_scene == Scene::Game && !self.app_state.is_paused {
                    self.game_state.handle_keyboard_color_selection(key);
                } else if key == Key::Right || key == Key::Down {
                    self.select_next_list_item();
                } else {
                    self.select_previous_list_item();
                }
                false
            },
            Key::Char(c) => {
                self.press_char(c);
                false
            },
            Key::Other => false,
        }
    }

    /// Whether the guess of `color` is defined (see `guess_defined`).
    fn guess_is_defined(&self, color: Colors) -> (res: bool)
        ensures
            res == guess_defined(*self, color),
    {
        if self.game_state.mode != GameMode::AwaitingInput {
            return true;
        }
        if self.step_index >= self.game_state.current_pattern.len() {
            return false;
        }
        color != self.game_state.current_pattern[self.step_index] || self.game_state.current_score < 255
    }

    /// Whether choosing the selected menu entry is defined (see `menu_choice_defined`).
    fn menu_choice_is_defined(&self) -> (res: bool)
        ensures
            res == menu_choice_defined(*self),
    {
        match self.app_state.menu_list.state.selected() {
            Some(i) => i < self.app_state.menu_list.items.len(),
            None => true,
        }
    }

    /// Whether the key press is defined (see `key_defined`).
    pub fn key_is_defined(&self, key: Key) -> (res: bool)
        ensures
            res == key_defined(*self, key),
    {
        let in_game = self.app_state.current_scene == Scene::Game;
        let has_items = self.app_state.menu_list.items.len() > 0;
        match key {
            Key::Enter => self.game_state.mode == GameMode::GameOver || self.menu_choice_is_defined(),
            Key::Right | Key::Down => (in_game && !self.app_state.is_paused) || has_items,
            Key::Char(c) => {
                if self.app_state.enable_text_entry {
                    true
                } else if !in_game {
                    let ws = char_is_whitespace(c);
                    (!ws || self.menu_choice_is_defined()) && (!(c == 's' || c == 'd') || has_items)
                } else {
                    let ws = char_is_whitespace(c);
                    match self.game_state.hovered_color {
                        Some(color) => !ws || self.guess_is_defined(color),
                        None => true,
                    }
                }
            },
            _ => true,
        }
    }

    /// A key press where it is defined (see `key_result`): `Some` of whether the
    /// score table changed; `None`, with nothing changed, where the press would
    /// index past the menu or the pattern or overflow the score.
    pub fn try_handle_key(&mut self, key: Key) -> (res: Option<bool>)
        ensures
            res is None <==> !key_defined(*old(self), key),
            res is None ==> *final(self) == *old(self),
            res matches Some(saved) ==> key_result(*old(self), *final(self), key, saved),
    {
        if self.key_is_defined(key) {
            Some(self.handle_key(key))
        } else {
            None
        }
    }

    /// A mouse event at (`column`, `row`) (see `mouse_result`).
    pub fn handle_mouse(&mut self, column: u16, row: u16, action: MouseAction)
        requires
            mouse_defined(*old(self), action),
        ensures
            mouse_result(*old(self), *final(self), column, row, action),
    {
        self.game_state.mouse_pos = (column, row);
        if action == MouseAction::LeftDown {
            if let Some(color) = self.game_state.hovered_color {
                self.handle_player_guess(color);
            }
        }
        if action == MouseAction::Moved && self.game_state.mode == GameMode::AwaitingInput {
            let hovered = self.game_state.color_at(column, row);
            if let Some(color) = hovered {
                self.game_state.handle_hovered_color(color);
            }
        } else {
            self.game_state.hovered_color = None;
        }
    }

    /// A mouse event where it is defined (see `mouse_result`): `false`, with
    /// nothing changed, where a click would index past the pattern or overflow the score.
    pub fn try_handle_mouse(&mut self, column: u16, row: u16, action: MouseAction) -> (handled: bool)
        ensures
            handled == mouse_defined(*old(self), action),
            !handled ==> *final(self) == *old(self),
            handled ==> mouse_result(*old(self), *final(self), column, row, action),
    {
        let defined = match self.game_state.hovered_color {
            Some(color) => action != MouseAction::LeftDown || self.guess_is_defined(color),
            None => true,
        };
        if defined {
            self.handle_mouse(column, row, action);
        }
        defined
    }

    /// A clock tick (see `tick_result`): returns whether the game ends.
    pub fn handle_tick(&mut self) -> (exit: bool)
        requires
            pattern_step_defined(*old(self)),
        ensures
            tick_result(*old(self), *final(self), exit),
    {
        if self.app_state.current_scene == Scene::Exit {
            return true;
        }
        self.show_pattern();
        false
    }

    /// A clock tick where it is defined (see `tick_result`): `Some` of whether
    /// the game ends; `None`, with nothing changed, where the clock reads more
    /// than a second while the last step of a pattern can be counted no further.
    pub fn try_handle_tick(&mut self) -> (res: Option<bool>)
        ensures
            pattern_step_defined(*old(self)) ==> res is Some,
            res is None ==> !pattern_step_defined(*old(self)) && *final(self) == *old(self),
            res matches Some(exit) ==> tick_result(*old(self), *final(self), exit),
    {
        if self.app_state.current_scene == Scene::Exit {
            return Some(true);
        }
        let now = clock_now();
        let elapsed = nanos_from_to(&self.last_step_time, &now);
        let now_again = clock_now();
        let elapsed_again = nanos_from_to(&self.last_step_time, &now_again);
        if self.app_state.current_scene == Scene::Game && !self.app_state.is_paused
            && self.game_state.mode == GameMode::ShowingPattern && elapsed > 1_000_000_000
            && self.step_index == usize::MAX {
            return None;
        }
        let restart = self.advance_pattern(elapsed, elapsed_again);
        assert(phase_applied(*old(self), *self, phase_at(*old(self), now, now_again)));
        if restart {
            self.last_step_time = clock_now();
        }
        Some(false)
    }
}

/// The pattern of `new` keeps every colour of the pattern of `old`, in place,
/// and may have more after them.
pub open spec fn pattern_kept(old: Simon, new: Simon) -> bool {
    &&& new.game_state.current_pattern@.len() >= old.game_state.current_pattern@.len()
    &&& new.game_state.current_pattern@.take(old.game_state.current_pattern@.len() as int)
        == old.game_state.current_pattern@
}

/// The menu of `s` has an entry.
pub open spec fn menu_nonempty(s: Simon) -> bool {
    s.app_state.menu_list.items@.len() > 0
}

/// Esc pressed twice outside the score dialog leaves the game as it was: the
/// second press resumes what the first paused, or the reverse.
pub proof fn lemma_escape_twice(a: Simon, b: Simon, c: Simon)
    requires
        a.game_state.mode != GameMode::GameOver,
        escape_result(a, b),
        escape_result(b, c),
    ensures
        c == a,
{
}

/// Tab pressed twice leaves the game as it was.
pub proof fn lemma_tab_twice(a: Simon, b: Simon, c: Simon)
    requires
        tab_result(a, b),
        tab_result(b, c),
    ensures
        c == a,
{
}

/// Moving the menu cursor up and then down returns to the entry it was on,
/// also from the first entry, where "up" wraps to the last.
pub proof fn lemma_menu_previous_then_next(s: Simon, i: usize)
    requires
        s.app_state.menu_list.state.selected == Some(i),
        i < s.app_state.menu_list.items@.len() <= usize::MAX,
    ensures
        with_menu_selected(
            with_menu_selected(s, previous_menu_target(s)),
            next_menu_target(with_menu_selected(s, previous_menu_target(s))),
        ) == s,
{
    let t = with_menu_selected(s, previous_menu_target(s));
    assert(t.app_state.menu_list.items == s.app_state.menu_list.items);
    assert(next_menu_target(t) == Some(i));
    let u = with_menu_selected(t, Some(i));
    assert(u.app_state.menu_list.state == s.app_state.menu_list.state);
    assert(u.app_state.menu_list == s.app_state.menu_list);
    assert(u.app_state == s.app_state);
}

/// A guess keeps the pattern: a right guess at the end of the pattern adds one colour.
pub proof fn lemma_guess_keeps_pattern(old: Simon, new: Simon, color: Colors)
    requires
        guess_defined(old, color),
        guess_result(old, new, color),
    ensures
        pattern_kept(old, new),
        new.app_state.menu_list == old.app_state.menu_list,
{
    assert(old.game_state.current_pattern@.take(old.game_state.current_pattern@.len() as int)
        == old.game_state.current_pattern@);
}

/// A menu choice shows a menu with entries.
proof fn lemma_menu_choice_keeps(old: Simon, new: Simon)
    requires
        menu_choice_result(old, new),
        menu_nonempty(old),
    ensures
        menu_nonempty(new),
        new.game_state == old.game_state,
{
    if old.app_state.menu_list.state.selected is Some {
        crate::menu::lemma_menu_for(new.app_state.current_scene);
    }
}

/// No key press drops or changes a colour of the pattern, and none leaves a
/// menu without entries: the pattern only grows, and the menu stays usable.
pub proof fn lemma_key_keeps_pattern_and_menu(old: Simon, new: Simon, key: Key, saved: bool)
    requires
        key_defined(old, key),
        menu_nonempty(old),
        key_result(old, new, key, saved),
    ensures
        pattern_kept(old, new),
        menu_nonempty(new),
{
    let p = old.game_state.current_pattern@;
    assert(p.take(p.len() as int) == p);
    match key {
        Key::Esc => {
            if old.game_state.mode == GameMode::GameOver {
                crate::menu::lemma_menu_for(Scene::MainMenu);
            }
        },
        Key::Enter => {
            if old.game_state.mode == GameMode::GameOver {
                if name_is_new(old.score_state, old.score_state.new_score_name@) {
                    crate::menu::lemma_menu_for(Scene::MainMenu);
                }
            } else {
                lemma_menu_choice_keeps(old, new);
            }
        },
        Key::Char(c) => {
            if old.app_state.enable_text_entry {
            } else if old.app_state.current_scene != Scene::Game {
                let mid = choose|mid: Simon| {
                    &&& #[trigger] menu_char_first(old, mid, c)
                    &&& if c == 'w' || c == 'a' {
                        new == with_menu_selected(mid, previous_menu_target(mid))
                    } else if c == 's' || c == 'd' {
                        new == with_menu_selected(mid, next_menu_target(mid))
                    } else {
                        new == mid
                    }
                };
                if white_space(c) {
                    lemma_menu_choice_keeps(old, mid);
                }
            } else {
                let mid = choose|mid: Simon| {
                    &&& #[trigger] game_char_first(old, mid, c)
                    &&& if c == 'w' || c == 'a' || c == 's' || c == 'd' {
                        cursor_move_result(mid, new, Key::Char(c))
                    } else {
                        new == mid
                    }
                };
                if white_space(c) && old.game_state.hovered_color is Some {
                    lemma_guess_keeps_pattern(old, mid, old.game_state.hovered_color->0);
                }
            }
        },
        _ => {},
    }
}

/// No mouse event drops or changes a colour of the pattern or touches the menu.
pub proof fn lemma_mouse_keeps_pattern_and_menu(old: Simon, new: Simon, column: u16, row: u16, action: MouseAction)
    requires
        mouse_defined(old, action),
        mouse_result(old, new, column, row, action),
    ensures
        pattern_kept(old, new),
        new.app_state.menu_list == old.app_state.menu_list,
{
    let p = old.game_state.current_pattern@;
    assert(p.take(p.len() as int) == p);
    let placed = Simon { game_state: GameState { mouse_pos: (column, row), ..old.game_state }, ..old };
    if !(action == MouseAction::Moved && placed.game_state.mode == GameMode::AwaitingInput)
        && action == MouseAction::LeftDown && placed.game_state.hovered_color is Some {
        lemma_guess_keeps_pattern(placed, with_hovered(new, placed.game_state.hovered_color), placed.game_state.hovered_color->0);
    }
}

/// No clock tick changes the pattern, the menus or the score table.
pub proof fn lemma_tick_keeps_pattern_and_menu(old: Simon, new: Simon, exit: bool)
    requires
        tick_result(old, new, exit),
    ensures
        new.game_state.current_pattern == old.game_state.current_pattern,
        new.app_state == old.app_state,
        new.score_state == old.score_state,
{
}

/// The pattern has a colour, and during the player's turn the step to repeat
/// lies in the pattern.
pub open spec fn turn_in_pattern(s: Simon) -> bool {
    &&& s.game_state.current_pattern@.len() > 0
    &&& s.game_state.mode == GameMode::AwaitingInput ==> s.step_index < s.game_state.current_pattern@.len()
}

/// A guess keeps the step to repeat inside a non-empty pattern.
proof fn lemma_guess_keeps_turn(old: Simon, new: Simon, color: Colors)
    requires
        turn_in_pattern(old),
        guess_defined(old, color),
        guess_result(old, new, color),
    ensures
        turn_in_pattern(new),
{
}

/// Once the pattern has a colour, no clock tick moves the player's step out of it.
pub proof fn lemma_tick_keeps_turn(old: Simon, new: Simon, exit: bool)
    requires
        turn_in_pattern(old),
        tick_result(old, new, exit),
    ensures
        turn_in_pattern(new),
{
    if old.app_state.current_scene != Scene::Exit {
        let (now, now_again) = choose|now: Instant, now_again: Instant| {
            &&& phase_applied(old, new, #[trigger] phase_at(old, now, now_again))
            &&& !phase_at(old, now, now_again).4 ==> new.last_step_time == old.last_step_time
        };
        assert(phase_applied(old, new, phase_at(old, now, now_again)));
    }
}

/// Once the pattern has a colour, no key press moves the player's step out of it.
pub proof fn lemma_key_keeps_turn(old: Simon, new: Simon, key: Key, saved: bool)
    requires
        turn_in_pattern(old),
        key_defined(old, key),
        key_result(old, new, key, saved),
    ensures
        turn_in_pattern(new),
{
    match key {
        Key::Enter => {
            if old.game_state.mode != GameMode::GameOver {
                assert(new.game_state == old.game_state);
            }
        },
        Key::Char(c) => {
            if old.app_state.enable_text_entry {
            } else if old.app_state.current_scene != Scene::Game {
                let mid = choose|mid: Simon| {
                    &&& #[trigger] menu_char_first(old, mid, c)
                    &&& if c == 'w' || c == 'a' {
                        new == with_menu_selected(mid, previous_menu_target(mid))
                    } else if c == 's' || c == 'd' {
                        new == with_menu_selected(mid, next_menu_target(mid))
                    } else {
                        new == mid
                    }
                };
                if white_space(c) && old.app_state.menu_list.state.selected is Some {
                    assert(mid.game_state == old.game_state);
                }
            } else {
                let mid = choose|mid: Simon| {
                    &&& #[trigger] game_char_first(old, mid, c)
                    &&& if c == 'w' || c == 'a' || c == 's' || c == 'd' {
                        cursor_move_result(mid, new, Key::Char(c))
                    } else {
                        new == mid
                    }
                };
                if white_space(c) && old.game_state.hovered_color is Some {
                    lemma_guess_keeps_turn(old, mid, old.game_state.hovered_color->0);
                }
            }
        },
        _ => {},
    }
}

/// Once the pattern has a colour, no mouse event moves the player's step out of it.
pub proof fn lemma_mouse_keeps_turn(old: Simon, new: Simon, column: u16, row: u16, action: MouseAction)
    requires
        turn_in_pattern(old),
        mouse_defined(old, action),
        mouse_result(old, new, column, row, action),
    ensures
        turn_in_pattern(new),
{
    let placed = Simon { game_state: GameState { mouse_pos: (column, row), ..old.game_state }, ..old };
    if !(action == MouseAction::Moved && placed.game_state.mode == GameMode::AwaitingInput)
        && action == MouseAction::LeftDown && placed.game_state.hovered_color is Some {
        lemma_guess_keeps_turn(placed, with_hovered(new, placed.game_state.hovered_color), placed.game_state.hovered_color->0);
    }
}

/// The game after "next" is pressed `k` times in the menu.
pub open spec fn next_presses(s: Simon, k: nat) -> Simon
    decreases k,
{
    if k == 0 {
        s
    } else {
        let p = next_presses(s, (k - 1) as nat);
        with_menu_selected(p, next_menu_target(p))
    }
}

/// Counting one up modulo `n` wraps from `n - 1` to 0.
proof fn lemma_mod_step(x: int, n: int)
    requires
        x >= 0,
        n > 0,
    ensures
        (x + 1) % n == (if x % n == n - 1 { 0 } else { x % n + 1 }),
{
    let q = x / n;
    let r = x % n;
    vstd::arithmetic::div_mod::lemma_fundamental_div_mod(x, n);
    vstd::arithmetic::div_mod::lemma_mod_pos_bound(x, n);
    assert(x == q * n + r) by (nonlinear_arith)
        requires
            x == n * (x / n) + (x % n),
            q == x / n,
            r == x % n,
    ;
    if r == n - 1 {
        assert(x + 1 == (q + 1) * n + 0) by (nonlinear_arith)
            requires
                x == q * n + r,
                r == n - 1,
        ;
        vstd::arithmetic::div_mod::lemma_fundamental_div_mod_converse(x + 1, n, q + 1, 0);
    } else {
        vstd::arithmetic::div_mod::lemma_fundamental_div_mod_converse(x + 1, n, q, r + 1);
    }
}

/// Pressing "next" in a menu of `n` entries walks the entries in turn: after
/// `k` presses from entry `i` the cursor is on entry `(i + k) % n`, always an
/// entry of the menu, and nothing else changes.
pub proof fn lemma_next_presses_walk(s: Simon, i: usize, k: nat)
    requires
        s.app_state.menu_list.state.selected == Some(i),
        i < s.app_state.menu_list.items@.len() <= usize::MAX,
    ensures
        next_presses(s, k) == with_menu_selected(s, Some(((i + k) % (s.app_state.menu_list.items@.len() as int)) as usize)),
        (i + k) % (s.app_state.menu_list.items@.len() as int) < s.app_state.menu_list.items@.len(),
    decreases k,
{
    let n = s.app_state.menu_list.items@.len() as int;
    vstd::arithmetic::div_mod::lemma_mod_pos_bound(i + k, n);
    if k == 0 {
        vstd::arithmetic::div_mod::lemma_small_mod(i as nat, n as nat);
        let t = with_menu_selected(s, Some(i));
        assert(t.app_state.menu_list.state == s.app_state.menu_list.state);
        assert(t.app_state.menu_list == s.app_state.menu_list);
        assert(t.app_state == s.app_state);
    } else {
        lemma_next_presses_walk(s, i, (k - 1) as nat);
        let r = (i + k - 1) % n;
        let p = next_presses(s, (k - 1) as nat);
        assert(p == with_menu_selected(s, Some(r as usize)));
        lemma_mod_step(i + k - 1, n);
        assert(next_menu_target(p) == Some(((i + k) % n) as usize));
    }
}

/// Pressing "next" as many times as the menu has entries brings the cursor back
/// to the entry it started on, and leaves the game as it was.
pub proof fn lemma_next_full_cycle(s: Simon, i: usize)
    requires
        s.app_state.menu_list.state.selected == Some(i),
        i < s.app_state.menu_list.items@.len() <= usize::MAX,
    ensures
        next_presses(s, s.app_state.menu_list.items@.len()) == s,
{
    let n = s.app_state.menu_list.items@.len();
    lemma_next_presses_walk(s, i, n);
    lemma_next_presses_walk(s, i, 0);
    vstd::arithmetic::div_mod::lemma_mod_add_multiples_vanish(i as int, n as int);
}

/// Showing the pattern always starts from its first colour: whenever a clock
/// reading ends the pause of a prepared round in an unpaused game, the step
/// clock starts again and the first step (index 0) is the one shown next, however
/// far the previous round got; before a second has passed the round stays prepared.
pub proof fn lemma_showing_starts_at_first_colour(s: Simon, new: Simon, elapsed: u128, elapsed_again: u128, restart: bool)
    requires
        s.app_state.current_scene == Scene::Game,
        !s.app_state.is_paused,
        s.game_state.mode == GameMode::Preparing,
        phase_applied(s, new, pattern_phase(s, elapsed, elapsed_again)),
        restart == pattern_phase(s, elapsed, elapsed_again).4,
    ensures
        elapsed_again > 1_000_000_000 ==> {
            &&& new.game_state.mode == GameMode::ShowingPattern
            &&& new.step_index == 0
            &&& restart
        },
        elapsed_again <= 1_000_000_000 ==> {
            &&& new.game_state.mode == GameMode::Preparing
            &&& new.step_index == s.step_index
            &&& !restart
        },
        elapsed > 200_000_000 ==> new.game_state.shown_color is None,
        elapsed <= 200_000_000 ==> new.game_state.shown_color == s.game_state.shown_color,
        new.game_state.current_pattern == s.game_state.current_pattern,
{
}

/// While the pattern is shown, each step of a second lights the step's colour
/// for its first 700 ms and leaves it dark for the rest; a finished step moves
/// to the next colour, and after the last one the player's turn begins at the
/// first colour with the cursor on red.
pub proof fn lemma_showing_steps(s: Simon, new: Simon, elapsed: u128, elapsed_again: u128, restart: bool)
    requires
        s.app_state.current_scene == Scene::Game,
        !s.app_state.is_paused,
        s.game_state.mode == GameMode::ShowingPattern,
        s.step_index < s.game_state.current_pattern@.len() <= usize::MAX,
        phase_applied(s, new, pattern_phase(s, elapsed, elapsed_again)),
        restart == pattern_phase(s, elapsed, elapsed_again).4,
    ensures
        elapsed <= 700_000_000 ==> {
            &&& new.game_state.shown_color == Some(s.game_state.current_pattern@[s.step_index as int])
            &&& new.step_index == s.step_index
            &&& new.game_state.mode == GameMode::ShowingPattern
            &&& !restart
        },
        700_000_000 < elapsed <= 1_000_000_000 ==> {
            &&& new.game_state.shown_color is None
            &&& new.step_index == s.step_index
            &&& new.game_state.mode == GameMode::ShowingPattern
            &&& !restart
        },
        elapsed > 1_000_000_000 && s.step_index + 1 < s.game_state.current_pattern@.len() ==> {
            &&& new.step_index == s.step_index + 1
            &&& new.game_state.mode == GameMode::ShowingPattern
            &&& restart
        },
        elapsed > 1_000_000_000 && s.step_index + 1 == s.game_state.current_pattern@.len() ==> {
            &&& new.step_index == 0
            &&& new.game_state.mode == GameMode::AwaitingInput
            &&& new.game_state.shown_color is None
            &&& new.game_state.hovered_color == Some(Colors::RED)
            &&& restart
        },
{
}

/// Esc outside the score dialog and outside the main menu (in the game, in the
/// score table, anywhere else) pauses or resumes, and changes nothing else.
pub proof fn lemma_escape_toggles_pause(old: Simon, new: Simon, saved: bool)
    requires
        old.game_state.mode != GameMode::GameOver,
        old.app_state.current_scene != Scene::MainMenu,
        key_result(old, new, Key::Esc, saved),
    ensures
        !saved,
        new.app_state.is_paused == !old.app_state.is_paused,
        new.app_state.current_scene == old.app_state.current_scene,
        new.app_state.menu_list == old.app_state.menu_list,
        new.app_state.enable_text_entry == old.app_state.enable_text_entry,
        new.game_state == old.game_state,
        new.score_state == old.score_state,
        new.step_index == old.step_index,
        new.debug_msg == old.debug_msg,
        new.last_step_time == old.last_step_time,
{
}

/// Esc in the main menu, outside the score dialog, changes nothing.
pub proof fn lemma_escape_in_main_menu(old: Simon, new: Simon, saved: bool)
    requires
        old.game_state.mode != GameMode::GameOver,
        old.app_state.current_scene == Scene::MainMenu,
        key_result(old, new, Key::Esc, saved),
    ensures
        !saved,
        new == old,
{
}

/// A mouse event is refused only where a click would guess past the pattern or
/// overflow the score: a move, any event other than a left click, and a left
/// click with no button under the cursor are always handled. A click with no
/// button under the cursor only records the mouse position.
pub proof fn lemma_mouse_refused_only_for_bad_guesses(old: Simon, new: Simon, column: u16, row: u16, action: MouseAction)
    ensures
        action != MouseAction::LeftDown ==> mouse_defined(old, action),
        old.game_state.hovered_color is None ==> mouse_defined(old, action),
        old.game_state.hovered_color is None && action == MouseAction::LeftDown && mouse_result(old, new, column, row, action)
            ==> new == (Simon { game_state: GameState { mouse_pos: (column, row), ..old.game_state }, ..old }),
{
    if old.game_state.hovered_color is None && action == MouseAction::LeftDown && mouse_result(old, new, column, row, action) {
        let placed = Simon { game_state: GameState { mouse_pos: (column, row), ..old.game_state }, ..old };
        assert(with_hovered(placed, None) == placed);
    }
}

/// Outside an unpaused game, Right and Down both move the menu cursor to the
/// next entry: one entry down, and from the last entry (or past it) back to the
/// first; Left and Up both move it to the previous one: one entry up, and from the
/// first entry to the end of the list (`usize::MAX`, the last entry once drawn).
/// Nothing but the cursor changes.
pub proof fn lemma_menu_arrows(old: Simon, new: Simon, key: Key, saved: bool)
    requires
        !(old.app_state.current_scene == Scene::Game && !old.app_state.is_paused),
        key == Key::Right || key == Key::Down || key == Key::Left || key == Key::Up,
        key_result(old, new, key, saved),
        0 < old.app_state.menu_list.items@.len() <= usize::MAX,
        old.app_state.menu_list.state.selected is Some,
    ensures
        !saved,
        new == with_menu_selected(old, new.app_state.menu_list.state.selected),
        ({
            let i = old.app_state.menu_list.state.selected->0;
            let n = old.app_state.menu_list.items@.len();
            &&& (key == Key::Right || key == Key::Down) && i + 1 < n
                ==> new.app_state.menu_list.state.selected == Some((i + 1) as usize)
            &&& (key == Key::Right || key == Key::Down) && i + 1 >= n
                ==> new.app_state.menu_list.state.selected == Some(0usize)
            &&& (key == Key::Left || key == Key::Up) && i > 0
                ==> new.app_state.menu_list.state.selected == Some((i - 1) as usize)
            &&& (key == Key::Left || key == Key::Up) && i == 0
                ==> new.app_state.menu_list.state.selected == Some(usize::MAX)
        }),
{
}

/// Outside an unpaused game, Right does what Down does, and Left what Up does.
pub proof fn lemma_menu_arrow_pairs(old: Simon, a: Simon, b: Simon, saved_a: bool, saved_b: bool)
    requires
        !(old.app_state.current_scene == Scene::Game && !old.app_state.is_paused),
    ensures
        key_result(old, a, Key::Right, saved_a) && key_result(old, b, Key::Down, saved_b) ==> a == b,
        key_result(old, a, Key::Left, saved_a) && key_result(old, b, Key::Up, saved_b) ==> a == b,
{
}

} // verus!
