use vstd::prelude::*;
use crate::colors::{Colors, color_at_index, color_index};

verus! {

/// The phases of a round.
#[derive(Debug, Clone, Copy, PartialEq, Eq, Structural)]
pub enum GameMode {
    /// A short pause before the pattern is shown.
    Preparing,
    /// The game flashes the pattern, one colour at a time.
    ShowingPattern,
    /// The player repeats the pattern.
    AwaitingInput,
    /// The player made a mistake; the score may be saved.
    GameOver,
}

/// A key the game reacts to.
#[derive(Debug, Clone, Copy, PartialEq, Eq, Structural)]
pub enum Key {
    Esc,
    Tab,
    Backspace,
    Enter,
    Up,
    Down,
    Left,
    Right,
    Char(char),
    /// Any other key.
    Other,
}

/// A rectangle of terminal cells: its top-left corner and its size.
#[derive(Debug, Clone, Copy, PartialEq, Eq, Structural)]
pub struct Area {
    pub x: u16,
    pub y: u16,
    pub width: u16,
    pub height: u16,
}

/// `a + b`, or `u16::MAX` where that overflows.
pub open spec fn saturating_add_u16(a: u16, b: u16) -> int {
    if a + b > u16::MAX { u16::MAX as int } else { a + b }
}

impl Area {
    /// The cell (`x`, `y`) lies in the area: at or right of its left edge and left of
    /// its right edge, at or below its top edge and above its bottom edge, where an
    /// edge beyond the screen's coordinates stops at `u16::MAX`.
    pub open spec fn spec_contains(self, x: u16, y: u16) -> bool {
        &&& x >= self.x
        &&& x < saturating_add_u16(self.x, self.width)
        &&& y >= self.y
        &&& y < saturating_add_u16(self.y, self.height)
    }

    /// Whether the cell (`x`, `y`) lies in the area.
    pub fn contains(&self, x: u16, y: u16) -> (res: bool)
        ensures
            res == self.spec_contains(x, y),
    {
        rect_contains(*self, x, y)
    }
}

/// Asks ratatui's `Rect::contains` whether a rectangle with the area's corner and
/// size holds the position (`x`, `y`). Its source compares the position with the
/// left and top edges and with `right()` and `bottom()`, which add the width and
/// height with `saturating_add`; the contract states that comparison.
#[verifier::external_body]
fn rect_contains(area: Area, x: u16, y: u16) -> (res: bool)
    ensures
        res == area.spec_contains(x, y),
{
    let rect = ratatui::layout::Rect { x: area.x, y: area.y, width: area.width, height: area.height };
    rect.contains(ratatui::layout::Position { x, y })
}

/// Draws a grid index with `rand::random_range(0..=3)` from the thread-local
/// generator. What is drawn depends on chance; the contract states only that it
/// lies in the range asked for, which the function's documentation promises.
#[verifier::external_body]
fn random_grid_index() -> (res: u8)
    ensures
        res <= 3,
{
    rand::random_range(0..=3u8)
}

/// The colour of the last clickable area, in list order, that holds the cell
/// (`x`, `y`): buttons drawn later lie on top.
pub open spec fn color_hit(clickables: Seq<(Colors, Area)>, x: u16, y: u16) -> Option<Colors>
    decreases clickables.len(),
{
    if clickables.len() == 0 {
        None
    } else if clickables.last().1.spec_contains(x, y) {
        Some(clickables.last().0)
    } else {
        color_hit(clickables.drop_last(), x, y)
    }
}

/// The button that the keyboard cursor moves to from `hovered` (from the red one
/// when none is hovered) on `key`: up or 'w' goes to the top row, down or 's' to
/// the bottom row, left or 'a' to the left column, right or 'd' to the right
/// column, each keeping the other coordinate; other keys keep the button.
pub open spec fn keyboard_target(hovered: Option<Colors>, key: Key) -> Colors {
    let index = match hovered {
        Some(c) => color_index(c),
        None => 0u8,
    };
    let row = match key {
        Key::Up | Key::Char('w') => 0,
        Key::Down | Key::Char('s') => 1,
        _ => index / 2,
    };
    let col = match key {
        Key::Left | Key::Char('a') => 0,
        Key::Right | Key::Char('d') => 1,
        _ => index % 2,
    };
    color_at_index((row * 2 + col) as u8)->0
}

/// A round in progress: its phase, the pattern so far, the colour flashed, the
/// colour under the cursor, the mouse position, where each button was drawn,
/// and the score.
pub struct GameState {
    pub mode: GameMode,
    pub current_pattern: Vec<Colors>,
    pub shown_color: Option<Colors>,
    pub hovered_color: Option<Colors>,
    pub mouse_pos: (u16, u16),
    pub clickables: Vec<(Colors, Area)>,
    pub current_score: u8,
}

impl GameState {
    /// A round about to start: preparing, empty pattern, nothing shown or
    /// hovered, no buttons drawn yet, score 0.
    pub fn new() -> (res: GameState)
        ensures
            res.mode == GameMode::Preparing,
            res.current_pattern@ == Seq::<Colors>::empty(),
            res.shown_color is None,
            res.hovered_color is None,
            res.mouse_pos == (0u16, 0u16),
            res.clickables@ == Seq::<(Colors, Area)>::empty(),
            res.current_score == 0,
    {
        GameState {
            mode: GameMode::Preparing,
            current_pattern: Vec::new(),
            shown_color: None,
            hovered_color: None,
            mouse_pos: (0, 0),
            clickables: Vec::new(),
            current_score: 0,
        }
    }

    /// While the player is to answer, puts the cursor on `color`; otherwise nothing changes.
    pub fn handle_hovered_color(&mut self, color: Colors)
        ensures
            old(self).mode == GameMode::AwaitingInput ==> final(self).hovered_color == Some(color),
            old(self).mode != GameMode::AwaitingInput ==> final(self).hovered_color == old(self).hovered_color,
            final(self).mode == old(self).mode,
            final(self).current_pattern == old(self).current_pattern,
            final(self).shown_color == old(self).shown_color,
            final(self).mouse_pos == old(self).mouse_pos,
            final(self).clickables == old(self).clickables,
            final(self).current_score == old(self).current_score,
    {
        if self.mode != GameMode::AwaitingInput {
            return;
        }
        self.hovered_color = Some(color);
    }

    /// Appends `iterations` colours drawn at random to `pattern` (none when
    /// `iterations` is not positive); the colours already there stay.
    pub fn add_to_pattern(pattern: &mut Vec<Colors>, iterations: i8)
        ensures
            final(pattern)@.len() == old(pattern)@.len() + (if iterations > 0 { iterations as int } else { 0 }),
            final(pattern)@.take(old(pattern)@.len() as int) == old(pattern)@,
    {
        if iterations <= 0 {
            return;
        }
        let ghost start = pattern@;
        let mut i: i8 = 0;
        while i < iterations
            invariant
                0 <= i <= iterations,
                pattern@.len() == start.len() + i,
                pattern@.take(start.len() as int) == start,
            decreases iterations - i,
        {
            let new_color = Colors::from_index(random_grid_index());
            pattern.push(new_color.unwrap());
            assert(pattern@.take(start.len() as int) == start);
            i = i + 1;
        }
    }

    /// While the player is to answer, moves the cursor on the 2x2 grid as `direction`
    /// says (see `keyboard_target`); otherwise nothing changes.
    pub fn handle_keyboard_color_selection(&mut self, direction: Key)
        ensures
            old(self).mode == GameMode::AwaitingInput ==> final(self).hovered_color
                == Some(keyboard_target(old(self).hovered_color, direction)),
            old(self).mode != GameMode::AwaitingInput ==> final(self).hovered_color == old(self).hovered_color,
            final(self).mode == old(self).mode,
            final(self).current_pattern == old(self).current_pattern,
            final(self).shown_color == old(self).shown_color,
            final(self).mouse_pos == old(self).mouse_pos,
            final(self).clickables == old(self).clickables,
            final(self).current_score == old(self).current_score,
    {
        if self.mode != GameMode::AwaitingInput {
            return;
        }
        let width: u8 = 2;
        let mut row: u8 = 0;
        let mut col: u8 = 0;
        if let Some(color) = self.hovered_color {
            let index = Colors::to_index(color);
            row = index / width;
            col = index % width;
        }
        match direction {
            Key::Up | Key::Char('w') => { row = row.saturating_sub(1); }
            Key::Down | Key::Char('s') => { row = row.saturating_add(1); }
            Key::Left | Key::Char('a') => { col = col.saturating_sub(1); }
            Key::Right | Key::Char('d') => { col = col.saturating_add(1); }
            _ => {}
        }
        if row > 1 {
            row = 1;
        }
        if col > 1 {
            col = 1;
        }
        let index = row * width + col;
        self.hovered_color = Colors::from_index(index);
    }

    /// Records where the four buttons were drawn, in drawing order: red, yellow,
    /// green, blue (the mouse finds the last one drawn where they overlap).
    pub fn set_clickables(&mut self, red: Area, yellow: Area, green: Area, blue: Area)
        ensures
            final(self).clickables@ == seq![
                (Colors::RED, red),
                (Colors::YELLOW, yellow),
                (Colors::GREEN, green),
                (Colors::BLUE, blue),
            ],
            final(self).mode == old(self).mode,
            final(self).current_pattern == old(self).current_pattern,
            final(self).shown_color == old(self).shown_color,
            final(self).hovered_color == old(self).hovered_color,
            final(self).mouse_pos == old(self).mouse_pos,
            final(self).current_score == old(self).current_score,
    {
        self.clickables.clear();
        self.clickables.push((Colors::RED, red));
        self.clickables.push((Colors::YELLOW, yellow));
        self.clickables.push((Colors::GREEN, green));
        self.clickables.push((Colors::BLUE, blue));
    }

    /// The colour of the button drawn at the cell (`x`, `y`), the one drawn last where
    /// buttons overlap; `None` off the buttons.
    pub fn color_at(&self, x: u16, y: u16) -> (res: Option<Colors>)
        ensures
            res == color_hit(self.clickables@, x, y),
    {
        let mut i = self.clickables.len();
        assert(self.clickables@.take(i as int) == self.clickables@);
        while i > 0
            invariant
                i <= self.clickables@.len(),
                color_hit(self.clickables@, x, y) == color_hit(self.clickables@.take(i as int), x, y),
            decreases i,
        {
            let (color, area) = self.clickables[i - 1];
            assert(self.clickables@.take(i as int).drop_last() == self.clickables@.take(i - 1));
            if area.contains(x, y) {
                return Some(color);
            }
            i = i - 1;
        }
        None
    }
}

/// The key that moves the cursor the opposite way.
pub open spec fn opposite_key(k: Key) -> Key {
    match k {
        Key::Up => Key::Down,
        Key::Down => Key::Up,
        Key::Left => Key::Right,
        Key::Right => Key::Left,
        Key::Char('w') => Key::Char('s'),
        Key::Char('s') => Key::Char('w'),
        Key::Char('a') => Key::Char('d'),
        Key::Char('d') => Key::Char('a'),
        _ => k,
    }
}

/// A move of the cursor over the buttons that does not stop at an edge of the
/// grid is undone by the opposite move.
pub proof fn lemma_cursor_move_undone(c: Colors, k: Key)
    requires
        keyboard_target(Some(c), k) != c,
    ensures
        keyboard_target(Some(keyboard_target(Some(c), k)), opposite_key(k)) == c,
{
    assert(color_index(Colors::RED) == 0 && color_index(Colors::YELLOW) == 1);
    assert(color_index(Colors::GREEN) == 2 && color_index(Colors::BLUE) == 3);
}

/// Without a hovered button the cursor starts from the red one.
pub proof fn lemma_cursor_starts_red(k: Key)
    ensures
        keyboard_target(None, k) == keyboard_target(Some(Colors::RED), k),
{
}

/// The button found under the mouse is one of the clickable areas, and holds the cell.
pub proof fn lemma_color_hit_sound(clickables: Seq<(Colors, Area)>, x: u16, y: u16)
    ensures
        color_hit(clickables, x, y) matches Some(c) ==> exists|i: int|
            0 <= i < clickables.len() && #[trigger] clickables[i].0 == c && clickables[i].1.spec_contains(x, y),
        color_hit(clickables, x, y) is None ==> forall|i: int|
            0 <= i < clickables.len() ==> !(#[trigger] clickables[i].1.spec_contains(x, y)),
    decreases clickables.len(),
{
    if clickables.len() > 0 {
        let rest = clickables.drop_last();
        lemma_color_hit_sound(rest, x, y);
        if clickables.last().1.spec_contains(x, y) {
            assert(clickables[clickables.len() - 1] == clickables.last());
        } else {
            assert forall|i: int| 0 <= i < rest.len() implies clickables[i] == #[trigger] rest[i] by {}
            if color_hit(clickables, x, y) is None {
                assert forall|i: int| 0 <= i < clickables.len() implies !(#[trigger] clickables[i].1.spec_contains(x, y)) by {
                    if i < rest.len() {
                        assert(clickables[i] == rest[i]);
                    }
                }
            } else {
                let c = color_hit(clickables, x, y)->0;
                let i = choose|i: int| 0 <= i < rest.len() && #[trigger] rest[i].0 == c && rest[i].1.spec_contains(x, y);
                assert(clickables[i] == rest[i]);
            }
        }
    }
}

} // verus!
