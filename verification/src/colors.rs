use vstd::prelude::*;
use vstd::string::*;

verus! {

/// The four buttons of the game. The keyboard cursor moves on a 2x2 grid of
/// indices, row by row: red 0, yellow 1 (first row), green 2, blue 3 (second
/// row). On screen the buttons are drawn column by column instead: red and
/// yellow on the left, green and blue on the right.
#[derive(Debug, Clone, Copy, PartialEq, Eq, Structural)]
pub enum Colors {
    RED,
    YELLOW,
    BLUE,
    GREEN,
}

/// Index of a colour on the 2x2 grid, row by row.
pub open spec fn color_index(c: Colors) -> u8 {
    match c {
        Colors::RED => 0,
        Colors::YELLOW => 1,
        Colors::GREEN => 2,
        Colors::BLUE => 3,
    }
}

/// The colour at a grid index, if the index is on the grid.
pub open spec fn color_at_index(index: u8) -> Option<Colors> {
    if index == 0 {
        Some(Colors::RED)
    } else if index == 1 {
        Some(Colors::YELLOW)
    } else if index == 2 {
        Some(Colors::GREEN)
    } else if index == 3 {
        Some(Colors::BLUE)
    } else {
        None
    }
}

/// The name under which a colour is shown to the player.
pub open spec fn color_name(c: Colors) -> Seq<char> {
    match c {
        Colors::RED => "Red"@,
        Colors::YELLOW => "Yellow"@,
        Colors::GREEN => "Green"@,
        Colors::BLUE => "Blue"@,
    }
}

impl Colors {
    /// The colour at grid index `index`; `None` past the last button.
    pub fn from_index(index: u8) -> (res: Option<Colors>)
        ensures
            res == color_at_index(index),
            res is Some <==> index <= 3,
    {
        match index {
            0 => Some(Colors::RED),
            1 => Some(Colors::YELLOW),
            2 => Some(Colors::GREEN),
            3 => Some(Colors::BLUE),
            _ => None,
        }
    }

    /// The grid index of a colour.
    pub fn to_index(c: Colors) -> (res: u8)
        ensures
            res == color_index(c),
            res <= 3,
    {
        match c {
            Colors::RED => 0,
            Colors::YELLOW => 1,
            Colors::GREEN => 2,
            Colors::BLUE => 3,
        }
    }

    /// The colour's display name ("Red", "Yellow", "Green" or "Blue").
    pub fn to_string(&self) -> (res: String)
        ensures
            res@ == color_name(*self),
    {
        match self {
            Colors::RED => String::from_str("Red"),
            Colors::YELLOW => String::from_str("Yellow"),
            Colors::GREEN => String::from_str("Green"),
            Colors::BLUE => String::from_str("Blue"),
        }
    }
}

/// Reading a colour's index back gives the colour: the two maps between
/// colours and grid indices are inverse to each other.
pub proof fn lemma_index_round_trip(c: Colors)
    ensures
        color_at_index(color_index(c)) == Some(c),
{
}

/// Every grid index 0..=3 names a colour whose index is that number.
pub proof fn lemma_grid_index_round_trip(index: u8)
    requires
        index <= 3,
    ensures
        color_at_index(index) is Some,
        color_index(color_at_index(index)->0) == index,
{
}

} // verus!
