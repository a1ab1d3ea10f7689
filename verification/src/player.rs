//! The marks that can stand in a cell, and how each one is shown.

use ratatui::text::Line;
use vstd::prelude::*;

verus! {

/// What a cell holds, whose turn it is, or who has won.
///
/// `Empty` is a cell without a mark; as a winner it means that nobody has
/// won.
#[derive(Clone, Copy, Debug, PartialEq, Eq, PartialOrd, Structural)]
pub enum Player {
    Nought,
    Cross,
    Empty,
}

/// `ratatui::text::Line`, a line of terminal text. Nothing is known of
/// what a line holds but what `line_text` and `is_plain_line` say of it.
#[verifier::external_type_specification]
#[verifier::external_body]
pub struct ExLine<'a>(ratatui::text::Line<'a>);

/// The characters that a line shows: the contents of its spans, one after
/// another.
pub uninterp spec fn line_text(line: Line<'static>) -> Seq<char>;

/// The line is plain: it consists of exactly one span, neither the span
/// nor the line sets a style, and the line sets no alignment.
pub uninterp spec fn is_plain_line(line: Line<'static>) -> bool;

/// `Line::from` on a string slice: the line it makes holds the slice as its
/// only span and sets no style and no alignment, so it is a plain line
/// that shows exactly the characters of the slice.
#[verifier::external_body]
fn line_from(text: &'static str) -> (line: Line<'static>)
    ensures
        line_text(line) == text@,
        is_plain_line(line),
{
    Line::from(text)
}

impl Player {
    /// The other player; the empty mark has no opponent and stays as it is.
    pub open spec fn opponent(self) -> Player {
        match self {
            Player::Cross => Player::Nought,
            Player::Nought => Player::Cross,
            Player::Empty => Player::Empty,
        }
    }

    /// The character that stands for this mark.
    pub open spec fn symbol(self) -> char {
        match self {
            Player::Empty => ' ',
            Player::Cross => 'X',
            Player::Nought => 'O',
        }
    }

    /// The six rows of this mark's large glyph, top to bottom.
    pub open spec fn glyph(self) -> Seq<Seq<char>> {
        match self {
            Player::Empty => seq![
                "        "@,
                "        "@,
                "        "@,
                "        "@,
                "        "@,
                "        "@,
            ],
            Player::Cross => seq![
                "__   __"@,
                "\\ \\ / /"@,
                " \\ V / "@,
                "  > <  "@,
                " / . \\ "@,
                "/_/ \\_\\"@,
            ],
            Player::Nought => seq![
                "  ____  "@,
                " / __ \\ "@,
                "| |  | |"@,
                "| |  | |"@,
                "| |__| |"@,
                " \\____/ "@,
            ],
        }
    }

    /// The glyph of this mark as six plain lines of text, top to bottom,
    /// ready to be drawn.
    pub fn to_ascii(&self) -> (art: Vec<Line<'static>>)
        ensures
            art@.len() == 6,
            forall|i: int|
                0 <= i < 6 ==> line_text(#[trigger] art@[i]) == self.glyph()[i] && is_plain_line(
                    art@[i],
                ),
    {
        match self {
            Player::Empty => vec![
                line_from("        "),
                line_from("        "),
                line_from("        "),
                line_from("        "),
                line_from("        "),
                line_from("        "),
            ],
            Player::Cross => vec![
                line_from("__   __"),
                line_from("\\ \\ / /"),
                line_from(" \\ V / "),
                line_from("  > <  "),
                line_from(" / . \\ "),
                line_from("/_/ \\_\\"),
            ],
            Player::Nought => vec![
                line_from("  ____  "),
                line_from(" / __ \\ "),
                line_from("| |  | |"),
                line_from("| |  | |"),
                line_from("| |__| |"),
                line_from(" \\____/ "),
            ],
        }
    }

    /// The character that stands for this mark: `'X'`, `'O'`, or a space
    /// for the empty mark.
    pub fn to_char(&self) -> (c: char)
        ensures
            c == self.symbol(),
    {
        match self {
            Player::Empty => ' ',
            Player::Cross => 'X',
            Player::Nought => 'O',
        }
    }
}

} // verus!
