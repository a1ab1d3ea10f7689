use ratatui::style::Style;
use ratatui::text::Line;
use tic_of_war::player::Player;

#[test]
fn characters_of_the_marks() {
    assert_eq!(Player::Cross.to_char(), 'X');
    assert_eq!(Player::Nought.to_char(), 'O');
    assert_eq!(Player::Empty.to_char(), ' ');
}

fn shown(art: &[Line<'static>]) -> Vec<String> {
    art.iter().map(|line| line.to_string()).collect()
}

#[test]
fn glyph_of_cross() {
    let art = Player::Cross.to_ascii();
    assert_eq!(
        shown(&art),
        vec![
            "__   __",
            "\\ \\ / /",
            " \\ V / ",
            "  > <  ",
            " / . \\ ",
            "/_/ \\_\\",
        ]
    );
}

#[test]
fn glyph_of_nought() {
    let art = Player::Nought.to_ascii();
    assert_eq!(
        shown(&art),
        vec![
            "  ____  ",
            " / __ \\ ",
            "| |  | |",
            "| |  | |",
            "| |__| |",
            " \\____/ ",
        ]
    );
}

#[test]
fn glyph_of_the_empty_mark_is_blank() {
    let art = Player::Empty.to_ascii();
    assert_eq!(shown(&art), vec!["        "; 6]);
}

#[test]
fn glyph_lines_are_plain_lines() {
    let art = Player::Cross.to_ascii();
    assert_eq!(art.len(), 6);
    assert_eq!(art[0], Line::from("__   __"));
    assert_eq!(art[3], Line::from("  > <  "));
    assert_eq!(art[3].spans.len(), 1);
    assert_eq!(art[3].spans[0].content, "  > <  ");
    assert_eq!(art[3].spans[0].style, Style::default());
    assert_eq!(art[3].style, Style::default());
    assert_eq!(art[3].alignment, None);
    assert_eq!(art[3].width(), 7);
    let art = Player::Nought.to_ascii();
    assert_eq!(art[5], Line::from(" \\____/ "));
    assert_eq!(art[5].width(), 8);
}
