use fourinarow_client::field::{classify_choice, read_choice, Choice, Field, Player};
use fourinarow_client::session::Direction;
use fourinarow_client::stamp::LocalTime;

#[test]
fn new_field_is_empty() {
    let f = Field::new();
    for x in 0..7 {
        for y in 0..7 {
            assert_eq!(f.cell(x, y), None);
        }
    }
    assert_eq!(f.last_drop(), 0);
}

#[test]
fn pieces_stack_in_their_column() {
    let mut f = Field::new();
    f.drop(3, Player::X);
    assert_eq!(f.cell(3, 0), Some(Player::X));
    assert_eq!(f.last_drop(), 3);
    f.drop(3, Player::O);
    assert_eq!(f.cell(3, 1), Some(Player::O));
    assert_eq!(f.cell(2, 0), None);
    assert_eq!(f.cell(4, 0), None);
}

#[test]
fn full_column_is_left_alone() {
    let mut f = Field::new();
    for _ in 0..7 {
        f.drop(5, Player::X);
    }
    f.drop(2, Player::O);
    f.drop(5, Player::O);
    for y in 0..7 {
        assert_eq!(f.cell(5, y), Some(Player::X));
    }
    assert_eq!(f.last_drop(), 2);
}

#[test]
fn column_off_the_board_is_ignored() {
    let mut f = Field::new();
    f.drop(7, Player::X);
    f.drop(usize::MAX, Player::X);
    for x in 0..7 {
        assert_eq!(f.cell(x, 0), None);
    }
}

#[test]
fn auto_drop_plays_o_in_first_column() {
    let mut f = Field::new();
    f.drop(4, Player::X);
    f.auto_drop();
    assert_eq!(f.cell(0, 0), Some(Player::O));
    assert_eq!(f.last_drop(), 0);
}

#[test]
fn empty_field_renders() {
    let f = Field::new();
    let row = format!("{}\u{e2}\u{201d}\u{20ac}  \n", "  ".repeat(6));
    let expected = format!("v 1 2 3 4 5 6 {}", row.repeat(7));
    assert_eq!(f.render(), expected);
}

#[test]
fn rendered_field_shows_pieces_and_last_drop() {
    let mut f = Field::new();
    f.drop(6, Player::X);
    f.auto_drop();
    let r = f.render();
    assert!(r.starts_with("v 1 2 3 4 5 6 X "));
    assert!(r.contains("\u{e2}\u{201d}\u{20ac}O \n"));
    f.drop(2, Player::X);
    assert!(f.render().starts_with("0 1 v 3 4 5 6 "));
}

#[test]
fn q_quits_the_game() {
    assert_eq!(read_choice("q\n"), Choice::Quit);
    assert_eq!(read_choice("  q  "), Choice::Quit);
    assert_eq!(read_choice("Q\n"), Choice::Again);
}

#[test]
fn column_choices() {
    assert_eq!(read_choice("3\n"), Choice::Column(3));
    assert_eq!(read_choice(" 0 "), Choice::Column(0));
    assert_eq!(read_choice("6"), Choice::Column(6));
    assert_eq!(read_choice("7\n"), Choice::Again);
    assert_eq!(read_choice("abc\n"), Choice::Again);
    assert_eq!(read_choice("\n"), Choice::Again);
    assert_eq!(classify_choice("q", None), Choice::Quit);
    assert_eq!(classify_choice("q", Some(2)), Choice::Column(2));
    assert_eq!(classify_choice("99", Some(99)), Choice::Again);
}

#[test]
fn markers_are_timestamped() {
    let t = LocalTime::new(5, 3, 2024, 9, 7, 2).unwrap();
    assert_eq!(t.marker(Direction::In), ">> [05.03.24 - 09:07:02]: ");
    assert_eq!(t.marker(Direction::Out), "<< [05.03.24 - 09:07:02]: ");
    let t = LocalTime::new(31, 12, 1999, 23, 59, 60).unwrap();
    assert_eq!(t.marker(Direction::In), ">> [31.12.99 - 23:59:60]: ");
}

#[test]
fn out_of_range_times_are_refused() {
    assert!(LocalTime::new(0, 1, 2024, 0, 0, 0).is_none());
    assert!(LocalTime::new(1, 13, 2024, 0, 0, 0).is_none());
    assert!(LocalTime::new(1, 1, 2024, 24, 0, 0).is_none());
    assert!(LocalTime::new(1, 1, 2024, 0, 60, 0).is_none());
    assert!(LocalTime::new(1, 1, 2024, 0, 0, 61).is_none());
}
