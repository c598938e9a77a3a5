use exercises::game::{Game, Piece};
use exercises::notation::{
    parse_move, piece_symbol, render_tiles, tile_name, tile_symbol, InvalidMove,
};

fn parsed(input: &str) -> Result<(usize, usize), String> {
    parse_move(input).map_err(|InvalidMove(text)| text)
}

#[test]
fn parse_move_reads_every_tile() {
    let rows = ['1', '2', '3'];
    let cols = [('A', 'a'), ('B', 'b'), ('C', 'c')];
    for (row, r) in rows.iter().enumerate() {
        for (col, (upper, lower)) in cols.iter().enumerate() {
            assert_eq!(parsed(&format!("{}{}", r, upper)), Ok((row, col)));
            assert_eq!(parsed(&format!("{}{}", r, lower)), Ok((row, col)));
        }
    }
}

#[test]
fn parse_move_reports_text_of_wrong_length_whole() {
    assert_eq!(parsed(""), Err(String::new()));
    assert_eq!(parsed("1"), Err("1".to_string()));
    assert_eq!(parsed("A"), Err("A".to_string()));
    assert_eq!(parsed("1AA"), Err("1AA".to_string()));
    assert_eq!(parsed("1A "), Err("1A ".to_string()));
    assert_eq!(parsed(" 1A"), Err(" 1A".to_string()));
}

#[test]
fn parse_move_reports_bad_row_whole() {
    assert_eq!(parsed("4A"), Err("4A".to_string()));
    assert_eq!(parsed("0A"), Err("0A".to_string()));
    assert_eq!(parsed("A1"), Err("A1".to_string()));
    assert_eq!(parsed("xD"), Err("xD".to_string()));
}

#[test]
fn parse_move_reports_bad_column_alone() {
    assert_eq!(parsed("1D"), Err("D".to_string()));
    assert_eq!(parsed("2d"), Err("d".to_string()));
    assert_eq!(parsed("31"), Err("1".to_string()));
    assert_eq!(parsed("1 "), Err(" ".to_string()));
}

#[test]
fn parse_move_reports_wide_characters_whole() {
    // three bytes: a row and a two-byte character
    assert_eq!(parsed("1\u{e9}"), Err("1\u{e9}".to_string()));
    assert_eq!(parsed("\u{e9}A"), Err("\u{e9}A".to_string()));
    // two bytes in one character
    assert_eq!(parsed("\u{e9}"), Err("\u{e9}".to_string()));
    // two characters of three bytes each
    assert_eq!(parsed("\u{ff11}\u{ff21}"), Err("\u{ff11}\u{ff21}".to_string()));
}

#[test]
fn invalid_move_clones_its_text() {
    let err = parse_move("9Z").unwrap_err();
    let copy = err.clone();
    assert_eq!(copy.0, "9Z");
    assert_eq!(err.0, "9Z");
}

#[test]
fn tile_name_is_row_then_column() {
    assert_eq!(tile_name(0, 0), "1A");
    assert_eq!(tile_name(0, 2), "1C");
    assert_eq!(tile_name(1, 1), "2B");
    assert_eq!(tile_name(2, 0), "3A");
    assert_eq!(tile_name(2, 2), "3C");
}

#[test]
fn tile_name_reads_back() {
    for row in 0..3 {
        for col in 0..3 {
            assert_eq!(parsed(&tile_name(row, col)), Ok((row, col)));
        }
    }
}

#[test]
fn symbols_of_pieces_and_tiles() {
    assert_eq!(piece_symbol(Piece::X), "x");
    assert_eq!(piece_symbol(Piece::O), "o");
    assert_eq!(tile_symbol(Some(Piece::X)), "x");
    assert_eq!(tile_symbol(Some(Piece::O)), "o");
    assert_eq!(tile_symbol(None), "\u{25A2}");
}

#[test]
fn empty_board_picture() {
    let game = Game::new();
    assert_eq!(
        render_tiles(game.tiles()),
        "   A B C\n 1 \u{25A2} \u{25A2} \u{25A2}\n 2 \u{25A2} \u{25A2} \u{25A2}\n 3 \u{25A2} \u{25A2} \u{25A2}\n\n"
    );
}

#[test]
fn board_picture_shows_each_piece_in_place() {
    let mut game = Game::new();
    for (row, col) in [(0, 0), (1, 1), (0, 1), (2, 0)] {
        assert!(game.make_move(row, col).is_ok());
    }
    assert_eq!(
        render_tiles(game.tiles()),
        "   A B C\n 1 x x \u{25A2}\n 2 \u{25A2} o \u{25A2}\n 3 o \u{25A2} \u{25A2}\n\n"
    );
}
