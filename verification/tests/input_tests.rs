use tic_tac_toe::input::{is_space, parse_number};
use tic_tac_toe::text::{decimal_string, digit_text};
use tic_tac_toe::{validate, Board, ParseError, Symbol, ValidationError};

#[test]
fn validate_accepts_each_index_on_an_empty_board() {
    let board = Board::new();
    for pos in 0..9usize {
        assert_eq!(validate(&pos.to_string(), &board), Ok(pos));
    }
}

#[test]
fn validate_accepts_a_line_as_it_is_read_with_its_newline() {
    let board = Board::new();
    assert_eq!(validate("3\n", &board), Ok(3));
    assert_eq!(validate("  7 \r\n", &board), Ok(7));
    assert_eq!(validate("\t0", &board), Ok(0));
}

#[test]
fn validate_accepts_a_plus_sign_and_leading_zeros() {
    let board = Board::new();
    assert_eq!(validate("+4", &board), Ok(4));
    assert_eq!(validate("007", &board), Ok(7));
    assert_eq!(validate("+000", &board), Ok(0));
}

#[test]
fn validate_rejects_non_numeric_input() {
    let board = Board::new();
    assert_eq!(
        validate("abc", &board),
        Err(ValidationError::Parse(ParseError::InvalidDigit))
    );
    assert_eq!(
        validate("1 2", &board),
        Err(ValidationError::Parse(ParseError::InvalidDigit))
    );
    assert_eq!(
        validate("2.0", &board),
        Err(ValidationError::Parse(ParseError::InvalidDigit))
    );
}

#[test]
fn validate_rejects_a_negative_number_as_not_a_number() {
    let board = Board::new();
    assert_eq!(
        validate("-1", &board),
        Err(ValidationError::Parse(ParseError::InvalidDigit))
    );
}

#[test]
fn validate_rejects_empty_and_blank_input() {
    let board = Board::new();
    assert_eq!(validate("", &board), Err(ValidationError::Parse(ParseError::Empty)));
    assert_eq!(validate("\n", &board), Err(ValidationError::Parse(ParseError::Empty)));
    assert_eq!(validate("   ", &board), Err(ValidationError::Parse(ParseError::Empty)));
}

#[test]
fn validate_rejects_a_sign_alone() {
    let board = Board::new();
    assert_eq!(
        validate("+", &board),
        Err(ValidationError::Parse(ParseError::InvalidDigit))
    );
    assert_eq!(
        validate("-", &board),
        Err(ValidationError::Parse(ParseError::InvalidDigit))
    );
}

#[test]
fn validate_rejects_out_of_range_input() {
    let board = Board::new();
    assert_eq!(validate("9", &board), Err(ValidationError::OutOfRange(9)));
    assert_eq!(validate("10", &board), Err(ValidationError::OutOfRange(10)));
    assert_eq!(validate(" 42\n", &board), Err(ValidationError::OutOfRange(42)));
    assert_eq!(
        validate(&usize::MAX.to_string(), &board),
        Err(ValidationError::OutOfRange(usize::MAX))
    );
}

#[test]
fn validate_rejects_a_number_that_does_not_fit() {
    let board = Board::new();
    assert_eq!(
        validate("340282366920938463463374607431768211456", &board),
        Err(ValidationError::Parse(ParseError::PosOverflow))
    );
    let mut one_more = usize::MAX.to_string();
    one_more.push('0');
    assert_eq!(
        validate(&one_more, &board),
        Err(ValidationError::Parse(ParseError::PosOverflow))
    );
}

#[test]
fn validate_rejects_an_occupied_cell_and_names_its_mark() {
    let mut board = Board::new();
    board.replace(4, Symbol::X);
    board.replace(8, Symbol::O);
    assert_eq!(validate("4", &board), Err(ValidationError::Occupied(4, Symbol::X)));
    assert_eq!(validate("8\n", &board), Err(ValidationError::Occupied(8, Symbol::O)));
    assert_eq!(validate("5", &board), Ok(5));
}

#[test]
fn validate_does_not_change_the_board() {
    let mut board = Board::new();
    board.replace(1, Symbol::O);
    let before = board.render();
    for line in ["abc", "9", "-1", "1", "", "3"] {
        let _ = validate(line, &board);
        assert_eq!(board.render(), before);
    }
}

#[test]
fn the_index_an_empty_cell_shows_is_a_valid_move() {
    let mut board = Board::new();
    board.replace(0, Symbol::X);
    board.replace(6, Symbol::O);
    let text: Vec<char> = board.render().chars().collect();
    for pos in 0..9usize {
        let shown = text[25 + 36 * (pos / 3) + 4 * (pos % 3)].to_string();
        if board.cell(pos).is_none() {
            assert_eq!(validate(&shown, &board), Ok(pos));
        } else {
            assert!(validate(&shown, &board).is_err());
        }
    }
}

#[test]
fn whitespace_is_what_the_standard_library_calls_whitespace() {
    let mut code = 0u32;
    while code <= 0x10FFFF {
        if let Some(c) = char::from_u32(code) {
            assert_eq!(is_space(c), c.is_whitespace(), "U+{:04X}", code);
        }
        code += 1;
    }
}

fn kind_of(error: &std::num::ParseIntError) -> ParseError {
    match error.kind() {
        std::num::IntErrorKind::Empty => ParseError::Empty,
        std::num::IntErrorKind::InvalidDigit => ParseError::InvalidDigit,
        std::num::IntErrorKind::PosOverflow => ParseError::PosOverflow,
        other => panic!("unexpected kind {:?}", other),
    }
}

#[test]
fn parse_number_reads_what_trim_and_parse_read() {
    let max = usize::MAX.to_string();
    let over = format!("{}0", max);
    let over_then_letter = format!("{}0x", max);
    let max_then_letter = format!("{}x", max);
    let samples = [
        "", " ", "0", "8", "9", "+", "-", "+0", "-0", "+-1", "++1", "1+", "12abc", "abc",
        " 5 ", "\t5\n", "\u{a0}6\u{2003}", "\u{3000}7", "5\u{200b}", "\u{663}", "1_000",
        "0000000000000000000000000000000000000001", "18446744073709551615",
        "18446744073709551616", "4294967295", "4294967296", "99999999999999999999999999",
        max.as_str(), over.as_str(), over_then_letter.as_str(), max_then_letter.as_str(),
        "x99999999999999999999999999", "9x9999999999999999999999999",
    ];
    for sample in samples {
        let expected = sample.trim().parse::<usize>().map_err(|e| kind_of(&e));
        assert_eq!(parse_number(sample), expected, "sample {:?}", sample);
    }
}

#[test]
fn parse_error_messages_are_those_of_the_standard_library() {
    let empty = "".parse::<usize>().unwrap_err();
    let invalid = "x".parse::<usize>().unwrap_err();
    let overflow = "99999999999999999999999999".parse::<usize>().unwrap_err();
    assert_eq!(ParseError::Empty.message(), empty.to_string());
    assert_eq!(ParseError::InvalidDigit.message(), invalid.to_string());
    assert_eq!(ParseError::PosOverflow.message(), overflow.to_string());
    assert_eq!(ParseError::Empty.message(), "cannot parse integer from empty string");
    assert_eq!(ParseError::InvalidDigit.message(), "invalid digit found in string");
    assert_eq!(
        ParseError::PosOverflow.message(),
        "number too large to fit in target type"
    );
}

#[test]
fn validation_error_messages_name_what_was_wrong() {
    assert_eq!(
        ValidationError::Parse(ParseError::InvalidDigit).message(),
        "Couldnt parse input: invalid digit found in string"
    );
    assert_eq!(
        ValidationError::Parse(ParseError::Empty).message(),
        "Couldnt parse input: cannot parse integer from empty string"
    );
    assert_eq!(ValidationError::OutOfRange(9).message(), "Input '9' is out of range");
    assert_eq!(
        ValidationError::OutOfRange(1234567890).message(),
        "Input '1234567890' is out of range"
    );
    assert_eq!(
        ValidationError::Occupied(4, Symbol::X).message(),
        "Position 4 is already taken with X"
    );
    assert_eq!(
        ValidationError::Occupied(0, Symbol::O).message(),
        "Position 0 is already taken with O"
    );
}

#[test]
fn decimal_string_writes_numbers_as_the_standard_library_does() {
    for n in [0usize, 1, 8, 9, 10, 11, 99, 100, 101, 12345, 1000000, usize::MAX - 1, usize::MAX] {
        assert_eq!(decimal_string(n), n.to_string());
    }
    assert_eq!(decimal_string(0), "0");
    assert_eq!(decimal_string(907), "907");
}

#[test]
fn digit_text_is_the_digit() {
    let digits = ["0", "1", "2", "3", "4", "5", "6", "7", "8", "9"];
    for d in 0..10usize {
        assert_eq!(digit_text(d), digits[d]);
    }
}

#[test]
fn decimal_string_is_read_back_as_the_number() {
    for n in [0usize, 7, 8, 9, 10, 4096, usize::MAX] {
        assert_eq!(parse_number(&decimal_string(n)), Ok(n));
        assert_eq!(parse_number(&format!("  {}\n", decimal_string(n))), Ok(n));
    }
}
