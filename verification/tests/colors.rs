use std::str::FromStr;
use twitch_message::Color;

#[test]
fn parsing() {
    let color: Color = "#ff00ff".parse().unwrap();
    assert_eq!(color, Color(0xFF, 0x00, 0xFF));

    let color: Color = "abcdef".parse().unwrap();
    assert_eq!(color, Color(0xAB, 0xCD, 0xEF));

    let color: Color = Color::from_str("123456").unwrap();
    assert_eq!(color, Color(0x12, 0x34, 0x56));

    assert_eq!(Color::parse("#AbCdEf"), Ok(Color(0xAB, 0xCD, 0xEF)));
    assert_eq!(Color::parse("000000"), Ok(Color(0, 0, 0)));
}

#[test]
fn seventh_character_is_passed_over() {
    assert_eq!(Color::parse("x123456"), Ok(Color(0x12, 0x34, 0x56)));
}

#[test]
fn plus_sign_counts_as_notation() {
    assert_eq!(Color::parse("+12345"), Ok(Color(0x01, 0x23, 0x45)));
    assert_eq!(Color::parse("#+12345"), Ok(Color(0x01, 0x23, 0x45)));
}

#[test]
fn wrong_length() {
    for input in ["", "#", "12345", "#1234567", "12345678", "é12345", "édcba98"] {
        assert_eq!(Color::parse(input), Err("invalid hex format"), "{input}");
    }
}

#[test]
fn wrong_digit() {
    for input in ["12345g", "#12345g", "-12345", "12 456", "é2345", "#é2345", "+-1234", "#+++++ "] {
        assert_eq!(Color::parse(input), Err("invalid hex digit"), "{input}");
    }
}

#[test]
fn formatting() {
    let color = Color(0xDF, 0x12, 0x34);
    assert_eq!(color.to_string(), "#DF1234");
    assert_eq!(Color(0, 10, 255).to_string(), "#000AFF");
    assert_eq!(Color(0x9A, 0xBC, 0xEF).to_string(), "#9ABCEF");
}

#[test]
fn parts() {
    let color = Color(1, 2, 3);
    assert_eq!(color.red(), 1);
    assert_eq!(color.green(), 2);
    assert_eq!(color.blue(), 3);
}

#[test]
fn default_is_white() {
    assert_eq!(Color::default(), Color(0xFF, 0xFF, 0xFF));
}

#[test]
fn written_colors_parse_back() {
    for c in [Color(0, 0, 0), Color(255, 255, 255), Color(0x12, 0xAB, 0xF0)] {
        assert_eq!(Color::parse(&c.to_string()), Ok(c));
    }
}
