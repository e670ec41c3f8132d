use scilla::error::ErrorKind;
use scilla::params::{
    non_empty_trimmed, parse_u8, strip_home_prefix, trim, trim_and_parse, white_space, Commission,
    InputError,
};
use std::str::FromStr;

#[test]
fn white_space_is_what_unicode_calls_so() {
    for n in 0..=0x10ffffu32 {
        if let Some(c) = char::from_u32(n) {
            assert_eq!(white_space(c), c.is_whitespace(), "U+{:04X}", n);
        }
    }
}

#[test]
fn trim_removes_white_space_around_a_text() {
    let samples = [
        "",
        " ",
        "\t\n\r ",
        "abc",
        "  abc",
        "abc  ",
        "  a b  c \n",
        "\u{3000}12\u{a0}",
        "\u{2003}\u{2028}x\u{85}",
        " \u{feff} ",
        "x\u{200b}",
        "é ü",
        "  ⚡ Scilla  ",
        "\u{1680}1\u{180e}",
    ];
    for sample in samples {
        assert_eq!(trim(sample), sample.trim(), "{:?}", sample);
    }
    assert_eq!(trim("  42 \n"), "42");
    assert_eq!(trim(" a  b "), "a  b");
}

#[test]
fn trimmed_text_is_none_when_nothing_is_left() {
    assert_eq!(non_empty_trimmed(""), None);
    assert_eq!(non_empty_trimmed(" \t\u{3000}"), None);
    assert_eq!(non_empty_trimmed(" 1.5 "), Some("1.5"));
}

#[test]
fn parse_u8_reads_what_the_standard_library_reads() {
    let samples = [
        "", "+", "-", "0", "7", "42", "100", "255", "256", "260", "999", "1000", "+0", "+255",
        "+256", "-0", "-1", "++1", "+-1", "00", "007", "0000000000000000000000000255",
        "0000000000000000000000000256", "1 ", " 1", "1_0", "12a", "a12", "1.0", "１２", "٣", "0x10",
        "1e2", "25599999999999999999999999999",
    ];
    for sample in samples {
        assert_eq!(parse_u8(sample), sample.parse::<u8>().ok(), "{:?}", sample);
    }
    for n in 0..=300u32 {
        let text = n.to_string();
        assert_eq!(parse_u8(&text), text.parse::<u8>().ok());
    }
    assert_eq!(parse_u8("200"), Some(200));
    assert_eq!(parse_u8("+9"), Some(9));
    assert_eq!(parse_u8("256"), None);
}

#[test]
fn trim_and_parse_tells_empty_from_invalid() {
    assert_eq!(trim_and_parse("", "commission"), Ok(None));
    assert_eq!(trim_and_parse("   \n", "commission"), Ok(None));
    assert_eq!(trim_and_parse(" 12 ", "commission"), Ok(Some(12)));
    assert_eq!(
        trim_and_parse("  12 %  ", "commission"),
        Err(InputError::InvalidNumber { field: "commission".to_string(), text: "12 %".to_string() })
    );
    assert_eq!(
        trim_and_parse("300", "amount"),
        Err(InputError::InvalidNumber { field: "amount".to_string(), text: "300".to_string() })
    );
}

#[test]
fn commission_defaults_to_zero() {
    assert_eq!(Commission::parse("").unwrap().value(), 0);
    assert_eq!(Commission::parse("  ").unwrap().value(), 0);
    assert_eq!(Commission::from_str("").unwrap().value(), 0);
}

#[test]
fn commission_is_between_zero_and_one_hundred() {
    assert_eq!(Commission::parse("0").unwrap().value(), 0);
    assert_eq!(Commission::parse(" 5 ").unwrap().value(), 5);
    assert_eq!(Commission::parse("100").unwrap().value(), 100);
    assert_eq!(Commission::from_str("+42").unwrap().value(), 42);
    assert_eq!(
        Commission::parse("101").unwrap_err(),
        InputError::CommissionOutOfRange { value: 101 }
    );
    assert_eq!(
        Commission::parse("255").unwrap_err(),
        InputError::CommissionOutOfRange { value: 255 }
    );
    assert_eq!(
        Commission::parse("256").unwrap_err(),
        InputError::InvalidNumber { field: "commission".to_string(), text: "256".to_string() }
    );
    assert_eq!(
        Commission::from_str("-1").unwrap_err(),
        InputError::InvalidNumber { field: "commission".to_string(), text: "-1".to_string() }
    );
    assert_eq!(
        Commission::parse("ten").unwrap_err(),
        InputError::InvalidNumber { field: "commission".to_string(), text: "ten".to_string() }
    );
}

#[test]
fn commission_from_a_number() {
    assert_eq!(Commission::new(100).map(|c| c.value()), Some(100));
    assert_eq!(Commission::new(0).map(|c| c.value()), Some(0));
    assert!(Commission::new(101).is_none());
}

#[test]
fn home_prefix_is_split_off() {
    let samples = ["~/", "~/.config/solana/id.json", "~", "", "/~/x", "~x/y", "~/é/ü", " ~/x", "~//x"];
    for sample in samples {
        assert_eq!(strip_home_prefix(sample), sample.strip_prefix("~/"), "{:?}", sample);
    }
    assert_eq!(strip_home_prefix("~/keys/id.json"), Some("keys/id.json"));
    assert_eq!(strip_home_prefix("/home/me/id.json"), None);
}

#[test]
fn refused_scalars_are_failures_of_input_validation() {
    assert_eq!(Commission::parse("101").unwrap_err().kind(), ErrorKind::InputValidation);
    assert_eq!(Commission::parse("x").unwrap_err().kind(), ErrorKind::InputValidation);
}
