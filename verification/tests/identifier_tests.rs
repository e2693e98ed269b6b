use mincc::identifier::IdentifierToken;

#[test]
fn test_identifiers() {
    let passing_test_cases = [
        ("_", IdentifierToken { name: "_".to_owned() }, ""),
        ("__", IdentifierToken { name: "__".to_owned() }, ""),
        ("_123", IdentifierToken { name: "_123".to_owned() }, ""),
        ("_abc", IdentifierToken { name: "_abc".to_owned() }, ""),
        ("abc", IdentifierToken { name: "abc".to_owned() }, ""),
        ("abc123", IdentifierToken { name: "abc123".to_owned() }, ""),
        ("abc_123", IdentifierToken { name: "abc_123".to_owned() }, ""),
        ("abc 123", IdentifierToken { name: "abc".to_owned() }, " 123"),
        ("abc(", IdentifierToken { name: "abc".to_owned() }, "("),
        ("abc{", IdentifierToken { name: "abc".to_owned() }, "{"),
        ("abc)", IdentifierToken { name: "abc".to_owned() }, ")"),
        ("abc}", IdentifierToken { name: "abc".to_owned() }, "}"),
        ("abc;", IdentifierToken { name: "abc".to_owned() }, ";"),
        ("_abc_;", IdentifierToken { name: "_abc_".to_owned() }, ";"),
    ];

    for (input, expected_output, expected_remaining_input) in passing_test_cases {
        let (remaining_input, output) = IdentifierToken::parse(input).unwrap();
        assert_eq!(output, expected_output);
        assert_eq!(remaining_input, expected_remaining_input);
    }

    let failing_test_cases = ["123", "{", "}", "(", ")", ";"];

    for input in failing_test_cases {
        match IdentifierToken::parse(input) {
            Ok(_) => panic!("expected a failure on {:?}", input),
            Err(e) => assert_eq!(e.input, input),
        }
    }
}

#[test]
fn first_char_accepts_letter_runs_and_underscore() {
    let (rem, matched) = mincc::identifier::parse_identifier_first_char("abc123").unwrap();
    assert_eq!(matched, "abc");
    assert_eq!(rem, "123");

    let (rem, matched) = mincc::identifier::parse_identifier_first_char("_abc").unwrap();
    assert_eq!(matched, "_");
    assert_eq!(rem, "abc");

    let err = mincc::identifier::parse_identifier_first_char("9abc").unwrap_err();
    assert_eq!(err.input, "9abc");
}

#[test]
fn remaining_chars_never_fail() {
    let (rem, matched) = mincc::identifier::parse_identifier_remaining_chars("ab_9-x").unwrap();
    assert_eq!(matched, "ab_9");
    assert_eq!(rem, "-x");

    let (rem, matched) = mincc::identifier::parse_identifier_remaining_chars("").unwrap();
    assert_eq!(matched, "");
    assert_eq!(rem, "");
}
