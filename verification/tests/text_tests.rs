use mincc::assembler::Assembler;
use mincc::preprocessor::Preprocessor;
use mincc::text::push_decimal;
use mincc::text::push_decimal_i64;
use mincc::text::replace_str;
use mincc::text::str_eq;

#[test]
fn replace_substitutes_every_occurrence() {
    assert_eq!(replace_str("main.c", ".c", "_pp.c"), "main_pp.c");
    assert_eq!(replace_str("a.c.c", ".c", "x"), "axx");
    assert_eq!(replace_str("nothing", ".c", "x"), "nothing");
    assert_eq!(replace_str("", ".c", "x"), "");
    assert_eq!(replace_str("out.s", ".s", ""), "out");
}

#[test]
fn string_equality_is_by_characters() {
    assert!(str_eq("return", "return"));
    assert!(!str_eq("return", "retur"));
    assert!(!str_eq("", "a"));
    assert!(str_eq("", ""));
}

#[test]
fn decimal_rendering_matches_the_value() {
    let mut s = String::new();
    push_decimal(&mut s, 0);
    assert_eq!(s, "0");
    let mut s = String::new();
    push_decimal(&mut s, 907);
    assert_eq!(s, "907");
    let mut s = String::new();
    push_decimal(&mut s, u64::MAX);
    assert_eq!(s, "18446744073709551615");
}

#[test]
fn signed_decimal_rendering_handles_the_extremes() {
    let mut s = String::new();
    push_decimal_i64(&mut s, -4);
    assert_eq!(s, "-4");
    let mut s = String::new();
    push_decimal_i64(&mut s, 0);
    assert_eq!(s, "0");
    let mut s = String::new();
    push_decimal_i64(&mut s, i64::MIN);
    assert_eq!(s, "-9223372036854775808");
    let mut s = String::new();
    push_decimal_i64(&mut s, i64::MAX);
    assert_eq!(s, "9223372036854775807");
}

#[test]
fn preprocessor_derives_its_file_name() {
    let p = Preprocessor::new("src/main.c".to_owned());
    assert_eq!(p.source_filename, "src/main.c");
    assert_eq!(p.pp_filename, "src/main_pp.c");
}

#[test]
fn assembler_derives_its_output_name() {
    let a = Assembler::new(&"src/main.s".to_owned());
    assert_eq!(a.s_filename, "src/main.s");
    assert_eq!(a.output_filename, "src/main");
}
