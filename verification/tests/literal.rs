use ldtk_codegen::literal::string_literal;

fn read_back(literal: &str) -> String {
    syn::parse_str::<syn::LitStr>(literal).unwrap().value()
}

#[test]
fn plain_text_stands_between_quotes() {
    assert_eq!(string_literal("path/to/asset.png"), "\"path/to/asset.png\"");
    assert_eq!(string_literal(""), "\"\"");
    assert_eq!(string_literal(" ~'{}"), "\" ~'{}\"");
}

#[test]
fn quote_and_backslash_get_a_backslash() {
    assert_eq!(string_literal("a\"b"), "\"a\\\"b\"");
    assert_eq!(string_literal("a\\b"), "\"a\\\\b\"");
}

#[test]
fn other_characters_are_written_in_hexadecimal() {
    assert_eq!(string_literal("\n"), "\"\\u{00000a}\"");
    assert_eq!(string_literal("\0"), "\"\\u{000000}\"");
    assert_eq!(string_literal("\u{7f}"), "\"\\u{00007f}\"");
    assert_eq!(string_literal("\u{e9}"), "\"\\u{0000e9}\"");
    assert_eq!(string_literal("\u{10ffff}"), "\"\\u{10ffff}\"");
    assert_eq!(string_literal("\u{1f600}"), "\"\\u{01f600}\"");
}

#[test]
fn literal_reads_back_as_the_string() {
    for value in [
        "",
        "path/to/asset.png",
        "a\"b\\c",
        "line\nbreak\r\ttab",
        "\0nul",
        "caf\u{e9} \u{1f600} \u{10ffff}",
        "\\u{41}",
        "'single' {braces}",
    ] {
        assert_eq!(read_back(&string_literal(value)), value);
    }
}

#[test]
fn every_ascii_character_reads_back() {
    let mut all = String::new();
    for byte in 0u8..128 {
        all.push(byte as char);
    }
    assert_eq!(read_back(&string_literal(&all)), all);
}

#[test]
fn literal_is_ascii() {
    assert!(string_literal("caf\u{e9}\u{2028}").is_ascii());
}

#[test]
fn distinct_strings_get_distinct_literals() {
    let values = ["", "a", "\\", "\\\\", "\"", "u{000061}", "\\u{000061}", "a}", "}", "\u{7d}"];
    for (i, left) in values.iter().enumerate() {
        for (j, right) in values.iter().enumerate() {
            assert_eq!(string_literal(left) == string_literal(right), i == j || left == right);
        }
    }
}
