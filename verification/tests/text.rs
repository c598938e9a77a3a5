use exercises::text::{count_spaces, is_white_space, trim, trim_end};

#[test]
fn count_spaces_counts_the_space_character_only() {
    assert_eq!(count_spaces(""), 0);
    assert_eq!(count_spaces("word"), 0);
    assert_eq!(count_spaces(" "), 1);
    assert_eq!(count_spaces("a b c"), 2);
    assert_eq!(count_spaces("  two  by  two  "), 8);
    assert_eq!(count_spaces("tab\there\n"), 0);
    assert_eq!(count_spaces("no\u{a0}break"), 0);
    assert_eq!(count_spaces("You are tearing me apart, Lisa!\n"), 5);
    assert_eq!(count_spaces("\u{1f680} to the \u{1f319}"), 3);
}

#[test]
fn white_space_is_what_the_standard_library_calls_so() {
    for code in 0..=0x10ffff_u32 {
        if let Some(c) = char::from_u32(code) {
            assert_eq!(is_white_space(c), c.is_whitespace(), "U+{:04X}", code);
        }
    }
}

#[test]
fn trim_end_removes_trailing_white_space() {
    assert_eq!(trim_end(""), "");
    assert_eq!(trim_end("1A\n"), "1A");
    assert_eq!(trim_end("1A\r\n"), "1A");
    assert_eq!(trim_end("  1A  "), "  1A");
    assert_eq!(trim_end(" \t\n"), "");
    assert_eq!(trim_end("a b"), "a b");
    assert_eq!(trim_end("\u{e9}t\u{e9}\u{3000}\u{2028}"), "\u{e9}t\u{e9}");
}

#[test]
fn trim_removes_white_space_at_both_ends() {
    assert_eq!(trim(""), "");
    assert_eq!(trim("42\n"), "42");
    assert_eq!(trim("  42  "), "42");
    assert_eq!(trim("\t4 2\r\n"), "4 2");
    assert_eq!(trim(" \n "), "");
    assert_eq!(trim("\u{a0}--baby\u{2003}"), "--baby");
}

#[test]
fn trimming_agrees_with_the_standard_library() {
    let pieces = ["", " ", "\n", "\r\n", "\t", "\u{85}", "\u{3000}", "a", "\u{e9}", "\u{200b}", "x y"];
    for a in pieces {
        for b in pieces {
            for c in pieces {
                for d in pieces {
                    let text = format!("{}{}{}{}", a, b, c, d);
                    assert_eq!(trim(&text), text.trim(), "{:?}", text);
                    assert_eq!(trim_end(&text), text.trim_end(), "{:?}", text);
                }
            }
        }
    }
}
