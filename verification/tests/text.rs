use shell_core::text::{chars_of, is_whitespace, join, same_text, split_fields, split_words, trim};

fn strings(items: &[&str]) -> Vec<String> {
    items.iter().map(|item| item.to_string()).collect()
}

#[test]
fn whitespace_is_what_unicode_calls_white_space() {
    let mut code: u32 = 0;
    while code <= 0x10FFFF {
        if let Some(c) = char::from_u32(code) {
            assert_eq!(is_whitespace(c), c.is_whitespace(), "U+{:04X}", code);
        }
        code += 1;
    }
}

#[test]
fn whitespace_holds_of_each_listed_code_point() {
    let listed = [
        '\t', '\n', '\u{0B}', '\u{0C}', '\r', ' ', '\u{85}', '\u{A0}', '\u{1680}', '\u{2000}',
        '\u{2005}', '\u{200A}', '\u{2028}', '\u{2029}', '\u{202F}', '\u{205F}', '\u{3000}',
    ];
    for c in listed {
        assert!(is_whitespace(c), "U+{:04X}", c as u32);
    }
    for c in ['a', '0', '/', '\u{08}', '\u{0E}', '\u{1F}', '\u{200B}', '\u{FEFF}'] {
        assert!(!is_whitespace(c), "U+{:04X}", c as u32);
    }
}

#[test]
fn chars_of_lists_every_character() {
    assert_eq!(chars_of(""), Vec::<char>::new());
    assert_eq!(chars_of("ab c"), vec!['a', 'b', ' ', 'c']);
    assert_eq!(chars_of("é∀"), vec!['é', '∀']);
}

#[test]
fn same_text_compares_exactly() {
    assert!(same_text("", ""));
    assert!(same_text("echo", "echo"));
    assert!(!same_text("echo", "Echo"));
    assert!(!same_text("echo", "echo "));
    assert!(!same_text("ech", "echo"));
}

#[test]
fn split_words_of_nothing_is_nothing() {
    assert_eq!(split_words(""), Vec::<String>::new());
    assert_eq!(split_words("   "), Vec::<String>::new());
    assert_eq!(split_words("\t\n \r"), Vec::<String>::new());
}

#[test]
fn split_words_drops_runs_of_whitespace() {
    assert_eq!(split_words("echo a b   c"), strings(&["echo", "a", "b", "c"]));
    assert_eq!(split_words("  ls\t-l \n"), strings(&["ls", "-l"]));
    assert_eq!(split_words("one"), strings(&["one"]));
    assert_eq!(split_words("a\u{A0}b\u{3000}c"), strings(&["a", "b", "c"]));
}

#[test]
fn split_words_knows_no_quotes() {
    assert_eq!(split_words("echo \"a  b\""), strings(&["echo", "\"a", "b\""]));
}

#[test]
fn split_words_agrees_with_split_whitespace() {
    let lines = [
        "",
        " ",
        "a",
        " a",
        "a ",
        "  echo   hello\tworld  ",
        "type  type",
        "x\u{2003}y z\u{85}",
        "é  ∀∃ \u{1F600}",
    ];
    for line in lines {
        let expected: Vec<String> = line.split_whitespace().map(|w| w.to_string()).collect();
        assert_eq!(split_words(line), expected, "{:?}", line);
    }
}

#[test]
fn trim_cuts_both_ends_only() {
    assert_eq!(trim(""), "");
    assert_eq!(trim("   "), "");
    assert_eq!(trim("exit\n"), "exit");
    assert_eq!(trim("  echo  a  b \t"), "echo  a  b");
    assert_eq!(trim("a"), "a");
    assert_eq!(trim("\u{A0}é \u{3000}"), "é");
}

#[test]
fn trim_agrees_with_std() {
    for line in ["", " ", "a", " a", "a ", " a b ", "\t\r\n", "x\n", "\u{2028}y z\u{2029}"] {
        assert_eq!(trim(line), line.trim(), "{:?}", line);
    }
}

#[test]
fn split_fields_keeps_empty_fields() {
    assert_eq!(split_fields("", ':'), strings(&[""]));
    assert_eq!(split_fields("/bin", ':'), strings(&["/bin"]));
    assert_eq!(split_fields("/bin:/usr/bin", ':'), strings(&["/bin", "/usr/bin"]));
    assert_eq!(split_fields("a::b", ':'), strings(&["a", "", "b"]));
    assert_eq!(split_fields(":a:", ':'), strings(&["", "a", ""]));
    assert_eq!(split_fields("a;b:c", ';'), strings(&["a", "b:c"]));
}

#[test]
fn split_fields_agrees_with_split() {
    for source in ["", ":", "::", "a", "a:", ":a", "a:b:c", "/usr/bin:/bin::/opt/é/bin"] {
        let expected: Vec<String> = source.split(':').map(|f| f.to_string()).collect();
        assert_eq!(split_fields(source, ':'), expected, "{:?}", source);
    }
}

#[test]
fn join_puts_the_separator_between() {
    assert_eq!(join(&strings(&[]), " "), "");
    assert_eq!(join(&strings(&["a"]), " "), "a");
    assert_eq!(join(&strings(&["a", "b", "c"]), " "), "a b c");
    assert_eq!(join(&strings(&["a", "", "c"]), ", "), "a, , c");
    assert_eq!(join(&strings(&["", ""]), ":"), ":");
}

#[test]
fn join_undoes_split_fields() {
    for source in ["", ":", "a", "a::b", "/usr/bin:/bin:"] {
        assert_eq!(join(&split_fields(source, ':'), ":"), source);
    }
}

#[test]
fn words_hold_no_whitespace() {
    for line in ["  a  bc\td \n", "x\u{A0}y", "   ", "echo \u{3000} hi"] {
        for word in split_words(line) {
            assert!(!word.is_empty(), "{:?}", line);
            assert!(!word.chars().any(is_whitespace), "{:?}", line);
        }
    }
}

#[test]
fn words_ignore_the_margins() {
    for line in ["", "  ", " a ", "\techo  hi \r\n", "a b", "\u{2003}x\u{2003}"] {
        assert_eq!(split_words(trim(line)), split_words(line), "{:?}", line);
    }
}

#[test]
fn fields_hold_no_separator() {
    for source in ["", ":", "a::b", "/usr/bin:/bin:", ":x"] {
        let found = split_fields(source, ':');
        assert_eq!(found.len(), source.matches(':').count() + 1);
        for field in found {
            assert!(!field.contains(':'), "{:?}", source);
        }
    }
}

#[test]
fn same_text_tells_prefixes_apart() {
    assert!(!same_text("", "a"));
    assert!(!same_text("a", ""));
    assert!(!same_text("exit", "exi"));
    assert!(!same_text("exi", "exit"));
    assert!(same_text("é∀", "é∀"));
    assert!(!same_text("é∀", "é∃"));
}
