use test_runner_mcp::command::{
    build_invocation, build_shell_invocation, check_space, split_words, Invocation,
};
use test_runner_mcp::decimal::{append_i32, append_nat, check_numeric, i32_text};
use test_runner_mcp::path::normalize_path;
use test_runner_mcp::text::{
    chars_of, contains_char, contains_seq, ends_with, find_char, is_text, matches_at, same_chars,
    starts_with,
};

fn chars(text: &str) -> Vec<char> {
    text.chars().collect()
}

fn list(tokens: &[&str]) -> Vec<String> {
    tokens.iter().map(|t| t.to_string()).collect()
}

#[test]
fn words_are_the_runs_between_white_space() {
    assert_eq!(split_words("bundle exec rspec"), list(&["bundle", "exec", "rspec"]));
    assert_eq!(split_words("  npx\tcypress \n run  --spec "), list(&["npx", "cypress", "run", "--spec"]));
    assert_eq!(split_words("rspec"), list(&["rspec"]));
    assert_eq!(split_words(""), list(&[]));
    assert_eq!(split_words(" \t\r\n"), list(&[]));
    assert_eq!(split_words("a\u{a0}b\u{3000}c\u{2003}d\u{85}e"), list(&["a", "b", "c", "d", "e"]));
    assert_eq!(split_words("\u{e9}t\u{e9} x"), list(&["\u{e9}t\u{e9}", "x"]));
}

#[test]
fn words_agree_with_the_standard_split() {
    for text in [
        "bundle exec rspec",
        " a  b ",
        "",
        "x",
        "\u{1680}a\u{2028}b\u{2029}c\u{202f}d\u{205f}e\u{200a}f\u{2000}g",
        "a\u{200b}b \u{feff}c",
        "a\u{b}b\u{c}c\u{1c}d",
    ] {
        let expected: Vec<String> = text.split_whitespace().map(|w| w.to_string()).collect();
        assert_eq!(split_words(text), expected, "{:?}", text);
    }
}

#[test]
fn white_space_is_what_the_standard_library_calls_so() {
    let mut code: u32 = 0;
    while code <= 0x3100 {
        if let Some(c) = char::from_u32(code) {
            assert_eq!(check_space(c), c.is_whitespace(), "{:x}", code);
        }
        code += 1;
    }
    assert!(!check_space('\u{10ffff}'));
}

#[test]
fn the_program_is_the_first_word_and_the_rest_are_arguments() {
    let invocation = build_invocation("bundle exec rspec", list(&["spec/a_spec.rb:37:87"]));
    assert_eq!(
        invocation,
        Some(Invocation::Direct {
            program: "bundle".to_string(),
            args: list(&["exec", "rspec", "spec/a_spec.rb:37:87"]),
        })
    );
    let invocation = build_invocation("rspec", list(&[]));
    assert_eq!(
        invocation,
        Some(Invocation::Direct { program: "rspec".to_string(), args: list(&[]) })
    );
    let invocation = build_invocation(" rspec ", list(&["-e", "logs in", ""]));
    assert_eq!(
        invocation,
        Some(Invocation::Direct {
            program: "rspec".to_string(),
            args: list(&["-e", "logs in", ""]),
        })
    );
}

#[test]
fn a_command_without_a_word_has_no_invocation() {
    assert_eq!(build_invocation("", list(&["spec/a_spec.rb"])), None);
    assert_eq!(build_invocation("  \t ", list(&[])), None);
}

#[test]
fn the_shell_gets_the_command_and_the_path_as_one_line() {
    assert_eq!(
        build_shell_invocation("npx cypress run --spec", "cypress/e2e/t.cy.js"),
        Invocation::Shell { command: "npx cypress run --spec cypress/e2e/t.cy.js".to_string() }
    );
    assert_eq!(
        build_shell_invocation("", ""),
        Invocation::Shell { command: " ".to_string() }
    );
}

#[test]
fn the_command_line_joins_with_single_blanks() {
    let invocation = Invocation::Direct {
        program: "bundle".to_string(),
        args: list(&["exec", "rspec", "--seed", "4"]),
    };
    assert_eq!(invocation.command_line(), "bundle exec rspec --seed 4");
    let invocation = Invocation::Direct { program: "rspec".to_string(), args: list(&[]) };
    assert_eq!(invocation.command_line(), "rspec");
    let invocation = Invocation::Shell { command: "cd x && y".to_string() };
    assert_eq!(invocation.command_line(), "cd x && y");
}

#[test]
fn decimal_notation() {
    assert_eq!(i32_text(0), "0");
    assert_eq!(i32_text(7), "7");
    assert_eq!(i32_text(10), "10");
    assert_eq!(i32_text(-1), "-1");
    assert_eq!(i32_text(1234567890), "1234567890");
    assert_eq!(i32_text(i32::MAX), "2147483647");
    assert_eq!(i32_text(i32::MIN), "-2147483648");
    for v in [-1000, -999, -10, -9, 9, 99, 100, 101, 65535] {
        assert_eq!(i32_text(v), v.to_string());
    }
    let mut text = "x=".to_string();
    append_i32(&mut text, -40);
    append_nat(&mut text, 0);
    append_nat(&mut text, u64::MAX);
    assert_eq!(text, "x=-40018446744073709551615");
}

#[test]
fn numbers_are_digits_only() {
    for text in ["0", "1", "0123456789", "00"] {
        assert!(check_numeric(&chars(text)), "{}", text);
    }
    for text in ["", "-1", "+1", "1 ", "1e3", "/", ":", "\u{ff11}"] {
        assert!(!check_numeric(&chars(text)), "{}", text);
    }
}

#[test]
fn searches_on_characters() {
    let s = chars("a/b/../c_spec.rb");
    assert_eq!(chars_of("a/b/../c_spec.rb"), s);
    assert_eq!(chars_of("\u{e9}\u{1f600}"), vec!['\u{e9}', '\u{1f600}']);
    assert!(contains_char(&s, '_'));
    assert!(!contains_char(&s, '\n'));
    assert_eq!(find_char(&s, '/'), Some(1));
    assert_eq!(find_char(&s, 'a'), Some(0));
    assert_eq!(find_char(&s, 'z'), None);
    assert_eq!(find_char(&chars(""), 'z'), None);
    assert!(matches_at(&s, &chars("../"), 4));
    assert!(!matches_at(&s, &chars("../"), 3));
    assert!(matches_at(&s, &chars(""), 16));
    assert!(!matches_at(&s, &chars(""), 17));
    assert!(!matches_at(&s, &chars("rb"), usize::MAX));
    assert!(contains_seq(&s, &chars("../")));
    assert!(contains_seq(&s, &chars("")));
    assert!(contains_seq(&s, &s));
    assert!(!contains_seq(&s, &chars("./.")));
    assert!(!contains_seq(&chars(".."), &chars("../")));
    assert!(starts_with(&s, &chars("a/")));
    assert!(!starts_with(&s, &chars("/")));
    assert!(ends_with(&s, &chars("_spec.rb")));
    assert!(!ends_with(&s, &chars("_spec.r")));
    assert!(!ends_with(&chars("b"), &chars("ab")));
    assert!(same_chars(&s, &s));
    assert!(!same_chars(&s, &chars("a")));
    assert!(is_text(&s, "a/b/../c_spec.rb"));
    assert!(!is_text(&s, "a/b/../c_spec.rc"));
}

#[test]
fn normalize_removes_the_working_directory() {
    assert_eq!(
        normalize_path("cypress/cypress/e2e/t.cy.js", "cypress"),
        "cypress/e2e/t.cy.js"
    );
    assert_eq!(normalize_path("cypress/e2e/t.cy.js", "cypress"), "e2e/t.cy.js");
    assert_eq!(normalize_path("cypress/e2e/t.cy.js", "cypress/"), "e2e/t.cy.js");
    assert_eq!(normalize_path("cypress/e2e/t.cy.js", "cypress///"), "e2e/t.cy.js");
    assert_eq!(normalize_path("./cypress/e2e/t.cy.js", "cypress"), "e2e/t.cy.js");
    assert_eq!(normalize_path("app/cypress/e2e/t.cy.js", "app/cypress"), "e2e/t.cy.js");
}

#[test]
fn normalize_leaves_other_paths_unchanged() {
    assert_eq!(normalize_path("cypress/e2e/t.cy.js", "."), "cypress/e2e/t.cy.js");
    assert_eq!(normalize_path("./cypress/e2e/t.cy.js", "."), "./cypress/e2e/t.cy.js");
    assert_eq!(normalize_path("", "."), "");
    assert_eq!(normalize_path("e2e/t.cy.js", "cypress"), "e2e/t.cy.js");
    assert_eq!(normalize_path("./e2e/t.cy.js", "cypress"), "./e2e/t.cy.js");
    assert_eq!(normalize_path("cypresses/t.cy.js", "cypress"), "cypresses/t.cy.js");
    assert_eq!(normalize_path("cypress", "cypress"), "cypress");
    assert_eq!(normalize_path("x/cypress/t.cy.js", "cypress"), "x/cypress/t.cy.js");
    assert_eq!(normalize_path("././cypress/t.cy.js", "cypress"), "././cypress/t.cy.js");
}

#[test]
fn normalize_with_unusual_directories() {
    assert_eq!(normalize_path("/abs/t.cy.js", ""), "abs/t.cy.js");
    assert_eq!(normalize_path("/abs/t.cy.js", "/"), "abs/t.cy.js");
    assert_eq!(normalize_path("rel/t.cy.js", "/"), "rel/t.cy.js");
    assert_eq!(normalize_path("./t.cy.js", "./"), "./t.cy.js");
    assert_eq!(normalize_path("\u{e9}t\u{e9}/t\u{e9}.cy.js", "\u{e9}t\u{e9}"), "t\u{e9}.cy.js");
}
