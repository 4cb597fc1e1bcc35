use test_runner_mcp::args::{
    check_dangerous, check_token, check_value, classify_flag, validate_arguments, ArgumentError,
    ArgumentFault, FlagRule, MAX_ARGUMENTS, MAX_ARGUMENT_LENGTH,
};
use test_runner_mcp::path::{FileKind, PathError};

fn list(tokens: &[&str]) -> Vec<String> {
    tokens.iter().map(|t| t.to_string()).collect()
}

fn chars(text: &str) -> Vec<char> {
    text.chars().collect()
}

fn rejected(index: usize, fault: ArgumentFault) -> Result<(), ArgumentError> {
    Err(ArgumentError::Rejected { index, fault })
}

#[test]
fn the_empty_list_is_accepted() {
    assert_eq!(validate_arguments(&vec![]), Ok(()));
}

#[test]
fn a_list_of_fifty_is_accepted_and_of_fifty_one_is_not() {
    assert_eq!(MAX_ARGUMENTS, 50);
    let fifty: Vec<String> = (0..50).map(|_| "--color".to_string()).collect();
    assert_eq!(validate_arguments(&fifty), Ok(()));
    let more: Vec<String> = (0..51).map(|_| "--color".to_string()).collect();
    assert_eq!(
        validate_arguments(&more),
        Err(ArgumentError::TooManyArguments { count: 51 })
    );
    let bad: Vec<String> = (0..51).map(|_| "; rm".to_string()).collect();
    assert_eq!(
        validate_arguments(&bad),
        Err(ArgumentError::TooManyArguments { count: 51 })
    );
}

#[test]
fn a_dangerous_character_in_a_value_is_named() {
    let tokens = list(&["--format", "json; rm -rf /"]);
    let result = validate_arguments(&tokens);
    assert_eq!(
        result,
        rejected(1, ArgumentFault::DangerousCharacter { character: ';', position: 4 })
    );
    assert_eq!(
        result.unwrap_err().describe(&tokens),
        "Dangerous character ';' in argument: json; rm -rf /"
    );
}

#[test]
fn every_dangerous_character_is_refused() {
    for c in [';', '&', '|', '$', '`', '(', ')', '<', '>', '"', '\''] {
        assert!(check_dangerous(c), "{}", c);
        let token = format!("spec/a{}_spec.rb", c);
        assert_eq!(
            validate_arguments(&vec![token]),
            rejected(0, ArgumentFault::DangerousCharacter { character: c, position: 6 })
        );
    }
    for c in ['a', '-', '/', '.', ':', ' ', '\\', '{', '[', '*', '\u{e9}'] {
        assert!(!check_dangerous(c), "{}", c);
    }
}

#[test]
fn the_first_dangerous_character_is_the_one_reported() {
    assert_eq!(
        check_token(&chars("a$b;c")),
        Some(ArgumentFault::DangerousCharacter { character: '$', position: 1 })
    );
    assert_eq!(
        check_token(&chars("\u{e9}\u{e9}|")),
        Some(ArgumentFault::DangerousCharacter { character: '|', position: 2 })
    );
    assert_eq!(check_token(&chars("")), None);
}

#[test]
fn a_token_of_a_thousand_characters_is_accepted_and_one_more_is_not() {
    assert_eq!(MAX_ARGUMENT_LENGTH, 1000);
    let long: String = "a".repeat(1000 - "_spec.rb".len()) + "_spec.rb";
    assert_eq!(long.chars().count(), 1000);
    assert_eq!(validate_arguments(&vec![long.clone()]), Ok(()));
    let longer = format!("a{}", long);
    assert_eq!(
        validate_arguments(&vec![longer.clone()]),
        rejected(0, ArgumentFault::TooLong)
    );
    assert_eq!(
        ArgumentError::Rejected { index: 0, fault: ArgumentFault::TooLong }
            .describe(&vec![longer]),
        "Argument too long (maximum 1000 characters), got: 1001"
    );
    let wide: String = "\u{e9}".repeat(1000 - "_spec.rb".len()) + "_spec.rb";
    assert_eq!(validate_arguments(&vec![wide]), Ok(()));
    let mut bad = "a".repeat(1001);
    bad.push(';');
    assert_eq!(
        check_token(&chars(&bad)),
        Some(ArgumentFault::DangerousCharacter { character: ';', position: 1001 })
    );
}

#[test]
fn a_flag_off_the_list_is_refused() {
    let tokens = list(&["--color", "--drb", "spec/a_spec.rb"]);
    let result = validate_arguments(&tokens);
    assert_eq!(result, rejected(1, ArgumentFault::DisallowedFlag));
    assert_eq!(result.unwrap_err().describe(&tokens), "Flag not allowed: --drb");
    for flag in ["-", "--", "-x", "--Color", "--color=always", "--out=tmp/a", "-oa", "--options"] {
        assert_eq!(
            validate_arguments(&list(&[flag])),
            rejected(0, ArgumentFault::DisallowedFlag),
            "{}",
            flag
        );
    }
}

#[test]
fn the_rule_of_each_flag_on_the_list() {
    let rules = [
        ("--out", FlagRule::OutputPath),
        ("-o", FlagRule::OutputPath),
        ("--require", FlagRule::RequirePath),
        ("-r", FlagRule::RequirePath),
        ("--seed", FlagRule::Seed),
        ("--format", FlagRule::Free),
        ("-f", FlagRule::Free),
        ("--tag", FlagRule::Free),
        ("-t", FlagRule::Free),
        ("--example", FlagRule::Free),
        ("-e", FlagRule::Free),
        ("--pattern", FlagRule::Free),
        ("-P", FlagRule::Free),
        ("--order", FlagRule::Free),
        ("--deprecation-out", FlagRule::Free),
        ("--profile", FlagRule::OptionalCount),
        ("-p", FlagRule::OptionalCount),
        ("--backtrace", FlagRule::Plain),
        ("-b", FlagRule::Plain),
        ("--color", FlagRule::Plain),
        ("-c", FlagRule::Plain),
        ("--no-color", FlagRule::Plain),
        ("--force-color", FlagRule::Plain),
        ("--dry-run", FlagRule::Plain),
        ("--fail-fast", FlagRule::Plain),
        ("--no-fail-fast", FlagRule::Plain),
        ("--warnings", FlagRule::Plain),
        ("-w", FlagRule::Plain),
    ];
    assert_eq!(rules.len(), 28);
    for (flag, rule) in rules {
        assert_eq!(classify_flag(&chars(flag)), Some(rule), "{}", flag);
    }
    for other in ["", "-", "--", "-O", "-p ", "--seed=1", "out", "--outs"] {
        assert_eq!(classify_flag(&chars(other)), None, "{}", other);
    }
}

#[test]
fn flags_without_a_value_stand_alone() {
    let tokens = list(&[
        "--backtrace",
        "-b",
        "--color",
        "--no-color",
        "--dry-run",
        "--fail-fast",
        "--no-fail-fast",
        "--warnings",
        "-w",
        "spec/a_spec.rb",
    ]);
    assert_eq!(validate_arguments(&tokens), Ok(()));
}

#[test]
fn a_flag_with_a_value_takes_the_next_token() {
    for flag in [
        "--out", "-o", "--require", "-r", "--seed", "--format", "-f", "--tag", "-t", "--example",
        "-e", "--pattern", "-P", "--order", "--deprecation-out",
    ] {
        let tokens = list(&["--color", flag]);
        let result = validate_arguments(&tokens);
        assert_eq!(result, rejected(1, ArgumentFault::MissingValue), "{}", flag);
        assert_eq!(
            result.unwrap_err().describe(&tokens),
            format!("Missing value for flag: {}", flag)
        );
    }
    assert_eq!(validate_arguments(&list(&["--format", "documentation"])), Ok(()));
    assert_eq!(validate_arguments(&list(&["--format", "--color"])), Ok(()));
    assert_eq!(validate_arguments(&list(&["--tag", "~slow", "-e", "logs in"])), Ok(()));
    assert_eq!(validate_arguments(&list(&["--example", "not_a_spec.rb"])), Ok(()));
    assert_eq!(
        validate_arguments(&list(&["--format", "--format"])),
        Ok(())
    );
    assert_eq!(
        validate_arguments(&list(&["--format", "--format", "--format"])),
        rejected(2, ArgumentFault::MissingValue)
    );
}

#[test]
fn output_paths() {
    assert_eq!(validate_arguments(&list(&["--out", "tmp/rspec.txt"])), Ok(()));
    assert_eq!(validate_arguments(&list(&["-o", "log/rspec.txt"])), Ok(()));
    assert_eq!(validate_arguments(&list(&["-o", "coverage/a/b.json"])), Ok(()));
    let tokens = list(&["--out", "tmp/../etc/passwd"]);
    let result = validate_arguments(&tokens);
    assert_eq!(result, rejected(1, ArgumentFault::Traversal));
    assert_eq!(
        result.unwrap_err().describe(&tokens),
        "Path traversal not allowed for --out: tmp/../etc/passwd"
    );
    let tokens = list(&["-o", "/tmp/out.txt"]);
    let result = validate_arguments(&tokens);
    assert_eq!(result, rejected(1, ArgumentFault::AbsolutePath));
    assert_eq!(
        result.unwrap_err().describe(&tokens),
        "Absolute path not allowed for -o: /tmp/out.txt"
    );
    assert_eq!(
        validate_arguments(&list(&["-o", "/../x"])),
        rejected(1, ArgumentFault::Traversal)
    );
    let tokens = list(&["--out", "results.txt"]);
    let result = validate_arguments(&tokens);
    assert_eq!(result, rejected(1, ArgumentFault::DisallowedDirectory));
    assert_eq!(
        result.unwrap_err().describe(&tokens),
        "Output path for --out must be under tmp/, log/ or coverage/, got: results.txt"
    );
    for value in ["tmp", "tmpx/a", "logs/a", "", "spec/tmp/a", "./tmp/a"] {
        assert_eq!(
            check_value(FlagRule::OutputPath, &chars(value)),
            Some(ArgumentFault::DisallowedDirectory),
            "{}",
            value
        );
    }
    assert_eq!(check_value(FlagRule::OutputPath, &chars("tmp/")), None);
}

#[test]
fn require_paths() {
    assert_eq!(validate_arguments(&list(&["--require", "spec/spec_helper.rb"])), Ok(()));
    assert_eq!(validate_arguments(&list(&["-r", "./spec/rails_helper.rb"])), Ok(()));
    let tokens = list(&["-r", "/etc/evil.rb"]);
    let result = validate_arguments(&tokens);
    assert_eq!(result, rejected(1, ArgumentFault::AbsolutePath));
    assert_eq!(
        validate_arguments(&list(&["--require", "/../evil"])),
        rejected(1, ArgumentFault::AbsolutePath)
    );
    let tokens = list(&["--require", "spec/../../evil.rb"]);
    let result = validate_arguments(&tokens);
    assert_eq!(result, rejected(1, ArgumentFault::Traversal));
    let tokens = list(&["--require", "spec_helper"]);
    let result = validate_arguments(&tokens);
    assert_eq!(result, rejected(1, ArgumentFault::WrongExtension));
    assert_eq!(
        result.unwrap_err().describe(&tokens),
        "Required file for --require must end with .rb, got: spec_helper"
    );
    assert_eq!(check_value(FlagRule::RequirePath, &chars(".rb")), None);
    assert_eq!(
        check_value(FlagRule::RequirePath, &chars("a.rbx")),
        Some(ArgumentFault::WrongExtension)
    );
}

#[test]
fn seeds_are_numbers() {
    assert_eq!(validate_arguments(&list(&["--seed", "0"])), Ok(()));
    assert_eq!(validate_arguments(&list(&["--seed", "12345"])), Ok(()));
    assert_eq!(validate_arguments(&list(&["--seed", "007"])), Ok(()));
    for value in ["", "-5", "+5", "1.5", "12a", "0x10", " 1", "random", "\u{661}"] {
        let tokens = list(&["--seed", value]);
        let result = validate_arguments(&tokens);
        assert_eq!(result, rejected(1, ArgumentFault::NonNumericValue), "{:?}", value);
        assert_eq!(
            result.unwrap_err().describe(&tokens),
            format!("Value for --seed must be a non-negative integer, got: {}", value)
        );
    }
}

#[test]
fn profile_takes_a_count_only_where_one_follows() {
    assert_eq!(validate_arguments(&list(&["--profile"])), Ok(()));
    assert_eq!(validate_arguments(&list(&["-p", "10"])), Ok(()));
    assert_eq!(validate_arguments(&list(&["--profile", "--color"])), Ok(()));
    assert_eq!(validate_arguments(&list(&["--profile", "5", "spec/a_spec.rb"])), Ok(()));
    assert_eq!(
        validate_arguments(&list(&["--profile", "spec/a_spec.rb"])),
        rejected(1, ArgumentFault::NonNumericValue)
    );
    assert_eq!(
        validate_arguments(&list(&["--profile", ""])),
        rejected(1, ArgumentFault::NonNumericValue)
    );
    assert_eq!(
        validate_arguments(&list(&["--profile", "1;"])),
        rejected(1, ArgumentFault::DangerousCharacter { character: ';', position: 1 })
    );
    assert_eq!(
        validate_arguments(&list(&["--profile", "--drb"])),
        rejected(1, ArgumentFault::DisallowedFlag)
    );
}

#[test]
fn a_bare_token_is_an_rspec_file() {
    assert_eq!(validate_arguments(&list(&["spec/x_spec.rb"])), Ok(()));
    assert_eq!(validate_arguments(&list(&["./spec/x_spec.rb", "spec/y_spec.rb"])), Ok(()));
    let tokens = list(&["spec/x_spec.rb", "spec/y.rb"]);
    let result = validate_arguments(&tokens);
    assert_eq!(
        result,
        rejected(1, ArgumentFault::InvalidFile(PathError::WrongKind(FileKind::Rspec)))
    );
    assert_eq!(
        result.unwrap_err().describe(&tokens),
        "File must be an RSpec test file (*_spec.rb): spec/y.rb"
    );
    assert_eq!(
        validate_arguments(&list(&["spec/x_spec.rb", "../y_spec.rb"])),
        rejected(1, ArgumentFault::InvalidFile(PathError::Traversal))
    );
    assert_eq!(
        validate_arguments(&list(&["a\n_spec.rb"])),
        rejected(0, ArgumentFault::InvalidFile(PathError::InvalidCharacters))
    );
    assert_eq!(
        validate_arguments(&list(&["_spec.rb"])),
        rejected(0, ArgumentFault::InvalidFile(PathError::Malformed))
    );
    assert_eq!(
        validate_arguments(&list(&[""])),
        rejected(0, ArgumentFault::InvalidFile(PathError::WrongKind(FileKind::Rspec)))
    );
    assert_eq!(
        validate_arguments(&list(&["spec/x_spec.rb:37"])),
        rejected(0, ArgumentFault::InvalidFile(PathError::WrongKind(FileKind::Rspec)))
    );
    assert_eq!(
        validate_arguments(&list(&["spec/x.cy.js"])),
        rejected(0, ArgumentFault::InvalidFile(PathError::WrongKind(FileKind::Rspec)))
    );
}

#[test]
fn the_first_token_that_breaks_a_rule_is_reported() {
    assert_eq!(
        validate_arguments(&list(&["--drb", "a;b"])),
        rejected(0, ArgumentFault::DisallowedFlag)
    );
    assert_eq!(
        validate_arguments(&list(&["--color", "spec/a_spec.rb", "x.rb", "--drb", "a;b"])),
        rejected(2, ArgumentFault::InvalidFile(PathError::WrongKind(FileKind::Rspec)))
    );
    assert_eq!(
        validate_arguments(&list(&["--se;ed", "1"])),
        rejected(0, ArgumentFault::DangerousCharacter { character: ';', position: 4 })
    );
}

#[test]
fn validating_a_list_twice_gives_the_same_outcome() {
    for tokens in [
        list(&[]),
        list(&["--format", "json; rm -rf /"]),
        list(&["spec/x_spec.rb", "spec/y.rb"]),
        list(&["--seed", "4", "spec/x_spec.rb"]),
    ] {
        assert_eq!(validate_arguments(&tokens), validate_arguments(&tokens));
    }
}

#[test]
fn describe_is_total() {
    let error = ArgumentError::Rejected { index: 7, fault: ArgumentFault::DisallowedFlag };
    assert_eq!(error.describe(&vec![]), "Flag not allowed: ");
    let error = ArgumentError::Rejected { index: 0, fault: ArgumentFault::NonNumericValue };
    assert_eq!(
        error.describe(&list(&["x"])),
        "Value for  must be a non-negative integer, got: x"
    );
    let error = ArgumentError::Rejected {
        index: 0,
        fault: ArgumentFault::DangerousCharacter { character: ';', position: 9 },
    };
    assert_eq!(error.describe(&list(&["x"])), "Dangerous character '' in argument: x");
    let error = ArgumentError::TooManyArguments { count: 51 };
    assert_eq!(error.describe(&vec![]), "Too many arguments (maximum 50), got: 51");
}
