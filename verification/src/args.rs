//! Validation of a raw argument list for RSpec.
//!
//! Nothing is allowed unless a rule allows it: a flag must be on the list
//! below, a value must have the shape that its flag asks for, and no token may
//! hold a character that a shell would act on. The first token that breaks a
//! rule rejects the whole list.

use vstd::prelude::*;
use vstd::string::StringExecFns;
use crate::decimal::{append_nat, check_numeric, is_numeric, nat_digits};
use crate::path::{path_error_text, path_verdict, validate_path_chars, FileKind, PathError};
use crate::text::{
    chars_of, contains_seq, ends_with, has_substring, is_text, starts_with, texts,
};

verus! {

/// The most tokens that a list may hold.
pub const MAX_ARGUMENTS: usize = 50;

/// The most characters that a token may hold.
pub const MAX_ARGUMENT_LENGTH: usize = 1000;

/// What a flag asks of the token after it.
#[derive(Clone, Copy, Debug, PartialEq, Eq, Structural)]
pub enum FlagRule {
    /// The flag stands alone.
    Plain,
    /// The next token is a file to write to.
    OutputPath,
    /// The next token is a Ruby file to load.
    RequirePath,
    /// The next token is a number.
    Seed,
    /// The next token is a value of any shape.
    Free,
    /// The next token, unless it is a flag, is a number.
    OptionalCount,
}

/// What is wrong with a token.
#[derive(Clone, Copy, Debug, PartialEq, Eq, Structural)]
pub enum ArgumentFault {
    /// The token holds `character` at `position`, and no dangerous
    /// character before it.
    DangerousCharacter { character: char, position: usize },
    /// The token holds more than `MAX_ARGUMENT_LENGTH` characters.
    TooLong,
    /// The token is a flag that is not on the list.
    DisallowedFlag,
    /// The token is a flag that asks for a value, and the list ends with it.
    MissingValue,
    /// The token is the value of a flag that asks for a number, and is none.
    NonNumericValue,
    /// The token is a path that starts at the root.
    AbsolutePath,
    /// The token is a path that holds `../`.
    Traversal,
    /// The token is a file to write to, outside the directories for output.
    DisallowedDirectory,
    /// The token is a file to load that does not end in `.rb`.
    WrongExtension,
    /// The token is a test file that breaks a rule for RSpec files.
    InvalidFile(PathError),
}

/// Why a list was rejected.
#[derive(Clone, Copy, Debug, PartialEq, Eq, Structural)]
pub enum ArgumentError {
    /// The list holds `count` tokens, more than `MAX_ARGUMENTS`.
    TooManyArguments { count: usize },
    /// The token at `index` is the first that breaks a rule.
    Rejected { index: usize, fault: ArgumentFault },
}

/// `c` is a character that a shell acts on.
pub open spec fn is_dangerous(c: char) -> bool {
    ||| c == ';'
    ||| c == '&'
    ||| c == '|'
    ||| c == '$'
    ||| c == '`'
    ||| c == '('
    ||| c == ')'
    ||| c == '<'
    ||| c == '>'
    ||| c == '"'
    ||| c == '\''
}

/// The index of the first dangerous character in `s`, or `s.len()` where it
/// holds none.
pub open spec fn dangerous_index(s: Seq<char>) -> int
    decreases s.len(),
{
    if s.len() == 0 || is_dangerous(s[0]) {
        0
    } else {
        1 + dangerous_index(s.drop_first())
    }
}

/// What is wrong with a token whatever its role: its first dangerous
/// character, or else its length.
pub open spec fn token_fault(s: Seq<char>) -> Option<ArgumentFault> {
    let at = dangerous_index(s);
    if at < s.len() {
        Some(ArgumentFault::DangerousCharacter { character: s[at], position: at as usize })
    } else if s.len() > MAX_ARGUMENT_LENGTH {
        Some(ArgumentFault::TooLong)
    } else {
        None
    }
}

/// `t` is written as a flag: it begins with `-`.
pub open spec fn is_flag(t: Seq<char>) -> bool {
    t.len() > 0 && t[0] == '-'
}

/// The rule of a flag that is on the list, and `None` for any other.
pub open spec fn flag_rule(f: Seq<char>) -> Option<FlagRule> {
    if f == "--out"@ || f == "-o"@ {
        Some(FlagRule::OutputPath)
    } else if f == "--require"@ || f == "-r"@ {
        Some(FlagRule::RequirePath)
    } else if f == "--seed"@ {
        Some(FlagRule::Seed)
    } else if f == "--format"@ || f == "-f"@ || f == "--tag"@ || f == "-t"@ || f == "--example"@
        || f == "-e"@ || f == "--pattern"@ || f == "-P"@ || f == "--order"@ || f
        == "--deprecation-out"@ {
        Some(FlagRule::Free)
    } else if f == "--profile"@ || f == "-p"@ {
        Some(FlagRule::OptionalCount)
    } else if f == "--backtrace"@ || f == "-b"@ || f == "--color"@ || f == "-c"@ || f
        == "--no-color"@ || f == "--force-color"@ || f == "--dry-run"@ || f == "--fail-fast"@ || f
        == "--no-fail-fast"@ || f == "--warnings"@ || f == "-w"@ {
        Some(FlagRule::Plain)
    } else {
        None
    }
}

/// `v` is a path that starts at the root.
pub open spec fn is_absolute(v: Seq<char>) -> bool {
    v.len() > 0 && v[0] == '/'
}

/// `v` lies under one of the directories that output may go to.
pub open spec fn in_output_directory(v: Seq<char>) -> bool {
    "tmp/"@.is_prefix_of(v) || "log/"@.is_prefix_of(v) || "coverage/"@.is_prefix_of(v)
}

/// What is wrong with `v` as the value of a flag with `rule`: what is wrong
/// with it as a token, or else the first demand of the rule that it does not
/// meet.
pub open spec fn value_fault(rule: FlagRule, v: Seq<char>) -> Option<ArgumentFault> {
    if token_fault(v) is Some {
        token_fault(v)
    } else {
        match rule {
            FlagRule::OutputPath => if has_substring(v, "../"@) {
                Some(ArgumentFault::Traversal)
            } else if is_absolute(v) {
                Some(ArgumentFault::AbsolutePath)
            } else if !in_output_directory(v) {
                Some(ArgumentFault::DisallowedDirectory)
            } else {
                None
            },
            FlagRule::RequirePath => if is_absolute(v) {
                Some(ArgumentFault::AbsolutePath)
            } else if has_substring(v, "../"@) {
                Some(ArgumentFault::Traversal)
            } else if !".rb"@.is_suffix_of(v) {
                Some(ArgumentFault::WrongExtension)
            } else {
                None
            },
            FlagRule::Seed | FlagRule::OptionalCount => if !is_numeric(v) {
                Some(ArgumentFault::NonNumericValue)
            } else {
                None
            },
            FlagRule::Free | FlagRule::Plain => None,
        }
    }
}

/// The rejection of the token at `index` for `fault`.
pub open spec fn rejected(index: int, fault: ArgumentFault) -> Result<(), ArgumentError> {
    Err(ArgumentError::Rejected { index: index as usize, fault })
}

/// The verdict on the tokens from index `i` on, read from the left. A token
/// is first judged as a token. One that is not written as a flag is a test
/// file for RSpec. A flag must be on the list; where its rule asks for a
/// value, the next token is that value whatever it looks like, and the list
/// may not end before it; where its rule takes a count, the next token is
/// that count unless it is written as a flag.
pub open spec fn verdict_from(tokens: Seq<Seq<char>>, i: int) -> Result<(), ArgumentError>
    decreases tokens.len() - i,
{
    if i < 0 || i >= tokens.len() {
        Ok(())
    } else if token_fault(tokens[i]) is Some {
        rejected(i, token_fault(tokens[i])->Some_0)
    } else if !is_flag(tokens[i]) {
        match path_verdict(tokens[i], FileKind::Rspec) {
            Err(e) => rejected(i, ArgumentFault::InvalidFile(e)),
            Ok(()) => verdict_from(tokens, i + 1),
        }
    } else {
        match flag_rule(tokens[i]) {
            None => rejected(i, ArgumentFault::DisallowedFlag),
            Some(FlagRule::Plain) => verdict_from(tokens, i + 1),
            Some(FlagRule::OptionalCount) => if i + 1 < tokens.len() && !is_flag(tokens[i + 1]) {
                match value_fault(FlagRule::OptionalCount, tokens[i + 1]) {
                    Some(fault) => rejected(i + 1, fault),
                    None => verdict_from(tokens, i + 2),
                }
            } else {
                verdict_from(tokens, i + 1)
            },
            Some(rule) => if i + 1 >= tokens.len() {
                rejected(i, ArgumentFault::MissingValue)
            } else {
                match value_fault(rule, tokens[i + 1]) {
                    Some(fault) => rejected(i + 1, fault),
                    None => verdict_from(tokens, i + 2),
                }
            },
        }
    }
}

/// The verdict on a list of tokens: the empty list is accepted, a list of
/// more than `MAX_ARGUMENTS` tokens is rejected for its length, and any
/// other for the first token that breaks a rule.
pub open spec fn arguments_verdict(tokens: Seq<Seq<char>>) -> Result<(), ArgumentError> {
    if tokens.len() > MAX_ARGUMENTS {
        Err(ArgumentError::TooManyArguments { count: tokens.len() as usize })
    } else {
        verdict_from(tokens, 0)
    }
}

/// `dangerous_index` is within bounds, no character before it is dangerous,
/// and the character at it is, where there is one.
pub proof fn lemma_dangerous_index(s: Seq<char>)
    ensures
        0 <= dangerous_index(s) <= s.len(),
        forall|j: int| 0 <= j < dangerous_index(s) ==> !is_dangerous(s[j]),
        dangerous_index(s) < s.len() ==> is_dangerous(s[dangerous_index(s)]),
    decreases s.len(),
{
    if s.len() == 0 || is_dangerous(s[0]) {
    } else {
        let rest = s.drop_first();
        lemma_dangerous_index(rest);
        let k = dangerous_index(rest);
        assert forall|j: int| 0 <= j < 1 + k implies !is_dangerous(s[j]) by {
            if j > 0 {
                assert(rest[j - 1] == s[j]);
            }
        }
        if k < rest.len() {
            assert(rest[k] == s[k + 1]);
        }
    }
}

/// An index that holds the first dangerous character, or the length where
/// no character is dangerous, is the one `dangerous_index` names.
pub proof fn lemma_dangerous_index_unique(s: Seq<char>, i: int)
    requires
        0 <= i <= s.len(),
        forall|j: int| 0 <= j < i ==> !is_dangerous(s[j]),
        i < s.len() ==> is_dangerous(s[i]),
    ensures
        dangerous_index(s) == i,
{
    lemma_dangerous_index(s);
    let k = dangerous_index(s);
    if k < i {
        assert(!is_dangerous(s[k]));
    }
}

/// Whether `c` is a character that a shell acts on.
pub fn check_dangerous(c: char) -> (dangerous: bool)
    ensures
        dangerous == is_dangerous(c),
{
    c == ';' || c == '&' || c == '|' || c == '$' || c == '`' || c == '(' || c == ')' || c == '<'
        || c == '>' || c == '"' || c == '\''
}

/// Judges the characters `t` as a token.
pub fn check_token(t: &Vec<char>) -> (fault: Option<ArgumentFault>)
    ensures
        fault == token_fault(t@),
{
    let mut i: usize = 0;
    while i < t.len()
        invariant
            i <= t.len(),
            forall|j: int| 0 <= j < i ==> !is_dangerous(t@[j]),
        decreases t.len() - i,
    {
        if check_dangerous(t[i]) {
            proof {
                lemma_dangerous_index_unique(t@, i as int);
            }
            return Some(ArgumentFault::DangerousCharacter { character: t[i], position: i });
        }
        i += 1;
    }
    proof {
        lemma_dangerous_index_unique(t@, i as int);
    }
    if t.len() > MAX_ARGUMENT_LENGTH {
        Some(ArgumentFault::TooLong)
    } else {
        None
    }
}

/// The rule of the flag with the characters `f`, if it is on the list.
pub fn classify_flag(f: &Vec<char>) -> (rule: Option<FlagRule>)
    ensures
        rule == flag_rule(f@),
{
    if is_text(f, "--out") || is_text(f, "-o") {
        Some(FlagRule::OutputPath)
    } else if is_text(f, "--require") || is_text(f, "-r") {
        Some(FlagRule::RequirePath)
    } else if is_text(f, "--seed") {
        Some(FlagRule::Seed)
    } else if is_text(f, "--format") || is_text(f, "-f") || is_text(f, "--tag") || is_text(f, "-t")
        || is_text(f, "--example") || is_text(f, "-e") || is_text(f, "--pattern") || is_text(
        f,
        "-P",
    ) || is_text(f, "--order") || is_text(f, "--deprecation-out") {
        Some(FlagRule::Free)
    } else if is_text(f, "--profile") || is_text(f, "-p") {
        Some(FlagRule::OptionalCount)
    } else if is_text(f, "--backtrace") || is_text(f, "-b") || is_text(f, "--color") || is_text(
        f,
        "-c",
    ) || is_text(f, "--no-color") || is_text(f, "--force-color") || is_text(f, "--dry-run")
        || is_text(f, "--fail-fast") || is_text(f, "--no-fail-fast") || is_text(f, "--warnings")
        || is_text(f, "-w") {
        Some(FlagRule::Plain)
    } else {
        None
    }
}

/// Judges the characters `v` as the value of a flag with `rule`.
pub fn check_value(rule: FlagRule, v: &Vec<char>) -> (fault: Option<ArgumentFault>)
    ensures
        fault == value_fault(rule, v@),
{
    let fault = check_token(v);
    if fault.is_some() {
        return fault;
    }
    match rule {
        FlagRule::OutputPath => {
            if contains_seq(v, &chars_of("../")) {
                Some(ArgumentFault::Traversal)
            } else if v.len() > 0 && v[0] == '/' {
                Some(ArgumentFault::AbsolutePath)
            } else if !(starts_with(v, &chars_of("tmp/")) || starts_with(v, &chars_of("log/"))
                || starts_with(v, &chars_of("coverage/"))) {
                Some(ArgumentFault::DisallowedDirectory)
            } else {
                None
            }
        },
        FlagRule::RequirePath => {
            if v.len() > 0 && v[0] == '/' {
                Some(ArgumentFault::AbsolutePath)
            } else if contains_seq(v, &chars_of("../")) {
                Some(ArgumentFault::Traversal)
            } else if !ends_with(v, &chars_of(".rb")) {
                Some(ArgumentFault::WrongExtension)
            } else {
                None
            }
        },
        FlagRule::Seed | FlagRule::OptionalCount => {
            if !check_numeric(v) {
                Some(ArgumentFault::NonNumericValue)
            } else {
                None
            }
        },
        FlagRule::Free | FlagRule::Plain => None,
    }
}

/// Validates a raw argument list: `Ok` exactly for the lists that break no
/// rule, and otherwise the length of a list that is too long, or the first
/// token that breaks a rule and what is wrong with it.
pub fn validate_arguments(tokens: &Vec<String>) -> (res: Result<(), ArgumentError>)
    ensures
        res == arguments_verdict(texts(tokens@)),
{
    let n: usize = tokens.len();
    if n > MAX_ARGUMENTS {
        return Err(ArgumentError::TooManyArguments { count: n });
    }
    let ghost all = texts(tokens@);
    let mut i: usize = 0;
    while i < n
        invariant
            i <= n,
            n == tokens.len(),
            all == texts(tokens@),
            arguments_verdict(all) == verdict_from(all, i as int),
        decreases n - i,
    {
        let token = chars_of(tokens[i].as_str());
        assert(token@ == all[i as int]);
        match check_token(&token) {
            Some(fault) => {
                return Err(ArgumentError::Rejected { index: i, fault });
            },
            None => {},
        }
        if !(token.len() > 0 && token[0] == '-') {
            match validate_path_chars(&token, FileKind::Rspec) {
                Err(e) => {
                    return Err(
                        ArgumentError::Rejected { index: i, fault: ArgumentFault::InvalidFile(e) },
                    );
                },
                Ok(()) => {
                    i += 1;
                },
            }
        } else {
            match classify_flag(&token) {
                None => {
                    return Err(
                        ArgumentError::Rejected { index: i, fault: ArgumentFault::DisallowedFlag },
                    );
                },
                Some(FlagRule::Plain) => {
                    i += 1;
                },
                Some(FlagRule::OptionalCount) => {
                    if i + 1 < n {
                        let value = chars_of(tokens[i + 1].as_str());
                        assert(value@ == all[i + 1]);
                        if !(value.len() > 0 && value[0] == '-') {
                            match check_value(FlagRule::OptionalCount, &value) {
                                Some(fault) => {
                                    return Err(ArgumentError::Rejected { index: i + 1, fault });
                                },
                                None => {
                                    i += 2;
                                },
                            }
                        } else {
                            i += 1;
                        }
                    } else {
                        i += 1;
                    }
                },
                Some(rule) => {
                    if i + 1 >= n {
                        return Err(
                            ArgumentError::Rejected {
                                index: i,
                                fault: ArgumentFault::MissingValue,
                            },
                        );
                    }
                    let value = chars_of(tokens[i + 1].as_str());
                    assert(value@ == all[i + 1]);
                    match check_value(rule, &value) {
                        Some(fault) => {
                            return Err(ArgumentError::Rejected { index: i + 1, fault });
                        },
                        None => {
                            i += 2;
                        },
                    }
                },
            }
        }
    }
    Ok(())
}

/// A list is accepted only if it holds at most `MAX_ARGUMENTS` tokens, each
/// of at most `MAX_ARGUMENT_LENGTH` characters and none of them dangerous.
pub proof fn law_accepted_arguments(tokens: Seq<Seq<char>>)
    requires
        arguments_verdict(tokens) is Ok,
    ensures
        tokens.len() <= MAX_ARGUMENTS,
        forall|i: int|
            0 <= i < tokens.len() ==> (#[trigger] tokens[i]).len() <= MAX_ARGUMENT_LENGTH
                && forall|j: int| 0 <= j < tokens[i].len() ==> !is_dangerous(tokens[i][j]),
{
    lemma_accepted_tokens(tokens, 0);
    assert forall|i: int| 0 <= i < tokens.len() implies (#[trigger] tokens[i]).len()
        <= MAX_ARGUMENT_LENGTH && forall|j: int|
        0 <= j < tokens[i].len() ==> !is_dangerous(tokens[i][j]) by {
        lemma_dangerous_index(tokens[i]);
        assert(token_fault(tokens[i]) is None);
    }
}

/// Where the tokens from `i` on are accepted, none of them has a fault as a
/// token.
proof fn lemma_accepted_tokens(tokens: Seq<Seq<char>>, i: int)
    requires
        0 <= i,
        verdict_from(tokens, i) is Ok,
    ensures
        forall|k: int| i <= k < tokens.len() ==> token_fault(#[trigger] tokens[k]) is None,
    decreases tokens.len() - i,
{
    if i < tokens.len() {
        if !is_flag(tokens[i]) {
            lemma_accepted_tokens(tokens, i + 1);
        } else {
            match flag_rule(tokens[i]) {
                None => {},
                Some(FlagRule::Plain) => {
                    lemma_accepted_tokens(tokens, i + 1);
                },
                Some(FlagRule::OptionalCount) => {
                    if i + 1 < tokens.len() && !is_flag(tokens[i + 1]) {
                        lemma_accepted_tokens(tokens, i + 2);
                    } else {
                        lemma_accepted_tokens(tokens, i + 1);
                    }
                },
                Some(rule) => {
                    lemma_accepted_tokens(tokens, i + 2);
                },
            }
        }
    }
}

/// One token with a dangerous character, or of too many characters,
/// rejects the list, whatever the other tokens are.
pub proof fn law_one_fault_rejects_the_list(tokens: Seq<Seq<char>>, i: int)
    requires
        0 <= i < tokens.len(),
        token_fault(tokens[i]) is Some,
    ensures
        arguments_verdict(tokens) is Err,
{
    if arguments_verdict(tokens) is Ok {
        lemma_accepted_tokens(tokens, 0);
    }
}

/// `f` is a flag on the list whose rule makes the next token its value,
/// whatever that token looks like.
pub open spec fn takes_value(f: Seq<char>) -> bool {
    flag_rule(f) matches Some(rule) && rule != FlagRule::Plain && rule != FlagRule::OptionalCount
}

/// In an accepted list, a token written as a flag is on the list of flags,
/// unless it is the value of the flag before it.
pub proof fn law_accepted_flags(tokens: Seq<Seq<char>>)
    requires
        arguments_verdict(tokens) is Ok,
    ensures
        forall|i: int|
            0 <= i < tokens.len() && is_flag(#[trigger] tokens[i]) ==> flag_rule(tokens[i]) is Some
                || (i > 0 && takes_value(tokens[i - 1])),
{
    lemma_accepted_flags(tokens, 0);
}

/// Where the tokens from `i` on are accepted, each of them that is written
/// as a flag is on the list, unless it is the value of the flag before it.
proof fn lemma_accepted_flags(tokens: Seq<Seq<char>>, i: int)
    requires
        0 <= i,
        verdict_from(tokens, i) is Ok,
    ensures
        forall|k: int|
            i <= k < tokens.len() && is_flag(#[trigger] tokens[k]) ==> flag_rule(tokens[k]) is Some
                || (k > i && takes_value(tokens[k - 1])),
    decreases tokens.len() - i,
{
    if i < tokens.len() {
        if !is_flag(tokens[i]) {
            lemma_accepted_flags(tokens, i + 1);
        } else {
            match flag_rule(tokens[i]) {
                None => {},
                Some(FlagRule::Plain) => {
                    lemma_accepted_flags(tokens, i + 1);
                },
                Some(FlagRule::OptionalCount) => {
                    if i + 1 < tokens.len() && !is_flag(tokens[i + 1]) {
                        lemma_accepted_flags(tokens, i + 2);
                    } else {
                        lemma_accepted_flags(tokens, i + 1);
                    }
                },
                Some(rule) => {
                    lemma_accepted_flags(tokens, i + 2);
                },
            }
        }
    }
}

/// `t` is accepted as a token and as an RSpec file.
pub open spec fn is_accepted_file(t: Seq<char>) -> bool {
    token_fault(t) is None && path_verdict(t, FileKind::Rspec) is Ok
}

/// A list without flags is accepted exactly where every token is accepted
/// as a file: one file that breaks a rule rejects the list, whatever the
/// other tokens are.
pub proof fn law_files_all_or_nothing(tokens: Seq<Seq<char>>)
    requires
        tokens.len() <= MAX_ARGUMENTS,
        forall|i: int| 0 <= i < tokens.len() ==> !is_flag(#[trigger] tokens[i]),
    ensures
        arguments_verdict(tokens) is Ok <==> forall|i: int|
            0 <= i < tokens.len() ==> is_accepted_file(#[trigger] tokens[i]),
{
    lemma_files_from(tokens, 0);
}

/// Where no token from `i` on is written as a flag, the tokens from `i` on
/// are accepted exactly where each is accepted as a file.
proof fn lemma_files_from(tokens: Seq<Seq<char>>, i: int)
    requires
        0 <= i,
        forall|k: int| 0 <= k < tokens.len() ==> !is_flag(#[trigger] tokens[k]),
    ensures
        verdict_from(tokens, i) is Ok <==> forall|k: int|
            i <= k < tokens.len() ==> is_accepted_file(#[trigger] tokens[k]),
    decreases tokens.len() - i,
{
    if i < tokens.len() {
        lemma_files_from(tokens, i + 1);
        if is_accepted_file(tokens[i]) {
            assert(verdict_from(tokens, i) == verdict_from(tokens, i + 1));
        } else {
            assert(verdict_from(tokens, i) is Err);
        }
    }
}

/// The verdict depends on the characters of the tokens and on nothing else.
pub proof fn law_verdict_is_a_function(tokens: Seq<Seq<char>>, others: Seq<Seq<char>>)
    requires
        tokens =~~= others,
    ensures
        arguments_verdict(tokens) == arguments_verdict(others),
{
}

/// The token at `index`, or the empty text where the list has none there.
pub open spec fn token_at(tokens: Seq<Seq<char>>, index: int) -> Seq<char> {
    if 0 <= index < tokens.len() {
        tokens[index]
    } else {
        Seq::empty()
    }
}

/// The character of `token` at `position` as a text, or the empty text where
/// the token has none there.
pub open spec fn character_at(token: Seq<char>, position: int) -> Seq<char> {
    if 0 <= position < token.len() {
        token.subrange(position, position + 1)
    } else {
        Seq::empty()
    }
}

/// The text that reports what is wrong with the token at `index`.
pub open spec fn fault_text(tokens: Seq<Seq<char>>, index: int, fault: ArgumentFault) -> Seq<
    char,
> {
    let token = token_at(tokens, index);
    let flag = token_at(tokens, index - 1);
    match fault {
        ArgumentFault::DangerousCharacter { character, position } => "Dangerous character '"@
            + character_at(token, position as int) + "' in argument: "@ + token,
        ArgumentFault::TooLong => "Argument too long (maximum 1000 characters), got: "@
            + nat_digits(token.len()),
        ArgumentFault::DisallowedFlag => "Flag not allowed: "@ + token,
        ArgumentFault::MissingValue => "Missing value for flag: "@ + token,
        ArgumentFault::NonNumericValue => "Value for "@ + flag
            + " must be a non-negative integer, got: "@ + token,
        ArgumentFault::AbsolutePath => "Absolute path not allowed for "@ + flag + ": "@ + token,
        ArgumentFault::Traversal => "Path traversal not allowed for "@ + flag + ": "@ + token,
        ArgumentFault::DisallowedDirectory => "Output path for "@ + flag
            + " must be under tmp/, log/ or coverage/, got: "@ + token,
        ArgumentFault::WrongExtension => "Required file for "@ + flag + " must end with .rb, got: "@
            + token,
        ArgumentFault::InvalidFile(e) => path_error_text(e) + ": "@ + token,
    }
}

/// The text that reports a rejected list.
pub open spec fn argument_error_text(tokens: Seq<Seq<char>>, e: ArgumentError) -> Seq<char> {
    match e {
        ArgumentError::TooManyArguments { count } => "Too many arguments (maximum 50), got: "@
            + nat_digits(count as nat),
        ArgumentError::Rejected { index, fault } => fault_text(tokens, index as int, fault),
    }
}

/// The token at `index`, or the empty string where the list has none there.
fn token_or_empty(tokens: &Vec<String>, index: usize) -> (token: &str)
    ensures
        token@ == token_at(texts(tokens@), index as int),
{
    if index < tokens.len() {
        tokens[index].as_str()
    } else {
        proof {
            reveal_strlit("");
            assert(""@ =~= Seq::<char>::empty());
        }
        ""
    }
}

/// The flag of the value at `index`: the token before it, or the empty
/// string where there is none.
fn flag_or_empty(tokens: &Vec<String>, index: usize) -> (flag: &str)
    ensures
        flag@ == token_at(texts(tokens@), index - 1),
{
    if index > 0 {
        token_or_empty(tokens, index - 1)
    } else {
        proof {
            reveal_strlit("");
            assert(""@ =~= Seq::<char>::empty());
        }
        ""
    }
}

/// The character of `token` at `position` as a string, or the empty string
/// where the token has none there.
fn character_of(token: &str, position: usize) -> (text: &str)
    ensures
        text@ == character_at(token@, position as int),
{
    if position < token.unicode_len() {
        token.substring_char(position, position + 1)
    } else {
        proof {
            reveal_strlit("");
            assert(""@ =~= Seq::<char>::empty());
        }
        ""
    }
}

impl ArgumentError {
    /// The text that reports this error of the list `tokens`.
    pub fn describe(&self, tokens: &Vec<String>) -> (text: String)
        ensures
            text@ == argument_error_text(texts(tokens@), *self),
    {
        match self {
            ArgumentError::TooManyArguments { count } => {
                let mut text = "Too many arguments (maximum 50), got: ".to_owned();
                append_nat(&mut text, *count as u64);
                text
            },
            ArgumentError::Rejected { index, fault } => {
                let token = token_or_empty(tokens, *index);
                let flag = flag_or_empty(tokens, *index);
                match fault {
                    ArgumentFault::DangerousCharacter { character, position } => {
                        let mut text = "Dangerous character '".to_owned();
                        text.append(character_of(token, *position));
                        text.append("' in argument: ");
                        text.append(token);
                        text
                    },
                    ArgumentFault::TooLong => {
                        let mut text = "Argument too long (maximum 1000 characters), got: ".to_owned();
                        append_nat(&mut text, token.unicode_len() as u64);
                        text
                    },
                    ArgumentFault::DisallowedFlag => "Flag not allowed: ".to_owned().concat(token),
                    ArgumentFault::MissingValue => "Missing value for flag: ".to_owned().concat(
                        token,
                    ),
                    ArgumentFault::NonNumericValue => "Value for ".to_owned().concat(flag).concat(
                        " must be a non-negative integer, got: ",
                    ).concat(token),
                    ArgumentFault::AbsolutePath => "Absolute path not allowed for ".to_owned().concat(
                        flag,
                    ).concat(": ").concat(token),
                    ArgumentFault::Traversal => "Path traversal not allowed for ".to_owned().concat(
                        flag,
                    ).concat(": ").concat(token),
                    ArgumentFault::DisallowedDirectory => "Output path for ".to_owned().concat(
                        flag,
                    ).concat(" must be under tmp/, log/ or coverage/, got: ").concat(token),
                    ArgumentFault::WrongExtension => "Required file for ".to_owned().concat(
                        flag,
                    ).concat(" must end with .rb, got: ").concat(token),
                    ArgumentFault::InvalidFile(e) => e.message().concat(": ").concat(token),
                }
            },
        }
    }
}

} // verus!
