//! Building the invocation of a test runner from a configured command and a
//! validated target.
//!
//! A configured command is split at white space into a program and its fixed
//! arguments; what was validated is appended as further arguments, each one
//! whole. The second style hands one string to a shell, and is meant only for
//! a configured command that is itself a pipeline.

use vstd::prelude::*;
use vstd::string::StringExecFns;
use crate::text::{chars_of, lemma_texts_push, texts};

verus! {

/// `c` is white space: a character with the Unicode property `White_Space`.
pub open spec fn is_space(c: char) -> bool {
    ||| '\u{9}' <= c <= '\u{d}'
    ||| c == ' '
    ||| c == '\u{85}'
    ||| c == '\u{a0}'
    ||| c == '\u{1680}'
    ||| '\u{2000}' <= c <= '\u{200a}'
    ||| c == '\u{2028}'
    ||| c == '\u{2029}'
    ||| c == '\u{202f}'
    ||| c == '\u{205f}'
    ||| c == '\u{3000}'
}

/// The words of `s`: its maximal runs of characters that are not white
/// space, in order. Read from the left, a character that is not white space
/// extends the last word where the character before it belongs to one, and
/// begins a new word otherwise.
pub open spec fn words(s: Seq<char>) -> Seq<Seq<char>>
    decreases s.len(),
{
    if s.len() == 0 {
        Seq::empty()
    } else {
        let before = words(s.drop_last());
        let c = s.last();
        if is_space(c) {
            before
        } else if s.len() >= 2 && !is_space(s[s.len() - 2]) {
            before.drop_last().push(before.last().push(c))
        } else {
            before.push(seq![c])
        }
    }
}

/// How a process is started.
#[derive(Debug, Clone, PartialEq, Eq)]
pub enum Invocation {
    /// A program and its arguments, each handed over as it is.
    Direct { program: String, args: Vec<String> },
    /// One command line, handed to `sh -c`.
    Shell { command: String },
}

/// What an `Invocation` holds.
pub enum InvocationText {
    Direct { program: Seq<char>, args: Seq<Seq<char>> },
    Shell { command: Seq<char> },
}

impl View for Invocation {
    type V = InvocationText;

    open spec fn view(&self) -> InvocationText {
        match self {
            Invocation::Direct { program, args } => InvocationText::Direct {
                program: program@,
                args: texts(args@),
            },
            Invocation::Shell { command } => InvocationText::Shell { command: command@ },
        }
    }
}

/// The invocation of the command `template` with `trailing` as its last
/// arguments: the first word of the template is the program, its other words
/// come before `trailing`. `None` where the template holds no word.
pub open spec fn direct_invocation(template: Seq<char>, trailing: Seq<Seq<char>>) -> Option<
    InvocationText,
> {
    let parts = words(template);
    if parts.len() == 0 {
        None
    } else {
        Some(InvocationText::Direct { program: parts[0], args: parts.skip(1) + trailing })
    }
}

/// The command line that runs the command `template` on `path` in a shell:
/// the two with one blank between them.
pub open spec fn shell_command(template: Seq<char>, path: Seq<char>) -> Seq<char> {
    template + " "@ + path
}

/// The command line that an invocation stands for: the program and its
/// arguments with one blank between each two, or the shell's command line.
pub open spec fn command_line(invocation: InvocationText) -> Seq<char> {
    match invocation {
        InvocationText::Direct { program, args } => program + joined(args),
        InvocationText::Shell { command } => command,
    }
}

/// Each of `args` after a blank.
pub open spec fn joined(args: Seq<Seq<char>>) -> Seq<char>
    decreases args.len(),
{
    if args.len() == 0 {
        Seq::empty()
    } else {
        joined(args.drop_last()) + " "@ + args.last()
    }
}

/// Whether `c` is white space.
pub fn check_space(c: char) -> (space: bool)
    ensures
        space == is_space(c),
{
    ('\u{9}' <= c && c <= '\u{d}') || c == ' ' || c == '\u{85}' || c == '\u{a0}' || c
        == '\u{1680}' || ('\u{2000}' <= c && c <= '\u{200a}') || c == '\u{2028}' || c
        == '\u{2029}' || c == '\u{202f}' || c == '\u{205f}' || c == '\u{3000}'
}

/// Splits a configured command at white space.
pub fn split_words(template: &str) -> (parts: Vec<String>)
    ensures
        texts(parts@) == words(template@),
{
    let chars = chars_of(template);
    let mut parts: Vec<String> = Vec::new();
    let mut start: usize = 0;
    let mut in_word = false;
    let mut i: usize = 0;
    assert(chars@.take(0) =~= Seq::<char>::empty());
    assert(texts(parts@) =~= Seq::<Seq<char>>::empty());
    while i < chars.len()
        invariant
            i <= chars.len(),
            chars@ == template@,
            in_word ==> start < i && !is_space(chars@[i - 1]) && words(chars@.take(i as int))
                == texts(parts@).push(chars@.subrange(start as int, i as int)),
            !in_word ==> (i == 0 || is_space(chars@[i - 1])) && words(chars@.take(i as int))
                == texts(parts@),
        decreases chars.len() - i,
    {
        let c = chars[i];
        let ghost upto = chars@.take(i + 1);
        let ghost found = texts(parts@);
        proof {
            assert(upto.drop_last() =~= chars@.take(i as int));
            assert(upto.last() == c);
            if i > 0 {
                assert(upto[upto.len() - 2] == chars@[i - 1]);
            }
        }
        if check_space(c) {
            if in_word {
                let word = template.substring_char(start, i).to_owned();
                proof {
                    lemma_texts_push(parts@, word);
                }
                parts.push(word);
                in_word = false;
            }
        } else if !in_word {
            start = i;
            in_word = true;
            assert(chars@.subrange(i as int, i + 1) =~= seq![c]);
        } else {
            let ghost word = chars@.subrange(start as int, i as int);
            assert(found.push(word).drop_last() =~= found);
            assert(chars@.subrange(start as int, i + 1) =~= word.push(c));
        }
        i += 1;
    }
    assert(chars@.take(i as int) =~= chars@);
    if in_word {
        let word = template.substring_char(start, i).to_owned();
        proof {
            lemma_texts_push(parts@, word);
        }
        parts.push(word);
    }
    parts
}

/// Builds the invocation of the command `template` with `trailing` as its
/// last arguments, each of them one argument whatever it holds.
pub fn build_invocation(template: &str, trailing: Vec<String>) -> (res: Option<Invocation>)
    ensures
        match res {
            Some(invocation) => direct_invocation(template@, texts(trailing@)) == Some(
                invocation@,
            ),
            None => direct_invocation(template@, texts(trailing@)) is None,
        },
{
    let parts = split_words(template);
    if parts.len() == 0 {
        return None;
    }
    let program = parts[0].clone();
    let mut args: Vec<String> = Vec::new();
    let mut i: usize = 1;
    assert(texts(args@) =~= texts(parts@).subrange(1, 1));
    while i < parts.len()
        invariant
            1 <= i <= parts.len(),
            texts(args@) == texts(parts@).subrange(1, i as int),
        decreases parts.len() - i,
    {
        let part = parts[i].clone();
        proof {
            lemma_texts_push(args@, part);
            assert(texts(parts@).subrange(1, i as int).push(part@) =~= texts(parts@).subrange(
                1,
                i + 1,
            ));
        }
        args.push(part);
        i += 1;
    }
    assert(texts(parts@).subrange(1, i as int) =~= texts(parts@).skip(1));
    let ghost fixed = texts(args@);
    let ghost all = trailing@;
    for arg in it: trailing
        invariant
            it.seq() == all,
            texts(args@) == fixed + texts(all.take(it.index() as int)),
    {
        let ghost k = it.index() as int;
        proof {
            lemma_texts_push(args@, arg);
            lemma_texts_push(all.take(k), arg);
            assert(all.take(k + 1) =~= all.take(k).push(arg));
            assert((fixed + texts(all.take(k))).push(arg@) =~= fixed + texts(all.take(k)).push(
                arg@,
            ));
        }
        args.push(arg);
    }
    assert(all.take(all.len() as int) =~= all);
    Some(Invocation::Direct { program, args })
}

/// Builds the invocation that runs the command `template` on `path` in a
/// shell.
pub fn build_shell_invocation(template: &str, path: &str) -> (invocation: Invocation)
    ensures
        invocation@ == (InvocationText::Shell { command: shell_command(template@, path@) }),
{
    let command = template.to_owned().concat(" ").concat(path);
    Invocation::Shell { command }
}

impl Invocation {
    /// The command line that this invocation stands for.
    pub fn command_line(&self) -> (line: String)
        ensures
            line@ == command_line(self@),
    {
        match self {
            Invocation::Shell { command } => command.clone(),
            Invocation::Direct { program, args } => {
                let mut line = program.clone();
                let mut i: usize = 0;
                assert(args@.take(0) =~= Seq::<String>::empty());
                assert(texts(args@.take(0)) =~= Seq::<Seq<char>>::empty());
                assert(program@ + Seq::<char>::empty() =~= program@);
                while i < args.len()
                    invariant
                        i <= args.len(),
                        line@ == program@ + joined(texts(args@.take(i as int))),
                    decreases args.len() - i,
                {
                    let ghost before = texts(args@.take(i as int));
                    let ghost after = texts(args@.take(i + 1));
                    line.append(" ");
                    line.append(args[i].as_str());
                    proof {
                        assert(after.drop_last() =~= before);
                        assert(after.last() == args@[i as int]@);
                        assert(program@ + joined(before) + " "@ + args@[i as int]@ =~= program@ + (
                        joined(before) + " "@ + args@[i as int]@));
                    }
                    i += 1;
                }
                assert(args@.take(i as int) =~= args@);
                line
            },
        }
    }
}

/// No word is empty, and no word holds white space.
pub proof fn law_words(s: Seq<char>)
    ensures
        forall|k: int|
            0 <= k < words(s).len() ==> (#[trigger] words(s)[k]).len() > 0 && forall|j: int|
                0 <= j < words(s)[k].len() ==> !is_space(words(s)[k][j]),
        s.len() > 0 && !is_space(s.last()) ==> words(s).len() > 0,
    decreases s.len(),
{
    if s.len() > 0 {
        let before = words(s.drop_last());
        law_words(s.drop_last());
        let c = s.last();
        if is_space(c) {
        } else if s.len() >= 2 && !is_space(s[s.len() - 2]) {
            assert(s.drop_last().last() == s[s.len() - 2]);
            let grown = before.last().push(c);
            let all = before.drop_last().push(grown);
            assert forall|k: int| 0 <= k < all.len() implies (#[trigger] all[k]).len() > 0
                && forall|j: int| 0 <= j < all[k].len() ==> !is_space(all[k][j]) by {
                if k < all.len() - 1 {
                    assert(all[k] == before[k]);
                }
            }
        } else {
            let all = before.push(seq![c]);
            assert forall|k: int| 0 <= k < all.len() implies (#[trigger] all[k]).len() > 0
                && forall|j: int| 0 <= j < all[k].len() ==> !is_space(all[k][j]) by {
                if k < all.len() - 1 {
                    assert(all[k] == before[k]);
                }
            }
        }
    }
}

/// The characters of `s` that are not white space, in order.
pub open spec fn without_spaces(s: Seq<char>) -> Seq<char>
    decreases s.len(),
{
    if s.len() == 0 {
        Seq::empty()
    } else if is_space(s.last()) {
        without_spaces(s.drop_last())
    } else {
        without_spaces(s.drop_last()).push(s.last())
    }
}

/// The texts of `parts`, one after the other with nothing between them.
pub open spec fn glued(parts: Seq<Seq<char>>) -> Seq<char>
    decreases parts.len(),
{
    if parts.len() == 0 {
        Seq::empty()
    } else {
        glued(parts.drop_last()) + parts.last()
    }
}

/// The words hold the characters of the text that are not white space, all
/// of them and in their order: splitting loses white space and nothing else.
pub proof fn law_words_keep_the_text(s: Seq<char>)
    ensures
        glued(words(s)) == without_spaces(s),
    decreases s.len(),
{
    if s.len() > 0 {
        let before = words(s.drop_last());
        law_words_keep_the_text(s.drop_last());
        law_words(s.drop_last());
        let c = s.last();
        if is_space(c) {
        } else if s.len() >= 2 && !is_space(s[s.len() - 2]) {
            assert(s.drop_last().last() == s[s.len() - 2]);
            let all = before.drop_last().push(before.last().push(c));
            assert(all.drop_last() =~= before.drop_last());
            assert(glued(before.drop_last()) + before.last().push(c) =~= (glued(
                before.drop_last(),
            ) + before.last()).push(c));
        } else {
            let all = before.push(seq![c]);
            assert(all.drop_last() =~= before);
            assert(glued(before) + seq![c] =~= glued(before).push(c));
        }
    }
}

} // verus!
