//! Sorting the command line into options, the command and its arguments.

use vstd::prelude::*;
use crate::text::same_text;
use crate::text::texts;
use crate::unit::TimeUnit;

verus! {

/// What a single token of the command line is taken for while options are
/// still being read.
#[derive(Clone, Copy, Debug, PartialEq, Eq, Structural)]
pub enum Token {
    /// `--help` or `-h`.
    Help,
    /// `--version` or `-v`.
    Version,
    /// One of the flags that select a unit.
    Unit(TimeUnit),
    /// Any other token that starts with `-`.
    Flag,
    /// A token that does not start with `-`: the command.
    Word,
}

/// Whether `token` starts with `-`.
pub open spec fn starts_with_dash(token: Seq<char>) -> bool {
    token.len() > 0 && token[0] == '-'
}

/// What `token` is taken for. The spellings are fixed and case-sensitive.
pub open spec fn kind_of(token: Seq<char>) -> Token {
    if token == "--help"@ || token == "-h"@ {
        Token::Help
    } else if token == "--version"@ || token == "-v"@ {
        Token::Version
    } else if token == "-s"@ || token == "--seconds"@ {
        Token::Unit(TimeUnit::Seconds)
    } else if token == "-ms"@ || token == "--miliseconds"@ {
        Token::Unit(TimeUnit::Miliseconds)
    } else if token == "-us"@ || token == "--microseconds"@ {
        Token::Unit(TimeUnit::Microseconds)
    } else if token == "-ns"@ || token == "--nanoseconds"@ {
        Token::Unit(TimeUnit::Nanoseconds)
    } else if starts_with_dash(token) {
        Token::Flag
    } else {
        Token::Word
    }
}

/// Whether reading options ends at `token`: at a request for help or for the
/// version, and at the command.
pub open spec fn ends_scan(token: Seq<char>) -> bool {
    kind_of(token) == Token::Help || kind_of(token) == Token::Version || kind_of(token)
        == Token::Word
}

/// Whether none of the first `n` tokens ends the scan, so that all of them
/// are options.
pub open spec fn all_options(tokens: Seq<Seq<char>>, n: int) -> bool {
    forall|i: int| 0 <= i < n ==> !ends_scan(#[trigger] tokens[i])
}

/// The place of the first token that ends the scan, or the number of tokens
/// where none does.
pub open spec fn scan_end(tokens: Seq<Seq<char>>) -> int
    decreases tokens.len(),
{
    if tokens.len() == 0 || ends_scan(tokens.first()) {
        0
    } else {
        1 + scan_end(tokens.drop_first())
    }
}

/// The unit that a run of options selects: that of the last unit flag among
/// them, and milliseconds where there is none.
pub open spec fn unit_among(options: Seq<Seq<char>>) -> TimeUnit
    decreases options.len(),
{
    if options.len() == 0 {
        TimeUnit::Miliseconds
    } else if let Token::Unit(unit) = kind_of(options.last()) {
        unit
    } else {
        unit_among(options.drop_last())
    }
}

/// The flags among a run of options that the program does not know, in order.
pub open spec fn unknown_flags(options: Seq<Seq<char>>) -> Seq<Seq<char>> {
    options.filter(|token: Seq<char>| kind_of(token) == Token::Flag)
}

/// The command line once sorted.
#[derive(Clone, Debug, PartialEq, Eq)]
pub struct ParsedInvocation {
    /// The unit in which the time is shown.
    pub unit: TimeUnit,
    /// The flags before the command that the program does not know.
    pub flags: Vec<String>,
    /// The command; empty where none was given.
    pub command: String,
    /// What follows the command, as it was written.
    pub args: Vec<String>,
}

/// A [`ParsedInvocation`] as plain values.
pub struct InvocationView {
    pub unit: TimeUnit,
    pub flags: Seq<Seq<char>>,
    pub command: Seq<char>,
    pub args: Seq<Seq<char>>,
}

impl View for ParsedInvocation {
    type V = InvocationView;

    open spec fn view(&self) -> InvocationView {
        InvocationView {
            unit: self.unit,
            flags: texts(self.flags@),
            command: self.command@,
            args: texts(self.args@),
        }
    }
}

/// What the command line asks for.
#[derive(Clone, Debug, PartialEq, Eq)]
pub enum Classified {
    /// The usage text, and nothing else.
    Help,
    /// The version text, and nothing else.
    Version,
    /// A command to time, or none.
    Parsed(ParsedInvocation),
}

/// A [`Classified`] as plain values.
pub enum ClassifiedView {
    Help,
    Version,
    Parsed(InvocationView),
}

impl View for Classified {
    type V = ClassifiedView;

    open spec fn view(&self) -> ClassifiedView {
        match self {
            Classified::Help => ClassifiedView::Help,
            Classified::Version => ClassifiedView::Version,
            Classified::Parsed(parsed) => ClassifiedView::Parsed(parsed@),
        }
    }
}

/// What a command line asks for. The tokens are read from the left up to the
/// first one that ends the scan. A request for help or for the version there
/// is all that counts. Otherwise the tokens before it are the options, the
/// token itself is the command, and every token after it is an argument of
/// the command, whatever it looks like. Where no token ends the scan, all
/// tokens are options and there is no command.
pub open spec fn classification(tokens: Seq<Seq<char>>) -> ClassifiedView {
    let n = scan_end(tokens);
    if n < tokens.len() && kind_of(tokens[n]) == Token::Help {
        ClassifiedView::Help
    } else if n < tokens.len() && kind_of(tokens[n]) == Token::Version {
        ClassifiedView::Version
    } else {
        ClassifiedView::Parsed(
            InvocationView {
                unit: unit_among(tokens.take(n)),
                flags: unknown_flags(tokens.take(n)),
                command: if n < tokens.len() {
                    tokens[n]
                } else {
                    Seq::empty()
                },
                args: if n < tokens.len() {
                    tokens.skip(n + 1)
                } else {
                    Seq::empty()
                },
            },
        )
    }
}

/// The scan ends at `n` where the tokens before `n` are options and the token
/// at `n`, if there is one, ends it.
pub proof fn lemma_scan_end_is(tokens: Seq<Seq<char>>, n: int)
    requires
        0 <= n <= tokens.len(),
        all_options(tokens, n),
        n < tokens.len() ==> ends_scan(tokens[n]),
    ensures
        scan_end(tokens) == n,
    decreases tokens.len(),
{
    if tokens.len() == 0 || ends_scan(tokens.first()) {
        if n > 0 {
            assert(!ends_scan(tokens[0]));
        }
    } else {
        let rest = tokens.drop_first();
        assert forall|i: int| 0 <= i < n - 1 implies !ends_scan(#[trigger] rest[i]) by {
            assert(rest[i] == tokens[i + 1]);
        }
        if n < tokens.len() {
            assert(rest[n - 1] == tokens[n]);
        }
        lemma_scan_end_is(rest, n - 1);
    }
}

/// The scan ends within the tokens, at the first one that ends it.
pub proof fn lemma_scan_end_is_first(tokens: Seq<Seq<char>>)
    ensures
        0 <= scan_end(tokens) <= tokens.len(),
        all_options(tokens, scan_end(tokens)),
        scan_end(tokens) < tokens.len() ==> ends_scan(tokens[scan_end(tokens)]),
    decreases tokens.len(),
{
    if tokens.len() == 0 || ends_scan(tokens.first()) {
    } else {
        let rest = tokens.drop_first();
        lemma_scan_end_is_first(rest);
        let n = scan_end(tokens);
        assert forall|i: int| 0 <= i < n implies !ends_scan(#[trigger] tokens[i]) by {
            if i > 0 {
                assert(tokens[i] == rest[i - 1]);
            }
        }
        if n < tokens.len() {
            assert(tokens[n] == rest[n - 1]);
        }
    }
}

/// Every spelling that the program knows starts with `-`, so the command is
/// the first token that does not.
pub proof fn lemma_word_has_no_dash(token: Seq<char>)
    ensures
        kind_of(token) == Token::Word <==> !starts_with_dash(token),
{
    reveal_strlit("--help");
    reveal_strlit("-h");
    reveal_strlit("--version");
    reveal_strlit("-v");
    reveal_strlit("-s");
    reveal_strlit("--seconds");
    reveal_strlit("-ms");
    reveal_strlit("--miliseconds");
    reveal_strlit("-us");
    reveal_strlit("--microseconds");
    reveal_strlit("-ns");
    reveal_strlit("--nanoseconds");
}

/// Each spelling is read as what it stands for: no two of them are the same
/// text, so none hides another.
pub proof fn lemma_spellings()
    ensures
        kind_of("--help"@) == Token::Help,
        kind_of("-h"@) == Token::Help,
        kind_of("--version"@) == Token::Version,
        kind_of("-v"@) == Token::Version,
        kind_of("-s"@) == Token::Unit(TimeUnit::Seconds),
        kind_of("--seconds"@) == Token::Unit(TimeUnit::Seconds),
        kind_of("-ms"@) == Token::Unit(TimeUnit::Miliseconds),
        kind_of("--miliseconds"@) == Token::Unit(TimeUnit::Miliseconds),
        kind_of("-us"@) == Token::Unit(TimeUnit::Microseconds),
        kind_of("--microseconds"@) == Token::Unit(TimeUnit::Microseconds),
        kind_of("-ns"@) == Token::Unit(TimeUnit::Nanoseconds),
        kind_of("--nanoseconds"@) == Token::Unit(TimeUnit::Nanoseconds),
{
    reveal_strlit("--help");
    reveal_strlit("-h");
    reveal_strlit("--version");
    reveal_strlit("-v");
    reveal_strlit("-s");
    reveal_strlit("--seconds");
    reveal_strlit("-ms");
    reveal_strlit("--miliseconds");
    reveal_strlit("-us");
    reveal_strlit("--microseconds");
    reveal_strlit("-ns");
    reveal_strlit("--nanoseconds");
    assert("--help"@.len() == 6 && "--microseconds"@.len() == 14);
    assert("-h"@[1] == 'h' && "-v"@[1] == 'v' && "-s"@[1] == 's');
    assert("-ms"@[1] == 'm' && "-us"@[1] == 'u' && "-ns"@[1] == 'n');
    assert("--version"@[2] == 'v' && "--seconds"@[2] == 's');
    assert("--miliseconds"@[2] == 'm' && "--nanoseconds"@[2] == 'n');
}

/// The first token that does not start with `-` splits the line, and nothing
/// after it is read as an option. Where every token of `options` starts with
/// `-` and none of them asks for help or for the version, and `command` does
/// not start with `-`, the line made of the options, the command and `args`
/// has that command and exactly those arguments, in their order and whatever
/// they hold. Unit and unknown flags are those of the options alone.
pub proof fn lemma_command_splits_the_line(
    options: Seq<Seq<char>>,
    command: Seq<char>,
    args: Seq<Seq<char>>,
)
    requires
        forall|i: int|
            0 <= i < options.len() ==> starts_with_dash(#[trigger] options[i]) && kind_of(
                options[i],
            ) != Token::Help && kind_of(options[i]) != Token::Version,
        !starts_with_dash(command),
    ensures
        classification(options.push(command) + args) == ClassifiedView::Parsed(
            InvocationView {
                unit: unit_among(options),
                flags: unknown_flags(options),
                command: command,
                args: args,
            },
        ),
{
    let line = options.push(command) + args;
    let n = options.len() as int;
    lemma_word_has_no_dash(command);
    assert(line[n] == command);
    assert forall|i: int| 0 <= i < n implies !ends_scan(#[trigger] line[i]) by {
        assert(line[i] == options[i]);
        lemma_word_has_no_dash(options[i]);
    }
    lemma_scan_end_is(line, n);
    assert(line.take(n) =~= options);
    assert(line.skip(n + 1) =~= args);
}

/// A line of options alone names no command: where every token starts with
/// `-` and none asks for help or for the version, the command is empty and
/// has no arguments.
pub proof fn lemma_options_alone_name_no_command(options: Seq<Seq<char>>)
    requires
        forall|i: int|
            0 <= i < options.len() ==> starts_with_dash(#[trigger] options[i]) && kind_of(
                options[i],
            ) != Token::Help && kind_of(options[i]) != Token::Version,
    ensures
        classification(options) == ClassifiedView::Parsed(
            InvocationView {
                unit: unit_among(options),
                flags: unknown_flags(options),
                command: Seq::empty(),
                args: Seq::empty(),
            },
        ),
{
    let n = options.len() as int;
    assert forall|i: int| 0 <= i < n implies !ends_scan(#[trigger] options[i]) by {
        lemma_word_has_no_dash(options[i]);
    }
    lemma_scan_end_is(options, n);
    assert(options.take(n) =~= options);
}

/// Of the unit flags among the options, the last one decides: where the
/// option at `k` selects `unit` and no option after it selects a unit, the
/// options select `unit`.
pub proof fn lemma_last_unit_flag_wins(options: Seq<Seq<char>>, k: int, unit: TimeUnit)
    requires
        0 <= k < options.len(),
        kind_of(options[k]) == Token::Unit(unit),
        forall|j: int| k < j < options.len() ==> !(kind_of(#[trigger] options[j]) is Unit),
    ensures
        unit_among(options) == unit,
    decreases options.len(),
{
    if k < options.len() - 1 {
        let rest = options.drop_last();
        assert(rest[k] == options[k]);
        assert forall|j: int| k < j < rest.len() implies !(kind_of(#[trigger] rest[j]) is Unit) by {
            assert(rest[j] == options[j]);
        }
        assert(!(kind_of(options[options.len() - 1]) is Unit));
        lemma_last_unit_flag_wins(rest, k, unit);
    }
}

/// Options without a unit flag leave the unit at milliseconds.
pub proof fn lemma_unit_defaults_to_milliseconds(options: Seq<Seq<char>>)
    requires
        forall|j: int| 0 <= j < options.len() ==> !(kind_of(#[trigger] options[j]) is Unit),
    ensures
        unit_among(options) == TimeUnit::Miliseconds,
    decreases options.len(),
{
    if options.len() > 0 {
        let rest = options.drop_last();
        assert forall|j: int| 0 <= j < rest.len() implies !(kind_of(#[trigger] rest[j]) is Unit) by {
            assert(rest[j] == options[j]);
        }
        assert(!(kind_of(options[options.len() - 1]) is Unit));
        lemma_unit_defaults_to_milliseconds(rest);
    }
}

/// A request for help counts wherever it stands among the options: where the
/// token at `n` asks for help, and every token before it starts with `-` and
/// does not ask for the version, the line asks for help and for nothing
/// else.
pub proof fn lemma_help_ends_everything(tokens: Seq<Seq<char>>, n: int)
    requires
        0 <= n < tokens.len(),
        kind_of(tokens[n]) == Token::Help,
        forall|i: int|
            0 <= i < n ==> starts_with_dash(#[trigger] tokens[i]) && kind_of(tokens[i])
                != Token::Version,
    ensures
        classification(tokens) == ClassifiedView::Help,
{
    lemma_scan_end_is_first(tokens);
    let end = scan_end(tokens);
    if end > n {
        assert(!ends_scan(tokens[n]));
    }
    lemma_word_has_no_dash(tokens[end]);
}

/// A request for the version counts wherever it stands among the options:
/// where the token at `n` asks for the version, and every token before it
/// starts with `-` and does not ask for help, the line asks for the version
/// and for nothing else.
pub proof fn lemma_version_ends_everything(tokens: Seq<Seq<char>>, n: int)
    requires
        0 <= n < tokens.len(),
        kind_of(tokens[n]) == Token::Version,
        forall|i: int|
            0 <= i < n ==> starts_with_dash(#[trigger] tokens[i]) && kind_of(tokens[i])
                != Token::Help,
    ensures
        classification(tokens) == ClassifiedView::Version,
{
    lemma_scan_end_is_first(tokens);
    let end = scan_end(tokens);
    if end > n {
        assert(!ends_scan(tokens[n]));
    }
    lemma_word_has_no_dash(tokens[end]);
}

/// Tells what a token is taken for.
pub fn token_kind(token: &str) -> (kind: Token)
    ensures
        kind == kind_of(token@),
{
    if same_text(token, "--help") || same_text(token, "-h") {
        Token::Help
    } else if same_text(token, "--version") || same_text(token, "-v") {
        Token::Version
    } else if same_text(token, "-s") || same_text(token, "--seconds") {
        Token::Unit(TimeUnit::Seconds)
    } else if same_text(token, "-ms") || same_text(token, "--miliseconds") {
        Token::Unit(TimeUnit::Miliseconds)
    } else if same_text(token, "-us") || same_text(token, "--microseconds") {
        Token::Unit(TimeUnit::Microseconds)
    } else if same_text(token, "-ns") || same_text(token, "--nanoseconds") {
        Token::Unit(TimeUnit::Nanoseconds)
    } else if !token.is_empty() && token.get_char(0) == '-' {
        Token::Flag
    } else {
        Token::Word
    }
}

/// Copies the tokens from place `from` on.
fn tail_of(tokens: &Vec<String>, from: usize) -> (tail: Vec<String>)
    requires
        from <= tokens.len(),
    ensures
        texts(tail@) == texts(tokens@).skip(from as int),
{
    let mut tail: Vec<String> = Vec::new();
    let mut i: usize = from;
    while i < tokens.len()
        invariant
            from <= i <= tokens.len(),
            tail.len() == i - from,
            forall|k: int| 0 <= k < tail.len() ==> tail@[k]@ == tokens@[from + k]@,
        decreases tokens.len() - i,
    {
        tail.push(tokens[i].clone());
        i = i + 1;
    }
    assert(texts(tail@) =~= texts(tokens@).skip(from as int));
    tail
}

/// Sorts the tokens that follow the program's name into what the command
/// line asks for.
pub fn classify(tokens: &Vec<String>) -> (out: Classified)
    ensures
        out@ == classification(texts(tokens@)),
{
    let ghost all = texts(tokens@);
    let mut unit = TimeUnit::Miliseconds;
    let mut flags: Vec<String> = Vec::new();
    let mut i: usize = 0;
    assert(all.take(0) =~= Seq::empty());
    assert(unknown_flags(Seq::empty()) =~= Seq::empty()) by {
        reveal(Seq::filter);
    }
    while i < tokens.len()
        invariant
            i <= tokens.len(),
            all == texts(tokens@),
            all_options(all, i as int),
            unit == unit_among(all.take(i as int)),
            texts(flags@) == unknown_flags(all.take(i as int)),
        decreases tokens.len() - i,
    {
        let kind = token_kind(tokens[i].as_str());
        assert(kind == kind_of(all[i as int]));
        proof {
            let seen = all.take(i + 1);
            assert(seen.drop_last() =~= all.take(i as int));
            assert(seen.last() == all[i as int]);
            reveal(Seq::filter);
        }
        match kind {
            Token::Help => {
                proof {
                    lemma_scan_end_is(all, i as int);
                }
                return Classified::Help;
            },
            Token::Version => {
                proof {
                    lemma_scan_end_is(all, i as int);
                }
                return Classified::Version;
            },
            Token::Unit(chosen) => {
                unit = chosen;
            },
            Token::Flag => {
                flags.push(tokens[i].clone());
                assert(texts(flags@) =~= unknown_flags(all.take(i as int)).push(all[i as int]));
            },
            Token::Word => {
                proof {
                    lemma_scan_end_is(all, i as int);
                }
                let command = tokens[i].clone();
                let args = tail_of(tokens, i + 1);
                return Classified::Parsed(ParsedInvocation { unit, flags, command, args });
            },
        }
        i = i + 1;
    }
    proof {
        lemma_scan_end_is(all, i as int);
        assert(all.take(i as int) =~= all);
    }
    let command = String::new();
    let args: Vec<String> = Vec::new();
    assert(texts(args@) =~= Seq::empty());
    Classified::Parsed(ParsedInvocation { unit, flags, command, args })
}

} // verus!
