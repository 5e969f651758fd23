//! Lines of input as instructions: a command, its flags and its arguments.

pub mod command_traits;
pub mod error;

use crate::cli::error::{Error, ErrorView};
use crate::text::{push_char, texts_view};
use vstd::prelude::*;
use vstd::string::StringExecFns;

verus! {

// ---------------------------------------------------------------------------
// Words
// ---------------------------------------------------------------------------

/// A character with the Unicode property `White_Space`.
pub open spec fn is_whitespace(c: char) -> bool {
    ||| '\u{9}' <= c <= '\u{d}'
    ||| c == ' '
    ||| c == '\u{85}'
    ||| c == '\u{a0}'
    ||| c == '\u{1680}'
    ||| '\u{2000}' <= c <= '\u{200a}'
    ||| c == '\u{2028}'
    ||| c == '\u{2029}'
    ||| c == '\u{202f}'
    ||| c == '\u{205f}'
    ||| c == '\u{3000}'
}

/// The words of a line: its longest stretches without whitespace, in order.
/// A character that is no whitespace starts a word, or goes on with the word
/// of the character before it.
pub open spec fn words(line: Seq<char>) -> Seq<Seq<char>>
    decreases line.len(),
{
    if line.len() == 0 {
        Seq::empty()
    } else {
        let before = words(line.drop_last());
        let c = line.last();
        if is_whitespace(c) {
            before
        } else if line.len() >= 2 && !is_whitespace(line[line.len() - 2]) {
            before.drop_last().push(before.last().push(c))
        } else {
            before.push(seq![c])
        }
    }
}

/// A word has at least one character and no whitespace, and a line that
/// does not end in whitespace ends in its last word.
pub proof fn lemma_words_hold_no_whitespace(line: Seq<char>)
    ensures
        forall|i: int|
            0 <= i < words(line).len() ==> (#[trigger] words(line)[i]).len() > 0 && forall|j: int|
                0 <= j < words(line)[i].len() ==> !is_whitespace(#[trigger] words(line)[i][j]),
        line.len() > 0 && !is_whitespace(line.last()) ==> words(line).len() > 0 && words(
            line,
        ).last().last() == line.last(),
    decreases line.len(),
{
    if line.len() > 0 {
        lemma_words_hold_no_whitespace(line.drop_last());
        let before = words(line.drop_last());
        let c = line.last();
        if !is_whitespace(c) && line.len() >= 2 && !is_whitespace(line[line.len() - 2]) {
            // the last word grows by one character
            let grown = before.last().push(c);
            assert forall|j: int| 0 <= j < grown.len() implies !is_whitespace(
                #[trigger] grown[j],
            ) by {}
        }
    }
}

/// A word that begins with a dash.
pub open spec fn is_flag(word: Seq<char>) -> bool {
    word.len() > 0 && word[0] == '-'
}

/// The number of dashes in a word.
pub open spec fn dashes(word: Seq<char>) -> nat {
    word.filter(|c: char| c == '-').len()
}

/// A word without its dashes, wherever they stand.
pub open spec fn without_dashes(word: Seq<char>) -> Seq<char> {
    word.filter(|c: char| c != '-')
}

/// A flag with more than two dashes, which no instruction may hold.
pub open spec fn is_bad_flag(word: Seq<char>) -> bool {
    is_flag(word) && dashes(word) > 2
}

/// The position of the first bad flag among `words`, if there is one.
pub open spec fn first_bad_flag(words: Seq<Seq<char>>) -> Option<int>
    decreases words.len(),
{
    if words.len() == 0 {
        None
    } else {
        match first_bad_flag(words.drop_last()) {
            Some(k) => Some(k),
            None => if is_bad_flag(words.last()) {
                Some(words.len() - 1)
            } else {
                None
            },
        }
    }
}

// ---------------------------------------------------------------------------
// Instructions
// ---------------------------------------------------------------------------

/// A command with its flags and its arguments.
#[derive(Clone, Debug, PartialEq, Eq)]
pub struct Instruction {
    command: String,
    flags: Vec<String>,
    args: Vec<String>,
}

/// An instruction as a mathematical value.
pub struct InstructionView {
    pub command: Seq<char>,
    /// The flags, without their dashes, in the order of the line.
    pub flags: Seq<Seq<char>>,
    /// The other words after the command, in the order of the line.
    pub args: Seq<Seq<char>>,
}

impl InstructionView {
    /// The instruction with each of `words` added: flags, without their
    /// dashes, to the flags, and the others to the arguments.
    pub open spec fn with_words(self, words: Seq<Seq<char>>) -> InstructionView
        decreases words.len(),
    {
        if words.len() == 0 {
            self
        } else {
            let before = self.with_words(words.drop_last());
            let word = words.last();
            if is_flag(word) {
                InstructionView { flags: before.flags.push(without_dashes(word)), ..before }
            } else {
                InstructionView { args: before.args.push(word), ..before }
            }
        }
    }
}

/// The instruction that a line spells: none if the line has no word; else
/// the first word is the command and the others are flags and arguments,
/// unless one of them is a bad flag.
pub open spec fn instruction_of(line: Seq<char>) -> Result<Option<InstructionView>, ErrorView> {
    let all = words(line);
    if all.len() == 0 {
        Ok(None)
    } else {
        let rest = all.subrange(1, all.len() as int);
        match first_bad_flag(rest) {
            Some(k) => Err(ErrorView::UnvalidFlagError(rest[k])),
            None => Ok(
                Some(
                    InstructionView {
                        command: all[0],
                        flags: Seq::empty(),
                        args: Seq::empty(),
                    }.with_words(rest),
                ),
            ),
        }
    }
}

impl View for Instruction {
    type V = InstructionView;

    closed spec fn view(&self) -> InstructionView {
        InstructionView {
            command: self.command@,
            flags: texts_view(self.flags@),
            args: texts_view(self.args@),
        }
    }
}

/// What reading a line gave, as a mathematical value.
pub open spec fn reading_view(r: Result<Option<Instruction>, Error>) -> Result<
    Option<InstructionView>,
    ErrorView,
> {
    match r {
        Ok(Some(instruction)) => Ok(Some(instruction@)),
        Ok(None) => Ok(None),
        Err(e) => Err(e@),
    }
}

impl Instruction {
    pub fn new() -> (instruction: Instruction)
        ensures
            instruction@ == (InstructionView {
                command: Seq::empty(),
                flags: Seq::empty(),
                args: Seq::empty(),
            }),
    {
        let instruction = Instruction {
            command: String::new(),
            flags: Vec::new(),
            args: Vec::new(),
        };
        assert(texts_view(instruction.args@) =~= Seq::empty());
        instruction
    }

    pub fn get_command(&self) -> (command: &str)
        ensures
            command@ == self@.command,
    {
        self.command.as_str()
    }

    pub fn get_arguments(&self) -> (args: &Vec<String>)
        ensures
            texts_view(args@) == self@.args,
    {
        &self.args
    }

    pub fn get_flags(&self) -> (flags: &Vec<String>)
        ensures
            texts_view(flags@) == self@.flags,
    {
        &self.flags
    }
}

/// Whether `c` has the Unicode property `White_Space`.
pub fn char_is_whitespace(c: char) -> (b: bool)
    ensures
        b == is_whitespace(c),
{
    ('\u{9}' <= c && c <= '\u{d}') || c == ' ' || c == '\u{85}' || c == '\u{a0}' || c
        == '\u{1680}' || ('\u{2000}' <= c && c <= '\u{200a}') || c == '\u{2028}' || c
        == '\u{2029}' || c == '\u{202f}' || c == '\u{205f}' || c == '\u{3000}'
}

/// The words of `line`.
pub fn split_words(line: &str) -> (found: Vec<String>)
    ensures
        texts_view(found@) == words(line@),
{
    let mut found: Vec<String> = Vec::new();
    let mut current = String::new();
    let mut in_word = false;
    for c in it: line.chars()
        invariant
            it.seq() == line@,
            in_word == (current@.len() > 0),
            in_word <==> it.index() > 0 && !is_whitespace(line@[it.index() - 1]),
            words(line@.subrange(0, it.index() as int)) == if in_word {
                texts_view(found@).push(current@)
            } else {
                texts_view(found@)
            },
    {
        let ghost i = it.index() as int;
        let ghost before = line@.subrange(0, i);
        let ghost now = line@.subrange(0, i + 1);
        assert(now.drop_last() =~= before);
        if char_is_whitespace(c) {
            if in_word {
                found.push(current);
                current = String::new();
                in_word = false;
            }
        } else {
            let ghost partial = current@;
            push_char(&mut current, c);
            assert(partial.len() == 0 ==> current@ =~= seq![c]);
            in_word = true;
        }
    }
    assert(line@.subrange(0, line@.len() as int) =~= line@);
    if in_word {
        found.push(current);
    }
    found
}

/// Whether two texts are the same.
pub fn same_text(a: &str, b: &str) -> (same: bool)
    ensures
        same == (a@ == b@),
{
    let left = String::from_str(a);
    let right = String::from_str(b);
    left == right
}

/// The number of dashes in `word`, and the word without them.
pub fn strip_dashes(word: &str) -> (r: (usize, String))
    ensures
        r.0 == dashes(word@),
        r.1@ == without_dashes(word@),
{
    let mut count: usize = 0;
    let mut stripped = String::new();
    let ghost is_dash = |c: char| c == '-';
    let ghost no_dash = |c: char| c != '-';
    proof {
        reveal(Seq::filter);
    }
    let total = word.unicode_len();
    for c in it: word.chars()
        invariant
            it.seq() == word@,
            total == word@.len(),
            is_dash == |c: char| c == '-',
            no_dash == |c: char| c != '-',
            count == word@.subrange(0, it.index() as int).filter(is_dash).len(),
            count <= it.index() <= total,
            stripped@ == word@.subrange(0, it.index() as int).filter(no_dash),
    {
        let ghost i = it.index() as int;
        let ghost now = word@.subrange(0, i + 1);
        assert(now.drop_last() =~= word@.subrange(0, i));
        proof {
            reveal(Seq::filter);
        }
        if c == '-' {
            count += 1;
        } else {
            push_char(&mut stripped, c);
        }
    }
    assert(word@.subrange(0, word@.len() as int) =~= word@);
    (count, stripped)
}

/// What has been said to the user, and who says it.
pub struct Cli {
    app_name: String,
    command_history: Vec<String>,
    /// Up to 255.
    history_size: u8,
}

/// The answer of `parse_flags_args`, as a mathematical value.
pub open spec fn placing_view(r: Result<(), Error>) -> Result<(), ErrorView> {
    match r {
        Ok(()) => Ok(()),
        Err(e) => Err(e@),
    }
}

/// The words from position `from` on.
pub open spec fn words_from(words: Seq<Seq<char>>, from: int) -> Seq<Seq<char>> {
    if 0 <= from <= words.len() {
        words.subrange(from, words.len() as int)
    } else {
        Seq::empty()
    }
}

/// What `parse_flags_args` answers for the words it is given, and the
/// instruction that it leaves: every word is placed, up to the first bad
/// flag.
pub open spec fn placing(start: InstructionView, words: Seq<Seq<char>>) -> (
    Result<(), ErrorView>,
    InstructionView,
) {
    match first_bad_flag(words) {
        Some(k) => (
            Err(ErrorView::UnvalidFlagError(words[k])),
            start.with_words(words.subrange(0, k)),
        ),
        None => (Ok(()), start.with_words(words)),
    }
}

/// The first bad flag among words is the first one among more words.
pub proof fn lemma_first_bad_flag_stays(words: Seq<Seq<char>>, n: int, m: int)
    requires
        0 <= n <= m <= words.len(),
        first_bad_flag(words.subrange(0, n)) is Some,
    ensures
        first_bad_flag(words.subrange(0, m)) == first_bad_flag(words.subrange(0, n)),
    decreases m - n,
{
    if n < m {
        lemma_first_bad_flag_stays(words, n, m - 1);
        assert(words.subrange(0, m).drop_last() =~= words.subrange(0, m - 1));
    }
}

impl Cli {
    /// The name that stands before the prompt.
    pub closed spec fn name(&self) -> Seq<char> {
        self.app_name@
    }

    /// The lines that were kept, oldest first.
    pub closed spec fn history(&self) -> Seq<Seq<char>> {
        texts_view(self.command_history@)
    }

    /// The number of lines that the history is meant to hold.
    pub closed spec fn history_size(&self) -> u8 {
        self.history_size
    }

    /// A command line under the name `app_name`, with no line kept yet.
    pub fn new(app_name: String) -> (cli: Cli)
        ensures
            cli.name() == app_name@,
            cli.history().len() == 0,
            cli.history_size() == 200,
    {
        Cli { app_name, command_history: Vec::new(), history_size: 200 }
    }

    /// What is shown before a line is read: the name and `> `.
    pub fn prompt(&self) -> (text: String)
        ensures
            text@ == self.name() + "> "@,
    {
        let mut text = self.app_name.clone();
        text.append("> ");
        text
    }

    /// Keeps `command` as the newest line, if a line was kept before and the
    /// newest of them is another.
    pub fn add_command_to_history(&mut self, command: &String)
        ensures
            final(self).name() == old(self).name(),
            final(self).history_size() == old(self).history_size(),
            final(self).history() == if old(self).history().len() > 0 && old(
                self,
            ).history().last() != command@ {
                old(self).history().push(command@)
            } else {
                old(self).history()
            },
    {
        let n = self.command_history.len();
        if n > 0 {
            if self.command_history[n - 1] != *command {
                self.command_history.push(command.clone());
            }
        }
    }

    /// The instruction that the line `input` spells, after the line has been
    /// offered to the history.
    pub fn get_instruction(&mut self, input: String) -> (r: Result<Option<Instruction>, Error>)
        ensures
            final(self).name() == old(self).name(),
            final(self).history_size() == old(self).history_size(),
            final(self).history() == if old(self).history().len() > 0 && old(
                self,
            ).history().last() != input@ {
                old(self).history().push(input@)
            } else {
                old(self).history()
            },
            reading_view(r) == instruction_of(input@),
    {
        self.add_command_to_history(&input);
        Self::parse_instruction(input)
    }

    /// The instruction that the line `input` spells.
    pub fn parse_instruction(input: String) -> (r: Result<Option<Instruction>, Error>)
        ensures
            reading_view(r) == instruction_of(input@),
    {
        let found = split_words(input.as_str());
        let mut instruction = Instruction::new();
        if found.len() == 0 {
            return Ok(None);
        }
        instruction.command = found[0].clone();
        match Self::parse_flags_args(&mut instruction, &found, 1) {
            Ok(()) => Ok(Some(instruction)),
            Err(e) => Err(e),
        }
    }

    /// Places the words of `words` from position `from` on in `instruction`:
    /// flags, without their dashes, among the flags, and the others among
    /// the arguments. Stops at the first flag with more than two dashes.
    pub fn parse_flags_args(instruction: &mut Instruction, words: &Vec<String>, from: usize) -> (r:
        Result<(), Error>)
        ensures
            (placing_view(r), final(instruction)@) == placing(
                old(instruction)@,
                words_from(texts_view(words@), from as int),
            ),
    {
        let ghost start = instruction@;
        let ghost rest = words_from(texts_view(words@), from as int);
        let mut i: usize = from;
        while i < words.len()
            invariant
                from <= i,
                from <= words@.len() ==> i <= words@.len(),
                from > words@.len() ==> i == from,
                start == old(instruction)@,
                rest == words_from(texts_view(words@), from as int),
                first_bad_flag(rest.subrange(0, i - from)) is None,
                instruction@ == start.with_words(rest.subrange(0, i - from)),
            decreases words@.len() - i,
        {
            let word = &words[i];
            let ghost k = i - from;
            assert(rest.subrange(0, k + 1).drop_last() =~= rest.subrange(0, k));
            let first_is_dash = word.as_str().unicode_len() > 0 && word.as_str().get_char(0) == '-';
            if first_is_dash {
                let (count, stripped) = strip_dashes(word.as_str());
                if count > 2 {
                    proof {
                        lemma_first_bad_flag_stays(rest, k + 1, rest.len() as int);
                        assert(rest.subrange(0, rest.len() as int) =~= rest);
                    }
                    return Err(Error::UnvalidFlagError(word.clone()));
                }
                let ghost before = texts_view(instruction.flags@);
                instruction.flags.push(stripped);
                assert(texts_view(instruction.flags@) =~= before.push(stripped@));
            } else {
                let ghost before = texts_view(instruction.args@);
                instruction.args.push(word.clone());
                assert(texts_view(instruction.args@) =~= before.push(word@));
            }
            i += 1;
        }
        assert(rest.subrange(0, i - from) =~= rest);
        Ok(())
    }
}

} // verus!
