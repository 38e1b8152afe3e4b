//! Reading what the operator types: the answers to the setup questions and
//! the command the program is started with.
//!
//! Each reader here takes one line as it was typed and says what it means,
//! or that it will not do. `next_question` then decides whether the question
//! is answered, asked again or, after `MAX_ATTEMPTS` lines that would not do,
//! given up. Only the reading and the printing are left to the caller.

use vstd::prelude::*;
use crate::config::{Behaviour, DEFAULT_DELAY};
use crate::text::{chars_of, is_word, parse_unsigned, same_text, trimmed, trimmed_bounds, unsigned};

verus! {

/// How many times a question is asked before the setup gives up.
pub const MAX_ATTEMPTS: u32 = 3;

/// What the program is asked to do.
#[derive(Clone, Copy, Debug, PartialEq, Eq, Structural)]
pub enum Command {
    /// Ask for the settings and store them.
    Setup,
    /// Watch the battery and look after the peer.
    Server,
    /// Anything else: say how the program is used.
    Help,
}

/// What the operator answered when asked whether the stored settings may be
/// replaced.
#[derive(Clone, Copy, Debug, PartialEq, Eq, Structural)]
pub enum Overwrite {
    /// Go on and ask for new settings.
    Yes,
    /// Leave the settings as they are.
    No,
    /// Neither yes nor no.
    Invalid,
}

/// What comes of one line typed in answer to a question.
#[derive(Clone, Copy, Debug, PartialEq, Eq)]
pub enum Asked<T> {
    /// The line will do, and this is what it means.
    Accepted(T),
    /// The line will not do; the question is asked again.
    Again,
    /// The line will not do, and it was the last that is asked for: the
    /// setup ends without an answer.
    GiveUp,
}

/// What comes of a line when `refused` lines before it would not do:
/// the answer where the line means one, else another try as long as fewer
/// than `MAX_ATTEMPTS` lines have been refused, this one counted.
pub open spec fn asked_of<T>(refused: u32, answer: Option<T>) -> Asked<T> {
    match answer {
        Some(value) => Asked::Accepted(value),
        None => if refused + 1 < MAX_ATTEMPTS {
            Asked::Again
        } else {
            Asked::GiveUp
        },
    }
}

/// What comes of a question when the lines typed mean `answers`, in order,
/// and `refused` lines would not do before them. `Again` where the lines run
/// out before the question is settled.
pub open spec fn asked_all<T>(refused: u32, answers: Seq<Option<T>>) -> Asked<T>
    decreases answers.len(),
{
    if answers.len() == 0 {
        Asked::Again
    } else {
        match asked_of(refused, answers[0]) {
            Asked::Again => asked_all((refused + 1) as u32, answers.drop_first()),
            settled => settled,
        }
    }
}

/// Decides, after a line was read, whether the question is answered, asked
/// again or given up.
pub fn next_question<T>(refused: u32, answer: Option<T>) -> (r: Asked<T>)
    ensures
        r == asked_of(refused, answer),
{
    match answer {
        Some(value) => Asked::Accepted(value),
        None => if refused < MAX_ATTEMPTS - 1 {
            Asked::Again
        } else {
            Asked::GiveUp
        },
    }
}

/// The first line that will do decides, if it is among the first
/// `MAX_ATTEMPTS`: when the lines before line `k` are refused and line `k`
/// is accepted, the answer is what line `k` means, whatever follows.
pub proof fn lemma_first_accepted_line_decides<T>(
    refused: u32,
    answers: Seq<Option<T>>,
    k: int,
)
    requires
        0 <= k < answers.len(),
        refused + k < MAX_ATTEMPTS,
        answers[k] is Some,
        forall|j: int| 0 <= j < k ==> (#[trigger] answers[j]) is None,
    ensures
        asked_all(refused, answers) == Asked::Accepted(answers[k]->0),
    decreases k,
{
    if k > 0 {
        assert(answers[0] is None);
        let rest = answers.drop_first();
        assert forall|j: int| 0 <= j < k - 1 implies (#[trigger] rest[j]) is None by {
            assert(rest[j] == answers[j + 1]);
        }
        assert(rest[k - 1] == answers[k]);
        lemma_first_accepted_line_decides((refused + 1) as u32, rest, k - 1);
    }
}

/// Three lines that will not do end the setup: when the first
/// `MAX_ATTEMPTS` lines are refused the question is given up, and no line
/// after them is looked at.
pub proof fn lemma_three_refusals_give_up<T>(answers: Seq<Option<T>>)
    requires
        answers.len() >= MAX_ATTEMPTS,
        forall|j: int| 0 <= j < MAX_ATTEMPTS ==> (#[trigger] answers[j]) is None,
    ensures
        asked_all(0, answers) == Asked::<T>::GiveUp,
{
    assert(answers[0] is None);
    assert(answers[1] is None);
    assert(answers[2] is None);
    let one = answers.drop_first();
    let two = one.drop_first();
    assert(one[0] == answers[1]);
    assert(two[0] == answers[2]);
    assert(asked_all(2, two) == Asked::<T>::GiveUp);
    assert(asked_all(1, one) == Asked::<T>::GiveUp);
}

/// The command that the word `word` names.
pub open spec fn command_of(word: Seq<char>) -> Command {
    if word == "setup"@ {
        Command::Setup
    } else if word == "server"@ {
        Command::Server
    } else {
        Command::Help
    }
}

/// The answer that `input` gives to a yes-or-no question: `y` or `n` in
/// either case.
pub open spec fn overwrite_of(input: Seq<char>) -> Overwrite {
    if input == "y"@ || input == "Y"@ {
        Overwrite::Yes
    } else if input == "n"@ || input == "N"@ {
        Overwrite::No
    } else {
        Overwrite::Invalid
    }
}

/// What a line of free text means: itself, unless it is empty and must not
/// be.
pub open spec fn text_answer(input: Seq<char>, allow_empty: bool) -> Option<Seq<char>> {
    if input.len() == 0 && !allow_empty {
        None
    } else {
        Some(input)
    }
}

/// What a line means as a number of seconds: the default where it is empty,
/// else the unsigned integer it spells, if it spells one that fits 32 bits.
pub open spec fn seconds_answer(input: Seq<char>) -> Option<nat> {
    if input.len() == 0 {
        Some(DEFAULT_DELAY as nat)
    } else {
        unsigned(input, u32::MAX as nat)
    }
}

/// What a line means as yes or no, white space at its ends left out:
/// `default` where nothing is left, else `y` or `n` in either case.
pub open spec fn yes_no_answer(input: Seq<char>, default: bool) -> Option<bool> {
    let answer = trimmed(input);
    if answer.len() == 0 {
        Some(default)
    } else if answer == "y"@ || answer == "Y"@ {
        Some(true)
    } else if answer == "n"@ || answer == "N"@ {
        Some(false)
    } else {
        None
    }
}

/// What a line means as a choice of behaviour: `Sleep` where it is empty,
/// else the behaviour with the number it spells, from 1 for `Sleep` to 4 for
/// `Ignore`.
pub open spec fn behaviour_answer(input: Seq<char>) -> Option<Behaviour> {
    if input.len() == 0 {
        Some(Behaviour::Sleep)
    } else {
        match unsigned(input, u8::MAX as nat) {
            Some(n) => if n == 1 {
                Some(Behaviour::Sleep)
            } else if n == 2 {
                Some(Behaviour::Hibernate)
            } else if n == 3 {
                Some(Behaviour::Shutdown)
            } else if n == 4 {
                Some(Behaviour::Ignore)
            } else {
                None
            },
            None => None,
        }
    }
}

impl Command {
    /// Reads the first argument of the program.
    pub fn parse(word: &str) -> (command: Command)
        ensures
            command == command_of(word@),
    {
        if same_text(word, "setup") {
            Command::Setup
        } else if same_text(word, "server") {
            Command::Server
        } else {
            Command::Help
        }
    }
}

impl Overwrite {
    /// Reads the answer to the question whether the stored settings may be
    /// replaced.
    pub fn parse(input: &str) -> (answer: Overwrite)
        ensures
            answer == overwrite_of(input@),
    {
        if same_text(input, "y") || same_text(input, "Y") {
            Overwrite::Yes
        } else if same_text(input, "n") || same_text(input, "N") {
            Overwrite::No
        } else {
            Overwrite::Invalid
        }
    }
}

/// Takes a line of free text. `None` where it is empty and `allow_empty` is
/// not set.
pub fn parse_input_string(input: &str, allow_empty: bool) -> (r: Option<String>)
    ensures
        r is Some == text_answer(input@, allow_empty) is Some,
        r is Some ==> r->0@ == input@,
{
    if input.unicode_len() == 0 && !allow_empty {
        None
    } else {
        Some(String::from_str(input))
    }
}

/// Takes a line as a number of seconds. `None` where it is neither empty nor
/// an unsigned integer of 32 bits.
pub fn parse_input_u32(input: &str) -> (r: Option<u32>)
    ensures
        r is Some == seconds_answer(input@) is Some,
        r is Some ==> r->0 == seconds_answer(input@)->0,
{
    if input.unicode_len() == 0 {
        return Some(DEFAULT_DELAY);
    }
    match parse_unsigned(input, u32::MAX as u64) {
        Some(n) => Some(n as u32),
        None => None,
    }
}

/// Takes a line as yes or no. `None` where it is neither, nor blank.
pub fn get_yes_no_input(input: &str, default: bool) -> (r: Option<bool>)
    ensures
        r == yes_no_answer(input@, default),
{
    let chars = chars_of(input);
    let (from, to) = trimmed_bounds(&chars);
    if from == to {
        Some(default)
    } else if is_word(&chars, from, to, "y") || is_word(&chars, from, to, "Y") {
        Some(true)
    } else if is_word(&chars, from, to, "n") || is_word(&chars, from, to, "N") {
        Some(false)
    } else {
        None
    }
}

/// Takes a line as a choice of behaviour. `None` where it is neither empty
/// nor a number from 1 to 4.
pub fn parse_input_behaviour(input: &str) -> (r: Option<Behaviour>)
    ensures
        r == behaviour_answer(input@),
{
    if input.unicode_len() == 0 {
        return Some(Behaviour::Sleep);
    }
    match parse_unsigned(input, u8::MAX as u64) {
        Some(1) => Some(Behaviour::Sleep),
        Some(2) => Some(Behaviour::Hibernate),
        Some(3) => Some(Behaviour::Shutdown),
        Some(4) => Some(Behaviour::Ignore),
        _ => None,
    }
}

} // verus!
