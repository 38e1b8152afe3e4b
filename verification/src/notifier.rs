//! The notification protocol: what is sent to the peer and how its reply is
//! read.
//!
//! The request is one line of text, a command for the peer's shell. The reply
//! is one line too, and only its first word counts.

use vstd::prelude::*;
use crate::config::{Behaviour, DEFAULT_DELAY};
use crate::text::{
    chars_of, decimal_text, first_token, first_token_bounds, is_whitespace, is_word,
    leading_word, lemma_decimal_round_trip, parse_unsigned, render_decimal, same_text,
    skip_whitespace, unsigned,
};

verus! {

/// What the peer decided to do about the outage.
#[derive(Clone, Copy, Debug, PartialEq, Eq, Structural)]
pub enum PeerDecision {
    Ignore,
    Suspend,
    Hibernate,
    PowerOff,
    /// The reply named none of the known actions.
    Unrecognized,
}

impl PeerDecision {
    /// Whether the decision takes the peer off the network.
    pub open spec fn takes_peer_down(self) -> bool {
        self == PeerDecision::Suspend || self == PeerDecision::Hibernate || self
            == PeerDecision::PowerOff
    }

    /// The decision that the word `token` names. The match is exact: case
    /// counts, and anything but the four known words is `Unrecognized`.
    pub open spec fn of_token(token: Seq<char>) -> PeerDecision {
        if token == "ignore"@ {
            PeerDecision::Ignore
        } else if token == "suspend"@ {
            PeerDecision::Suspend
        } else if token == "hibernate"@ {
            PeerDecision::Hibernate
        } else if token == "poweroff"@ {
            PeerDecision::PowerOff
        } else {
            PeerDecision::Unrecognized
        }
    }

    /// The decision that a reply carries: the one its first word names.
    pub open spec fn of_reply(reply: Seq<char>) -> PeerDecision {
        Self::of_token(first_token(reply))
    }

    /// The word that stands for the decision in a reply.
    pub open spec fn word_text(self) -> Seq<char> {
        match self {
            PeerDecision::Ignore => "ignore"@,
            PeerDecision::Suspend => "suspend"@,
            PeerDecision::Hibernate => "hibernate"@,
            PeerDecision::PowerOff => "poweroff"@,
            PeerDecision::Unrecognized => "unrecognized"@,
        }
    }

    /// The behaviour that the decision asks of the peer; none where the
    /// reply was not recognized.
    pub open spec fn as_behaviour(self) -> Option<Behaviour> {
        match self {
            PeerDecision::Ignore => Some(Behaviour::Ignore),
            PeerDecision::Suspend => Some(Behaviour::Sleep),
            PeerDecision::Hibernate => Some(Behaviour::Hibernate),
            PeerDecision::PowerOff => Some(Behaviour::Shutdown),
            PeerDecision::Unrecognized => None,
        }
    }

    /// The behaviour that the decision asks of the peer; none where the
    /// reply was not recognized.
    pub fn behaviour(&self) -> (r: Option<Behaviour>)
        ensures
            r == self.as_behaviour(),
    {
        match self {
            PeerDecision::Ignore => Some(Behaviour::Ignore),
            PeerDecision::Suspend => Some(Behaviour::Sleep),
            PeerDecision::Hibernate => Some(Behaviour::Hibernate),
            PeerDecision::PowerOff => Some(Behaviour::Shutdown),
            PeerDecision::Unrecognized => None,
        }
    }

    /// The word that stands for the decision in a reply.
    pub fn word(&self) -> (word: &'static str)
        ensures
            word@ == self.word_text(),
    {
        match self {
            PeerDecision::Ignore => "ignore",
            PeerDecision::Suspend => "suspend",
            PeerDecision::Hibernate => "hibernate",
            PeerDecision::PowerOff => "poweroff",
            PeerDecision::Unrecognized => "unrecognized",
        }
    }

    /// Whether the decision takes the peer off the network.
    pub fn is_shutdown(&self) -> (r: bool)
        ensures
            r == self.takes_peer_down(),
    {
        match self {
            PeerDecision::Suspend | PeerDecision::Hibernate | PeerDecision::PowerOff => true,
            _ => false,
        }
    }

    /// Reads the peer's reply: the first word, set off by white space, is
    /// matched against `ignore`, `suspend`, `hibernate` and `poweroff`.
    pub fn parse(reply: &str) -> (decision: PeerDecision)
        ensures
            decision == Self::of_reply(reply@),
    {
        let chars = chars_of(reply);
        let (from, to) = first_token_bounds(&chars);
        if is_word(&chars, from, to, "ignore") {
            PeerDecision::Ignore
        } else if is_word(&chars, from, to, "suspend") {
            PeerDecision::Suspend
        } else if is_word(&chars, from, to, "hibernate") {
            PeerDecision::Hibernate
        } else if is_word(&chars, from, to, "poweroff") {
            PeerDecision::PowerOff
        } else {
            PeerDecision::Unrecognized
        }
    }
}

impl Behaviour {
    /// The decision that this behaviour amounts to when the peer is told to
    /// act on it.
    pub open spec fn as_decision(self) -> PeerDecision {
        match self {
            Behaviour::Sleep => PeerDecision::Suspend,
            Behaviour::Hibernate => PeerDecision::Hibernate,
            Behaviour::Shutdown => PeerDecision::PowerOff,
            Behaviour::Ignore => PeerDecision::Ignore,
        }
    }

    /// The word by which the peer's prompt knows this behaviour. The prompt
    /// spells hibernation `hybernate`, and so does this word: peers of any
    /// age understand it.
    pub open spec fn keyword_text(self) -> Seq<char> {
        match self {
            Behaviour::Sleep => "suspend"@,
            Behaviour::Hibernate => "hybernate"@,
            Behaviour::Shutdown => "shutdown"@,
            Behaviour::Ignore => "ignore"@,
        }
    }

    /// The decision that this behaviour amounts to when the peer is told to
    /// act on it.
    pub fn decision(&self) -> (d: PeerDecision)
        ensures
            d == self.as_decision(),
    {
        match self {
            Behaviour::Sleep => PeerDecision::Suspend,
            Behaviour::Hibernate => PeerDecision::Hibernate,
            Behaviour::Shutdown => PeerDecision::PowerOff,
            Behaviour::Ignore => PeerDecision::Ignore,
        }
    }

    /// The word by which the peer's prompt knows this behaviour.
    pub fn keyword(&self) -> (word: &'static str)
        ensures
            word@ == self.keyword_text(),
    {
        match self {
            Behaviour::Sleep => "suspend",
            Behaviour::Hibernate => "hybernate",
            Behaviour::Shutdown => "shutdown",
            Behaviour::Ignore => "ignore",
        }
    }
}

/// The verb that the peer's service manager takes for the behaviour word
/// `action`; empty where the word names nothing to do.
pub open spec fn default_verb(action: Seq<char>) -> Seq<char> {
    if action == "suspend"@ {
        "suspend"@
    } else if action == "hybernate"@ {
        "hibernate"@
    } else if action == "shutdown"@ {
        "poweroff"@
    } else {
        ""@
    }
}

/// The verb that the peer's service manager takes for the behaviour word
/// `action`; empty where the word names nothing to do.
pub fn get_default(action: &str) -> (verb: String)
    ensures
        verb@ == default_verb(action@),
{
    if same_text(action, "suspend") {
        String::from_str("suspend")
    } else if same_text(action, "hybernate") {
        String::from_str("hibernate")
    } else if same_text(action, "shutdown") {
        String::from_str("poweroff")
    } else {
        String::from_str("")
    }
}

/// What the notifier is asked to deliver.
#[derive(Clone, Copy, Debug, PartialEq, Eq, Structural)]
pub enum NotifyRequest {
    /// Ask the peer's user; after `delay` seconds without a choice the peer
    /// does `default`.
    Prompt { default: Behaviour, delay: u32 },
    /// Have the peer do this at once.
    Direct { action: Behaviour },
}

impl NotifyRequest {
    /// The line that is sent to the peer.
    ///
    /// A prompt starts the peer's popup on its display and hands it the
    /// default behaviour and the delay. An instruction calls the peer's
    /// service manager; the instruction to ignore the outage only has the
    /// peer say so.
    pub open spec fn line_text(self) -> Seq<char> {
        match self {
            NotifyRequest::Prompt { default, delay } => {
                "export DISPLAY=:0 && export WAYLAND_DISPLAY=wayland-0 && DEFAULT="@
                    + default.keyword_text() + " SEC="@ + decimal_text(delay as nat)
                    + " MOD=gui upsync-gui"@
            },
            NotifyRequest::Direct { action } => {
                if action == Behaviour::Ignore {
                    "echo 'ignore'"@
                } else {
                    "systemctl "@ + default_verb(action.keyword_text())
                }
            },
        }
    }

    /// The decision that the request ends in once `reply` has come back:
    /// what the reply says, whatever was asked for. A peer that was told
    /// what to do and answers with none of the known words has decided
    /// nothing that the host knows of: its reply is `Unrecognized`, never
    /// taken for the action it was told.
    pub open spec fn decision_of(self, reply: Seq<char>) -> PeerDecision {
        PeerDecision::of_reply(reply)
    }

    /// The line that is sent to the peer.
    pub fn line(&self) -> (text: String)
        ensures
            text@ == self.line_text(),
            is_single_line(text@),
    {
        proof {
            lemma_request_is_single_line(*self);
        }
        match self {
            NotifyRequest::Prompt { default, delay } => {
                let mut text = String::from_str(
                    "export DISPLAY=:0 && export WAYLAND_DISPLAY=wayland-0 && DEFAULT=",
                );
                text.append(default.keyword());
                text.append(" SEC=");
                let seconds = render_decimal(*delay as u64);
                text.append(seconds.as_str());
                text.append(" MOD=gui upsync-gui");
                text
            },
            NotifyRequest::Direct { action } => {
                match action {
                    Behaviour::Ignore => String::from_str("echo 'ignore'"),
                    _ => {
                        let mut text = String::from_str("systemctl ");
                        let verb = get_default(action.keyword());
                        text.append(verb.as_str());
                        text
                    },
                }
            },
        }
    }

    /// The decision that the request ends in once `reply` has come back:
    /// what the reply says, whatever was asked for.
    pub fn decision(&self, reply: &str) -> (d: PeerDecision)
        ensures
            d == self.decision_of(reply@),
            d == PeerDecision::of_reply(reply@),
    {
        PeerDecision::parse(reply)
    }
}

/// The command that has the service manager do what the behaviour word
/// `action` says.
pub open spec fn default_command_text(action: Seq<char>) -> Seq<char> {
    "systemctl "@ + default_verb(action)
}

/// What the popup tells the user: what will happen, and in how many seconds.
pub open spec fn popup_message_text(action: Seq<char>, seconds: nat) -> Seq<char> {
    "System will "@ + default_verb(action) + " in "@ + decimal_text(seconds) + " seconds"@
}

/// The number of seconds that `text` spells, or the default of 30 where it
/// spells none that fits 32 bits.
pub open spec fn seconds_or_default_of(text: Seq<char>) -> nat {
    match unsigned(text, u32::MAX as nat) {
        Some(n) => n,
        None => DEFAULT_DELAY as nat,
    }
}

/// The decision that the popup takes by itself when nobody chooses in time:
/// the one that the behaviour word `action` stands for, and `Ignore` where
/// the word names nothing to do.
pub open spec fn default_decision_of(action: Seq<char>) -> PeerDecision {
    if action == "suspend"@ {
        PeerDecision::Suspend
    } else if action == "hybernate"@ {
        PeerDecision::Hibernate
    } else if action == "shutdown"@ {
        PeerDecision::PowerOff
    } else {
        PeerDecision::Ignore
    }
}

/// The decision that the popup takes by itself when nobody chooses in time.
pub fn default_decision(action: &str) -> (decision: PeerDecision)
    ensures
        decision == default_decision_of(action@),
{
    if same_text(action, "suspend") {
        PeerDecision::Suspend
    } else if same_text(action, "hybernate") {
        PeerDecision::Hibernate
    } else if same_text(action, "shutdown") {
        PeerDecision::PowerOff
    } else {
        PeerDecision::Ignore
    }
}

/// The command that has the service manager do what the behaviour word
/// `action` says.
pub fn default_command(action: &str) -> (command: String)
    ensures
        command@ == default_command_text(action@),
{
    let mut command = String::from_str("systemctl ");
    let verb = get_default(action);
    command.append(verb.as_str());
    command
}

/// What the popup tells the user: what will happen, and in how many seconds.
pub fn popup_message(action: &str, seconds: u32) -> (message: String)
    ensures
        message@ == popup_message_text(action@, seconds as nat),
{
    let mut message = String::from_str("System will ");
    let verb = get_default(action);
    message.append(verb.as_str());
    message.append(" in ");
    let number = render_decimal(seconds as u64);
    message.append(number.as_str());
    message.append(" seconds");
    message
}

/// Reads the delay handed to the popup; 30 seconds where `text` is no
/// unsigned integer of 32 bits.
pub fn seconds_or_default(text: &str) -> (seconds: u32)
    ensures
        seconds == seconds_or_default_of(text@),
{
    match parse_unsigned(text, u32::MAX as u64) {
        Some(n) => n as u32,
        None => DEFAULT_DELAY,
    }
}

/// Whether `s` is a single line: it holds no line break.
pub open spec fn is_single_line(s: Seq<char>) -> bool {
    forall|i: int| 0 <= i < s.len() ==> #[trigger] s[i] != '\n' && s[i] != '\r'
}

/// Two single lines put together are a single line.
proof fn lemma_single_line_concat(a: Seq<char>, b: Seq<char>)
    requires
        is_single_line(a),
        is_single_line(b),
    ensures
        is_single_line(a + b),
{
    assert forall|i: int| 0 <= i < (a + b).len() implies #[trigger] (a + b)[i] != '\n' && (a
        + b)[i] != '\r' by {
        if i < a.len() {
            assert((a + b)[i] == a[i]);
        } else {
            assert((a + b)[i] == b[i - a.len()]);
        }
    }
}

/// A text that holds nothing but characters from the space to `z` is a
/// single line.
proof fn lemma_plain_text_is_single_line(s: Seq<char>)
    requires
        forall|i: int| 0 <= i < s.len() ==> ' ' <= #[trigger] s[i] <= 'z',
    ensures
        is_single_line(s),
{
}

/// A number written in decimal digits is a single line.
proof fn lemma_decimal_text_single_line(n: nat)
    ensures
        is_single_line(decimal_text(n)),
{
    lemma_decimal_round_trip(n);
    lemma_plain_text_is_single_line(decimal_text(n));
}

/// A behaviour's word, and the verb for a behaviour word, is a single line.
proof fn lemma_words_are_single_lines(behaviour: Behaviour, action: Seq<char>)
    ensures
        is_single_line(behaviour.keyword_text()),
        is_single_line(default_verb(action)),
{
    reveal_strlit("suspend");
    reveal_strlit("hybernate");
    reveal_strlit("hibernate");
    reveal_strlit("shutdown");
    reveal_strlit("poweroff");
    reveal_strlit("ignore");
    reveal_strlit("");
    lemma_plain_text_is_single_line(behaviour.keyword_text());
    lemma_plain_text_is_single_line(default_verb(action));
}

/// What is sent to the peer is one line of text, whatever the request.
pub proof fn lemma_request_is_single_line(request: NotifyRequest)
    ensures
        is_single_line(request.line_text()),
{
    reveal_strlit("export DISPLAY=:0 && export WAYLAND_DISPLAY=wayland-0 && DEFAULT=");
    reveal_strlit(" SEC=");
    reveal_strlit(" MOD=gui upsync-gui");
    reveal_strlit("echo 'ignore'");
    reveal_strlit("systemctl ");
    match request {
        NotifyRequest::Prompt { default, delay } => {
            let a = "export DISPLAY=:0 && export WAYLAND_DISPLAY=wayland-0 && DEFAULT="@;
            let b = default.keyword_text();
            let c = " SEC="@;
            let d = decimal_text(delay as nat);
            let e = " MOD=gui upsync-gui"@;
            lemma_plain_text_is_single_line(a);
            lemma_words_are_single_lines(default, b);
            lemma_plain_text_is_single_line(c);
            lemma_decimal_text_single_line(delay as nat);
            lemma_plain_text_is_single_line(e);
            lemma_single_line_concat(a, b);
            lemma_single_line_concat(a + b, c);
            lemma_single_line_concat(a + b + c, d);
            lemma_single_line_concat(a + b + c + d, e);
        },
        NotifyRequest::Direct { action } => {
            if action == Behaviour::Ignore {
                lemma_plain_text_is_single_line("echo 'ignore'"@);
            } else {
                let s = "systemctl "@;
                lemma_plain_text_is_single_line(s);
                lemma_words_are_single_lines(action, action.keyword_text());
                lemma_single_line_concat(s, default_verb(action.keyword_text()));
            }
        },
    }
}

/// In a text without white space the first word is the whole text.
pub proof fn lemma_word_is_its_first_token(s: Seq<char>)
    requires
        forall|i: int| 0 <= i < s.len() ==> !is_whitespace(#[trigger] s[i]),
    ensures
        skip_whitespace(s) == s,
        leading_word(s) == s,
        first_token(s) == s,
    decreases s.len(),
{
    if s.len() > 0 {
        assert(!is_whitespace(s[0]));
        let rest = s.drop_first();
        assert forall|i: int| 0 <= i < rest.len() implies !is_whitespace(#[trigger] rest[i]) by {
            assert(rest[i] == s[i + 1]);
        }
        lemma_word_is_its_first_token(rest);
        assert(seq![s[0]] + rest == s);
    }
}

/// What the peer writes is what the host reads: a reply that is the word of
/// a decision carries that decision.
pub proof fn lemma_reply_round_trip(decision: PeerDecision)
    ensures
        PeerDecision::of_token(decision.word_text()) == decision,
        PeerDecision::of_reply(decision.word_text()) == decision,
{
    reveal_strlit("ignore");
    reveal_strlit("suspend");
    reveal_strlit("hibernate");
    reveal_strlit("poweroff");
    reveal_strlit("unrecognized");
    let s = decision.word_text();
    assert("ignore"@.len() == 6);
    assert("suspend"@.len() == 7);
    assert("hibernate"@.len() == 9);
    assert("poweroff"@.len() == 8);
    assert("unrecognized"@.len() == 12);
    assert forall|i: int| 0 <= i < s.len() implies !is_whitespace(#[trigger] s[i]) by {
        assert('a' <= s[i] <= 'z');
    }
    lemma_word_is_its_first_token(s);
}

/// The behaviour words and the verbs fit together: the verb for a
/// behaviour's word is the word of the decision that the behaviour amounts
/// to, and there is none for `Ignore`.
pub proof fn lemma_default_verb_names_decision(behaviour: Behaviour)
    ensures
        behaviour != Behaviour::Ignore ==> PeerDecision::of_token(
            default_verb(behaviour.keyword_text()),
        ) == behaviour.as_decision(),
        behaviour == Behaviour::Ignore ==> default_verb(behaviour.keyword_text()) == ""@,
        PeerDecision::of_token("ignore"@) == Behaviour::Ignore.as_decision(),
        behaviour.as_decision().as_behaviour() == Some(behaviour),
        default_decision_of(behaviour.keyword_text()) == behaviour.as_decision(),
{
    reveal_strlit("ignore");
    reveal_strlit("suspend");
    reveal_strlit("hibernate");
    reveal_strlit("poweroff");
    reveal_strlit("hybernate");
    reveal_strlit("shutdown");
    reveal_strlit("");
    assert("ignore"@.len() == 6);
    assert("suspend"@.len() == 7);
    assert("hibernate"@.len() == 9);
    assert("hybernate"@.len() == 9);
    assert("hybernate"@[1] == 'y');
    assert("hibernate"@[1] == 'i');
    assert("shutdown"@.len() == 8);
    assert("poweroff"@.len() == 8);
    assert("shutdown"@[0] == 's');
    assert("poweroff"@[0] == 'p');
    assert("suspend"@[0] == 's');
    assert("ignore"@[0] == 'i');
    assert("hibernate"@[0] == 'h');
}

} // verus!
