//! The settings the orchestrator is started with, and what makes them valid.

use vstd::prelude::*;
use crate::notifier::NotifyRequest;
use crate::probe::ReachabilityState;
use crate::text::{chars_of, decimal, parse_decimal};
use crate::wake::{is_mac_address, parse_mac};

verus! {

/// What the peer is to do when power is lost and nobody chooses otherwise.
#[derive(Clone, Copy, Debug, PartialEq, Eq, Structural)]
pub enum Behaviour {
    Sleep,
    Hibernate,
    Shutdown,
    Ignore,
}

/// Seconds between two regular battery reads unless the settings say otherwise.
pub const DEFAULT_POLL_INTERVAL: u64 = 5;

/// Seconds before a follow-up probe unless the settings say otherwise.
pub const DEFAULT_ACTION_DELAY: u64 = 5;

/// Seconds the peer waits before it acts on its own unless the settings say
/// otherwise.
pub const DEFAULT_DELAY: u32 = 30;

/// Reachability polls spent on confirming a shutdown unless the settings say
/// otherwise.
pub const DEFAULT_CONFIRM_ATTEMPTS: u32 = 10;

/// The highest port number.
pub const MAX_PORT: u64 = 65535;

/// What is wrong with the settings. Where several things are wrong, the one
/// that comes first here is reported.
#[derive(Clone, Copy, Debug, PartialEq, Eq, Structural)]
pub enum ConfigError {
    /// No account name.
    EmptyUser,
    /// No shared key.
    EmptyKey,
    /// The peer's address is not `host:port`.
    InvalidPeerAddress,
    /// The hardware address is needed, or given, and is not one.
    InvalidMacAddress,
    /// The poll interval is zero.
    ZeroPollInterval,
}

/// The settings, loaded once and never changed afterwards.
#[derive(Clone, Debug)]
pub struct ClientConfig {
    /// The account on the peer that notifications are delivered to.
    pub user: String,
    /// The secret shared with the peer.
    pub shared_key: String,
    /// Where the peer listens, as `host:port`.
    pub peer_address: String,
    /// The peer's hardware address, the target of the wake packet. May be
    /// empty where the peer is not to be woken.
    pub mac_address: String,
    /// Seconds between two regular battery reads; more than zero.
    pub poll_interval: u64,
    /// Seconds before a follow-up probe: the settle read that confirms a
    /// discharge, and each poll that confirms a shutdown.
    pub default_action_delay: u64,
    /// What the peer does when power is lost and nobody chooses otherwise.
    pub default_behaviour: Behaviour,
    /// Seconds the peer waits for a choice before it acts on its own; also
    /// the delay before a wake packet is sent.
    pub default_delay: u32,
    /// How many reachability polls are spent on confirming a shutdown.
    pub confirm_attempts: u32,
    /// Whether the peer is woken when power is back.
    pub wake_on_return: bool,
    /// Whether the peer asks its user what to do.
    pub show_popup: bool,
}

/// Whether the colon at `i` parts `s` into a host and a port: something
/// stands before it, and what follows is a decimal number from 1 to 65535.
pub open spec fn parts_host_and_port(s: Seq<char>, i: int) -> bool {
    &&& 0 < i < s.len()
    &&& s[i] == ':'
    &&& decimal(s.subrange(i + 1, s.len() as int), MAX_PORT as nat) is Some
    &&& decimal(s.subrange(i + 1, s.len() as int), MAX_PORT as nat)->0 >= 1
}

/// Whether `s` is an address of the form `host:port`.
pub open spec fn is_peer_address(s: Seq<char>) -> bool {
    exists|i: int| parts_host_and_port(s, i)
}

/// Whether `text` is an address of the form `host:port`, the host not empty
/// and the port a decimal number from 1 to 65535.
pub fn check_peer_address(text: &str) -> (r: bool)
    ensures
        r == is_peer_address(text@),
{
    let chars = chars_of(text);
    let n = chars.len();
    let mut colon: usize = n;
    while colon > 0 && chars[colon - 1] != ':'
        invariant
            colon <= n == chars.len(),
            forall|j: int| colon <= j < n ==> chars@[j] != ':',
        decreases colon,
    {
        colon -= 1;
    }
    if colon == 0 {
        assert forall|i: int| !parts_host_and_port(text@, i) by {}
        return false;
    }
    let at: usize = colon - 1;
    let port = parse_decimal(&chars, colon, n, MAX_PORT);
    let good = at > 0 && match port {
        Some(p) => p >= 1,
        None => false,
    };
    proof {
        if good {
            assert(parts_host_and_port(text@, at as int));
        } else {
            assert forall|i: int| !parts_host_and_port(text@, i) by {
                if 0 < i < at && text@[i] == ':' {
                    let tail = text@.subrange(i + 1, n as int);
                    assert(tail[at - i - 1] == ':');
                    assert(!crate::text::is_digit(tail[at - i - 1]));
                }
            }
        }
    }
    good
}

impl ClientConfig {
    /// What the notifier is asked to deliver when power is lost: a prompt
    /// where the peer shows one, else the default behaviour as an instruction.
    pub open spec fn request(self) -> NotifyRequest {
        if self.show_popup {
            NotifyRequest::Prompt { default: self.default_behaviour, delay: self.default_delay }
        } else {
            NotifyRequest::Direct { action: self.default_behaviour }
        }
    }

    /// Whether the peer is woken when power is back and the peer is found in
    /// the state `peer`: the settings must say so, and the peer must be
    /// offline.
    pub open spec fn wakes(self, peer: ReachabilityState) -> bool {
        self.wake_on_return && peer == ReachabilityState::Offline
    }

    /// Whether the hardware address will do: it is one, or it is left empty
    /// and the peer is not to be woken.
    pub open spec fn mac_address_ok(self) -> bool {
        is_mac_address(self.mac_address@) || (!self.wake_on_return && self.mac_address@.len()
            == 0)
    }

    /// What is wrong with the settings, if anything.
    pub open spec fn check(self) -> Result<(), ConfigError> {
        if self.user@.len() == 0 {
            Err(ConfigError::EmptyUser)
        } else if self.shared_key@.len() == 0 {
            Err(ConfigError::EmptyKey)
        } else if !is_peer_address(self.peer_address@) {
            Err(ConfigError::InvalidPeerAddress)
        } else if !self.mac_address_ok() {
            Err(ConfigError::InvalidMacAddress)
        } else if self.poll_interval == 0 {
            Err(ConfigError::ZeroPollInterval)
        } else {
            Ok(())
        }
    }

    /// Whether the settings are valid: account and key are given, the peer's
    /// address is `host:port`, the hardware address will do, and the poll
    /// interval is more than zero.
    pub open spec fn valid(self) -> bool {
        &&& self.user@.len() > 0
        &&& self.shared_key@.len() > 0
        &&& is_peer_address(self.peer_address@)
        &&& self.mac_address_ok()
        &&& self.poll_interval > 0
    }

    /// Puts the settings together from what the operator chose. What the
    /// operator is not asked for gets its default: the poll interval, the
    /// delay before a follow-up probe and the number of confirmation polls.
    pub fn new(
        user: String,
        shared_key: String,
        peer_address: String,
        wake_on_return: bool,
        mac_address: String,
        default_delay: u32,
        default_behaviour: Behaviour,
        show_popup: bool,
    ) -> (config: ClientConfig)
        ensures
            config == (ClientConfig {
                user,
                shared_key,
                peer_address,
                mac_address,
                poll_interval: DEFAULT_POLL_INTERVAL,
                default_action_delay: DEFAULT_ACTION_DELAY,
                default_behaviour,
                default_delay,
                confirm_attempts: DEFAULT_CONFIRM_ATTEMPTS,
                wake_on_return,
                show_popup,
            }),
    {
        ClientConfig {
            user,
            shared_key,
            peer_address,
            mac_address,
            poll_interval: DEFAULT_POLL_INTERVAL,
            default_action_delay: DEFAULT_ACTION_DELAY,
            default_behaviour,
            default_delay,
            confirm_attempts: DEFAULT_CONFIRM_ATTEMPTS,
            wake_on_return,
            show_popup,
        }
    }

    /// What the notifier is asked to deliver when power is lost.
    pub fn notify_request(&self) -> (r: NotifyRequest)
        ensures
            r == self.request(),
    {
        if self.show_popup {
            NotifyRequest::Prompt { default: self.default_behaviour, delay: self.default_delay }
        } else {
            NotifyRequest::Direct { action: self.default_behaviour }
        }
    }

    /// Checks the settings and says what is wrong with them, if anything.
    pub fn validate(&self) -> (r: Result<(), ConfigError>)
        ensures
            r == self.check(),
            r is Ok == self.valid(),
    {
        if self.user.as_str().unicode_len() == 0 {
            return Err(ConfigError::EmptyUser);
        }
        if self.shared_key.as_str().unicode_len() == 0 {
            return Err(ConfigError::EmptyKey);
        }
        if !check_peer_address(self.peer_address.as_str()) {
            return Err(ConfigError::InvalidPeerAddress);
        }
        let mac_is_empty = self.mac_address.as_str().unicode_len() == 0;
        if !(mac_is_empty && !self.wake_on_return) {
            if parse_mac(self.mac_address.as_str()).is_none() {
                return Err(ConfigError::InvalidMacAddress);
            }
        }
        if self.poll_interval == 0 {
            return Err(ConfigError::ZeroPollInterval);
        }
        Ok(())
    }
}

impl ConfigError {
    /// What the error says, for the operator.
    pub open spec fn message_text(self) -> Seq<char> {
        match self {
            ConfigError::EmptyUser => "the account name is empty"@,
            ConfigError::EmptyKey => "the shared key is empty"@,
            ConfigError::InvalidPeerAddress => "the peer address is not host:port"@,
            ConfigError::InvalidMacAddress => "the hardware address is not valid"@,
            ConfigError::ZeroPollInterval => "the poll interval is zero"@,
        }
    }

    /// What the error says, for the operator.
    pub fn message(&self) -> (text: String)
        ensures
            text@ == self.message_text(),
    {
        match self {
            ConfigError::EmptyUser => String::from_str("the account name is empty"),
            ConfigError::EmptyKey => String::from_str("the shared key is empty"),
            ConfigError::InvalidPeerAddress => String::from_str(
                "the peer address is not host:port",
            ),
            ConfigError::InvalidMacAddress => String::from_str(
                "the hardware address is not valid",
            ),
            ConfigError::ZeroPollInterval => String::from_str("the poll interval is zero"),
        }
    }
}

} // verus!
