use upsync::config::{
    check_peer_address, Behaviour, ClientConfig, ConfigError, DEFAULT_ACTION_DELAY,
    DEFAULT_CONFIRM_ATTEMPTS, DEFAULT_DELAY, DEFAULT_POLL_INTERVAL,
};
use upsync::notifier::NotifyRequest;

fn chosen() -> ClientConfig {
    ClientConfig::new(
        String::from("alice"),
        String::from("secret"),
        String::from("192.168.66.99:9898"),
        true,
        String::from("AA:bb:0C:1d:e2:F3"),
        45,
        Behaviour::Hibernate,
        false,
    )
}

#[test]
fn new_keeps_the_choices_and_fills_in_the_defaults() {
    let config = chosen();
    assert_eq!(config.user, "alice");
    assert_eq!(config.shared_key, "secret");
    assert_eq!(config.peer_address, "192.168.66.99:9898");
    assert!(config.wake_on_return);
    assert_eq!(config.mac_address, "AA:bb:0C:1d:e2:F3");
    assert_eq!(config.default_delay, 45);
    assert_eq!(config.default_behaviour, Behaviour::Hibernate);
    assert!(!config.show_popup);
    assert_eq!(config.poll_interval, 5);
    assert_eq!(config.default_action_delay, 5);
    assert_eq!(config.confirm_attempts, 10);
    assert_eq!(DEFAULT_POLL_INTERVAL, 5);
    assert_eq!(DEFAULT_ACTION_DELAY, 5);
    assert_eq!(DEFAULT_DELAY, 30);
    assert_eq!(DEFAULT_CONFIRM_ATTEMPTS, 10);
}

#[test]
fn settings_from_new_are_valid() {
    assert_eq!(chosen().validate(), Ok(()));
}

#[test]
fn empty_user_is_refused() {
    let mut config = chosen();
    config.user = String::new();
    assert_eq!(config.validate(), Err(ConfigError::EmptyUser));
}

#[test]
fn empty_key_is_refused() {
    let mut config = chosen();
    config.shared_key = String::new();
    assert_eq!(config.validate(), Err(ConfigError::EmptyKey));
}

#[test]
fn bad_peer_address_is_refused() {
    for address in ["", "host", "host:", ":22", "host:0", "host:65536", "host:22x", "host:2 2", "host:+22", "a:b:c"] {
        let mut config = chosen();
        config.peer_address = String::from(address);
        assert_eq!(config.validate(), Err(ConfigError::InvalidPeerAddress));
        assert!(!check_peer_address(address));
    }
}

#[test]
fn good_peer_addresses_are_accepted() {
    for address in ["host:1", "host:65535", "127.0.0.1:22", "[::1]:9898", "peer.example.org:00080", "a:b:7"] {
        assert!(check_peer_address(address));
    }
}

#[test]
fn bad_mac_address_is_refused() {
    for mac in ["", "aa:bb:cc:dd:ee", "aa:bb:cc:dd:ee:fg", "aabbccddeeff", "aa:bb:cc:dd:ee:ff:", "aa.bb.cc.dd.ee.ff"] {
        let mut config = chosen();
        config.mac_address = String::from(mac);
        assert_eq!(config.validate(), Err(ConfigError::InvalidMacAddress));
    }
}

#[test]
fn mac_address_may_be_empty_when_the_peer_is_not_woken() {
    let mut config = chosen();
    config.wake_on_return = false;
    config.mac_address = String::new();
    assert_eq!(config.validate(), Ok(()));
    config.mac_address = String::from("aa-bb-cc-dd-ee-ff");
    assert_eq!(config.validate(), Ok(()));
    config.mac_address = String::from("nonsense");
    assert_eq!(config.validate(), Err(ConfigError::InvalidMacAddress));
}

#[test]
fn zero_poll_interval_is_refused() {
    let mut config = chosen();
    config.poll_interval = 0;
    assert_eq!(config.validate(), Err(ConfigError::ZeroPollInterval));
}

#[test]
fn the_first_fault_is_reported() {
    let mut config = chosen();
    config.poll_interval = 0;
    config.mac_address = String::from("x");
    assert_eq!(config.validate(), Err(ConfigError::InvalidMacAddress));
    config.peer_address = String::from("x");
    assert_eq!(config.validate(), Err(ConfigError::InvalidPeerAddress));
    config.shared_key = String::new();
    assert_eq!(config.validate(), Err(ConfigError::EmptyKey));
    config.user = String::new();
    assert_eq!(config.validate(), Err(ConfigError::EmptyUser));
}

#[test]
fn every_error_has_its_message() {
    assert_eq!(ConfigError::EmptyUser.message(), "the account name is empty");
    assert_eq!(ConfigError::EmptyKey.message(), "the shared key is empty");
    assert_eq!(ConfigError::InvalidPeerAddress.message(), "the peer address is not host:port");
    assert_eq!(ConfigError::InvalidMacAddress.message(), "the hardware address is not valid");
    assert_eq!(ConfigError::ZeroPollInterval.message(), "the poll interval is zero");
}

#[test]
fn the_request_follows_popup_and_default_behaviour() {
    let mut config = chosen();
    assert_eq!(config.notify_request(), NotifyRequest::Direct { action: Behaviour::Hibernate });
    config.show_popup = true;
    assert_eq!(
        config.notify_request(),
        NotifyRequest::Prompt { default: Behaviour::Hibernate, delay: 45 }
    );
}
