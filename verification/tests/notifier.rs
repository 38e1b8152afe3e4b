use upsync::config::Behaviour;
use upsync::notifier::{
    default_command, default_decision, get_default, popup_message, seconds_or_default,
    NotifyRequest, PeerDecision,
};

#[test]
fn the_popup_decides_by_itself_as_the_default_says() {
    assert_eq!(default_decision("suspend"), PeerDecision::Suspend);
    assert_eq!(default_decision("hybernate"), PeerDecision::Hibernate);
    assert_eq!(default_decision("shutdown"), PeerDecision::PowerOff);
    assert_eq!(default_decision("ignore"), PeerDecision::Ignore);
    assert_eq!(default_decision("hibernate"), PeerDecision::Ignore);
    assert_eq!(default_decision(""), PeerDecision::Ignore);
    for behaviour in [Behaviour::Sleep, Behaviour::Hibernate, Behaviour::Shutdown, Behaviour::Ignore] {
        assert_eq!(default_decision(behaviour.keyword()), behaviour.decision());
        assert_eq!(behaviour.decision().behaviour(), Some(behaviour));
    }
    assert_eq!(PeerDecision::Unrecognized.behaviour(), None);
}

#[test]
fn reply_is_read_by_its_first_word() {
    assert_eq!(PeerDecision::parse("ignore"), PeerDecision::Ignore);
    assert_eq!(PeerDecision::parse("suspend"), PeerDecision::Suspend);
    assert_eq!(PeerDecision::parse("hibernate"), PeerDecision::Hibernate);
    assert_eq!(PeerDecision::parse("poweroff"), PeerDecision::PowerOff);
    assert_eq!(PeerDecision::parse("suspend now please"), PeerDecision::Suspend);
    assert_eq!(PeerDecision::parse("  \t poweroff\n"), PeerDecision::PowerOff);
    assert_eq!(PeerDecision::parse("hibernate\r\n"), PeerDecision::Hibernate);
    assert_eq!(PeerDecision::parse("\u{a0}ignore\u{2003}later"), PeerDecision::Ignore);
}

#[test]
fn reply_match_is_exact_and_case_sensitive() {
    assert_eq!(PeerDecision::parse(""), PeerDecision::Unrecognized);
    assert_eq!(PeerDecision::parse("   "), PeerDecision::Unrecognized);
    assert_eq!(PeerDecision::parse("Suspend"), PeerDecision::Unrecognized);
    assert_eq!(PeerDecision::parse("IGNORE"), PeerDecision::Unrecognized);
    assert_eq!(PeerDecision::parse("suspended"), PeerDecision::Unrecognized);
    assert_eq!(PeerDecision::parse("suspen"), PeerDecision::Unrecognized);
    assert_eq!(PeerDecision::parse("power off"), PeerDecision::Unrecognized);
    assert_eq!(PeerDecision::parse("now suspend"), PeerDecision::Unrecognized);
    assert_eq!(PeerDecision::parse("shutdown"), PeerDecision::Unrecognized);
    assert_eq!(PeerDecision::parse("unrecognized"), PeerDecision::Unrecognized);
}

#[test]
fn the_word_of_a_decision_reads_back_as_the_decision() {
    for decision in [
        PeerDecision::Ignore,
        PeerDecision::Suspend,
        PeerDecision::Hibernate,
        PeerDecision::PowerOff,
        PeerDecision::Unrecognized,
    ] {
        assert_eq!(PeerDecision::parse(decision.word()), decision);
    }
    assert_eq!(PeerDecision::PowerOff.word(), "poweroff");
}

#[test]
fn only_three_decisions_take_the_peer_down() {
    assert!(PeerDecision::Suspend.is_shutdown());
    assert!(PeerDecision::Hibernate.is_shutdown());
    assert!(PeerDecision::PowerOff.is_shutdown());
    assert!(!PeerDecision::Ignore.is_shutdown());
    assert!(!PeerDecision::Unrecognized.is_shutdown());
}

#[test]
fn get_default_maps_behaviour_words_to_verbs() {
    assert_eq!(get_default("suspend"), "suspend");
    assert_eq!(get_default("hybernate"), "hibernate");
    assert_eq!(get_default("shutdown"), "poweroff");
    assert_eq!(get_default("ignore"), "");
    assert_eq!(get_default("hibernate"), "");
    assert_eq!(get_default("Shutdown"), "");
    assert_eq!(get_default(""), "");
}

#[test]
fn behaviours_have_words_and_decisions() {
    assert_eq!(Behaviour::Sleep.keyword(), "suspend");
    assert_eq!(Behaviour::Hibernate.keyword(), "hybernate");
    assert_eq!(Behaviour::Shutdown.keyword(), "shutdown");
    assert_eq!(Behaviour::Ignore.keyword(), "ignore");
    assert_eq!(Behaviour::Sleep.decision(), PeerDecision::Suspend);
    assert_eq!(Behaviour::Hibernate.decision(), PeerDecision::Hibernate);
    assert_eq!(Behaviour::Shutdown.decision(), PeerDecision::PowerOff);
    assert_eq!(Behaviour::Ignore.decision(), PeerDecision::Ignore);
    for behaviour in [Behaviour::Sleep, Behaviour::Hibernate, Behaviour::Shutdown] {
        let verb = get_default(behaviour.keyword());
        assert_eq!(PeerDecision::parse(&verb), behaviour.decision());
    }
}

#[test]
fn prompt_line_carries_default_and_delay() {
    let request = NotifyRequest::Prompt { default: Behaviour::Shutdown, delay: 30 };
    assert_eq!(
        request.line(),
        "export DISPLAY=:0 && export WAYLAND_DISPLAY=wayland-0 && DEFAULT=shutdown SEC=30 MOD=gui upsync-gui"
    );
    let request = NotifyRequest::Prompt { default: Behaviour::Hibernate, delay: 0 };
    assert_eq!(
        request.line(),
        "export DISPLAY=:0 && export WAYLAND_DISPLAY=wayland-0 && DEFAULT=hybernate SEC=0 MOD=gui upsync-gui"
    );
    let request = NotifyRequest::Prompt { default: Behaviour::Sleep, delay: u32::MAX };
    assert_eq!(
        request.line(),
        "export DISPLAY=:0 && export WAYLAND_DISPLAY=wayland-0 && DEFAULT=suspend SEC=4294967295 MOD=gui upsync-gui"
    );
}

#[test]
fn direct_line_calls_the_service_manager() {
    assert_eq!(NotifyRequest::Direct { action: Behaviour::Sleep }.line(), "systemctl suspend");
    assert_eq!(NotifyRequest::Direct { action: Behaviour::Hibernate }.line(), "systemctl hibernate");
    assert_eq!(NotifyRequest::Direct { action: Behaviour::Shutdown }.line(), "systemctl poweroff");
    assert_eq!(NotifyRequest::Direct { action: Behaviour::Ignore }.line(), "echo 'ignore'");
}

#[test]
fn request_lines_are_single_lines() {
    for behaviour in [Behaviour::Sleep, Behaviour::Hibernate, Behaviour::Shutdown, Behaviour::Ignore] {
        assert!(!NotifyRequest::Direct { action: behaviour }.line().contains('\n'));
        assert!(!NotifyRequest::Prompt { default: behaviour, delay: 1234 }.line().contains('\n'));
    }
}

#[test]
fn the_decision_is_what_the_reply_says_whatever_was_asked() {
    let prompt = NotifyRequest::Prompt { default: Behaviour::Shutdown, delay: 30 };
    assert_eq!(prompt.decision("hibernate"), PeerDecision::Hibernate);
    assert_eq!(prompt.decision("what"), PeerDecision::Unrecognized);
    let direct = NotifyRequest::Direct { action: Behaviour::Sleep };
    assert_eq!(direct.decision("hibernate"), PeerDecision::Hibernate);
    assert_eq!(direct.decision("suspend"), PeerDecision::Suspend);
    assert_eq!(direct.decision(""), PeerDecision::Unrecognized);
    assert_eq!(direct.decision("done"), PeerDecision::Unrecognized);
    let ignore = NotifyRequest::Direct { action: Behaviour::Ignore };
    assert_eq!(ignore.decision("ignore\n"), PeerDecision::Ignore);
    assert_eq!(ignore.decision("poweroff"), PeerDecision::PowerOff);
    assert_eq!(ignore.decision(""), PeerDecision::Unrecognized);
}

#[test]
fn default_command_and_popup_message_are_spelled_out() {
    assert_eq!(default_command("shutdown"), "systemctl poweroff");
    assert_eq!(default_command("hybernate"), "systemctl hibernate");
    assert_eq!(default_command("nothing"), "systemctl ");
    assert_eq!(popup_message("shutdown", 30), "System will poweroff in 30 seconds");
    assert_eq!(popup_message("suspend", 5), "System will suspend in 5 seconds");
    assert_eq!(popup_message("other", 120), "System will  in 120 seconds");
}

#[test]
fn seconds_fall_back_to_thirty() {
    assert_eq!(seconds_or_default("45"), 45);
    assert_eq!(seconds_or_default("+7"), 7);
    assert_eq!(seconds_or_default("0"), 0);
    assert_eq!(seconds_or_default(""), 30);
    assert_eq!(seconds_or_default("soon"), 30);
    assert_eq!(seconds_or_default("-1"), 30);
    assert_eq!(seconds_or_default("4294967295"), 4294967295);
    assert_eq!(seconds_or_default("4294967296"), 30);
}
