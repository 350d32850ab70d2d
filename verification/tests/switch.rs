use wakesp::config::{choose_hostname, flag_enabled, HOSTNAME_FALLBACK, HOSTNAME_MAX_LEN};
use wakesp::switch::{pulse_step, select_pin, toggle_levels, Level, PulseStep, SwitchError, PULSE_MS};
use wakesp::wifi::{connection_step, ConnectionAction, ConnectionEvent, RECONNECT_DELAY_MS};

#[test]
fn the_pins_from_two_to_nine_can_be_pulsed() {
    for pin in 2..=9u8 {
        assert_eq!(select_pin(&pin.to_string()), Ok(pin));
    }
    assert_eq!(select_pin("+2"), Ok(2));
    assert_eq!(select_pin("09"), Ok(9));
}

#[test]
fn other_numbers_name_no_pin() {
    for pin in ["0", "1", "10", "11", "255"] {
        assert_eq!(select_pin(pin), Err(SwitchError::NoSuchPin));
    }
}

#[test]
fn a_text_that_is_no_byte_names_no_pin() {
    for pin in ["", "two", "256", "-2", "2 ", "2.0"] {
        assert_eq!(select_pin(pin), Err(SwitchError::BadNumber));
    }
}

#[test]
fn a_pulse_goes_to_one_level_and_back() {
    assert_eq!(toggle_levels(false), (Level::Low, Level::High));
    assert_eq!(toggle_levels(true), (Level::High, Level::Low));
}

#[test]
fn a_pulse_holds_its_first_level_for_half_a_second() {
    assert_eq!(pulse_step(false, true), PulseStep::Hold { millis: 500 });
    assert_eq!(pulse_step(true, true), PulseStep::Done);
    assert_eq!(PULSE_MS, 500);
}

#[test]
fn a_pin_that_cannot_be_driven_ends_the_pulse() {
    assert_eq!(pulse_step(false, false), PulseStep::Failed(SwitchError::PinUnavailable));
    assert_eq!(pulse_step(true, false), PulseStep::Failed(SwitchError::PinUnavailable));
}

#[test]
fn a_flag_is_on_for_true_and_one_only() {
    assert!(flag_enabled("true"));
    assert!(flag_enabled("1"));
    for off in ["", "0", "false", "TRUE", "True", "yes", " true", "true ", "11"] {
        assert!(!flag_enabled(off));
    }
}

#[test]
fn the_configured_host_name_is_trimmed() {
    assert_eq!(choose_hostname("desk"), "desk");
    assert_eq!(choose_hostname("  desk \n"), "desk");
    assert_eq!(choose_hostname("my desk"), "my desk");
}

#[test]
fn an_empty_host_name_falls_back() {
    assert_eq!(choose_hostname(""), "wakesp");
    assert_eq!(choose_hostname("  \t "), "wakesp");
    assert_eq!(HOSTNAME_FALLBACK, "wakesp");
}

#[test]
fn a_host_name_of_more_than_32_bytes_falls_back() {
    let fits = "a".repeat(32);
    assert_eq!(choose_hostname(&fits), fits);
    assert_eq!(choose_hostname(&format!(" {} ", fits)), fits);
    assert_eq!(choose_hostname(&"a".repeat(33)), "wakesp");
    // Sixteen characters of two bytes fit, seventeen do not.
    let wide = "\u{e9}".repeat(16);
    assert_eq!(choose_hostname(&wide), wide);
    assert_eq!(choose_hostname(&"\u{e9}".repeat(17)), "wakesp");
    assert_eq!(HOSTNAME_MAX_LEN, 32);
}

#[test]
fn an_associated_station_waits_for_the_loss_and_pauses() {
    assert_eq!(connection_step(ConnectionEvent::RoundStarted { associated: true }), ConnectionAction::AwaitDisconnect);
    assert_eq!(connection_step(ConnectionEvent::Disconnected), ConnectionAction::PauseThenCheck { millis: 5000 });
}

#[test]
fn a_station_starts_its_controller_and_connects() {
    assert_eq!(connection_step(ConnectionEvent::RoundStarted { associated: false }), ConnectionAction::CheckController);
    assert_eq!(connection_step(ConnectionEvent::ControllerChecked { started: false }), ConnectionAction::StartController);
    assert_eq!(connection_step(ConnectionEvent::ControllerChecked { started: true }), ConnectionAction::Connect);
    assert_eq!(connection_step(ConnectionEvent::ControllerStarted), ConnectionAction::Connect);
    assert_eq!(connection_step(ConnectionEvent::ConnectDone { ok: true }), ConnectionAction::NextRound);
}

#[test]
fn a_failed_connect_is_followed_by_a_pause() {
    assert_eq!(
        connection_step(ConnectionEvent::ConnectDone { ok: false }),
        ConnectionAction::PauseThenNextRound { millis: 5000 }
    );
    assert_eq!(RECONNECT_DELAY_MS, 5000);
}
