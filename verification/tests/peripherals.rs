//! Relay, signal generator bank, converter and edge monitor logic, on
//! concrete values.

use sspa::relay::Level;
use sspa::tnr::{TnrAction, TnrBank};
use sspa::monitor::{
    CounterEvent, CounterOutcome, CounterSession, MonitorAction, MonitorRequest, MonitorState,
};

#[test]
fn relay_zero_is_off_high() {
    let (level, resp) = sspa::relay::relay_step(&[0x2D, 0x00, 0x00, 0x00]);
    assert_eq!(level, Level::High);
    assert_eq!(resp, [0x00, 0x00]);
}

#[test]
fn relay_nonzero_is_on_low() {
    let (level, resp) = sspa::relay::relay_step(&[0x2D, 0x00, 0x12, 0x34]);
    assert_eq!(level, Level::Low);
    assert_eq!(resp, [0x12, 0x34]);
    let (level, resp) = sspa::relay::relay_step(&[0x3D, 0x00, 0x00, 0x01]);
    assert_eq!(level, Level::Low);
    assert_eq!(resp, [0x00, 0x01]);
}

#[test]
fn relay_request_is_word_bytes() {
    assert_eq!(sspa::relay::relay(0x2D001234), [0x2D, 0x00, 0x12, 0x34]);
}

#[test]
fn bank_starts_with_defaults() {
    let b = TnrBank::new();
    assert_eq!(b.period, 100);
    assert_eq!(b.pulse_width, 10);
    assert_eq!(b.leading_margin, 1);
    assert_eq!(b.trailing_margin, 1);
    assert_eq!(b.repeat_count, 1);
    assert_eq!(b.power_enable, 1);
}

#[test]
fn register_write_then_read_round_trips() {
    let mut b = TnrBank::new();
    for addr in 0u8..6 {
        let write = [0x23, addr, 0x12, 0x30 + addr];
        let (resp, _) = sspa::tnr::tnr_step(&mut b, &write);
        assert_eq!(resp, [0x12, 0x30 + addr]);
        let read = [0x33, addr, 0x00, 0x00];
        let (resp, action) = sspa::tnr::tnr_step(&mut b, &read);
        assert_eq!(resp, [0x12, 0x30 + addr]);
        assert_eq!(action, TnrAction::Quiet);
    }
}

#[test]
fn register_address_above_five_echoes_and_mutates_nothing() {
    let mut b = TnrBank::new();
    let before = b;
    let (resp, action) = sspa::tnr::tnr_step(&mut b, &[0x23, 6, 0xAB, 0xCD]);
    assert_eq!(resp, [0xAB, 0xCD]);
    assert_eq!(action, TnrAction::Quiet);
    assert_eq!(b, before);
    let (resp, _) = sspa::tnr::tnr_step(&mut b, &[0x33, 0xFF, 0x00, 0x00]);
    assert_eq!(resp, [0x00, 0x00]);
    assert_eq!(b, before);
}

#[test]
fn register_write_to_power_flag_drives_the_pin() {
    let mut b = TnrBank::new();
    let (_, action) = sspa::tnr::tnr_step(&mut b, &[0x23, 5, 0x00, 0x00]);
    assert_eq!(action, TnrAction::SetPower { high: false });
    let (_, action) = sspa::tnr::tnr_step(&mut b, &[0x23, 5, 0x00, 0x07]);
    assert_eq!(action, TnrAction::SetPower { high: true });
}

#[test]
fn apply_regenerates_from_the_current_bank() {
    let mut b = TnrBank::new();
    let (resp, action) = sspa::tnr::tnr_step(&mut b, &[0xA3, 0x00, 0x00, 0x00]);
    assert_eq!(resp, [0x00, 0x00]);
    assert_eq!(action, TnrAction::Regenerate { power_high: true });
    assert_eq!(b, TnrBank::new());
    // With the power flag written to zero, apply asks for a low pin.
    let (_, _) = sspa::tnr::tnr_step(&mut b, &[0x23, 5, 0x00, 0x00]);
    let (_, action) = sspa::tnr::tnr_step(&mut b, &[0xA3, 0x00, 0x00, 0x00]);
    assert_eq!(action, TnrAction::Regenerate { power_high: false });
}

#[test]
fn converter_bus_frames() {
    // Address 3, value 0x0200, bus mode: the value's top bits sit above
    // the mode nibble (write low, read 0xC).
    assert_eq!(sspa::converter::dac_write(0x2A030200, false), [0x03, 0x20, 0x00]);
    assert_eq!(sspa::converter::dac_read(0x3A030200, false), [0x03, 0x2C, 0x00]);
    // Emulated mode keeps the raw masked bytes.
    assert_eq!(sspa::converter::dac_write(0x2A030200, true), [0x03, 0x02, 0x00]);
    assert_eq!(sspa::converter::dac_read(0x3A030200, true), [0x03, 0x02, 0x00]);
}

#[test]
fn converter_address_range_flag() {
    assert!(!sspa::converter::conv_addr_out_of_range(&[0x70, 0, 0]));
    assert!(sspa::converter::conv_addr_out_of_range(&[0x80, 0, 0]));
    assert!(!sspa::converter::conv_addr_out_of_range(&[0x03, 0x20, 0x00]));
}

#[test]
fn converter_retry_on_clear_mode_bits() {
    assert!(sspa::converter::conv_needs_retry(&[0x00, 0x20, 0x00]));
    assert!(!sspa::converter::conv_needs_retry(&[0x00, 0x2C, 0x00]));
    assert_eq!(sspa::converter::conv_retry_frame(&[0x03, 0x20, 0x00]), [0x03, 0x2C, 0x00]);
}

#[test]
fn converter_response_folds_validity_flag() {
    // A device byte of 0xFF reverses to 0xFF and inverts to 0x00: the
    // data bits pass through untouched.
    assert_eq!(sspa::converter::dac_response(&[0xFF, 0x02, 0x55]), [0x02, 0x55]);
    // A device byte of 0x7F reverses to 0xFE and inverts to 0x01: the
    // invalid signal lands in the response's high byte.
    assert_eq!(sspa::converter::dac_response(&[0x7F, 0x02, 0x55]), [0x03, 0x55]);
    // An all-zero device byte floods the high byte.
    assert_eq!(sspa::converter::dac_response(&[0x00, 0x02, 0x55]), [0xFF, 0x55]);
}

#[test]
fn pwm_write_sets_channel_duty() {
    let mut bank = sspa::converter::PwmBank::new();
    let (resp, action) = sspa::converter::pwm_step(&mut bank, &[0x03, 0x02, 0x00]);
    assert_eq!(resp, [0x02, 0x00]);
    assert_eq!(action, Some(sspa::converter::PwmAction::SetDuty { channel: 3, duty: 512 }));
    assert_eq!(bank.duties[3], 512);
}

#[test]
fn pwm_zero_duty_disables_channel() {
    let mut bank = sspa::converter::PwmBank::new();
    let (resp, action) = sspa::converter::pwm_step(&mut bank, &[0x03, 0x00, 0x00]);
    assert_eq!(resp, [0x00, 0x00]);
    assert_eq!(action, Some(sspa::converter::PwmAction::Disable { channel: 3 }));
    assert_eq!(bank.duties[3], 0);
}

#[test]
fn pwm_address_out_of_range_is_sentinel() {
    let mut bank = sspa::converter::PwmBank::new();
    let before = bank.duties.clone();
    let (resp, action) = sspa::converter::pwm_step(&mut bank, &[0x08, 0x02, 0x00]);
    assert_eq!(resp, [0xF0, 0xF0]);
    assert_eq!(action, None);
    assert_eq!(bank.duties, before);
}

#[test]
fn monitor_request_parsing() {
    assert_eq!(
        sspa::monitor::parse_monitor_request(&[0x4D, 0x00, 0x01, 0xF4]),
        MonitorRequest::WaitForEdge { timeout_ms: 500 }
    );
    assert_eq!(
        sspa::monitor::parse_monitor_request(&[0x4D, 0x01, 0x00, 0x64]),
        MonitorRequest::StartCounting { timeout_ms: 100 }
    );
    assert_eq!(
        sspa::monitor::parse_monitor_request(&[0x4D, 0x02, 0x00, 0x00]),
        MonitorRequest::StopAndCollect
    );
    assert_eq!(
        sspa::monitor::parse_monitor_request(&[0x4D, 0x09, 0x00, 0x00]),
        MonitorRequest::LevelRead
    );
}

#[test]
fn monitor_session_state_machine() {
    let (action, state) = sspa::monitor::monitor_step(
        MonitorState::Idle,
        MonitorRequest::StartCounting { timeout_ms: 100 },
    );
    assert_eq!(action, MonitorAction::SpawnCounter { timeout_ms: 100 });
    assert_eq!(state, MonitorState::Counting);

    let (action, state) = sspa::monitor::monitor_step(state, MonitorRequest::StopAndCollect);
    assert_eq!(action, MonitorAction::CollectCount);
    assert_eq!(state, MonitorState::Idle);

    let (action, state) = sspa::monitor::monitor_step(state, MonitorRequest::StopAndCollect);
    assert_eq!(action, MonitorAction::NoSession);
    assert_eq!(state, MonitorState::Idle);

    let (action, state) =
        sspa::monitor::monitor_step(state, MonitorRequest::WaitForEdge { timeout_ms: 250 });
    assert_eq!(action, MonitorAction::ArmAndWait { timeout_ms: 250 });
    assert_eq!(state, MonitorState::Idle);

    let (action, _) = sspa::monitor::monitor_step(state, MonitorRequest::LevelRead);
    assert_eq!(action, MonitorAction::ReadLevel);
}

#[test]
fn wait_and_level_responses() {
    assert_eq!(sspa::monitor::wait_response(sspa::monitor::EdgeWait::Edge), [0, 1]);
    assert_eq!(sspa::monitor::wait_response(sspa::monitor::EdgeWait::TimedOut), [0, 0]);
    assert_eq!(sspa::monitor::level_response(true), [0, 1]);
    assert_eq!(sspa::monitor::level_response(false), [0, 0]);
    assert_eq!(sspa::monitor::zero_response(), [0, 0]);
}

#[test]
fn counting_n_edges_then_stop_reports_n() {
    let mut s = CounterSession { count: 0 };
    for _ in 0..5 {
        match sspa::monitor::counter_step(s, CounterEvent::Edge) {
            CounterOutcome::Continue(next) => s = next,
            CounterOutcome::Finished(_) => panic!("an edge must continue the session"),
        }
    }
    match sspa::monitor::counter_step(s, CounterEvent::Stop) {
        CounterOutcome::Finished(count) => assert_eq!(count, 5),
        CounterOutcome::Continue(_) => panic!("stop must finish the session"),
    }
}

#[test]
fn counting_ends_on_an_empty_window() {
    let s = CounterSession { count: 0 };
    let s = match sspa::monitor::counter_step(s, CounterEvent::Edge) {
        CounterOutcome::Continue(next) => next,
        CounterOutcome::Finished(_) => panic!("an edge must continue the session"),
    };
    match sspa::monitor::counter_step(s, CounterEvent::TimedOut) {
        CounterOutcome::Finished(count) => assert_eq!(count, 1),
        CounterOutcome::Continue(_) => panic!("an empty window must finish the session"),
    }
}
