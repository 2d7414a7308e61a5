use servicerestarter::codec::CodecError;
use servicerestarter::codec::RegistryValue;
use servicerestarter::supervisor::Action;
use servicerestarter::supervisor::ConfigItem;
use servicerestarter::supervisor::Event;
use servicerestarter::supervisor::FatalError;
use servicerestarter::supervisor::LoopState;
use servicerestarter::supervisor::PredefinedKey;
use servicerestarter::supervisor::RawValue;
use servicerestarter::supervisor::ServiceState;
use servicerestarter::supervisor::Supervisor;
use servicerestarter::supervisor::config_value_name;
use servicerestarter::supervisor::control_requests_stop;
use servicerestarter::supervisor::get_my_registry_path;
use servicerestarter::supervisor::CONTROL_INTERROGATE;
use servicerestarter::supervisor::CONTROL_STOP;

fn units(s: &str) -> Vec<u16> {
    s.encode_utf16().collect()
}

fn raw(v: &RegistryValue) -> RawValue {
    RawValue {
        tag: v.to_reg_value_type(),
        bytes: v.to_bytes().expect("test value must encode"),
    }
}

fn dword(x: u32) -> RawValue {
    raw(&RegistryValue::Integer32LE(x))
}

fn text_list(names: &[&str]) -> RawValue {
    raw(&RegistryValue::TextList(names.iter().map(|n| units(n)).collect()))
}

#[test]
fn fresh_machine_opens_the_config_first() {
    let sup = Supervisor::new();
    assert_eq!(sup.loop_state(), LoopState::Starting);
    assert!(!sup.is_terminated());
    assert_eq!(sup.next_action(), Action::OpenConfig);
}

#[test]
fn failed_config_open_is_fatal() {
    let sup = Supervisor::new().step(Event::ConfigOpened { result: Err(5) });
    assert!(sup.is_terminated());
    assert_eq!(
        sup.next_action(),
        Action::ReportFailure {
            error: FatalError::ConfigOpenFailed { code: 5 }
        }
    );
}

#[test]
fn one_start_command_targets_exactly_the_stopped_service() {
    // Watch list ["Alpha", "Beta"]; Alpha reports Running, Beta reports
    // Stopped: exactly one start command is issued, targeting Beta only.
    let mut sup = Supervisor::new();
    let mut starts: Vec<Vec<u16>> = Vec::new();

    assert_eq!(sup.next_action(), Action::OpenConfig);
    sup = sup.step(Event::ConfigOpened { result: Ok(()) });
    assert_eq!(
        sup.next_action(),
        Action::ReadOptionalValue { item: ConfigItem::InitialDelay }
    );
    sup = sup.step(Event::OptionalValueRead { result: Ok(None) });
    assert_eq!(sup.next_action(), Action::ReadValue { item: ConfigItem::WatchList });
    sup = sup.step(Event::ValueRead {
        result: Ok(text_list(&["Alpha", "Beta"])),
    });
    assert_eq!(sup.next_action(), Action::ReadValue { item: ConfigItem::Interval });
    sup = sup.step(Event::ValueRead { result: Ok(dword(2000)) });
    assert_eq!(sup.next_action(), Action::ConnectManager);
    sup = sup.step(Event::ManagerConnected { result: Ok(()) });
    assert_eq!(sup.loop_state(), LoopState::EnsuringServices);

    assert_eq!(sup.next_action(), Action::OpenService { name: units("Alpha") });
    sup = sup.step(Event::ServiceOpened { result: Ok(()) });
    assert_eq!(sup.next_action(), Action::QueryServiceState);
    sup = sup.step(Event::StateQueried {
        result: Ok(ServiceState::Running),
    });

    assert_eq!(sup.next_action(), Action::OpenService { name: units("Beta") });
    sup = sup.step(Event::ServiceOpened { result: Ok(()) });
    assert_eq!(sup.next_action(), Action::QueryServiceState);
    sup = sup.step(Event::StateQueried {
        result: Ok(ServiceState::Stopped),
    });

    if let Action::StartService { name } = sup.next_action() {
        starts.push(name);
    } else {
        panic!("a start command was expected");
    }
    sup = sup.step(Event::StartIssued { result: Ok(()) });

    // The pass is over: the machine sleeps; no further start was issued.
    assert_eq!(sup.next_action(), Action::Wait { timeout_ms: 2000 });
    assert_eq!(starts, vec![units("Beta")]);
}

#[test]
fn missing_watch_list_terminates_without_manager_calls() {
    // ERROR_FILE_NOT_FOUND on the required watch-list read: the loop
    // terminates at once; no service-manager action is ever asked for.
    let mut sup = Supervisor::new();
    sup = sup.step(Event::ConfigOpened { result: Ok(()) });
    sup = sup.step(Event::OptionalValueRead { result: Ok(None) });
    assert_eq!(sup.next_action(), Action::ReadValue { item: ConfigItem::WatchList });
    sup = sup.step(Event::ValueRead { result: Err(2) });
    assert!(sup.is_terminated());
    assert_eq!(
        sup.next_action(),
        Action::ReportFailure {
            error: FatalError::WatchListReadFailed { code: 2 }
        }
    );
}

#[test]
fn wrongly_typed_watch_list_is_fatal() {
    let mut sup = Supervisor::new();
    sup = sup.step(Event::ConfigOpened { result: Ok(()) });
    sup = sup.step(Event::OptionalValueRead { result: Ok(None) });
    sup = sup.step(Event::ValueRead {
        result: Ok(dword(7)),
    });
    assert_eq!(
        sup.next_action(),
        Action::ReportFailure {
            error: FatalError::WatchListUnexpectedType
        }
    );
}

#[test]
fn malformed_interval_is_fatal() {
    let mut sup = Supervisor::new();
    sup = sup.step(Event::ConfigOpened { result: Ok(()) });
    sup = sup.step(Event::OptionalValueRead { result: Ok(None) });
    sup = sup.step(Event::ValueRead { result: Ok(text_list(&["A"])) });
    sup = sup.step(Event::ValueRead {
        result: Ok(RawValue { tag: 4, bytes: vec![1, 2, 3] }),
    });
    assert_eq!(
        sup.next_action(),
        Action::ReportFailure {
            error: FatalError::IntervalMalformed { error: CodecError::MalformedValue }
        }
    );
}

#[test]
fn expandable_watch_list_is_expanded_then_rejected() {
    let mut sup = Supervisor::new();
    sup = sup.step(Event::ConfigOpened { result: Ok(()) });
    sup = sup.step(Event::OptionalValueRead { result: Ok(None) });
    let stored = RegistryValue::Text(units("%SERVICES%"));
    sup = sup.step(Event::ValueRead {
        result: Ok(RawValue {
            tag: 2,
            bytes: stored.to_bytes().unwrap(),
        }),
    });
    assert_eq!(
        sup.next_action(),
        Action::ExpandText { unexpanded: units("%SERVICES%") }
    );
    sup = sup.step(Event::Expanded { result: Ok(units("a b")) });
    assert_eq!(
        sup.next_action(),
        Action::ReportFailure {
            error: FatalError::WatchListUnexpectedType
        }
    );
}

#[test]
fn failed_expansion_fails_the_decode() {
    let mut sup = Supervisor::new();
    sup = sup.step(Event::ConfigOpened { result: Ok(()) });
    sup = sup.step(Event::OptionalValueRead { result: Ok(None) });
    let stored = RegistryValue::Text(units("%SERVICES%"));
    sup = sup.step(Event::ValueRead {
        result: Ok(RawValue {
            tag: 2,
            bytes: stored.to_bytes().unwrap(),
        }),
    });
    sup = sup.step(Event::Expanded { result: Err(203) });
    assert_eq!(
        sup.next_action(),
        Action::ReportFailure {
            error: FatalError::WatchListMalformed {
                error: CodecError::ExpansionError { code: 203 }
            }
        }
    );
}

#[test]
fn end_to_end_two_cycles_then_stop() {
    // Initial delay 500, interval 2000, watch list ["X"]; X starts out
    // Stopped, is started once, and reports Running afterwards. The loop
    // waits ~500ms, starts X, sleeps ~2000ms, observes X running, issues no
    // further start, and ends when the stop signal arrives.
    let mut sup = Supervisor::new();
    let mut waits: Vec<u64> = Vec::new();
    let mut starts: Vec<Vec<u16>> = Vec::new();

    // First cycle, with the initial delay.
    assert_eq!(sup.next_action(), Action::OpenConfig);
    sup = sup.step(Event::ConfigOpened { result: Ok(()) });
    assert_eq!(
        sup.next_action(),
        Action::ReadOptionalValue { item: ConfigItem::InitialDelay }
    );
    sup = sup.step(Event::OptionalValueRead {
        result: Ok(Some(dword(500))),
    });
    if let Action::Wait { timeout_ms } = sup.next_action() {
        waits.push(timeout_ms);
    } else {
        panic!("the initial delay was expected");
    }
    sup = sup.step(Event::Waited { stop: false });
    sup = sup.step(Event::ValueRead { result: Ok(text_list(&["X"])) });
    sup = sup.step(Event::ValueRead { result: Ok(dword(2000)) });
    sup = sup.step(Event::ManagerConnected { result: Ok(()) });
    assert_eq!(sup.next_action(), Action::OpenService { name: units("X") });
    sup = sup.step(Event::ServiceOpened { result: Ok(()) });
    sup = sup.step(Event::StateQueried {
        result: Ok(ServiceState::Stopped),
    });
    if let Action::StartService { name } = sup.next_action() {
        starts.push(name);
    } else {
        panic!("a start command was expected");
    }
    sup = sup.step(Event::StartIssued { result: Ok(()) });
    assert_eq!(sup.loop_state(), LoopState::Sleeping);
    if let Action::Wait { timeout_ms } = sup.next_action() {
        waits.push(timeout_ms);
    } else {
        panic!("the regular sleep was expected");
    }
    sup = sup.step(Event::Waited { stop: false });

    // Second cycle: no initial delay, X now runs, no start issued.
    assert_eq!(sup.loop_state(), LoopState::CheckingConfig);
    assert_eq!(sup.next_action(), Action::OpenConfig);
    sup = sup.step(Event::ConfigOpened { result: Ok(()) });
    assert_eq!(sup.next_action(), Action::ReadValue { item: ConfigItem::WatchList });
    sup = sup.step(Event::ValueRead { result: Ok(text_list(&["X"])) });
    sup = sup.step(Event::ValueRead { result: Ok(dword(2000)) });
    sup = sup.step(Event::ManagerConnected { result: Ok(()) });
    sup = sup.step(Event::ServiceOpened { result: Ok(()) });
    sup = sup.step(Event::StateQueried {
        result: Ok(ServiceState::Running),
    });
    if let Action::Wait { timeout_ms } = sup.next_action() {
        waits.push(timeout_ms);
    } else {
        panic!("the regular sleep was expected");
    }
    sup = sup.step(Event::Waited { stop: true });

    assert!(sup.is_terminated());
    assert_eq!(sup.next_action(), Action::ReportFinished);
    assert_eq!(waits, vec![500, 2000, 2000]);
    assert_eq!(starts, vec![units("X")]);
}

#[test]
fn stop_during_initial_delay_ends_the_run() {
    let mut sup = Supervisor::new();
    sup = sup.step(Event::ConfigOpened { result: Ok(()) });
    sup = sup.step(Event::OptionalValueRead {
        result: Ok(Some(dword(500))),
    });
    sup = sup.step(Event::Waited { stop: true });
    assert!(sup.is_terminated());
    assert_eq!(sup.next_action(), Action::ReportFinished);
}

#[test]
fn big_endian_and_64_bit_durations_are_accepted() {
    for value in [
        RegistryValue::Integer32BE(750),
        RegistryValue::Integer64LE(750),
    ] {
        let mut sup = Supervisor::new();
        sup = sup.step(Event::ConfigOpened { result: Ok(()) });
        sup = sup.step(Event::OptionalValueRead {
            result: Ok(Some(raw(&value))),
        });
        assert_eq!(sup.next_action(), Action::Wait { timeout_ms: 750 });
    }
}

#[test]
fn duplicate_names_are_processed_once_per_occurrence() {
    let mut sup = Supervisor::new();
    sup = sup.step(Event::ConfigOpened { result: Ok(()) });
    sup = sup.step(Event::OptionalValueRead { result: Ok(None) });
    sup = sup.step(Event::ValueRead {
        result: Ok(text_list(&["A", "A"])),
    });
    sup = sup.step(Event::ValueRead { result: Ok(dword(100)) });
    sup = sup.step(Event::ManagerConnected { result: Ok(()) });
    let mut starts = 0;
    for _ in 0..2 {
        assert_eq!(sup.next_action(), Action::OpenService { name: units("A") });
        sup = sup.step(Event::ServiceOpened { result: Ok(()) });
        sup = sup.step(Event::StateQueried {
            result: Ok(ServiceState::Stopped),
        });
        assert_eq!(sup.next_action(), Action::StartService { name: units("A") });
        starts += 1;
        sup = sup.step(Event::StartIssued { result: Ok(()) });
    }
    assert_eq!(starts, 2);
    assert_eq!(sup.next_action(), Action::Wait { timeout_ms: 100 });
}

#[test]
fn empty_watch_list_connects_and_sleeps() {
    let mut sup = Supervisor::new();
    sup = sup.step(Event::ConfigOpened { result: Ok(()) });
    sup = sup.step(Event::OptionalValueRead { result: Ok(None) });
    sup = sup.step(Event::ValueRead { result: Ok(text_list(&[])) });
    sup = sup.step(Event::ValueRead { result: Ok(dword(100)) });
    assert_eq!(sup.next_action(), Action::ConnectManager);
    sup = sup.step(Event::ManagerConnected { result: Ok(()) });
    assert_eq!(sup.next_action(), Action::Wait { timeout_ms: 100 });
}

#[test]
fn failed_service_open_is_fatal_with_the_name() {
    let mut sup = Supervisor::new();
    sup = sup.step(Event::ConfigOpened { result: Ok(()) });
    sup = sup.step(Event::OptionalValueRead { result: Ok(None) });
    sup = sup.step(Event::ValueRead { result: Ok(text_list(&["Gone"])) });
    sup = sup.step(Event::ValueRead { result: Ok(dword(100)) });
    sup = sup.step(Event::ManagerConnected { result: Ok(()) });
    sup = sup.step(Event::ServiceOpened { result: Err(1060) });
    assert_eq!(
        sup.next_action(),
        Action::ReportFailure {
            error: FatalError::ServiceOpenFailed { name: units("Gone"), code: 1060 }
        }
    );
}

#[test]
fn terminal_phases_ignore_further_events() {
    let mut sup = Supervisor::new();
    sup = sup.step(Event::ConfigOpened { result: Err(5) });
    assert!(sup.is_terminated());
    sup = sup.step(Event::Waited { stop: true });
    assert_eq!(
        sup.next_action(),
        Action::ReportFailure {
            error: FatalError::ConfigOpenFailed { code: 5 }
        }
    );
}

#[test]
fn registry_path_concatenates_prefix_name_suffix() {
    let path = get_my_registry_path(&units("MySvc"));
    assert_eq!(
        path,
        units("SYSTEM\\CurrentControlSet\\Services\\MySvc\\Parameters")
    );
}

#[test]
fn value_names_match_the_store() {
    assert_eq!(
        config_value_name(ConfigItem::InitialDelay),
        units("InitialSleepDurationMilliseconds")
    );
    assert_eq!(
        config_value_name(ConfigItem::WatchList),
        units("ServicesExpectedRunning")
    );
    assert_eq!(
        config_value_name(ConfigItem::Interval),
        units("SleepDurationMilliseconds")
    );
}

#[test]
fn service_state_codes_round_trip() {
    for s in [
        ServiceState::Stopped,
        ServiceState::StartPending,
        ServiceState::StopPending,
        ServiceState::Running,
        ServiceState::ContinuePending,
        ServiceState::PausePending,
        ServiceState::Paused,
    ] {
        assert_eq!(ServiceState::from_code(s.to_code()), Some(s));
    }
    assert_eq!(ServiceState::from_code(0), None);
    assert_eq!(ServiceState::from_code(8), None);
}

#[test]
fn only_the_stop_control_requests_a_stop() {
    assert!(control_requests_stop(CONTROL_STOP));
    assert!(!control_requests_stop(CONTROL_INTERROGATE));
    assert!(!control_requests_stop(0));
    assert!(!control_requests_stop(2));
}

#[test]
fn predefined_root_keys_have_their_handle_codes() {
    assert_eq!(PredefinedKey::ClassesRoot.to_code(), 0x8000_0000);
    assert_eq!(PredefinedKey::CurrentUser.to_code(), 0x8000_0001);
    assert_eq!(PredefinedKey::LocalMachine.to_code(), 0x8000_0002);
    assert_eq!(PredefinedKey::Users.to_code(), 0x8000_0003);
    assert_eq!(PredefinedKey::CurrentConfig.to_code(), 0x8000_0005);
}
