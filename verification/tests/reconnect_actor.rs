use futureterm::actors::constants::reconnect::{DEVICE_SWAP_CHECK_ATTEMPT, MAX_RETRIES};
use futureterm::actors::reconnect_actor::actor::{
    DeviceIdentity, ReconnectActor, ReconnectConfig, ReconnectStep,
};
use futureterm::actors::reconnect_actor::hotplug::{DevicePoll, PollStep};
use futureterm::actors::reconnect_actor::persistence::{format_device, parse_device, storage_key};
use futureterm::protocol::errors::ActorError;
use futureterm::protocol::messages::{SerialConfig, SerialPortInfo, SystemEvent};
use futureterm::runtime::channels::{PortHandle, ReconnectMessage};

fn port(vid: Option<u16>, pid: Option<u16>) -> SerialPortInfo {
    SerialPortInfo::new("/dev/ttyUSB0".into(), vid, pid)
}

#[test]
fn tests_test_initial_state() {
    let actor = ReconnectActor::new();
    assert!(actor.last_device.is_none());
    assert!(actor.reconnect_config.is_none());
}

#[test]
fn test_register_device() {
    let mut actor = ReconnectActor::new();

    let config = SerialConfig::new_8n1(115200);
    actor.handle_register_device(0x1234, 0x5678, config);

    assert_eq!(actor.last_device, Some(DeviceIdentity { vid: 0x1234, pid: 0x5678 }));
    assert!(actor.reconnect_config.is_some());
    assert_eq!(actor.reconnect_config.as_ref().unwrap().baud, 115200);
}

#[test]
fn test_clear_device() {
    let mut actor = ReconnectActor::new();

    // Set up device
    actor.last_device = Some(DeviceIdentity { vid: 0x1234, pid: 0x5678 });
    actor.reconnect_config = Some(ReconnectConfig { baud: 115200, framing: "8N1".into() });

    actor.handle_clear_device();

    assert!(actor.last_device.is_none());
    assert!(actor.reconnect_config.is_none());
}

#[test]
fn test_device_match_triggers_reconnect() {
    let mut actor = ReconnectActor::new();

    // Register device
    let config = SerialConfig::new_8n1(115200);
    actor.handle_register_device(0x1234, 0x5678, config);

    // Simulate device connection
    match actor.handle_device_connected(port(Some(0x1234), Some(0x5678)), None) {
        ReconnectStep::Reappeared { event, port: p, tell, .. } => {
            // Should emit status update
            match event {
                SystemEvent::StatusUpdate { message } => {
                    assert!(message.contains("1234"));
                    assert!(message.contains("5678"));
                    assert!(message.contains("Auto-reconnecting"));
                    assert_eq!(message, "Device 1234:5678 detected. Auto-reconnecting...");
                }
                _ => panic!("Wrong event"),
            }
            // Should notify StateActor
            assert!(tell);
            assert_eq!(p.path, "/dev/ttyUSB0");
        }
        step => panic!("Wrong step {:?}", step),
    }
}

#[test]
fn test_device_mismatch_ignored() {
    let mut actor = ReconnectActor::new();

    // Register device 0x1234:0x5678
    let config = SerialConfig::new_8n1(115200);
    actor.handle_register_device(0x1234, 0x5678, config);

    // Simulate different device connection 0xAAAA:0xBBBB
    let step = actor.handle_device_connected(port(Some(0xAAAA), Some(0xBBBB)), None);
    assert!(matches!(step, ReconnectStep::Nothing));
}

#[test]
fn test_no_device_registered_ignored() {
    let actor = ReconnectActor::new();
    let step = actor.handle_device_connected(port(Some(0x1234), Some(0x5678)), None);
    assert!(matches!(step, ReconnectStep::Nothing));
}

#[test]
fn test_device_without_vid_pid_ignored() {
    let mut actor = ReconnectActor::new();

    // Register device
    let config = SerialConfig::new_8n1(115200);
    actor.handle_register_device(0x1234, 0x5678, config);

    // Port without VID/PID (e.g., virtual COM port)
    let step = actor.handle_device_connected(port(None, None), None);
    assert!(matches!(step, ReconnectStep::Nothing));
}

#[test]
fn test_reconnect_actor_integration() {
    let mut actor = ReconnectActor::new();
    let step = actor.handle(ReconnectMessage::RegisterDevice {
        vid: 0x1234,
        pid: 0x5678,
        config: SerialConfig::new_8n1(115200),
    });
    assert!(matches!(step, ReconnectStep::Persist { text } if text == "1234:5678"));
    let step = actor.handle(ReconnectMessage::DeviceConnected {
        port: port(Some(0x1234), Some(0x5678)),
        port_handle: None,
    });
    assert!(matches!(step, ReconnectStep::Reappeared { tell: true, .. }));
    assert!(ReconnectActor::reappearance_result(true).is_ok());
    match ReconnectActor::reappearance_result(false) {
        Err(ActorError::ChannelClosed(text)) => {
            assert_eq!(text, "StateActor unavailable during DeviceReappeared")
        }
        r => panic!("Unexpected result {:?}", r),
    }
}

#[test]
fn test_reconnect_actor_connection_state_tracking() {
    let mut actor = ReconnectActor::new_in_browser();
    assert!(!actor.on_disconnect());
    assert_eq!(actor.on_connect(), None);

    // A registered device counts as connected
    actor.handle(ReconnectMessage::RegisterDevice {
        vid: 0x1234,
        pid: 0x5678,
        config: SerialConfig::new_8n1(115200),
    });
    assert!(actor.on_disconnect());
    assert_eq!(actor.on_connect(), Some(DeviceIdentity { vid: 0x1234, pid: 0x5678 }));

    // When cleared, unplugging means nothing
    let step = actor.handle(ReconnectMessage::ClearDevice);
    assert!(matches!(step, ReconnectStep::Forget));
    assert!(!actor.on_disconnect());
    assert_eq!(actor.on_connect(), None);
}

#[test]
fn a_browser_is_told_only_with_a_port_object() {
    let mut actor = ReconnectActor::new_in_browser();
    actor.handle_register_device(1, 2, SerialConfig::new_8n1(9600));
    let handle = PortHandle { id: 5, vid: Some(1), pid: Some(2) };
    let step = actor.handle_device_connected(port(Some(1), Some(2)), Some(handle));
    assert!(matches!(step, ReconnectStep::Reappeared { tell: true, .. }));
    let step = actor.handle_device_connected(port(Some(1), Some(2)), None);
    assert!(matches!(step, ReconnectStep::Reappeared { tell: false, .. }));
    assert_eq!(actor.name(), "ReconnectActor");
}

#[test]
fn a_stored_device_is_taken_up() {
    let mut actor = ReconnectActor::new();
    actor.init(None);
    assert_eq!(actor.last_device, None);
    actor.init(Some("garbage"));
    assert_eq!(actor.last_device, None);
    actor.init(Some("0403:6001"));
    assert_eq!(actor.last_device, Some(DeviceIdentity { vid: 0x0403, pid: 0x6001 }));
}

#[test]
fn what_is_stored_is_read_back() {
    for (vid, pid) in [(0, 0), (0x0403, 0x6001), (0xFFFF, 0xABCD), (0x00FF, 0xF000)] {
        assert_eq!(parse_device(&format_device(vid, pid)), Some((vid, pid)));
    }
    assert_eq!(format_device(0x0403, 0x00AB), "0403:00AB");
    assert_eq!(parse_device("ab:cd"), Some((0xAB, 0xCD)));
    assert_eq!(parse_device("+1:2"), Some((1, 2)));
    assert_eq!(parse_device("1:2:3"), None);
    assert_eq!(parse_device(":"), None);
    assert_eq!(parse_device("10000:1"), None);
    assert_eq!(parse_device("xyz:1"), None);
    assert_eq!(parse_device("12345678"), None);
    assert_eq!(storage_key(), "futureterm_last_device");
}

#[test]
fn a_device_is_looked_for_a_few_times() {
    let target = DeviceIdentity { vid: 1, pid: 2 };
    let other = PortHandle { id: 1, vid: Some(1), pid: Some(3) };
    let (mut poll, first) = DevicePoll::start(target);
    assert!(matches!(first, PollStep::Wait { millis: 50 }));
    let mut looks = 0;
    let mut waits = Vec::new();
    loop {
        match poll.next(100, true) {
            PollStep::List => looks += 1,
            PollStep::Stop => break,
            step => panic!("Unexpected step {:?}", step),
        }
        match poll.listed(&[other], 7) {
            PollStep::Wait { millis } => waits.push(millis),
            PollStep::Stop => break,
            step => panic!("Unexpected step {:?}", step),
        }
    }
    assert_eq!(looks, MAX_RETRIES);
    assert_eq!(waits, vec![107, 207, 407, 807]);
}

#[test]
fn a_device_that_is_there_is_found() {
    let target = DeviceIdentity { vid: 0x10, pid: 0x20 };
    let other = PortHandle { id: 1, vid: None, pid: None };
    let right = PortHandle { id: 2, vid: Some(0x10), pid: Some(0x20) };
    let (mut poll, _) = DevicePoll::start(target);
    assert!(matches!(poll.next(0, true), PollStep::List));
    match poll.listed(&[other, right], 0) {
        PollStep::Found { port, port_handle } => {
            assert_eq!(port.path, "0010:0020");
            assert_eq!(port_handle, right);
        }
        step => panic!("Unexpected step {:?}", step),
    }
    assert!(matches!(poll.next(5000, true), PollStep::Stop));
    assert!(matches!(poll.next(0, false), PollStep::Stop));
}

#[test]
fn test_device_swap_detection_logic() {
    // Test 1: Different device detected (device swap scenario)
    let target = DeviceIdentity { vid: 0x0403, pid: 0x6001 };
    let found = DeviceIdentity { vid: 0x1B8C, pid: 0x0036 };

    // Different VID/PID indicates device swap
    assert!(found != target);

    // Test 2: Same device detected (no device swap)
    let same = DeviceIdentity { vid: 0x0403, pid: 0x6001 };

    // Same VID/PID indicates original device reconnected
    assert!(same == target);
}

#[test]
fn test_attempt_threshold() {
    let should_check_attempt_1 = 1 >= DEVICE_SWAP_CHECK_ATTEMPT; // Too early
    let should_check_attempt_2 = 2 >= DEVICE_SWAP_CHECK_ATTEMPT; // Too early
    let should_check_attempt_3 = 3 >= DEVICE_SWAP_CHECK_ATTEMPT; // Threshold met!
    let should_check_attempt_4 = 4 >= DEVICE_SWAP_CHECK_ATTEMPT; // Also valid
    let should_check_attempt_5 = 5 >= DEVICE_SWAP_CHECK_ATTEMPT; // Also valid

    assert!(!should_check_attempt_1);
    assert!(!should_check_attempt_2); // Still too early
    assert!(should_check_attempt_3); // Triggers at attempt 3
    assert!(should_check_attempt_4); // Also triggers at attempt 4+
    assert!(should_check_attempt_5);
}

#[test]
fn test_device_swap_detection_requires_two_consistent_sightings() {
    // Scenario 1: Device seen on attempts 3, 4 (count = 2)
    let count_scenario_1 = [3, 4].iter().filter(|&&a| a >= DEVICE_SWAP_CHECK_ATTEMPT).count();
    assert!(count_scenario_1 >= 2, "Should validate port when seen 2 times");

    // Scenario 2: Device seen only on attempt 3 (count = 1)
    let count_scenario_2 = [2, 3].iter().filter(|&&a| a >= DEVICE_SWAP_CHECK_ATTEMPT).count();
    assert!(
        !(count_scenario_2 >= 2),
        "Should NOT validate when only seen 1 time (just appeared)"
    );
}

#[test]
fn test_multi_interface_device_scenario() {
    // The control interface of a device is seen first, then its serial interface
    let control = DeviceIdentity { vid: 0x3162, pid: 0x004B };
    let serial = DeviceIdentity { vid: 0x1B8C, pid: 0x0036 };
    let sightings = [control, control, serial, serial];
    let control_interface_count = sightings.iter().filter(|d| **d == control).count();
    assert!(control_interface_count >= 2, "Should validate after 2 sightings");

    let new_device = serial;
    let mut serial_interface_count = 1; // First sighting of serial interface
    let last_device = Some(new_device);
    if last_device == Some(new_device) {
        serial_interface_count += 1;
    }
    assert_eq!(serial_interface_count, 2);
    assert!(serial_interface_count >= 2, "Should validate serial interface");
}

#[test]
fn test_real_device_swap_scenario() {
    // The FTDI (0403:6001) is unplugged and an STM32 (1B8C:0036) plugged in
    let target = DeviceIdentity { vid: 0x0403, pid: 0x6001 };
    let seen = [
        (3, DeviceIdentity { vid: 0x1B8C, pid: 0x0036 }),
        (4, DeviceIdentity { vid: 0x1B8C, pid: 0x0036 }),
    ];
    let consecutive_count = seen
        .iter()
        .filter(|(attempt, device)| *attempt >= DEVICE_SWAP_CHECK_ATTEMPT && *device != target)
        .count();
    assert!(
        consecutive_count >= 2,
        "Should validate device after 2 consecutive sightings"
    );

    // The search itself goes on for the device that is watched
    let (mut poll, _) = DevicePoll::start(target);
    assert!(matches!(poll.next(0, true), PollStep::List));
    let stm32 = PortHandle { id: 1, vid: Some(0x1B8C), pid: Some(0x0036) };
    assert!(matches!(poll.listed(&[stm32], 0), PollStep::Wait { .. }));
}

#[test]
fn test_validation_triggers_on_consecutive_sightings() {
    // Attempt 3 is the first that counts
    let consecutive_count_attempt_3 = 1 + 3 - DEVICE_SWAP_CHECK_ATTEMPT;
    assert!(!(consecutive_count_attempt_3 >= 2), "Should NOT validate on first sighting");

    // Attempt 4 is the second consecutive sighting
    let consecutive_count_attempt_4 = 1 + 4 - DEVICE_SWAP_CHECK_ATTEMPT;
    assert!(
        consecutive_count_attempt_4 >= 2,
        "Should validate after 2 consecutive sightings"
    );
}
