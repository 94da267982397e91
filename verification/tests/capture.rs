use anansi_core::{AnansiFacade, CaptureError, CaptureState, NetworkInterface, PacketCapture};

#[test]
fn second_start_fails_with_already_running_and_state_untouched() {
    let mut c: PacketCapture<u32> = PacketCapture::new();
    assert!(c.set_interface("eth0").is_ok());
    assert!(c.start().is_ok());
    assert!(matches!(c.state(), CaptureState::Starting));
    assert!(c.mark_running().is_ok());
    assert!(matches!(c.state(), CaptureState::Running));
    match c.start() {
        Err(CaptureError::AlreadyRunning) => {},
        other => panic!("expected AlreadyRunning, got {:?}", other),
    }
    assert!(matches!(c.state(), CaptureState::Running));
    assert_eq!(c.interface().as_str(), "eth0");
}

#[test]
fn stop_on_a_never_started_controller_is_a_no_op() {
    let mut c: PacketCapture<u32> = PacketCapture::new();
    assert!(!c.stop());
    assert!(matches!(c.state(), CaptureState::Idle));
    assert!(!c.stop());
}

#[test]
fn full_lifecycle_returns_to_idle() {
    let mut c: PacketCapture<u32> = PacketCapture::new();
    assert!(c.set_interface("eth0").is_ok());
    assert!(c.set_filter("tcp port 80").is_ok());
    assert!(c.start().is_ok());
    assert!(c.mark_running().is_ok());
    assert!(c.stop());
    assert!(matches!(c.state(), CaptureState::Stopping));
    assert!(c.mark_stopped().is_ok());
    assert!(matches!(c.state(), CaptureState::Idle));
    // a fresh session can start again
    assert!(c.start().is_ok());
}

#[test]
fn aborted_start_leaves_no_partial_session() {
    let mut c: PacketCapture<u32> = PacketCapture::new();
    assert!(c.start().is_ok());
    let err = CaptureError::InterfaceOpenError("no such device".to_string());
    assert!(c.abort_start(err).is_ok());
    assert!(matches!(c.state(), CaptureState::Idle));
    match c.last_error() {
        Some(CaptureError::InterfaceOpenError(m)) => assert_eq!(m, "no such device"),
        other => panic!("expected InterfaceOpenError, got {:?}", other),
    }
}

#[test]
fn read_failure_terminates_the_session_and_is_inspectable() {
    let mut c: PacketCapture<u32> = PacketCapture::new();
    assert!(c.start().is_ok());
    assert!(c.mark_running().is_ok());
    assert!(c.read_failed(CaptureError::CaptureFailure("device vanished".to_string())));
    assert!(matches!(c.state(), CaptureState::Idle));
    match c.last_error() {
        Some(e @ CaptureError::CaptureFailure(_)) => {
            assert_eq!(e.describe(), "Capture failure: device vanished");
        }
        other => panic!("expected CaptureFailure, got {:?}", other),
    }
    // not an event outside a running session
    assert!(!c.read_failed(CaptureError::Unknown));
}

#[test]
fn facade_start_capture_twice_fails_with_already_running() {
    let mut f: AnansiFacade<u32> = AnansiFacade::new(false);
    assert!(f.start_capture("eth0", Some("udp")).is_ok());
    assert!(matches!(f.capture_state(), CaptureState::Starting));
    match f.start_capture("eth1", None) {
        Err(CaptureError::AlreadyRunning) => {},
        other => panic!("expected AlreadyRunning, got {:?}", other),
    }
    assert!(matches!(f.capture_state(), CaptureState::Starting));
}

#[test]
fn facade_stop_capture_when_idle_is_a_no_op() {
    let mut f: AnansiFacade<u32> = AnansiFacade::new(false);
    assert!(!f.stop_capture());
    assert!(matches!(f.capture_state(), CaptureState::Idle));
}

#[test]
fn facade_observers_survive_sessions() {
    let mut f: AnansiFacade<&'static str> = AnansiFacade::new(false);
    let a = f.add_observer("printer");
    let b = f.add_observer("writer");
    assert!(f.start_capture("eth0", None).is_ok());
    assert!(f.capture_started().is_ok());
    assert!(f.remove_observer(a));
    assert_eq!(f.observers().len(), 1);
    assert_eq!(*f.observers().get(0), (b, "writer"));
    assert!(f.stop_capture());
    assert!(f.capture_stopped().is_ok());
    assert_eq!(f.observers().len(), 1);
}

#[test]
fn facade_remembers_trace_output_path() {
    let mut f: AnansiFacade<u32> = AnansiFacade::new(false);
    assert!(f.pcap_output().is_none());
    assert!(f.set_pcap_output("capture.pcap").is_ok());
    assert_eq!(f.pcap_output().as_deref(), Some("capture.pcap"));
}

#[test]
fn facade_validates_against_a_supplied_interface_list() {
    let f: AnansiFacade<u32> = AnansiFacade::new(false);
    let interfaces = vec![
        NetworkInterface { name: "lo".to_string(), description: None },
        NetworkInterface {
            name: "eth0".to_string(),
            description: Some("wired".to_string()),
        },
    ];
    assert!(f.validate_interface(&interfaces, "eth0"));
    assert!(!f.validate_interface(&interfaces, "wlan0"));
}

#[test]
fn filter_does_not_survive_across_sessions() {
    let mut c: PacketCapture<u32> = PacketCapture::new();
    assert!(c.set_filter("tcp port 80").is_ok());
    assert!(c.filter().is_some());
    assert!(c.clear_filter().is_ok());
    assert!(c.filter().is_none());

    let mut f: AnansiFacade<u32> = AnansiFacade::new(false);
    assert!(f.start_capture("eth0", Some("tcp port 80")).is_ok());
    assert_eq!(f.filter().as_deref(), Some("tcp port 80"));
    assert!(f.stop_capture());
    assert!(f.capture_stopped().is_ok());
    // a new session without a filter starts fresh: no stale filter
    assert!(f.start_capture("eth0", None).is_ok());
    assert!(f.filter().is_none());
    assert!(f.stop_capture());
    assert!(f.capture_stopped().is_ok());
    // and giving one sets exactly it
    assert!(f.start_capture("eth1", Some("udp")).is_ok());
    assert_eq!(f.filter().as_deref(), Some("udp"));
}

#[test]
fn removing_an_observer_keeps_the_exact_survivors() {
    let mut f: AnansiFacade<&'static str> = AnansiFacade::new(false);
    let a = f.add_observer("first");
    let b = f.add_observer("second");
    let c = f.add_observer("third");
    assert!(f.remove_observer(b));
    assert_eq!(f.observers().len(), 2);
    assert_eq!(*f.observers().get(0), (a, "first"));
    assert_eq!(*f.observers().get(1), (c, "third"));
}
