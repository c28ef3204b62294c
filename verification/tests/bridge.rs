use ovpn_bridge::codes::classify_connect;
use ovpn_bridge::codes::classify_disconnect;
use ovpn_bridge::codes::classify_receive;
use ovpn_bridge::codes::classify_send;
use ovpn_bridge::context::EventAction;
use ovpn_bridge::context::LogAction;
use ovpn_bridge::context::OVPNClientInner;
use ovpn_bridge::context::read_allocate_status;
use ovpn_bridge::context::write_status;
use ovpn_bridge::creation::str_has_nul;
use ovpn_bridge::creation::validate_creation;
use ovpn_bridge::decimal::u8_decimal;
use ovpn_bridge::errors::OVPNCreationError;
use ovpn_bridge::errors::OpenVpnConnectionError;
use ovpn_bridge::errors::OpenVpnDisconnectionError;
use ovpn_bridge::errors::OpenVpnReceiveError;
use ovpn_bridge::errors::OpenVpnSendError;
use ovpn_bridge::event::OVPNEvent;
use ovpn_bridge::MAX_BYTES_TRANSPORT;

#[test]
fn transport_buffer_capacity() {
    assert_eq!(MAX_BYTES_TRANSPORT, 1518);
}

#[test]
fn decimal_rendering() {
    assert_eq!(u8_decimal(0), "0");
    assert_eq!(u8_decimal(7), "7");
    assert_eq!(u8_decimal(10), "10");
    assert_eq!(u8_decimal(42), "42");
    assert_eq!(u8_decimal(99), "99");
    assert_eq!(u8_decimal(100), "100");
    assert_eq!(u8_decimal(200), "200");
    assert_eq!(u8_decimal(255), "255");
}

#[test]
fn send_success_reports_input_length() {
    let r = classify_send(0, 1400);
    assert!(matches!(r, Ok(1400)));
    let r = classify_send(0, 0);
    assert!(matches!(r, Ok(0)));
}

#[test]
fn send_failure_is_unknown_with_code() {
    match classify_send(5, 1400) {
        Err(OpenVpnSendError::Unknown(m)) => {
            assert_eq!(m, "openvpn send unknown error: 5");
        }
        _ => panic!("expected an unknown send error"),
    }
    match classify_send(200, 9) {
        Err(OpenVpnSendError::Unknown(m)) => {
            assert_eq!(m, "openvpn send unknown error: 200");
        }
        _ => panic!("expected an unknown send error"),
    }
}

#[test]
fn connect_classification() {
    assert!(classify_connect(0).is_ok());
    match classify_connect(1) {
        Err(OpenVpnConnectionError::Unknown(m)) => assert_eq!(m, ""),
        _ => panic!("expected an unknown connection error"),
    }
}

#[test]
fn disconnect_classification() {
    assert!(classify_disconnect(0).is_ok());
    match classify_disconnect(7) {
        Err(OpenVpnDisconnectionError::Unknown(m)) => assert_eq!(m, ""),
        _ => panic!("expected an unknown disconnection error"),
    }
}

#[test]
fn disconnect_twice_returns_defined_results() {
    let first = classify_disconnect(0);
    let second = classify_disconnect(0);
    assert!(first.is_ok());
    assert!(second.is_ok());
}

#[test]
fn receive_truncates_to_written_size() {
    let buffer = [1u8, 2, 3, 4, 5];
    match classify_receive(0, &buffer, 3) {
        Ok(data) => assert_eq!(data, vec![1, 2, 3]),
        Err(_) => panic!("expected data"),
    }
    match classify_receive(0, &buffer, 0) {
        Ok(data) => assert!(data.is_empty()),
        Err(_) => panic!("expected empty data"),
    }
}

#[test]
fn receive_no_data_is_distinguished() {
    let buffer = [0u8; 8];
    match classify_receive(2, &buffer, 0) {
        Err(OpenVpnReceiveError::NoDataAvailable) => {}
        _ => panic!("code 2 must map to NoDataAvailable, never Unknown"),
    }
}

#[test]
fn receive_other_codes_are_unknown() {
    let buffer = [0u8; 8];
    match classify_receive(9, &buffer, 0) {
        Err(OpenVpnReceiveError::Unknown(m)) => {
            assert_eq!(
                m,
                "openvpn_client_receive_just unknown error (we shouldn't have arrived here)"
            );
        }
        _ => panic!("expected an unknown receive error"),
    }
}

#[test]
fn nul_detection() {
    assert!(!str_has_nul(""));
    assert!(!str_has_nul("abc"));
    assert!(str_has_nul("a\0c"));
    assert!(str_has_nul("\0"));
}

#[test]
fn creation_accepts_clean_strings() {
    let r = validate_creation("profile", Some("user"), Some("pw"), "10.0.0.1", "::1");
    assert!(r.is_ok());
    let r = validate_creation("profile", None, None, "10.0.0.1", "::1");
    assert!(r.is_ok());
}

#[test]
fn creation_rejects_embedded_nul() {
    match validate_creation("pro\0file", None, None, "10.0.0.1", "::1") {
        Err(OVPNCreationError::CStringError(m)) => {
            assert_eq!(m, "CString::new failed for profile_cstring");
        }
        _ => panic!("expected a creation error"),
    }
    match validate_creation("profile", Some("u\0"), None, "10.0.0.1", "::1") {
        Err(OVPNCreationError::CStringError(m)) => {
            assert_eq!(m, "CString::new failed for username_cstring");
        }
        _ => panic!("expected a creation error"),
    }
    match validate_creation("profile", None, Some("p\0w"), "10.0.0.1", "::1") {
        Err(OVPNCreationError::CStringError(m)) => {
            assert_eq!(m, "CString::new failed for password_cstring");
        }
        _ => panic!("expected a creation error"),
    }
    match validate_creation("profile", None, None, "10.0\0.1", "::1") {
        Err(OVPNCreationError::CStringError(m)) => {
            assert_eq!(m, "CString::new failed for replacementIpv4");
        }
        _ => panic!("expected a creation error"),
    }
    match validate_creation("profile", None, None, "10.0.0.1", ":\0:1") {
        Err(OVPNCreationError::CStringError(m)) => {
            assert_eq!(m, "CString::new failed for replacementIpv6");
        }
        _ => panic!("expected a creation error"),
    }
}

#[test]
fn creation_reports_first_offender_in_order() {
    match validate_creation("p\0", Some("u\0"), None, "1\0", "2\0") {
        Err(OVPNCreationError::CStringError(m)) => {
            assert_eq!(m, "CString::new failed for profile_cstring");
        }
        _ => panic!("expected a creation error"),
    }
}

#[test]
fn event_structural_equality() {
    let ev = OVPNEvent::new(
        String::from("tls-error"),
        String::from("cert expired"),
        true,
        false,
    );
    assert_eq!(ev.name, "tls-error");
    assert_eq!(ev.info, "cert expired");
    assert!(ev.error);
    assert!(!ev.fatal);
    let shown = ev.render();
    assert!(shown.contains("tls-error"));
    assert!(shown.contains("cert expired"));
}

#[test]
fn event_render_forms() {
    let ev = OVPNEvent::new(String::from("connected"), String::new(), false, false);
    assert_eq!(ev.render(), "E: connected");

    let ev = OVPNEvent::new(String::from("connected"), String::from("up"), false, false);
    assert_eq!(ev.render(), "E: connected, I: up");

    let ev = OVPNEvent::new(String::from("tls-error"), String::new(), true, true);
    assert_eq!(ev.render(), "E: tls-error, error: true, fatal: true");

    let ev = OVPNEvent::new(
        String::from("tls-error"),
        String::from("cert expired"),
        true,
        false,
    );
    assert_eq!(
        ev.render(),
        "E: tls-error, I: cert expired, error: true, fatal: false"
    );
}

#[test]
fn read_allocate_round_trip() {
    let mut inner = OVPNClientInner::new(true, false, false, false);
    let source = vec![10u8, 20, 30, 40];
    match inner.read_allocate(Some(source.clone())) {
        Some((buffer, len)) => {
            assert_eq!(buffer, source);
            assert_eq!(len, source.len());
        }
        None => panic!("expected a buffer"),
    }
}

#[test]
fn read_allocate_no_data_is_distinguished() {
    let mut inner = OVPNClientInner::new(true, false, false, false);
    let r = inner.read_allocate(None);
    assert!(r.is_none());
    assert_eq!(read_allocate_status(&r), -1);
    let r = inner.read_allocate(Some(vec![1u8]));
    assert_eq!(read_allocate_status(&r), 0);
}

#[test]
fn write_reports_full_length() {
    let mut inner = OVPNClientInner::new(false, true, false, false);
    let buf = [9u8; 123];
    assert_eq!(inner.write(&buf), 123);
    assert_eq!(write_status(123), 123);
}

#[test]
fn log_dispatch() {
    let mut with_handler = OVPNClientInner::new(false, false, true, false);
    match with_handler.log(String::from("hello")) {
        LogAction::Deliver(m) => assert_eq!(m, "hello"),
        LogAction::Print(_) => panic!("expected delivery to the handler"),
    }
    let mut without_handler = OVPNClientInner::new(false, false, false, false);
    match without_handler.log(String::from("hello")) {
        LogAction::Print(line) => assert_eq!(line, "OpenVPN: hello"),
        LogAction::Deliver(_) => panic!("expected the default print"),
    }
}

#[test]
fn event_dispatch() {
    let mut with_handler = OVPNClientInner::new(false, false, false, true);
    match with_handler.event(String::from("connected"), String::new(), false, false) {
        EventAction::Deliver(ev) => {
            assert_eq!(ev.name, "connected");
            assert_eq!(ev.info, "");
            assert!(!ev.error);
            assert!(!ev.fatal);
        }
        EventAction::Print(_) => panic!("expected delivery to the handler"),
    }
    let mut without_handler = OVPNClientInner::new(false, false, false, false);
    match without_handler.event(String::from("connected"), String::new(), false, false) {
        EventAction::Print(line) => assert_eq!(line, "EVENT: E: connected"),
        EventAction::Deliver(_) => panic!("expected the default print"),
    }
}

#[test]
fn fatal_event_leaves_context_unchanged() {
    let mut inner = OVPNClientInner::new(true, true, false, true);
    let before = (
        inner.on_vpn_read,
        inner.on_vpn_write,
        inner.on_vpn_log,
        inner.on_vpn_event,
        inner.alive,
    );
    let action = inner.event(
        String::from("tls-error"),
        String::from("cert expired"),
        true,
        true,
    );
    assert!(matches!(action, EventAction::Deliver(_)));
    let after = (
        inner.on_vpn_read,
        inner.on_vpn_write,
        inner.on_vpn_log,
        inner.on_vpn_event,
        inner.alive,
    );
    assert_eq!(before, after);
    assert!(inner.alive);
}

#[test]
fn destroy_ends_the_context() {
    let mut inner = OVPNClientInner::new(true, true, true, true);
    assert!(inner.alive);
    inner.write(&[1u8, 2]);
    inner.log(String::from("closing"));
    inner.destroy();
    assert!(!inner.alive);
    assert!(inner.on_vpn_read);
    assert!(inner.on_vpn_write);
}
