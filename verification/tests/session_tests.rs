use acsrs::acs::Acs;
use acsrs::controller::{CPEController, WakeUp};
use acsrs::session::{PostBody, Session, SessionAction, SessionState};
use acsrs::soap::{DeviceId, Envelope, ParameterValue, Rpc};
use acsrs::transfer::Transfer;
use acsrs::AcsError;

fn device(serial: &str) -> DeviceId {
    DeviceId {
        manufacturer: "maker".to_string(),
        oui: "ABCDEF".to_string(),
        product_class: "router".to_string(),
        serial_number: serial.to_string(),
    }
}

fn inform(serial: &str, id: u64) -> Envelope {
    Envelope {
        id,
        rpc: Rpc::Inform {
            device_id: device(serial),
            connreq_url: "http://192.168.1.7:7547/cr".to_string(),
        },
    }
}

fn gpv(id: u64, name: &str) -> Transfer {
    let mut t = Transfer::new();
    t.msg = Envelope {
        id,
        rpc: Rpc::GetParameterValues { names: vec![name.to_string()] },
    };
    t
}

fn gpv_response(id: u64, name: &str, value: &str) -> Envelope {
    Envelope {
        id,
        rpc: Rpc::GetParameterValuesResponse {
            values: vec![ParameterValue { name: name.to_string(), value: value.to_string() }],
        },
    }
}

#[test]
fn test_inform_then_queued_gpv() {
    let mut acs = Acs::new("/tmp");
    let i = acs.lookup_or_insert(&"ABC".to_string());
    let ctrl = CPEController::new(&mut acs.cpe_list[i]);

    let mut t = gpv(7, "Device.DeviceInfo.SerialNumber");
    let mut rx = t.rxchannel();
    // No session is attached: the enqueue asks for a wake-up.
    match ctrl.add_transfer(&mut acs.cpe_list[i], t) {
        WakeUp::ConnectionRequest(c) => assert_eq!(&c.url, &acs.cpe_list[i].connreq.url),
        WakeUp::SessionOpen => panic!("expected a Connection Request"),
    }

    let mut s = Session::new();
    let resp = s.on_inform(&mut acs, &inform("ABC", 1), "http://acs:8080").unwrap();
    assert_eq!(resp.id, 1);
    assert!(matches!(resp.rpc, Rpc::InformResponse));
    let i = acs.lookup(&"ABC".to_string()).unwrap();
    assert_eq!(acs.cpe_list[i].session_refs, 1);

    // Empty poll: the queued GetParameterValues goes out.
    let sent = match s.on_post(&mut acs, PostBody::Empty).unwrap() {
        SessionAction::Respond(env) => env,
        SessionAction::Respond204 => panic!("expected the queued envelope"),
    };
    assert_eq!(sent.id, 7);
    assert!(matches!(sent.rpc, Rpc::GetParameterValues { .. }));

    // The CPE answers; the reply reaches the observer and, the queue being
    // empty, the session receives the 204.
    let reply = gpv_response(7, "Device.DeviceInfo.SerialNumber", "ABC123");
    match s.on_post(&mut acs, PostBody::Rpc(reply)).unwrap() {
        SessionAction::Respond204 => (),
        SessionAction::Respond(_) => panic!("expected 204"),
    }
    assert_eq!(s.state, SessionState::Closing);
    let got = rx.try_recv().unwrap();
    assert_eq!(got.id, 7);
    match got.rpc {
        Rpc::GetParameterValuesResponse { values } => {
            assert_eq!(&values[0].value, "ABC123");
        },
        _ => panic!("expected a GetParameterValuesResponse"),
    }

    s.on_close(&mut acs);
    let i = acs.lookup(&"ABC".to_string()).unwrap();
    assert_eq!(acs.cpe_list[i].session_refs, 0);
}

#[test]
fn test_open_session_suppresses_wakeup() {
    let mut acs = Acs::new("/tmp");
    let mut s = Session::new();
    s.on_inform(&mut acs, &inform("ABC", 1), "http://acs:8080").unwrap();

    let i = acs.lookup(&"ABC".to_string()).unwrap();
    let ctrl = CPEController::new(&mut acs.cpe_list[i]);
    match ctrl.add_transfer(&mut acs.cpe_list[i], gpv(5, "Device.X")) {
        WakeUp::SessionOpen => (),
        WakeUp::ConnectionRequest(_) => panic!("a session is open: no wake-up"),
    }

    // The open session picks the transfer up on its next empty-body poll.
    match s.on_post(&mut acs, PostBody::Empty).unwrap() {
        SessionAction::Respond(env) => assert_eq!(env.id, 5),
        SessionAction::Respond204 => panic!("expected the queued envelope"),
    }
}

#[test]
fn test_transfers_dispatched_in_enqueue_order() {
    let mut acs = Acs::new("/tmp");
    let i = acs.lookup_or_insert(&"ABC".to_string());
    let ctrl = CPEController::new(&mut acs.cpe_list[i]);
    ctrl.add_transfer(&mut acs.cpe_list[i], gpv(11, "Device.A"));
    ctrl.add_transfer(&mut acs.cpe_list[i], gpv(12, "Device.B"));
    ctrl.add_transfer(&mut acs.cpe_list[i], gpv(13, "Device.C"));

    let mut s = Session::new();
    s.on_inform(&mut acs, &inform("ABC", 1), "http://acs:8080").unwrap();
    let mut seen = Vec::new();
    let mut action = s.on_post(&mut acs, PostBody::Empty).unwrap();
    loop {
        match action {
            SessionAction::Respond(env) => {
                seen.push(env.id);
                let reply = gpv_response(env.id, "Device", "v");
                action = s.on_post(&mut acs, PostBody::Rpc(reply)).unwrap();
            },
            SessionAction::Respond204 => break,
        }
    }
    assert_eq!(seen, vec![11, 12, 13]);
}

#[test]
fn test_fault_is_delivered_and_session_continues() {
    let mut acs = Acs::new("/tmp");
    let i = acs.lookup_or_insert(&"ABC".to_string());
    let ctrl = CPEController::new(&mut acs.cpe_list[i]);

    let mut t = Transfer::new();
    t.msg = Envelope {
        id: 21,
        rpc: Rpc::SetParameterValues {
            values: vec![ParameterValue { name: "Device.X".to_string(), value: "1".to_string() }],
        },
    };
    let mut rx = t.rxchannel();
    ctrl.add_transfer(&mut acs.cpe_list[i], t);
    ctrl.add_transfer(&mut acs.cpe_list[i], gpv(22, "Device.Y"));

    let mut s = Session::new();
    s.on_inform(&mut acs, &inform("ABC", 1), "http://acs:8080").unwrap();
    match s.on_post(&mut acs, PostBody::Empty).unwrap() {
        SessionAction::Respond(env) => assert_eq!(env.id, 21),
        SessionAction::Respond204 => panic!("expected the queued envelope"),
    }

    // The CPE answers with a CWMP Fault: it reaches the observer intact and
    // the session carries on with the next transfer.
    let fault = Envelope { id: 21, rpc: Rpc::Fault { code: 9003, string: "Invalid arguments".to_string() } };
    match s.on_post(&mut acs, PostBody::Rpc(fault)).unwrap() {
        SessionAction::Respond(env) => assert_eq!(env.id, 22),
        SessionAction::Respond204 => panic!("the next transfer should go out"),
    }
    let got = rx.try_recv().unwrap();
    assert_eq!(got.id, 21);
    match got.rpc {
        Rpc::Fault { code, .. } => assert_eq!(code, 9003),
        _ => panic!("expected the fault envelope"),
    }
}

#[test]
fn test_dropped_observer_is_tolerated() {
    let mut acs = Acs::new("/tmp");
    let i = acs.lookup_or_insert(&"ABC".to_string());
    let ctrl = CPEController::new(&mut acs.cpe_list[i]);

    let mut t = gpv(31, "Device.A");
    let rx = t.rxchannel();
    drop(rx);
    ctrl.add_transfer(&mut acs.cpe_list[i], t);
    ctrl.add_transfer(&mut acs.cpe_list[i], gpv(32, "Device.B"));

    let mut s = Session::new();
    s.on_inform(&mut acs, &inform("ABC", 1), "http://acs:8080").unwrap();
    match s.on_post(&mut acs, PostBody::Empty).unwrap() {
        SessionAction::Respond(env) => assert_eq!(env.id, 31),
        SessionAction::Respond204 => panic!("expected the queued envelope"),
    }
    // The reply is silently discarded and the driver advances.
    let reply = gpv_response(31, "Device.A", "v");
    match s.on_post(&mut acs, PostBody::Rpc(reply)).unwrap() {
        SessionAction::Respond(env) => assert_eq!(env.id, 32),
        SessionAction::Respond204 => panic!("the next transfer should go out"),
    }
}

#[test]
fn test_enqueue_while_closing_reaches_next_session() {
    let mut acs = Acs::new("/tmp");
    let mut s = Session::new();
    s.on_inform(&mut acs, &inform("ABC", 1), "http://acs:8080").unwrap();
    match s.on_post(&mut acs, PostBody::Empty).unwrap() {
        SessionAction::Respond204 => (),
        SessionAction::Respond(_) => panic!("the queue is empty"),
    }
    assert_eq!(s.state, SessionState::Closing);

    // Enqueued while the session is closing: served by the next session.
    let i = acs.lookup(&"ABC".to_string()).unwrap();
    let ctrl = CPEController::new(&mut acs.cpe_list[i]);
    ctrl.add_transfer(&mut acs.cpe_list[i], gpv(41, "Device.A"));
    s.on_close(&mut acs);

    let mut next = Session::new();
    next.on_inform(&mut acs, &inform("ABC", 2), "http://acs:8080").unwrap();
    match next.on_post(&mut acs, PostBody::Empty).unwrap() {
        SessionAction::Respond(env) => assert_eq!(env.id, 41),
        SessionAction::Respond204 => panic!("the queued transfer must survive"),
    }
}

#[test]
fn test_cpe_initiated_rpc_gets_matching_response() {
    let mut acs = Acs::new("/tmp");
    let mut s = Session::new();
    s.on_inform(&mut acs, &inform("ABC", 1), "http://acs:8080").unwrap();
    let tc = Envelope { id: 3, rpc: Rpc::TransferComplete };
    match s.on_post(&mut acs, PostBody::Rpc(tc)).unwrap() {
        SessionAction::Respond(env) => {
            assert_eq!(env.id, 3);
            assert!(matches!(env.rpc, Rpc::TransferCompleteResponse));
        },
        SessionAction::Respond204 => panic!("expected a response envelope"),
    }
    assert_eq!(s.state, SessionState::Draining);
}

#[test]
fn test_missing_inform_is_protocol_error() {
    let mut acs = Acs::new("/tmp");
    let mut s = Session::new();
    let not_inform = Envelope { id: 1, rpc: Rpc::TransferComplete };
    match s.on_inform(&mut acs, &not_inform, "http://acs:8080") {
        Err(AcsError::ProtocolError) => (),
        other => panic!("expected ProtocolError, got {:?}", other.map(|_| ())),
    }
    assert_eq!(s.state, SessionState::Closed);
    assert_eq!(acs.cpe_list.len(), 0);
}

#[test]
fn test_session_failure_keeps_queued_transfers() {
    let mut acs = Acs::new("/tmp");
    let i = acs.lookup_or_insert(&"ABC".to_string());
    let ctrl = CPEController::new(&mut acs.cpe_list[i]);
    ctrl.add_transfer(&mut acs.cpe_list[i], gpv(51, "Device.A"));

    let mut s = Session::new();
    s.on_inform(&mut acs, &inform("ABC", 1), "http://acs:8080").unwrap();
    // An empty POST while no request is outstanding is fine (a poll), but an
    // unexpected RPC in Draining terminates the session.
    let bogus = Envelope { id: 9, rpc: Rpc::InformResponse };
    match s.on_post(&mut acs, PostBody::Rpc(bogus)) {
        Err(AcsError::ProtocolError) => (),
        other => panic!("expected ProtocolError, got {:?}", other.map(|_| ())),
    }
    let i = acs.lookup(&"ABC".to_string()).unwrap();
    assert_eq!(acs.cpe_list[i].session_refs, 0);

    // The queued transfer survived for the next session.
    let mut next = Session::new();
    next.on_inform(&mut acs, &inform("ABC", 2), "http://acs:8080").unwrap();
    match next.on_post(&mut acs, PostBody::Empty).unwrap() {
        SessionAction::Respond(env) => assert_eq!(env.id, 51),
        SessionAction::Respond204 => panic!("the queued transfer must survive"),
    }
}

#[test]
fn test_mismatched_reply_id_is_protocol_error() {
    let mut acs = Acs::new("/tmp");
    let i = acs.lookup_or_insert(&"ABC".to_string());
    let ctrl = CPEController::new(&mut acs.cpe_list[i]);
    let mut t = gpv(61, "Device.A");
    let mut rx = t.rxchannel();
    ctrl.add_transfer(&mut acs.cpe_list[i], t);

    let mut s = Session::new();
    s.on_inform(&mut acs, &inform("ABC", 1), "http://acs:8080").unwrap();
    s.on_post(&mut acs, PostBody::Empty).unwrap();

    // The CPE answers with a foreign id: the session terminates and the
    // observer is closed without a reply.
    let stray = gpv_response(99, "Device.A", "v");
    match s.on_post(&mut acs, PostBody::Rpc(stray)) {
        Err(AcsError::ProtocolError) => (),
        other => panic!("expected ProtocolError, got {:?}", other.map(|_| ())),
    }
    assert_eq!(s.state, SessionState::Closed);
    assert!(rx.try_recv().is_err());
    let i = acs.lookup(&"ABC".to_string()).unwrap();
    assert_eq!(acs.cpe_list[i].session_refs, 0);
}

#[test]
fn test_empty_body_while_awaiting_response_is_protocol_error() {
    let mut acs = Acs::new("/tmp");
    let i = acs.lookup_or_insert(&"ABC".to_string());
    let ctrl = CPEController::new(&mut acs.cpe_list[i]);
    ctrl.add_transfer(&mut acs.cpe_list[i], gpv(71, "Device.A"));

    let mut s = Session::new();
    s.on_inform(&mut acs, &inform("ABC", 1), "http://acs:8080").unwrap();
    s.on_post(&mut acs, PostBody::Empty).unwrap();
    match s.on_post(&mut acs, PostBody::Empty) {
        Err(AcsError::ProtocolError) => (),
        other => panic!("expected ProtocolError, got {:?}", other.map(|_| ())),
    }
    assert_eq!(s.state, SessionState::Closed);
}

#[test]
fn test_refcounts_return_to_baseline() {
    let mut acs = Acs::new("/tmp");
    let i = acs.lookup_or_insert(&"ABC".to_string());
    assert_eq!(acs.cpe_list[i].controller_refs, 0);
    let ctrl = CPEController::new(&mut acs.cpe_list[i]);
    assert_eq!(acs.cpe_list[i].controller_refs, 1);
    assert!(acs.cpe_list[i].cpe_controller_running());
    ctrl.release(&mut acs.cpe_list[i]);
    assert_eq!(acs.cpe_list[i].controller_refs, 0);
    assert!(!acs.cpe_list[i].cpe_controller_running());

    let mut s = Session::new();
    s.on_inform(&mut acs, &inform("ABC", 1), "http://acs:8080").unwrap();
    let i = acs.lookup(&"ABC".to_string()).unwrap();
    assert!(acs.cpe_list[i].tr069_session_opened());
    assert_eq!(acs.cpe_list[i].get_tr069_session_refcount(), 1);
    s.on_close(&mut acs);
    let i = acs.lookup(&"ABC".to_string()).unwrap();
    assert_eq!(acs.cpe_list[i].get_tr069_session_refcount(), 0);
}
