use hid_hdr_client::codec::{
    encode_configure_command, encode_query_command, reply_status_byte, CONFIGURE_COMMAND_ID,
    PROTOCOL_VERSION, QUERY_COMMAND_ID, REPLY_STATUS_WORD, REQUEST_TAG, SFCI_MAGIC,
};
use hid_hdr_client::session::{
    configure_stick_gate_changes, connect_to_hid_hdr, does_hid_hdr_exist,
    finish_configure_stick_gate_changes, finish_connect_to_hid_hdr, finish_hid_hdr_status,
    get_hid_hdr_status, service_name, ConfigureAction, ConnectAction, HidConnection, QueryAction,
    PROBE_MAX_SESSIONS, RESULT_NAME_ALREADY_REGISTERED, SERVICE_NAME_LEN,
};
use hid_hdr_client::status::Status;

fn reply_with_status_byte(b: u32) -> Vec<u32> {
    let mut reply = vec![0u32; 10];
    reply[REPLY_STATUS_WORD] = b;
    reply
}

#[test]
fn status_decoding_is_total() {
    assert_eq!(Status::from(0u8), Status::Success);
    assert_eq!(Status::from(1u8), Status::NoRecenterFound);
    assert_eq!(Status::from(2u8), Status::NoMapSticks1Found);
    assert_eq!(Status::from(3u8), Status::NoMapSticks2Found);
    for b in 4u8..=255u8 {
        assert_eq!(Status::from(b), Status::Unknown(b));
    }
}

#[test]
fn query_command_layout_is_exact() {
    let buf = encode_query_command();
    assert_eq!(
        buf,
        vec![0x4, 0x8, 0, 0, 0x49434653, 1, 1, 0, 0, 0],
    );
    assert_eq!(buf[0], REQUEST_TAG);
    assert_eq!(buf[4], SFCI_MAGIC);
    assert_eq!(buf[5], PROTOCOL_VERSION);
    assert_eq!(buf[6], QUERY_COMMAND_ID);
}

#[test]
fn configure_command_layout_is_exact() {
    let on = encode_configure_command(true);
    assert_eq!(
        on,
        vec![0x4, 0x9, 0, 0, 0x49434653, 1, 0, 0, 1, 0, 0],
    );
    assert_eq!(on[6], CONFIGURE_COMMAND_ID);
    let off = encode_configure_command(false);
    assert_eq!(
        off,
        vec![0x4, 0x9, 0, 0, 0x49434653, 1, 0, 0, 0, 0, 0],
    );
}

#[test]
fn reply_status_byte_takes_low_byte() {
    let reply = reply_with_status_byte(0xABCD02);
    assert_eq!(reply_status_byte(&reply), 0x02);
}

#[test]
fn probe_judges_register_code() {
    let taken = does_hid_hdr_exist(RESULT_NAME_ALREADY_REGISTERED);
    assert!(taken.exists);
    assert!(!taken.must_unregister);

    let registered = does_hid_hdr_exist(0);
    assert!(!registered.exists);
    assert!(registered.must_unregister);

    let failed = does_hid_hdr_exist(0xF601);
    assert!(!failed.exists);
    assert!(!failed.must_unregister);
}

#[test]
fn service_name_is_hid_hdr() {
    let name = service_name();
    assert_eq!(name, b"hid:hdr".to_vec());
    assert_eq!(name.len(), SERVICE_NAME_LEN);
    assert_eq!(PROBE_MAX_SESSIONS, 100);
}

#[test]
fn connect_is_idempotent_once_cached() {
    let mut conn = HidConnection::new();
    assert_eq!(connect_to_hid_hdr(&conn), ConnectAction::RequestHandle);
    let ok = finish_connect_to_hid_hdr(&mut conn, 0, 0x1234);
    assert!(ok);
    assert_eq!(conn.handle, 0x1234);
    // Both further attempts report success without requesting any call.
    assert_eq!(connect_to_hid_hdr(&conn), ConnectAction::AlreadyConnected);
    assert_eq!(connect_to_hid_hdr(&conn), ConnectAction::AlreadyConnected);
}

#[test]
fn connect_failure_leaves_handle_unset() {
    let mut conn = HidConnection::new();
    let ok = finish_connect_to_hid_hdr(&mut conn, 0xD401, 0x1234);
    assert!(!ok);
    assert_eq!(conn.handle, 0);
}

#[test]
fn query_absent_artifacts_short_circuit() {
    // NotPresentOnSD comes back regardless of the handle state, with no call.
    let disconnected = HidConnection::new();
    match get_hid_hdr_status(false, &disconnected) {
        QueryAction::Finish(r) => assert_eq!(r, Ok(Status::NotPresentOnSD)),
        QueryAction::IssueCall(_) => panic!("no call may be issued"),
    }
    let connected = HidConnection { handle: 7 };
    match get_hid_hdr_status(false, &connected) {
        QueryAction::Finish(r) => assert_eq!(r, Ok(Status::NotPresentOnSD)),
        QueryAction::IssueCall(_) => panic!("no call may be issued"),
    }
}

#[test]
fn query_disconnected_short_circuits() {
    let conn = HidConnection::new();
    match get_hid_hdr_status(true, &conn) {
        QueryAction::Finish(r) => assert_eq!(r, Ok(Status::NotConnected)),
        QueryAction::IssueCall(_) => panic!("no call may be issued"),
    }
}

#[test]
fn query_round_trip_decodes_reply() {
    let conn = HidConnection { handle: 7 };
    let buf = match get_hid_hdr_status(true, &conn) {
        QueryAction::IssueCall(buf) => buf,
        QueryAction::Finish(_) => panic!("a call must be issued"),
    };
    assert_eq!(buf, encode_query_command());
    // The simulated service writes a status byte at the reply offset and the
    // call returns 0.
    let reply = reply_with_status_byte(2);
    assert_eq!(
        finish_hid_hdr_status(0, &reply),
        Ok(Status::NoMapSticks1Found),
    );
    let reply = reply_with_status_byte(3);
    assert_eq!(
        finish_hid_hdr_status(0, &reply),
        Ok(Status::NoMapSticks2Found),
    );
}

#[test]
fn query_call_failure_propagates_code() {
    let reply = reply_with_status_byte(2);
    assert_eq!(finish_hid_hdr_status(0xD201, &reply), Err(0xD201));
}

#[test]
fn configure_disconnected_is_not_an_error() {
    let conn = HidConnection::new();
    match configure_stick_gate_changes(&conn, true) {
        ConfigureAction::Finish(r) => assert_eq!(r, Ok(false)),
        ConfigureAction::IssueCall(_) => panic!("no call may be issued"),
    }
}

#[test]
fn configure_success_is_call_based() {
    for enable in [true, false] {
        let conn = HidConnection { handle: 9 };
        let buf = match configure_stick_gate_changes(&conn, enable) {
            ConfigureAction::IssueCall(buf) => buf,
            ConfigureAction::Finish(_) => panic!("a call must be issued"),
        };
        assert_eq!(buf, encode_configure_command(enable));
        assert_eq!(finish_configure_stick_gate_changes(0), Ok(true));
    }
}

#[test]
fn configure_call_failure_propagates_code() {
    assert_eq!(finish_configure_stick_gate_changes(0xD201), Err(0xD201));
}
