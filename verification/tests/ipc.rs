use nzxt_ctl::ipc::{
    handle_request, is_blank_line, reload_from_response, state_from_response, ClientError,
    LiveState, Request, Response,
};

fn sample_state() -> LiveState {
    let mut s = LiveState::empty();
    s.liquid_temp_mdeg = Some(31_500);
    s.pump_rpm = Some(2500);
    s.active_mode = Some("Auto".to_string());
    s
}

#[test]
fn get_state_returns_a_snapshot() {
    let (resp, reload) = handle_request(Ok(Request::GetState), &sample_state());
    assert!(!reload);
    match resp {
        Response::State { state } => {
            assert_eq!(state.liquid_temp_mdeg, Some(31_500));
            assert_eq!(state.pump_rpm, Some(2500));
            assert_eq!(state.active_mode.as_deref(), Some("Auto"));
        }
        other => panic!("unexpected {:?}", other),
    }
}

#[test]
fn reload_only_raises_the_flag() {
    let (resp, reload) = handle_request(Ok(Request::ReloadConfig), &sample_state());
    assert!(reload);
    assert!(matches!(resp, Response::ReloadOk));
}

#[test]
fn undecodable_requests_get_an_error() {
    let (resp, reload) = handle_request(Err("unknown variant `Nope`".to_string()), &sample_state());
    assert!(!reload);
    match resp {
        Response::Error { message } => assert_eq!(message, "invalid request: unknown variant `Nope`"),
        other => panic!("unexpected {:?}", other),
    }
}

#[test]
fn blank_lines_are_skipped() {
    assert!(is_blank_line(""));
    assert!(is_blank_line("  \t\r"));
    assert!(!is_blank_line(" {} "));
}

#[test]
fn client_reads_answers() {
    assert_eq!(
        state_from_response(Response::State { state: sample_state() }).unwrap().pump_rpm,
        Some(2500)
    );
    let e = state_from_response(Response::ReloadOk).unwrap_err();
    assert_eq!(e.message(), "unexpected response type for GetState");
    let e = state_from_response(Response::Error { message: "busy".into() }).unwrap_err();
    assert_eq!(e.message(), "daemon error: busy");
    assert!(reload_from_response(Response::ReloadOk).is_ok());
    match reload_from_response(Response::State { state: sample_state() }) {
        Err(ClientError::UnexpectedResponse { request }) => assert_eq!(request, Request::ReloadConfig),
        other => panic!("unexpected {:?}", other),
    }
}
