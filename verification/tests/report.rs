use ws_echo::report::{
    echo_failure, handshake_failure, listening, normal_close, server_error, upgrade_failure,
};

#[test]
fn startup_line() {
    assert_eq!(
        listening("127.0.0.1:3000"),
        "Listening on 127.0.0.1:3000 for http or websocket connections."
    );
}

#[test]
fn server_error_line() {
    assert_eq!(server_error("address in use"), "server error: address in use");
}

#[test]
fn handshake_failure_line() {
    assert_eq!(
        handshake_failure("[::1]:9", "bad"),
        "Failed to create websocket response to request from address [::1]:9. Error is: bad"
    );
}

#[test]
fn upgrade_failure_line() {
    assert_eq!(
        upgrade_failure("[::1]:9", "gone"),
        "error when trying to upgrade connection from address [::1]:9 to websocket connection. \
         Error is: gone"
    );
}

#[test]
fn echo_failure_line() {
    assert_eq!(
        echo_failure("[::1]:9", "reset"),
        "error creating echo stream on connection from address [::1]:9. Error is reset"
    );
}

#[test]
fn normal_close_line() {
    assert_eq!(normal_close("[::1]:9"), "Connection from address [::1]:9 closed normally");
}

#[test]
fn every_connection_line_names_the_peer() {
    let peer = "192.0.2.1:65535";
    assert!(handshake_failure(peer, "e").contains(peer));
    assert!(upgrade_failure(peer, "e").contains(peer));
    assert!(echo_failure(peer, "e").contains(peer));
    assert!(normal_close(peer).contains(peer));
}
