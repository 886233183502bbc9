use kazeta_core::client::{availability, server_start, OverlayClient, ProbeOutcome, ServerStart};
use kazeta_core::ipc::SOCKET_PATH;

#[test]
fn test_client_creation() {
    let client = OverlayClient::new();
    assert_eq!(client.socket_path(), SOCKET_PATH);
}

#[test]
fn test_custom_socket_path() {
    let custom_path = "/tmp/custom-overlay.sock";
    let client = OverlayClient::with_socket_path(custom_path.to_string());
    assert_eq!(client.socket_path(), custom_path);
}

#[test]
fn a_second_overlay_gives_way_to_a_live_one() {
    assert_eq!(server_start(ProbeOutcome::Alive), ServerStart::Refuse);
    assert_eq!(server_start(ProbeOutcome::ConnectFailed), ServerStart::RemoveThenBind);
    assert_eq!(server_start(ProbeOutcome::WriteFailed), ServerStart::RemoveThenBind);
    assert_eq!(server_start(ProbeOutcome::Missing), ServerStart::Bind);
}

#[test]
fn only_a_live_socket_is_available() {
    assert!(availability(ProbeOutcome::Alive).available);
    assert!(!availability(ProbeOutcome::Alive).remove_stale);
    assert!(!availability(ProbeOutcome::Missing).available);
    assert!(!availability(ProbeOutcome::Missing).remove_stale);
    assert!(availability(ProbeOutcome::ConnectFailed).remove_stale);
    assert!(availability(ProbeOutcome::WriteFailed).remove_stale);
}
