use wineserver::protocol::{
    socket_path, AbsoluteTime, Timeout, WineReply, WineRequest, SERVER_PROTOCOL_VERSION,
    TICKS_1601_TO_1970, TICKS_PER_SECOND, WINE_ARCH, WINE_SERVER_SOCKET,
};

#[test]
fn timeout_constants() {
    assert_eq!(Timeout::infinite().0, 0x7fffffffi64 << 32 | 0xffffffff);
    assert_eq!(Timeout::ticks_per_second().0, 10_000_000);
    assert_eq!(TICKS_PER_SECOND, 10_000_000);
    assert_eq!(
        Timeout::ticks_1601_to_1970().0,
        86400 * (369 * 365 + 89) * Timeout::ticks_per_second().0
    );
    assert_eq!(TICKS_1601_TO_1970, Timeout::ticks_1601_to_1970().0);
    assert_eq!(Timeout::default().0, 0);
    assert_eq!(AbsoluteTime(-3).0, -3);
}

#[test]
fn protocol_names() {
    assert_eq!(SERVER_PROTOCOL_VERSION, 1);
    assert_eq!(WINE_ARCH, "WINE_ARCH");
    assert_eq!(WINE_SERVER_SOCKET, "WINE_SERVER_SOCKET");
    assert_eq!(WineRequest::Ping, WineRequest::Ping.clone());
    assert_eq!(WineReply::Pong, WineReply::Pong.clone());
}

#[test]
fn socket_path_joins_with_a_slash() {
    assert_eq!(socket_path("/tmp/wine/x86_64", "DESKTOP-CJ7R8"), "/tmp/wine/x86_64/DESKTOP-CJ7R8");
    assert_eq!(socket_path("/tmp/wine", "a"), "/tmp/wine/a");
    assert_eq!(socket_path("", ""), "/");
}
