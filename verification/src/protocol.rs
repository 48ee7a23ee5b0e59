//! Values exchanged between the Windows kernel server and its clients.
use vstd::prelude::*;

verus! {

/// Version of the client/server protocol.
pub const SERVER_PROTOCOL_VERSION: i32 = 1;

/// Environment variable that names the architecture of the server.
pub const WINE_ARCH: &'static str = "WINE_ARCH";

/// Environment variable that names the server socket.
pub const WINE_SERVER_SOCKET: &'static str = "WINE_SERVER_SOCKET";

/// A request from a client to the server.
#[derive(Clone, Copy, Debug, PartialEq, Eq, Structural)]
pub enum WineRequest {
    Ping,
}

/// The server's reply to a request.
#[derive(Clone, Copy, Debug, PartialEq, Eq, Structural)]
pub enum WineReply {
    Pong,
}

/// NT-style timeout, in 100ns units, negative means relative timeout
#[derive(Copy, Clone, Debug)]
pub struct Timeout(pub i64);

/// Number of 100ns ticks in one second.
pub const TICKS_PER_SECOND: i64 = 10_000_000;

/// Number of 100ns ticks between 1601-01-01 and 1970-01-01.
pub const TICKS_1601_TO_1970: i64 = 116_444_736_000_000_000;

impl Timeout {
    /// The timeout that never expires.
    pub fn infinite() -> (t: Timeout)
        ensures
            t.0 == i64::MAX,
    {
        Timeout(0x7fff_ffff_ffff_ffff)
    }

    /// One second.
    pub fn ticks_per_second() -> (t: Timeout)
        ensures
            t.0 == TICKS_PER_SECOND,
    {
        Timeout(TICKS_PER_SECOND)
    }

    /// The time between the NT epoch (1601) and the Unix epoch (1970).
    pub fn ticks_1601_to_1970() -> (t: Timeout)
        ensures
            t.0 == TICKS_1601_TO_1970,
    {
        Timeout(TICKS_1601_TO_1970)
    }
}

impl Default for Timeout {
    fn default() -> (r: Timeout)
        ensures
            r.0 == 0,
    {
        Timeout(0)
    }
}

/// absolute timeout, negative means that monotonic clock is used
#[derive(Copy, Clone, Debug)]
pub struct AbsoluteTime(pub i64);

/// The constants of the protocol agree with their definitions: the infinite
/// timeout `i64::MAX` is `0x7fffffff << 32 | 0xffffffff`, and the Unix epoch
/// lies `86400 * (369 * 365 + 89)` seconds after the NT epoch.
pub proof fn lemma_timeout_constants()
    ensures
        TICKS_1601_TO_1970 == 86400 * (369 * 365 + 89) * TICKS_PER_SECOND,
        i64::MAX == 0x7fff_ffff * 0x1_0000_0000 + 0xffff_ffff,
{
}

/// The path of the socket named `name` in the socket directory `dir`:
/// `dir`, a slash, then `name`.
pub fn socket_path(dir: &str, name: &str) -> (path: String)
    ensures
        path@ == dir@ + seq!['/'] + name@,
{
    let path = dir.to_owned();
    let path = path.concat("/");
    proof {
        reveal_strlit("/");
        assert("/"@ =~= seq!['/']);
    }
    path.concat(name)
}

} // verus!
