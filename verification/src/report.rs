//! The diagnostic lines that the server prints.

use vstd::prelude::*;

verus! {

/// Whether `line` holds `part` as a run of consecutive characters.
pub open spec fn names(line: Seq<char>, part: Seq<char>) -> bool {
    exists|at: int|
        0 <= at && at + part.len() <= line.len() && #[trigger] line.subrange(
            at,
            at + part.len(),
        ) == part
}

/// The line printed once the listener is bound to `address`.
pub open spec fn listening_line(address: Seq<char>) -> Seq<char> {
    "Listening on "@ + address + " for http or websocket connections."@
}

/// The line printed when the server loop ends with the error `detail`.
pub open spec fn server_error_line(detail: Seq<char>) -> Seq<char> {
    "server error: "@ + detail
}

/// The line printed when the upgrade request of `peer` is turned down.
pub open spec fn handshake_failure_line(peer: Seq<char>, error: Seq<char>) -> Seq<char> {
    "Failed to create websocket response to request from address "@ + peer + ". Error is: "@
        + error
}

/// The line printed when `peer` does not complete the upgrade.
pub open spec fn upgrade_failure_line(peer: Seq<char>, error: Seq<char>) -> Seq<char> {
    "error when trying to upgrade connection from address "@ + peer
        + " to websocket connection. Error is: "@ + error
}

/// The line printed when the echo on the connection of `peer` fails.
pub open spec fn echo_failure_line(peer: Seq<char>, error: Seq<char>) -> Seq<char> {
    "error creating echo stream on connection from address "@ + peer + ". Error is "@ + error
}

/// The line printed when the connection of `peer` closes cleanly.
pub open spec fn normal_close_line(peer: Seq<char>) -> Seq<char> {
    "Connection from address "@ + peer + " closed normally"@
}

/// The startup line for a listener bound to `address`.
pub fn listening(address: &str) -> (res: String)
    ensures
        res@ == listening_line(address@),
{
    let mut line = String::from_str("Listening on ");
    line.append(address);
    line.append(" for http or websocket connections.");
    line
}

/// The line for a server loop that ended with the error `detail`.
pub fn server_error(detail: &str) -> (res: String)
    ensures
        res@ == server_error_line(detail@),
{
    let mut line = String::from_str("server error: ");
    line.append(detail);
    line
}

/// The line for an upgrade request of `peer` turned down with `error`.
pub fn handshake_failure(peer: &str, error: &str) -> (res: String)
    ensures
        res@ == handshake_failure_line(peer@, error@),
{
    let mut line = String::from_str(
        "Failed to create websocket response to request from address ",
    );
    line.append(peer);
    line.append(". Error is: ");
    line.append(error);
    line
}

/// The line for an upgrade that `peer` did not complete, with `error`.
pub fn upgrade_failure(peer: &str, error: &str) -> (res: String)
    ensures
        res@ == upgrade_failure_line(peer@, error@),
{
    let mut line = String::from_str("error when trying to upgrade connection from address ");
    line.append(peer);
    line.append(" to websocket connection. Error is: ");
    line.append(error);
    line
}

/// The line for an echo on the connection of `peer` that failed with `error`.
pub fn echo_failure(peer: &str, error: &str) -> (res: String)
    ensures
        res@ == echo_failure_line(peer@, error@),
{
    let mut line = String::from_str("error creating echo stream on connection from address ");
    line.append(peer);
    line.append(". Error is ");
    line.append(error);
    line
}

/// The line for a connection of `peer` that closed cleanly.
pub fn normal_close(peer: &str) -> (res: String)
    ensures
        res@ == normal_close_line(peer@),
{
    let mut line = String::from_str("Connection from address ");
    line.append(peer);
    line.append(" closed normally");
    line
}

} // verus!
