//! Decisions of the HTTP server and its database connection.

use vstd::prelude::*;
use vstd::string::*;
use crate::text::{seq_contains, str_contains};

verus! {

/// The database host is reached over plain WebSocket when it names `localhost`,
/// and over TLS otherwise.
pub fn uses_plain_websocket(db_host: &str) -> (plain: bool)
    ensures
        plain == seq_contains(db_host@, "localhost"@),
{
    str_contains(db_host, "localhost")
}

/// The answer to a request that failed in the middleware: 408 with a fixed text
/// when it timed out, otherwise 500 with the error's description.
pub fn timeout_error_response(elapsed: bool, description: &str) -> (response: (u16, String))
    ensures
        elapsed ==> response.0 == 408 && response.1@ == "Request took too long"@,
        !elapsed ==> response.0 == 500 && response.1@ == "Unhandled internal error: "@ + description@,
{
    if elapsed {
        (408, String::from_str("Request took too long"))
    } else {
        let mut text = String::from_str("Unhandled internal error: ");
        text.append(description);
        (500, text)
    }
}

} // verus!
