//! The native core of a desktop communication client.
//!
//! The crate holds the decisions of the client and leaves the input and
//! output to its host: the lifecycle of the single socket connection
//! ([`bridge`]), the fan-out of inbound socket events to the windows
//! ([`router`]), the shaping of HTTP requests and responses ([`gateway`]),
//! and the names of the events that the native side emits ([`events`]).
//! Two questions are put to code outside the crate, and their answers are
//! taken on trust: whether the HTTP client takes a MIME type ([`mime`]), and
//! what the extension of a file name is ([`path`]).

use vstd::prelude::*;
use vstd::string::StringExecFns;

pub mod bridge;
pub mod events;
pub mod gateway;
pub mod mime;
pub mod path;
pub mod router;
pub mod text;

pub use events::RustEvent;

verus! {

/// Greets the user by name.
pub fn greet(name: &str) -> (greeting: String)
    ensures
        greeting@ == "Hello, "@ + name@ + "! You've been greeted from Rust!"@,
{
    String::from_str("Hello, ").concat(name).concat("! You've been greeted from Rust!")
}

} // verus!
