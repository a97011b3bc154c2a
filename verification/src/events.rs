//! Events that the native side emits to the user interface.

use vstd::prelude::*;

verus! {

/// An event that the native side emits on its own account.
#[derive(Clone, Copy, Debug, PartialEq, Eq, Structural)]
pub enum RustEvent {
    SocketConnectionFailed,
    SocketDisconnectionFailed,
    SocketSendFailed,
    SocketAlive,
    SocketNotAlive,
    WindowEvent,
    UserData,
}

impl RustEvent {
    /// The name under which the user interface listens for the event.
    pub open spec fn name(self) -> Seq<char> {
        match self {
            RustEvent::SocketConnectionFailed => "socketConnectionFailed"@,
            RustEvent::SocketDisconnectionFailed => "socketDisconnectionFailed"@,
            RustEvent::SocketSendFailed => "socketSendFailed"@,
            RustEvent::SocketAlive => "socketAlive"@,
            RustEvent::SocketNotAlive => "socketNotAlive"@,
            RustEvent::WindowEvent => "windowEvent"@,
            RustEvent::UserData => "userData"@,
        }
    }

    /// The name of the event, as it is emitted.
    pub fn to_string(&self) -> (name: &'static str)
        ensures
            name@ == self.name(),
    {
        match self {
            Self::SocketConnectionFailed => "socketConnectionFailed",
            Self::SocketDisconnectionFailed => "socketDisconnectionFailed",
            Self::SocketSendFailed => "socketSendFailed",
            Self::SocketAlive => "socketAlive",
            Self::SocketNotAlive => "socketNotAlive",
            Self::WindowEvent => "windowEvent",
            Self::UserData => "userData",
        }
    }
}

/// No two events share a name.
pub proof fn lemma_names_differ(a: RustEvent, b: RustEvent)
    requires
        a != b,
    ensures
        a.name() != b.name(),
{
    reveal_strlit("socketConnectionFailed");
    reveal_strlit("socketDisconnectionFailed");
    reveal_strlit("socketSendFailed");
    reveal_strlit("socketAlive");
    reveal_strlit("socketNotAlive");
    reveal_strlit("windowEvent");
    reveal_strlit("userData");
    assert(a.name().len() != b.name().len() || a.name()[0] != b.name()[0]);
}

/// A failure to be reported to the user interface: the event to emit and the
/// reason that it carries.
#[derive(Debug, PartialEq, Eq)]
pub struct Notice {
    pub event: RustEvent,
    pub reason: String,
}

} // verus!
