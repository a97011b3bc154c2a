//! The event router: fan-out of inbound socket events to the windows.
//!
//! Every inbound event with a text payload goes to the registered windows
//! and to the broadcast channel. A payload that is one of the server's
//! control messages, in quotes, is delivered under the name of that message
//! in place of the event's own name.

use vstd::prelude::*;
use vstd::string::StrSliceExecFns;

use crate::text::{str_equal, text_of};

verus! {

/// What an inbound socket event carries.
#[derive(Debug, PartialEq, Eq)]
pub enum Payload {
    Text(String),
    Binary(Vec<u8>),
}

impl Payload {
    /// The text of a payload that has one.
    pub open spec fn text(self) -> Option<Seq<char>> {
        match self {
            Payload::Text(text) => Some(text@),
            Payload::Binary(_) => None,
        }
    }
}

/// A message by which the server steers the client.
#[derive(Clone, Copy, Debug, PartialEq, Eq, Structural)]
pub enum ControlMessage {
    SuccessfulConnection,
    UserAlreadyConnected,
}

impl ControlMessage {
    /// The literal that stands for the message, without quotes.
    pub open spec fn literal(self) -> Seq<char> {
        match self {
            ControlMessage::SuccessfulConnection => "SuccessfulConnection"@,
            ControlMessage::UserAlreadyConnected => "UserAlreadyConnected"@,
        }
    }

    /// The name under which the message is delivered.
    pub fn as_str(&self) -> (literal: &'static str)
        ensures
            literal@ == self.literal(),
    {
        match self {
            ControlMessage::SuccessfulConnection => "SuccessfulConnection",
            ControlMessage::UserAlreadyConnected => "UserAlreadyConnected",
        }
    }
}

/// A payload without its quotes: what stands between one leading and one
/// trailing `"`, where the payload has both.
pub open spec fn dequoted(payload: Seq<char>) -> Option<Seq<char>> {
    if payload.len() >= 2 && payload.first() == '"' && payload.last() == '"' {
        Some(payload.subrange(1, payload.len() - 1))
    } else {
        None
    }
}

/// The control message that a payload stands for, if any.
pub open spec fn control_of(payload: Seq<char>) -> Option<ControlMessage> {
    match dequoted(payload) {
        Some(inner) => if inner == ControlMessage::SuccessfulConnection.literal() {
            Some(ControlMessage::SuccessfulConnection)
        } else if inner == ControlMessage::UserAlreadyConnected.literal() {
            Some(ControlMessage::UserAlreadyConnected)
        } else {
            None
        },
        None => None,
    }
}

/// The name under which an event is delivered: the literal of the control
/// message that its payload stands for, else its own name.
pub open spec fn delivery_name(name: Seq<char>, payload: Seq<char>) -> Seq<char> {
    match control_of(payload) {
        Some(control) => control.literal(),
        None => name,
    }
}

/// Decodes a text payload into the control message that it stands for.
pub fn decode(payload: &str) -> (control: Option<ControlMessage>)
    ensures
        control == control_of(payload@),
{
    let length = payload.unicode_len();
    if length < 2 {
        return None;
    }
    if payload.get_char(0) != '"' || payload.get_char(length - 1) != '"' {
        return None;
    }
    let inner = payload.substring_char(1, length - 1);
    if str_equal(inner, ControlMessage::SuccessfulConnection.as_str()) {
        Some(ControlMessage::SuccessfulConnection)
    } else if str_equal(inner, ControlMessage::UserAlreadyConnected.as_str()) {
        Some(ControlMessage::UserAlreadyConnected)
    } else {
        None
    }
}

/// Where a delivery goes.
#[derive(Clone, Copy, Debug, PartialEq, Eq, Structural)]
pub enum Target {
    /// The primary window.
    Primary,
    /// The secondary window.
    Secondary,
    /// The channel that reaches every listener of the process.
    Broadcast,
}

impl Target {
    /// The label of the window that the target stands for; the broadcast
    /// channel has none.
    pub open spec fn label(self) -> Option<Seq<char>> {
        match self {
            Target::Primary => Some("main"@),
            Target::Secondary => Some("chat"@),
            Target::Broadcast => None,
        }
    }

    /// The label under which the host knows the window of the target.
    pub fn window(&self) -> (label: Option<&'static str>)
        ensures
            text_of(label) == self.label(),
    {
        match self {
            Target::Primary => Some("main"),
            Target::Secondary => Some("chat"),
            Target::Broadcast => None,
        }
    }
}

/// Which windows the host has registered.
#[derive(Clone, Copy, Debug, PartialEq, Eq, Structural)]
pub struct Registry {
    pub primary: bool,
    pub secondary: bool,
}

/// One event for one target.
#[derive(Debug, PartialEq, Eq)]
pub struct Delivery {
    pub target: Target,
    pub name: String,
    pub payload: String,
}

/// The mathematical content of a [`Delivery`].
pub struct DeliveryView {
    pub target: Target,
    pub name: Seq<char>,
    pub payload: Seq<char>,
}

impl View for Delivery {
    type V = DeliveryView;

    open spec fn view(&self) -> DeliveryView {
        DeliveryView { target: self.target, name: self.name@, payload: self.payload@ }
    }
}

/// The targets of a fan-out, in the order of delivery: the primary window,
/// the secondary window, each if registered, then the broadcast channel.
pub open spec fn targets(registry: Registry) -> Seq<Target> {
    let primary = if registry.primary {
        seq![Target::Primary]
    } else {
        Seq::<Target>::empty()
    };
    let secondary = if registry.secondary {
        seq![Target::Secondary]
    } else {
        Seq::<Target>::empty()
    };
    primary + secondary + seq![Target::Broadcast]
}

/// The deliveries that an inbound event gives rise to, in order. An event
/// without a text payload gives rise to none. The payload is delivered as
/// it came.
pub open spec fn routed(name: Seq<char>, payload: Option<Seq<char>>, registry: Registry) -> Seq<
    DeliveryView,
> {
    match payload {
        Some(text) => targets(registry).map_values(
            |target: Target| DeliveryView { target, name: delivery_name(name, text), payload: text },
        ),
        None => Seq::<DeliveryView>::empty(),
    }
}

/// The contents of a sequence of deliveries.
pub open spec fn contents(deliveries: Seq<Delivery>) -> Seq<DeliveryView> {
    deliveries.map_values(|delivery: Delivery| delivery@)
}

/// The targets of a fan-out, in the order of delivery.
pub fn fan_out(registry: Registry) -> (order: Vec<Target>)
    ensures
        order@ == targets(registry),
{
    let mut order: Vec<Target> = Vec::new();
    if registry.primary {
        order.push(Target::Primary);
    }
    if registry.secondary {
        order.push(Target::Secondary);
    }
    order.push(Target::Broadcast);
    order
}

/// The name under which an event with a text payload is delivered.
pub fn name_for(name: &str, payload: &str) -> (delivered: String)
    ensures
        delivered@ == delivery_name(name@, payload@),
{
    match decode(payload) {
        Some(control) => control.as_str().to_owned(),
        None => name.to_owned(),
    }
}

/// Plans the deliveries for one inbound event.
pub fn route(name: &str, payload: &Payload, registry: Registry) -> (deliveries: Vec<Delivery>)
    ensures
        contents(deliveries@) == routed(name@, payload.text(), registry),
        deliveries@.len() == routed(name@, payload.text(), registry).len(),
{
    let mut deliveries: Vec<Delivery> = Vec::new();
    match payload {
        Payload::Binary(_) => {},
        Payload::Text(text) => {
            let order = fan_out(registry);
            let mut i: usize = 0;
            while i < order.len()
                invariant
                    i <= order.len(),
                    order@ == targets(registry),
                    payload.text() == Some(text@),
                    contents(deliveries@) == routed(name@, payload.text(), registry).subrange(
                        0,
                        i as int,
                    ),
                decreases order.len() - i,
            {
                let delivery = Delivery {
                    target: order[i],
                    name: name_for(name, text.as_str()),
                    payload: text.clone(),
                };
                proof {
                    let plan = routed(name@, payload.text(), registry);
                    assert(delivery@ == plan[i as int]);
                    assert(contents(deliveries@.push(delivery)) =~= contents(deliveries@).push(
                        delivery@,
                    ));
                    assert(plan.subrange(0, i + 1) =~= plan.subrange(0, i as int).push(
                        plan[i as int],
                    ));
                }
                deliveries.push(delivery);
                i += 1;
            }
        },
    }
    deliveries
}

/// Whether `outcome` is what `emit` answered to a delivery of the given
/// content.
pub open spec fn attempted<F: Fn(Delivery) -> Result<(), String>>(
    emit: F,
    content: DeliveryView,
    outcome: Result<(), String>,
) -> bool {
    exists|delivery: Delivery| delivery@ == content && #[trigger] call_ensures(
        emit,
        (delivery,),
        outcome,
    )
}

/// Delivers one inbound event: hands `emit` each planned delivery, in order.
///
/// Every target is attempted, whatever `emit` answered for the ones before
/// it. The report holds the answers, one for each delivery of the plan.
pub fn dispatch<F>(name: &str, payload: &Payload, registry: Registry, emit: F) -> (report: Vec<
    Result<(), String>,
>) where F: Fn(Delivery) -> Result<(), String>
    requires
        forall|delivery: Delivery|
            routed(name@, payload.text(), registry).contains(delivery@) ==> call_requires(
                emit,
                (delivery,),
            ),
    ensures
        report@.len() == routed(name@, payload.text(), registry).len(),
        forall|i: int|
            0 <= i < report@.len() ==> #[trigger] attempted(
                emit,
                routed(name@, payload.text(), registry)[i],
                report@[i],
            ),
{
    let deliveries = route(name, payload, registry);
    let ghost plan = routed(name@, payload.text(), registry);
    let mut report: Vec<Result<(), String>> = Vec::new();
    for delivery in it: deliveries
        invariant
            it.seq() == deliveries@,
            contents(deliveries@) == plan,
            forall|d: Delivery| plan.contains(d@) ==> call_requires(emit, (d,)),
            report@.len() == it.index(),
            forall|j: int| 0 <= j < report@.len() ==> #[trigger] attempted(emit, plan[j], report@[j]),
    {
        proof {
            assert(delivery@ == plan[it.index() as int]);
            assert(plan.contains(delivery@));
        }
        let ghost given = delivery;
        let outcome = emit(delivery);
        assert(attempted(emit, plan[it.index() as int], outcome)) by {
            assert(call_ensures(emit, (given,), outcome));
        }
        report.push(outcome);
    }
    report
}

/// A text between one leading and one trailing `"`.
pub open spec fn quoted(text: Seq<char>) -> Seq<char> {
    seq!['"'] + text + seq!['"']
}

/// A payload that is a control message in quotes stands for that message.
pub proof fn lemma_quoted_literal_decodes(control: ControlMessage)
    ensures
        control_of(quoted(control.literal())) == Some(control),
{
    reveal_strlit("SuccessfulConnection");
    reveal_strlit("UserAlreadyConnected");
    let literal = control.literal();
    let payload = quoted(literal);
    assert(payload.subrange(1, payload.len() - 1) =~= literal);
    assert("SuccessfulConnection"@[0] != "UserAlreadyConnected"@[0]);
}

/// Whatever the name of the inbound event: where its payload is a control
/// message in quotes, every target gets the event under the name of that
/// message, and the payload as it came, quotes included.
pub proof fn lemma_control_message_renames(
    name: Seq<char>,
    control: ControlMessage,
    registry: Registry,
)
    ensures
        routed(name, Some(quoted(control.literal())), registry).len() == targets(registry).len(),
        forall|i: int|
            0 <= i < targets(registry).len() ==> (#[trigger] routed(
                name,
                Some(quoted(control.literal())),
                registry,
            )[i]) == (DeliveryView {
                target: targets(registry)[i],
                name: control.literal(),
                payload: quoted(control.literal()),
            }),
{
    lemma_quoted_literal_decodes(control);
}

/// Where the payload of an inbound event is a text that stands for no
/// control message, every target gets the event under its own name, and
/// the payload as it came.
pub proof fn lemma_other_text_passes_through(
    name: Seq<char>,
    payload: Seq<char>,
    registry: Registry,
)
    requires
        control_of(payload) is None,
    ensures
        routed(name, Some(payload), registry).len() == targets(registry).len(),
        forall|i: int|
            0 <= i < targets(registry).len() ==> (#[trigger] routed(name, Some(payload), registry)[i])
                == (DeliveryView { target: targets(registry)[i], name, payload }),
{
}

/// The broadcast channel is always served, and served last; a registered
/// window is served before it, the primary before the secondary.
pub proof fn lemma_fan_out_order(registry: Registry)
    ensures
        targets(registry).len() >= 1,
        targets(registry).last() == Target::Broadcast,
        registry.primary ==> targets(registry)[0] == Target::Primary,
        registry.secondary ==> targets(registry)[targets(registry).len() - 2] == Target::Secondary,
        targets(registry).len() == 1 + (if registry.primary {
            1int
        } else {
            0int
        }) + (if registry.secondary {
            1int
        } else {
            0int
        }),
{
}

} // verus!
