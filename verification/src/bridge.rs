//! The hand-off from the hook callback to the asynchronous consumer, and what
//! the consumer publishes.

use vstd::prelude::*;
use vstd::string::*;
use tokio::sync::mpsc::UnboundedSender;
use crate::classifier::Disposition;
use crate::command::{wire_text, Command};

verus! {

/// The sending half of tokio's unbounded channel. Nothing of its inside is
/// known here.
#[verifier::external_type_specification]
#[verifier::external_body]
#[verifier::reject_recursive_types(T)]
pub struct ExUnboundedSender<T>(UnboundedSender<T>);

/// What became of a payload handed to the channel.
#[derive(Debug, Clone, PartialEq, Eq)]
pub enum Delivery {
    /// The payload is queued for the consumer.
    Delivered,
    /// The consumer is gone; the payload comes back for the host to log.
    Dropped(String),
}

/// What the callback returns to the operating system, and what it has to
/// log.
#[derive(Debug, Clone, PartialEq, Eq)]
pub struct Handoff {
    /// Whether the event is kept from its normal destination.
    pub suppress: bool,
    /// A payload that could not be delivered.
    pub dropped: Option<String>,
}

/// What the emitter loop does with what it received.
#[derive(Debug, Clone, PartialEq, Eq)]
pub enum Emission {
    /// Publish `payload` as an event named `event`.
    Publish { event: String, payload: String },
    /// Nothing was received; await the next item.
    Wait,
}

/// The mathematical value of an [`Emission`]: the event's name and payload,
/// if something is published.
impl View for Emission {
    type V = Option<(Seq<char>, Seq<char>)>;

    open spec fn view(&self) -> Option<(Seq<char>, Seq<char>)> {
        match self {
            Emission::Publish { event, payload } => Some((event@, payload@)),
            Emission::Wait => None,
        }
    }
}

/// The name of the one event channel towards the user interface.
pub open spec fn event_name() -> Seq<char> {
    "keyboard"@
}

/// Calls `UnboundedSender::send` of tokio, which never waits. Trusted: where
/// the receiving half is closed or dropped the call fails and hands the
/// message back, and that is the payload that went in. Whether it fails
/// depends on the consumer, so nothing is claimed of that. (tokio aborts the
/// process should the queue ever hold half of `usize::MAX` messages.)
#[verifier::external_body]
fn push(sender: &UnboundedSender<String>, payload: String) -> (undelivered: Option<String>)
    ensures
        undelivered matches Some(text) ==> text@ == payload@,
{
    match sender.send(payload) {
        Ok(()) => None,
        Err(error) => Some(error.0),
    }
}

/// What a send attempt amounts to: delivered where nothing came back,
/// dropped with the payload where it did. A drop is never a fault.
pub fn delivery_of(undelivered: Option<String>) -> (delivery: Delivery)
    ensures
        undelivered.is_none() <==> delivery is Delivered,
        undelivered matches Some(text) ==> delivery matches Delivery::Dropped(dropped)
            && dropped@ == text@,
{
    match undelivered {
        None => Delivery::Delivered,
        Some(text) => Delivery::Dropped(text),
    }
}

/// Serializes a command and pushes it to the channel without blocking. A
/// payload that comes back as dropped is the command's wire form.
pub fn send(sender: &UnboundedSender<String>, command: &Command) -> (delivery: Delivery)
    ensures
        delivery matches Delivery::Dropped(payload) ==> payload@ == wire_text(command@),
{
    delivery_of(push(sender, command.wire_string()))
}

/// Ends a callback invocation: emits the command of a swallowed event and
/// tells the operating system whether to stop the event. The event is
/// stopped exactly when there was a command, delivered or not.
pub fn hand_off(sender: &UnboundedSender<String>, disposition: &Disposition) -> (handoff: Handoff)
    ensures
        handoff.suppress == disposition@.is_some(),
        disposition@.is_none() ==> handoff.dropped.is_none(),
        handoff.dropped matches Some(payload) ==> disposition@ matches Some(command)
            && payload@ == wire_text(command),
{
    match disposition {
        Disposition::Forward => Handoff { suppress: false, dropped: None },
        Disposition::Swallow(command) => match send(sender, command) {
            Delivery::Delivered => Handoff { suppress: true, dropped: None },
            Delivery::Dropped(payload) => Handoff { suppress: true, dropped: Some(payload) },
        },
    }
}

/// One turn of the emitter loop: an item that was received is published
/// unchanged on the one event channel; without an item the loop awaits the
/// next.
pub fn emission(received: Option<String>) -> (next: Emission)
    ensures
        received.is_none() <==> next@.is_none(),
        received matches Some(payload) ==> next@ == Some((event_name(), payload@)),
{
    match received {
        Some(payload) => Emission::Publish { event: String::from_str("keyboard"), payload },
        None => Emission::Wait,
    }
}

} // verus!
