//! Protocol values: identifiers, actions, event drafts and events.

use vstd::prelude::*;

use crate::foundation::{Metadata, Payload, Timestamp};

verus! {

/// The identifier of one event.
#[derive(Clone, Copy, Debug, PartialEq, Eq, Hash, Structural)]
pub struct EventId {
    pub value: u128,
}

/// The identifier of one collaboration session.
#[derive(Clone, Copy, Debug, PartialEq, Eq, Hash, Structural)]
pub struct SessionId {
    pub value: u128,
}

/// The identifier of the actor that issued an action.
#[derive(Clone, Copy, Debug, PartialEq, Eq, Hash, Structural)]
pub struct ActorId {
    pub value: u128,
}

/// The identifier of one action.
#[derive(Clone, Copy, Debug, PartialEq, Eq, Hash, Structural)]
pub struct ActionId {
    pub value: u128,
}

impl EventId {
    /// The identifier with the given numeric value.
    pub fn from_u128(value: u128) -> (id: Self)
        ensures
            id.value == value,
    {
        EventId { value }
    }
}

impl SessionId {
    /// The identifier with the given numeric value.
    pub fn from_u128(value: u128) -> (id: Self)
        ensures
            id.value == value,
    {
        SessionId { value }
    }
}

impl ActorId {
    /// The identifier with the given numeric value.
    pub fn from_u128(value: u128) -> (id: Self)
        ensures
            id.value == value,
    {
        ActorId { value }
    }
}

impl ActionId {
    /// The identifier with the given numeric value.
    pub fn from_u128(value: u128) -> (id: Self)
        ensures
            id.value == value,
    {
        ActionId { value }
    }
}

/// The name of a kind of event, such as `document.written`.
#[derive(Debug, PartialEq, Eq)]
pub struct EventType {
    pub name: String,
}

impl View for EventType {
    type V = Seq<char>;

    open spec fn view(&self) -> Seq<char> {
        self.name@
    }
}

impl EventType {
    /// The event type with the given name.
    pub fn new(name: &str) -> (t: Self)
        ensures
            t@ == name@,
    {
        EventType { name: name.to_owned() }
    }

    /// The name of this event type.
    pub fn as_str(&self) -> (s: &str)
        ensures
            s@ == self@,
    {
        self.name.as_str()
    }

    /// Whether both name the same event type.
    pub fn same_as(&self, other: &EventType) -> (r: bool)
        ensures
            r == (self@ == other@),
    {
        self.name == other.name
    }
}

impl Clone for EventType {
    fn clone(&self) -> (t: Self)
        ensures
            t@ == self@,
    {
        EventType { name: self.name.clone() }
    }
}

/// The name of a kind of action, such as `canvas.draw`.
#[derive(Debug, PartialEq, Eq)]
pub struct ActionType {
    pub name: String,
}

impl View for ActionType {
    type V = Seq<char>;

    open spec fn view(&self) -> Seq<char> {
        self.name@
    }
}

impl ActionType {
    /// The action type with the given name.
    pub fn new(name: &str) -> (t: Self)
        ensures
            t@ == name@,
    {
        ActionType { name: name.to_owned() }
    }

    /// The name of this action type.
    pub fn as_str(&self) -> (s: &str)
        ensures
            s@ == self@,
    {
        self.name.as_str()
    }

    /// Whether both name the same action type.
    pub fn same_as(&self, other: &ActionType) -> (r: bool)
        ensures
            r == (self@ == other@),
    {
        self.name == other.name
    }
}

impl Clone for ActionType {
    fn clone(&self) -> (t: Self)
        ensures
            t@ == self@,
    {
        ActionType { name: self.name.clone() }
    }
}

/// The abstract content of an event.
pub struct EventView {
    pub id: u128,
    pub session_id: u128,
    pub actor_id: u128,
    pub action_id: u128,
    pub event_type: Seq<char>,
    pub occurred_at: i64,
    pub payload: Seq<u8>,
    pub metadata: Seq<(Seq<char>, Seq<char>)>,
}

/// An immutable fact produced by the handling of one action.
#[derive(Debug, PartialEq, Eq)]
pub struct Event {
    pub id: EventId,
    pub session_id: SessionId,
    pub actor_id: ActorId,
    pub action_id: ActionId,
    pub event_type: EventType,
    pub occurred_at: Timestamp,
    pub payload: Payload,
    pub metadata: Metadata,
}

impl View for Event {
    type V = EventView;

    open spec fn view(&self) -> EventView {
        EventView {
            id: self.id.value,
            session_id: self.session_id.value,
            actor_id: self.actor_id.value,
            action_id: self.action_id.value,
            event_type: self.event_type@,
            occurred_at: self.occurred_at.seconds,
            payload: self.payload@,
            metadata: self.metadata@,
        }
    }
}

impl Event {
    /// An event made of the given parts.
    pub fn new(
        id: EventId,
        session_id: SessionId,
        actor_id: ActorId,
        action_id: ActionId,
        event_type: EventType,
        occurred_at: Timestamp,
        payload: Payload,
        metadata: Metadata,
    ) -> (e: Self)
        ensures
            e@ == (EventView {
                id: id.value,
                session_id: session_id.value,
                actor_id: actor_id.value,
                action_id: action_id.value,
                event_type: event_type@,
                occurred_at: occurred_at.seconds,
                payload: payload@,
                metadata: metadata@,
            }),
    {
        Event { id, session_id, actor_id, action_id, event_type, occurred_at, payload, metadata }
    }

    /// The identifier of this event.
    pub fn id(&self) -> (r: &EventId)
        ensures
            r.value == self@.id,
    {
        &self.id
    }

    /// The session the event belongs to.
    pub fn session_id(&self) -> (r: &SessionId)
        ensures
            r.value == self@.session_id,
    {
        &self.session_id
    }

    /// The actor whose action produced the event.
    pub fn actor_id(&self) -> (r: &ActorId)
        ensures
            r.value == self@.actor_id,
    {
        &self.actor_id
    }

    /// The action that produced the event.
    pub fn action_id(&self) -> (r: &ActionId)
        ensures
            r.value == self@.action_id,
    {
        &self.action_id
    }

    /// The kind of the event.
    pub fn event_type(&self) -> (r: &EventType)
        ensures
            r@ == self@.event_type,
    {
        &self.event_type
    }

    /// When the event occurred.
    pub fn occurred_at(&self) -> (r: &Timestamp)
        ensures
            r.seconds == self@.occurred_at,
    {
        &self.occurred_at
    }

    /// The event's payload.
    pub fn payload(&self) -> (r: &Payload)
        ensures
            r@ == self@.payload,
    {
        &self.payload
    }

    /// The event's metadata.
    pub fn metadata(&self) -> (r: &Metadata)
        ensures
            r@ == self@.metadata,
    {
        &self.metadata
    }

    /// Whether both events have the same identifier and the same content.
    pub fn same_content(&self, other: &Event) -> (r: bool)
        ensures
            r == (self@ == other@),
    {
        self.id == other.id && self.session_id == other.session_id && self.actor_id
            == other.actor_id && self.action_id == other.action_id
            && self.event_type.same_as(&other.event_type) && self.occurred_at == other.occurred_at
            && self.payload.same_content(&other.payload) && self.metadata.same_content(
            &other.metadata,
        )
    }
}

impl Clone for Event {
    fn clone(&self) -> (e: Self)
        ensures
            e@ == self@,
    {
        Event {
            id: self.id,
            session_id: self.session_id,
            actor_id: self.actor_id,
            action_id: self.action_id,
            event_type: self.event_type.clone(),
            occurred_at: self.occurred_at,
            payload: self.payload.clone(),
            metadata: self.metadata.clone(),
        }
    }
}

/// The abstract content of an action.
pub struct ActionView {
    pub id: u128,
    pub session_id: u128,
    pub actor_id: u128,
    pub action_type: Seq<char>,
    pub issued_at: i64,
    pub payload: Seq<u8>,
    pub metadata: Seq<(Seq<char>, Seq<char>)>,
}

/// A request by an actor, within a session, to change shared state.
#[derive(Debug, PartialEq, Eq)]
pub struct Action {
    pub id: ActionId,
    pub session_id: SessionId,
    pub actor_id: ActorId,
    pub action_type: ActionType,
    pub issued_at: Timestamp,
    pub payload: Payload,
    pub metadata: Metadata,
}

impl View for Action {
    type V = ActionView;

    open spec fn view(&self) -> ActionView {
        ActionView {
            id: self.id.value,
            session_id: self.session_id.value,
            actor_id: self.actor_id.value,
            action_type: self.action_type@,
            issued_at: self.issued_at.seconds,
            payload: self.payload@,
            metadata: self.metadata@,
        }
    }
}

impl Action {
    /// An action made of the given parts.
    pub fn new(
        id: ActionId,
        session_id: SessionId,
        actor_id: ActorId,
        action_type: ActionType,
        issued_at: Timestamp,
        payload: Payload,
        metadata: Metadata,
    ) -> (a: Self)
        ensures
            a@ == (ActionView {
                id: id.value,
                session_id: session_id.value,
                actor_id: actor_id.value,
                action_type: action_type@,
                issued_at: issued_at.seconds,
                payload: payload@,
                metadata: metadata@,
            }),
    {
        Action { id, session_id, actor_id, action_type, issued_at, payload, metadata }
    }

    /// The identifier of this action.
    pub fn id(&self) -> (r: &ActionId)
        ensures
            r.value == self@.id,
    {
        &self.id
    }

    /// The session the action targets.
    pub fn session_id(&self) -> (r: &SessionId)
        ensures
            r.value == self@.session_id,
    {
        &self.session_id
    }

    /// The actor that issued the action.
    pub fn actor_id(&self) -> (r: &ActorId)
        ensures
            r.value == self@.actor_id,
    {
        &self.actor_id
    }

    /// The kind of the action.
    pub fn action_type(&self) -> (r: &ActionType)
        ensures
            r@ == self@.action_type,
    {
        &self.action_type
    }
}

/// The abstract content of an event draft.
pub struct EventDraftView {
    pub event_type: Seq<char>,
    pub payload: Seq<u8>,
    pub metadata: Seq<(Seq<char>, Seq<char>)>,
}

/// The part of an event that a handler decides; the runtime adds the rest.
#[derive(Debug, PartialEq, Eq)]
pub struct EventDraft {
    pub event_type: EventType,
    pub payload: Payload,
    pub metadata: Metadata,
}

impl View for EventDraft {
    type V = EventDraftView;

    open spec fn view(&self) -> EventDraftView {
        EventDraftView {
            event_type: self.event_type@,
            payload: self.payload@,
            metadata: self.metadata@,
        }
    }
}

impl EventDraft {
    /// A draft made of the given parts.
    pub fn new(event_type: EventType, payload: Payload, metadata: Metadata) -> (d: Self)
        ensures
            d@ == (EventDraftView {
                event_type: event_type@,
                payload: payload@,
                metadata: metadata@,
            }),
    {
        EventDraft { event_type, payload, metadata }
    }

    /// Splits the draft into its event type, payload and metadata.
    pub fn into_parts(self) -> (parts: (EventType, Payload, Metadata))
        ensures
            parts.0@ == self@.event_type,
            parts.1@ == self@.payload,
            parts.2@ == self@.metadata,
    {
        (self.event_type, self.payload, self.metadata)
    }
}

} // verus!
