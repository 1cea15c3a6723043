//! The events that a connection reports about what it does.
use crate::error::{ConnectionError, Error};
use vstd::prelude::*;

verus! {

/// Something that a connection reports about itself.
#[derive(Debug, PartialEq, Eq)]
#[non_exhaustive]
pub enum InstrumentationEvent {
    /// A connection attempt begins.
    StartEstablishConnection { url: String },
    /// A connection attempt has ended; `error` tells why it failed, if it did.
    FinishEstablishConnection { url: String, error: Option<ConnectionError> },
    /// A query begins.
    StartQuery { query: String },
    /// A statement is about to be prepared for repeated use.
    CacheQuery { sql: String },
    /// A query has ended; `error` tells why it failed, if it did.
    FinishQuery { query: String, error: Option<Error> },
    /// A transaction, or a savepoint inside one, is about to be opened at `depth`.
    BeginTransaction { depth: u32 },
    /// The transaction, or the savepoint, at `depth` is about to be committed.
    CommitTransaction { depth: u32 },
    /// The transaction, or the savepoint, at `depth` is about to be rolled back.
    RollbackTransaction { depth: u32 },
}

/// An event, with each text as its sequence of characters.
pub enum EventModel {
    StartEstablishConnection { url: Seq<char> },
    FinishEstablishConnection { url: Seq<char>, error: Option<ConnectionError> },
    StartQuery { query: Seq<char> },
    CacheQuery { sql: Seq<char> },
    FinishQuery { query: Seq<char>, error: Option<Error> },
    BeginTransaction { depth: u32 },
    CommitTransaction { depth: u32 },
    RollbackTransaction { depth: u32 },
}

impl View for InstrumentationEvent {
    type V = EventModel;

    open spec fn view(&self) -> EventModel {
        match *self {
            InstrumentationEvent::StartEstablishConnection { url } => {
                EventModel::StartEstablishConnection { url: url@ }
            },
            InstrumentationEvent::FinishEstablishConnection { url, error } => {
                EventModel::FinishEstablishConnection { url: url@, error }
            },
            InstrumentationEvent::StartQuery { query } => EventModel::StartQuery { query: query@ },
            InstrumentationEvent::CacheQuery { sql } => EventModel::CacheQuery { sql: sql@ },
            InstrumentationEvent::FinishQuery { query, error } => {
                EventModel::FinishQuery { query: query@, error }
            },
            InstrumentationEvent::BeginTransaction { depth } => {
                EventModel::BeginTransaction { depth }
            },
            InstrumentationEvent::CommitTransaction { depth } => {
                EventModel::CommitTransaction { depth }
            },
            InstrumentationEvent::RollbackTransaction { depth } => {
                EventModel::RollbackTransaction { depth }
            },
        }
    }
}

/// The reported events, oldest first; nothing where nobody listens.
pub type EventLog = Option<Seq<EventModel>>;

/// The log after one more event.
pub open spec fn reported(log: EventLog, event: EventModel) -> EventLog {
    match log {
        Some(events) => Some(events.push(event)),
        None => None,
    }
}

/// Where a connection reports its events to.
///
/// Events are kept in the order in which they are reported until the driver takes them, which it
/// does before each call into libpq, and passes them on to whoever listens.
#[derive(Debug)]
pub struct DynInstrumentation {
    inner: Option<Vec<InstrumentationEvent>>,
}

impl View for DynInstrumentation {
    type V = EventLog;

    closed spec fn view(&self) -> EventLog {
        match self.inner {
            Some(events) => Some(events@.map_values(|event: InstrumentationEvent| event@)),
            None => None,
        }
    }
}

impl DynInstrumentation {
    /// Nobody listens: events are dropped.
    pub fn none() -> (instrumentation: DynInstrumentation)
        ensures
            instrumentation@ is None,
    {
        DynInstrumentation { inner: None }
    }

    /// Somebody listens, and has not heard anything yet.
    pub fn listening() -> (instrumentation: DynInstrumentation)
        ensures
            instrumentation@ == Some(Seq::<EventModel>::empty()),
    {
        let instrumentation = DynInstrumentation { inner: Some(Vec::new()) };
        proof {
            assert(instrumentation@->0 =~= Seq::<EventModel>::empty());
        }
        instrumentation
    }

    /// Reports one event.
    pub fn on_connection_event(&mut self, event: InstrumentationEvent)
        ensures
            final(self)@ == reported(old(self)@, event@),
    {
        let ghost before = self@;
        if let Some(events) = &mut self.inner {
            events.push(event);
        }
        proof {
            if before is Some {
                assert(self@->0 =~= before->0.push(event@));
            }
        }
    }

    /// Hands out the events that were reported since the last call, oldest first.
    pub fn take_events(&mut self) -> (events: Vec<InstrumentationEvent>)
        ensures
            old(self)@ is Some ==> {
                &&& events@.map_values(|event: InstrumentationEvent| event@) == old(self)@->0
                &&& final(self)@ == Some(Seq::<EventModel>::empty())
            },
            old(self)@ is None ==> events@.len() == 0 && final(self)@ is None,
    {
        let mut taken: Vec<InstrumentationEvent> = Vec::new();
        if let Some(events) = &mut self.inner {
            std::mem::swap(events, &mut taken);
        }
        proof {
            if old(self)@ is Some {
                assert(self@->0 =~= Seq::<EventModel>::empty());
            }
        }
        taken
    }
}

} // verus!
