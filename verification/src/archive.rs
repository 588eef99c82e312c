//! Lifecycle records of an archival job: it starts, then either fails, or
//! its data is dumped and it completes. Each record names the job it is
//! about. Which record may follow which is for the archiver to enforce.

use vstd::prelude::*;

verus! {

/// Identifier of a job: the instant it was made and a unique number.
#[derive(Clone, Copy, Debug, PartialEq, Eq, Hash, Structural)]
pub struct Id {
    /// Nanoseconds since the Unix epoch.
    pub time_nanos: i64,
    /// The unique part, as one number.
    pub uuid: u128,
}

/// What every lifecycle record can tell: the job it belongs to.
pub trait EventMetadata {
    /// The job that the record is about.
    spec fn job(&self) -> Id;

    /// The identifier of the job that the record is about.
    fn reference(&self) -> (id: Id)
        ensures
            id == self.job(),
    ;
}

/// The job has begun.
#[derive(Clone, Copy, Debug, PartialEq, Eq, Structural)]
pub struct Started {
    /// The job that the record is about.
    pub reference: Id,
    /// When it began, in milliseconds since the Unix epoch.
    pub started_at: i64,
}

/// The job's data has been written out.
#[derive(Clone, Copy, Debug, PartialEq, Eq, Structural)]
pub struct Dumped {
    /// The job that the record is about.
    pub reference: Id,
    /// When it was written out, in milliseconds since the Unix epoch.
    pub dumped_at: i64,
}

/// The job has ended without success.
#[derive(Clone, Copy, Debug, PartialEq, Eq, Structural)]
pub struct Failed {
    /// The job that the record is about.
    pub reference: Id,
    /// When it failed, in milliseconds since the Unix epoch.
    pub failed_at: i64,
}

/// The job has ended with success.
#[derive(Clone, Copy, Debug, PartialEq, Eq, Structural)]
pub struct Completed {
    /// The job that the record is about.
    pub reference: Id,
    /// When it completed, in milliseconds since the Unix epoch.
    pub completed_at: i64,
}

impl EventMetadata for Started {
    open spec fn job(&self) -> Id {
        self.reference
    }

    fn reference(&self) -> (id: Id) {
        self.reference
    }
}

impl EventMetadata for Dumped {
    open spec fn job(&self) -> Id {
        self.reference
    }

    fn reference(&self) -> (id: Id) {
        self.reference
    }
}

impl EventMetadata for Failed {
    open spec fn job(&self) -> Id {
        self.reference
    }

    fn reference(&self) -> (id: Id) {
        self.reference
    }
}

impl EventMetadata for Completed {
    open spec fn job(&self) -> Id {
        self.reference
    }

    fn reference(&self) -> (id: Id) {
        self.reference
    }
}

/// One record of a job's lifecycle.
#[derive(Clone, Copy, Debug, PartialEq, Eq, Structural)]
pub enum Event {
    Started(Started),
    Dumped(Dumped),
    Failed(Failed),
    Completed(Completed),
}

impl EventMetadata for Event {
    open spec fn job(&self) -> Id {
        match *self {
            Event::Started(record) => record.job(),
            Event::Dumped(record) => record.job(),
            Event::Failed(record) => record.job(),
            Event::Completed(record) => record.job(),
        }
    }

    fn reference(&self) -> (id: Id) {
        match self {
            Event::Started(record) => record.reference(),
            Event::Dumped(record) => record.reference(),
            Event::Failed(record) => record.reference(),
            Event::Completed(record) => record.reference(),
        }
    }
}

/// The job that a record names does not depend on the stage that the record
/// reports: wrapped in any of the four, an identifier comes back as it is.
pub proof fn lemma_reference_ignores_stage(id: Id, at: i64)
    ensures
        Event::Started(Started { reference: id, started_at: at }).job() == id,
        Event::Dumped(Dumped { reference: id, dumped_at: at }).job() == id,
        Event::Failed(Failed { reference: id, failed_at: at }).job() == id,
        Event::Completed(Completed { reference: id, completed_at: at }).job() == id,
{
}

} // verus!
