use vstd::prelude::*;

use crate::event::{decode_spec, event_line, DecodeError, ExecEvent};

verus! {

/// What one wait on the ring buffer hands back.
pub enum Delivery {
    /// A record's bytes, copied out of the ring.
    Record(Vec<u8>),
    /// The ring could not be read this time.
    ReadFailed,
    /// The consumer was asked to stop.
    Cancelled,
}

/// Why a delivery produced no audit line.
#[derive(Debug, Clone, Copy, PartialEq, Eq, Structural)]
pub enum Warning {
    Malformed(DecodeError),
    Unreadable,
}

/// What the consumption task does after a delivery.
#[derive(Debug)]
pub enum Step {
    /// Write this audit line and wait again.
    Report(String),
    /// Log this warning and wait again.
    Warn(Warning),
    /// Leave the loop.
    Stop,
}

/// The audit line for a record's bytes, or why there is none.
pub open spec fn record_outcome(b: Seq<u8>) -> Result<Seq<char>, DecodeError> {
    match decode_spec(b) {
        Ok(e) => Ok(event_line(e)),
        Err(err) => Err(err),
    }
}

/// `r` is what handling the bytes `b` must give.
pub open spec fn handled(r: Result<String, DecodeError>, b: Seq<u8>) -> bool {
    match r {
        Ok(line) => record_outcome(b) == Ok::<Seq<char>, DecodeError>(line@),
        Err(err) => record_outcome(b) == Err::<Seq<char>, DecodeError>(err),
    }
}

/// Decodes one record and formats its audit line.
pub fn handle_record(buf: &[u8]) -> (r: Result<String, DecodeError>)
    ensures
        handled(r, buf@),
        r is Err <==> buf@.len() < crate::event::EVENT_SIZE,
{
    match ExecEvent::try_from(buf) {
        Ok(e) => Ok(e.format()),
        Err(err) => Err(err),
    }
}

/// Handles the records of one wake-up, in the order they arrived: one result
/// per record, at the same position.
pub fn handle_batch(records: &Vec<Vec<u8>>) -> (r: Vec<Result<String, DecodeError>>)
    ensures
        r@.len() == records@.len(),
        forall|i: int| 0 <= i < records@.len() ==> handled(#[trigger] r@[i], records@[i]@),
{
    let mut out: Vec<Result<String, DecodeError>> = Vec::new();
    let mut i: usize = 0;
    while i < records.len()
        invariant
            i <= records@.len(),
            out@.len() == i,
            forall|j: int| 0 <= j < i ==> handled(#[trigger] out@[j], records@[j]@),
        decreases records@.len() - i,
    {
        let r = handle_record(records[i].as_slice());
        out.push(r);
        i = i + 1;
    }
    out
}

/// Decides what the consumption task does with one delivery: report a
/// record's line, warn about a malformed record or a failed read, or stop
/// once cancelled.
pub fn next_step(d: Delivery) -> (r: Step)
    ensures
        match d {
            Delivery::Record(b) => match r {
                Step::Report(line) => record_outcome(b@) == Ok::<Seq<char>, DecodeError>(line@),
                Step::Warn(Warning::Malformed(err)) => record_outcome(b@) == Err::<
                    Seq<char>,
                    DecodeError,
                >(err),
                _ => false,
            },
            Delivery::ReadFailed => r matches Step::Warn(Warning::Unreadable),
            Delivery::Cancelled => r is Stop,
        },
{
    match d {
        Delivery::Record(b) => match handle_record(b.as_slice()) {
            Ok(line) => Step::Report(line),
            Err(err) => Step::Warn(Warning::Malformed(err)),
        },
        Delivery::ReadFailed => Step::Warn(Warning::Unreadable),
        Delivery::Cancelled => Step::Stop,
    }
}

} // verus!
