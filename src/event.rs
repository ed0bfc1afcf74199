use vstd::prelude::*;

use crate::report::{format_line, line_spec};
use crate::text::{field_text, field_text_spec};

verus! {

/// Size in bytes of one record on the wire: pid, command name, file name.
pub const EVENT_SIZE: usize = 148;

/// Width of the command-name field.
pub const COMM_LEN: usize = 16;

/// Width of the file-name field.
pub const FILENAME_LEN: usize = 128;

/// Offset of the command-name field.
pub const COMM_OFFSET: usize = 4;

/// Offset of the file-name field.
pub const FILENAME_OFFSET: usize = 20;

/// One observed process execution, with the two text fields kept as the raw,
/// NUL-padded bytes of the record.
#[derive(Debug, Clone, Copy)]
pub struct ExecEvent {
    pub pid: u32,
    pub comm: [u8; 16],
    pub filename: [u8; 128],
}

/// Why a byte region could not be read as a record.
#[derive(Debug, Clone, Copy, PartialEq, Eq, Structural)]
pub enum DecodeError {
    TooShort,
}

/// The mathematical content of an [`ExecEvent`].
pub struct EventView {
    pub pid: u32,
    pub comm: Seq<u8>,
    pub filename: Seq<u8>,
}

impl View for ExecEvent {
    type V = EventView;

    open spec fn view(&self) -> EventView {
        EventView { pid: self.pid, comm: self.comm@, filename: self.filename@ }
    }
}

/// A view is the content of some record when its fields have their wire widths.
pub open spec fn well_sized(e: EventView) -> bool {
    e.comm.len() == COMM_LEN && e.filename.len() == FILENAME_LEN
}

/// The integer held little-endian in the first four bytes of `b`
/// (the probe is built for the little-endian BPF target).
pub open spec fn le_u32(b: Seq<u8>) -> int {
    b[0] + 256 * (b[1] + 256 * (b[2] + 256 * b[3]))
}

/// The four little-endian bytes of `x`.
pub open spec fn le_bytes(x: u32) -> Seq<u8> {
    seq![
        (x % 256) as u8,
        ((x / 256) % 256) as u8,
        ((x / 65536) % 256) as u8,
        (x / 16777216) as u8,
    ]
}

/// What a byte region decodes to: too short, or the three fields at their
/// fixed offsets. Bytes past the record are not looked at.
pub open spec fn decode_spec(b: Seq<u8>) -> Result<EventView, DecodeError> {
    if b.len() < EVENT_SIZE {
        Err(DecodeError::TooShort)
    } else {
        Ok(
            EventView {
                pid: le_u32(b) as u32,
                comm: b.subrange(COMM_OFFSET as int, FILENAME_OFFSET as int),
                filename: b.subrange(FILENAME_OFFSET as int, EVENT_SIZE as int),
            },
        )
    }
}

/// The wire bytes of a record.
pub open spec fn encode_spec(e: EventView) -> Seq<u8> {
    le_bytes(e.pid) + e.comm + e.filename
}

impl ExecEvent {
    /// Reads a record from the start of `buf`, copying each field out of its
    /// fixed offset; fails only when `buf` is shorter than a record.
    pub fn try_from(buf: &[u8]) -> (r: Result<ExecEvent, DecodeError>)
        ensures
            r is Err <==> buf@.len() < EVENT_SIZE,
            match r {
                Ok(e) => decode_spec(buf@) == Ok::<EventView, DecodeError>(e@),
                Err(err) => decode_spec(buf@) == Err::<EventView, DecodeError>(err),
            },
    {
        if buf.len() < EVENT_SIZE {
            return Err(DecodeError::TooShort);
        }
        let pid: u32 = buf[0] as u32 + 256 * (buf[1] as u32 + 256 * (buf[2] as u32 + 256
            * buf[3] as u32));
        let mut comm: [u8; 16] = [0u8; 16];
        let mut i: usize = 0;
        while i < COMM_LEN
            invariant
                buf@.len() >= EVENT_SIZE,
                i <= COMM_LEN,
                forall|j: int| 0 <= j < i ==> comm@[j] == buf@[COMM_OFFSET + j],
            decreases COMM_LEN - i,
        {
            comm[i] = buf[COMM_OFFSET + i];
            i = i + 1;
        }
        let mut filename: [u8; 128] = [0u8; 128];
        let mut k: usize = 0;
        while k < FILENAME_LEN
            invariant
                buf@.len() >= EVENT_SIZE,
                k <= FILENAME_LEN,
                forall|j: int| 0 <= j < k ==> filename@[j] == buf@[FILENAME_OFFSET + j],
            decreases FILENAME_LEN - k,
        {
            filename[k] = buf[FILENAME_OFFSET + k];
            k = k + 1;
        }
        let e = ExecEvent { pid, comm, filename };
        assert(e.comm@ =~= buf@.subrange(COMM_OFFSET as int, FILENAME_OFFSET as int));
        assert(e.filename@ =~= buf@.subrange(FILENAME_OFFSET as int, EVENT_SIZE as int));
        Ok(e)
    }
}

impl ExecEvent {
    /// Writes the record's wire bytes: pid little-endian, then the two fields
    /// as they stand.
    pub fn encode(&self) -> (r: Vec<u8>)
        ensures
            r@ == encode_spec(self@),
            r@.len() == EVENT_SIZE,
    {
        let mut out: Vec<u8> = Vec::new();
        out.push((self.pid % 256) as u8);
        out.push(((self.pid / 256) % 256) as u8);
        out.push(((self.pid / 65536) % 256) as u8);
        out.push((self.pid / 16777216) as u8);
        assert(out@ =~= le_bytes(self.pid));
        let mut i: usize = 0;
        while i < COMM_LEN
            invariant
                i <= COMM_LEN,
                out@ =~= le_bytes(self.pid) + self.comm@.subrange(0, i as int),
            decreases COMM_LEN - i,
        {
            out.push(self.comm[i]);
            i = i + 1;
            assert(out@ =~= le_bytes(self.pid) + self.comm@.subrange(0, i as int));
        }
        assert(self.comm@.subrange(0, COMM_LEN as int) =~= self.comm@);
        let mut k: usize = 0;
        while k < FILENAME_LEN
            invariant
                k <= FILENAME_LEN,
                out@ =~= le_bytes(self.pid) + self.comm@ + self.filename@.subrange(0, k as int),
            decreases FILENAME_LEN - k,
        {
            out.push(self.filename[k]);
            k = k + 1;
            assert(out@ =~= le_bytes(self.pid) + self.comm@ + self.filename@.subrange(
                0,
                k as int,
            ));
        }
        assert(self.filename@.subrange(0, FILENAME_LEN as int) =~= self.filename@);
        out
    }
}

/// The audit line that reports an event.
pub open spec fn event_line(e: EventView) -> Seq<char> {
    line_spec(e.pid, field_text_spec(e.comm), field_text_spec(e.filename))
}

impl ExecEvent {
    /// The command name as text: trailing NUL bytes dropped, invalid UTF-8
    /// replaced.
    pub fn comm_text(&self) -> (r: String)
        ensures
            r@ == field_text_spec(self.comm@),
    {
        field_text(self.comm.as_slice())
    }

    /// The executable path as text: trailing NUL bytes dropped, invalid UTF-8
    /// replaced.
    pub fn filename_text(&self) -> (r: String)
        ensures
            r@ == field_text_spec(self.filename@),
    {
        field_text(self.filename.as_slice())
    }

    /// The audit line that reports this event.
    pub fn format(&self) -> (r: String)
        ensures
            r@ == event_line(self@),
    {
        let comm = self.comm_text();
        let filename = self.filename_text();
        format_line(self.pid, comm.as_str(), filename.as_str())
    }
}

/// Formatting is a function of the event: the same event, formatted twice,
/// gives the same line.
pub proof fn lemma_format_idempotent(e: EventView, again: EventView)
    requires
        again == e,
    ensures
        event_line(e) == event_line(again),
{
}

/// Reading back the four little-endian bytes of an integer gives the integer.
pub proof fn lemma_le_round_trip(x: u32)
    ensures
        le_u32(le_bytes(x)) == x,
{
    let b = le_bytes(x);
    assert(b[0] == x % 256);
    assert(b[1] == (x / 256) % 256);
    assert(b[2] == (x / 65536) % 256);
    assert(b[3] == x / 16777216);
}

/// Any region shorter than a record is refused as too short.
pub proof fn lemma_short_is_refused(b: Seq<u8>)
    requires
        b.len() < EVENT_SIZE,
    ensures
        decode_spec(b) == Err::<EventView, DecodeError>(DecodeError::TooShort),
{
}

/// Decoding depends on the bytes alone: equal regions (a region and a copy
/// of it) decode to equal results.
pub proof fn lemma_decode_deterministic(b: Seq<u8>, copy: Seq<u8>)
    requires
        copy =~= b,
    ensures
        decode_spec(b) == decode_spec(copy),
{
}

/// Encoding a record and decoding the bytes gives the record back.
pub proof fn lemma_round_trip(e: EventView)
    requires
        well_sized(e),
    ensures
        decode_spec(encode_spec(e)) == Ok::<EventView, DecodeError>(e),
{
    let b = encode_spec(e);
    lemma_le_round_trip(e.pid);
    assert(b.subrange(0, 4) =~= le_bytes(e.pid));
    assert(b.subrange(COMM_OFFSET as int, FILENAME_OFFSET as int) =~= e.comm);
    assert(b.subrange(FILENAME_OFFSET as int, EVENT_SIZE as int) =~= e.filename);
    assert(le_u32(b) == le_u32(le_bytes(e.pid)));
}

} // verus!
