//! Capture of a process's output streams into messages.
//!
//! Each output stream of a bot is drained by a loop of its own: read a chunk,
//! decide with `capture_step`, forward or finish. The reading is the caller's;
//! the decision, and what it means for the bytes that arrive, is stated here.

use vstd::prelude::*;
use crate::failure::OsFailure;
use std::sync::mpsc::Sender;
use std::sync::Arc;
use std::sync::Mutex;

verus! {

/// One chunk of raw bytes read from an output stream of a bot.
#[derive(Debug)]
pub struct IOMessage {
    pub data: Vec<u8>,
}

impl View for IOMessage {
    type V = Seq<u8>;

    open spec fn view(&self) -> Seq<u8> {
        self.data@
    }
}

/// The sending half of the capture channel, shared by the readers of a bot.
pub type SafeIoSender = Arc<Mutex<Sender<IOMessage>>>;

/// What the drain loop of one stream does after a read.
#[derive(Debug)]
pub enum CaptureAction {
    /// Hand this message to the sink, waiting for room if need be, and read
    /// again.
    Forward(IOMessage),
    /// Leave the loop: the stream has ended, or a read failed. A failure is
    /// handed on for the log and goes no further.
    Finish(Option<OsFailure>),
}

/// One read from a stream as a mathematical value: the chunk that came, or
/// nothing where the read failed. An empty chunk is the end of the stream.
pub type Read = Option<Seq<u8>>;

/// The value of a read as it was reported.
pub open spec fn read_of(outcome: Result<Vec<u8>, OsFailure>) -> Read {
    match outcome {
        Ok(chunk) => Some(chunk@),
        Err(_) => None,
    }
}

/// Whether the drain loop goes on after this read.
pub open spec fn carries_data(read: Read) -> bool {
    read is Some && read->0.len() > 0
}

/// The payloads that the drain loop forwards when the stream answers with
/// `reads`, in this order: one for each read up to the first that ends it.
pub open spec fn forwarded(reads: Seq<Read>) -> Seq<Seq<u8>>
    decreases reads.len(),
{
    if reads.len() == 0 || !carries_data(reads[0]) {
        Seq::empty()
    } else {
        seq![reads[0]->0] + forwarded(reads.skip(1))
    }
}

/// The bytes that the stream delivered before it ended or failed.
pub open spec fn delivered(reads: Seq<Read>) -> Seq<u8>
    decreases reads.len(),
{
    if reads.len() == 0 || !carries_data(reads[0]) {
        Seq::empty()
    } else {
        reads[0]->0 + delivered(reads.skip(1))
    }
}

/// The payloads laid end to end.
pub open spec fn joined(payloads: Seq<Seq<u8>>) -> Seq<u8>
    decreases payloads.len(),
{
    if payloads.len() == 0 {
        Seq::empty()
    } else {
        payloads[0] + joined(payloads.skip(1))
    }
}

/// Decides what follows a read of one stream. A chunk with data becomes a
/// message with exactly these bytes; an empty chunk or a failed read ends the
/// loop.
pub fn capture_step(outcome: Result<Vec<u8>, OsFailure>) -> (action: CaptureAction)
    ensures
        carries_data(read_of(outcome)) ==> action is Forward && action->Forward_0.data
            == outcome->Ok_0,
        !carries_data(read_of(outcome)) ==> action == CaptureAction::Finish(
            match outcome {
                Ok(_) => None,
                Err(failure) => Some(failure),
            },
        ),
{
    match outcome {
        Ok(chunk) => {
            if chunk.len() == 0 {
                CaptureAction::Finish(None)
            } else {
                CaptureAction::Forward(IOMessage { data: chunk })
            }
        },
        Err(failure) => CaptureAction::Finish(Some(failure)),
    }
}

/// Within one stream nothing is lost, added or reordered: the payloads that
/// the drain loop forwards, laid end to end, are the bytes that the stream
/// delivered before it ended.
pub proof fn capture_preserves_bytes(reads: Seq<Read>)
    ensures
        joined(forwarded(reads)) == delivered(reads),
    decreases reads.len(),
{
    if reads.len() == 0 || !carries_data(reads[0]) {
    } else {
        let rest = reads.skip(1);
        capture_preserves_bytes(rest);
        let payloads = forwarded(reads);
        assert(payloads[0] == reads[0]->0);
        assert(payloads.skip(1) =~= forwarded(rest));
    }
}

/// Every read up to the first that ends the stream is forwarded, as one
/// message each and in the order of the reads.
pub proof fn capture_keeps_order(reads: Seq<Read>, i: int)
    requires
        0 <= i < forwarded(reads).len(),
    ensures
        i < reads.len(),
        carries_data(reads[i]),
        forwarded(reads)[i] == reads[i]->0,
    decreases reads.len(),
{
    if i > 0 {
        let rest = reads.skip(1);
        assert(forwarded(reads).skip(1) =~= forwarded(rest));
        capture_keeps_order(rest, i - 1);
    }
}

} // verus!
