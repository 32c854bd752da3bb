//! The producer/consumer hand-off and the worker's per-line step.
//!
//! Decoded samples travel from the ingestion worker to the host through an
//! unbounded multi-producer/single-consumer FIFO queue. The worker never
//! blocks on a push; the consumer drains without blocking and treats an empty
//! drain as "no data yet". What a drain returns depends on what the worker
//! thread has queued meanwhile, so the channel operations carry only the
//! guarantees that hold of every interleaving; everything downstream of a
//! drain is verified over the drained vector itself.

use vstd::prelude::*;
use crate::decode::{DecodeError, decode_line, spec_decode_line};
use crate::sample::SensorSample;

verus! {

/// Declares flume::Sender, the producer end of a flume channel, so that it
/// can stand in signatures; the type stays opaque here.
#[verifier::external_type_specification]
#[verifier::external_body]
#[verifier::reject_recursive_types(T)]
pub struct ExSender<T>(flume::Sender<T>);

/// Declares flume::Receiver, the consumer end of a flume channel, so that it
/// can stand in signatures; the type stays opaque here.
#[verifier::external_type_specification]
#[verifier::external_body]
#[verifier::reject_recursive_types(T)]
pub struct ExReceiver<T>(flume::Receiver<T>);

/// The consumer's end of the sample hand-off queue. Its absence tells the
/// host that discovery never found exactly one usable device.
pub struct SensorReader(pub flume::Receiver<SensorSample>);

/// Relies on flume::unbounded: a connected sender/receiver pair over a queue
/// with no capacity bound, so the producer never blocks on a send.
#[verifier::external_body]
pub fn sample_channel() -> (flume::Sender<SensorSample>, flume::Receiver<SensorSample>) {
    flume::unbounded()
}

/// Relies on flume::Sender::send: on an unbounded channel it enqueues the
/// sample without blocking and fails only when every receiver is gone,
/// handing the unsent sample back inside the error.
#[verifier::external_body]
pub fn send_sample(tx: &flume::Sender<SensorSample>, s: SensorSample) -> (r: Result<(), SensorSample>)
    ensures
        r matches Err(back) ==> back == s,
{
    match tx.send(s) {
        Ok(()) => Ok(()),
        Err(flume::SendError(back)) => Err(back),
    }
}

/// Relies on flume::Receiver::drain: it takes every sample queued at the
/// moment of the call, in arrival order, without blocking, and fetches
/// nothing that arrives later; on an empty queue it yields nothing.
#[verifier::external_body]
pub fn drain_samples(rx: &flume::Receiver<SensorSample>) -> Vec<SensorSample> {
    rx.drain().collect()
}

impl SensorReader {
    /// Drain every sample queued right now, in the order the worker decoded
    /// them; an empty result means nothing has arrived since the last drain.
    pub fn drain(&self) -> Vec<SensorSample> {
        drain_samples(&self.0)
    }
}

/// The most recently observed sample of one drain, if any: the host applies
/// only the newest reading and may discard the rest.
pub fn latest_sample(samples: &Vec<SensorSample>) -> (r: Option<SensorSample>)
    ensures
        samples@.len() == 0 ==> r is None,
        samples@.len() > 0 ==> r == Some(samples@.last()),
{
    if samples.len() == 0 {
        None
    } else {
        Some(samples[samples.len() - 1])
    }
}

/// What one worker iteration did with one line.
#[derive(Clone, Copy, Debug, PartialEq, Eq, Structural)]
pub enum IngestOutcome {
    /// The line decoded and the sample was queued for the consumer.
    Delivered(SensorSample),
    /// The line failed to decode: it is dropped and the worker goes on.
    Rejected(DecodeError),
    /// The line decoded but the consumer end is gone: the worker should stop.
    Disconnected(SensorSample),
}

/// One step of the ingestion worker: decode one line and, on success, push
/// the sample onto its side of the channel. A decode failure only drops the
/// line; a push never blocks, and only a vanished consumer stops delivery.
pub fn ingest_line(tx: &flume::Sender<SensorSample>, line: &str) -> (r: IngestOutcome)
    ensures
        spec_decode_line(line@) matches Ok(s) ==> (r == IngestOutcome::Delivered(s)
            || r == IngestOutcome::Disconnected(s)),
        spec_decode_line(line@) matches Err(e) ==> r == IngestOutcome::Rejected(e),
{
    match decode_line(line) {
        Ok(sample) => match send_sample(tx, sample) {
            Ok(()) => IngestOutcome::Delivered(sample),
            Err(back) => IngestOutcome::Disconnected(back),
        },
        Err(e) => IngestOutcome::Rejected(e),
    }
}

} // verus!
