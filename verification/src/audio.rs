//! Model of the audio playback actor.
//!
//! The OS output device has thread affinity, so one dedicated worker thread
//! owns it exclusively and callers reach it only by sending commands over an
//! ordered queue. This module holds the worker's decision core: what each
//! command does to the playback queue. The device handle, the worker thread
//! and the channel live outside the crate; the worker applies `handle` to
//! each command in arrival order and mirrors the queue onto the device sink.

use vstd::prelude::*;

verus! {

/// Samples are signed sixteen-bit little-endian mono at this rate.
pub const SAMPLE_RATE_HZ: u32 = 16000;

/// The stream is mono.
pub const AUDIO_CHANNELS: u16 = 1;

/// A command sent from a caller's thread to the dedicated audio worker.
pub enum AudioCommand {
    /// Raw PCM bytes to decode and append to the playback queue.
    Play(Vec<u8>),
    /// Discard all queued and playing audio at once (barge-in).
    Halt,
}

/// The signed sample encoded by two bytes, low byte first.
pub open spec fn sample_of_bytes(lo: u8, hi: u8) -> i16 {
    ((hi as int * 256 + lo as int) as u16) as i16
}

/// The sample sequence a byte sequence encodes: consecutive pairs, low byte
/// first; a trailing unpaired byte carries no sample.
pub open spec fn samples_of(bytes: Seq<u8>) -> Seq<i16> {
    Seq::new((bytes.len() / 2) as nat, |i: int| sample_of_bytes(bytes[2 * i], bytes[2 * i + 1]))
}

/// The queue after the worker observes a play command: inputs shorter than
/// one sample are ignored, anything else is appended as one segment.
pub open spec fn queue_after_play(q: Seq<Seq<i16>>, bytes: Seq<u8>) -> Seq<Seq<i16>> {
    if bytes.len() < 2 {
        q
    } else {
        q.push(samples_of(bytes))
    }
}

/// The queue after the worker observes a halt command: nothing survives.
pub open spec fn queue_after_halt(q: Seq<Seq<i16>>) -> Seq<Seq<i16>> {
    Seq::empty()
}

/// Every sample still owed to the device, in the order it will be played.
pub open spec fn pending_samples(q: Seq<Seq<i16>>) -> Seq<i16> {
    q.flatten()
}

/// Decode raw little-endian PCM bytes into signed samples.
pub fn decode_samples(bytes: &Vec<u8>) -> (r: Vec<i16>)
    ensures
        r@ == samples_of(bytes@),
{
    let n: usize = bytes.len();
    let mut out: Vec<i16> = Vec::new();
    let mut k: usize = 0;
    while k < n / 2
        invariant
            k <= n / 2,
            n == bytes@.len(),
            out@.len() == k,
            forall|j: int|
                0 <= j < k ==> out@[j] == sample_of_bytes(bytes@[2 * j], bytes@[2 * j + 1]),
        decreases n / 2 - k,
    {
        let lo = bytes[2 * k];
        let hi = bytes[2 * k + 1];
        let v: u16 = (hi as u16) * 256 + (lo as u16);
        out.push(v as i16);
        k = k + 1;
    }
    assert(out@ =~= samples_of(bytes@));
    out
}

/// The playback queue as the worker thread sees it: one segment per accepted
/// play command, oldest first. The real device sink consumes segments from
/// the front; this model tracks what has been submitted to it since the last
/// halt.
pub struct AudioState {
    queue: Vec<Vec<i16>>,
}

impl View for AudioState {
    type V = Seq<Seq<i16>>;

    closed spec fn view(&self) -> Seq<Seq<i16>> {
        self.queue@.map_values(|seg: Vec<i16>| seg@)
    }
}

impl AudioState {
    /// A fresh actor starts with an empty queue.
    pub fn new() -> (s: Self)
        ensures
            s@ == Seq::<Seq<i16>>::empty(),
    {
        let s = AudioState { queue: Vec::new() };
        proof {
            assert(s@ =~= Seq::<Seq<i16>>::empty());
        }
        s
    }

    /// Apply one command, exactly as the worker does for each message it
    /// receives. A play shorter than one sample changes nothing and raises
    /// no error; a halt empties the queue so later plays start afresh.
    pub fn handle(&mut self, cmd: AudioCommand)
        ensures
            (cmd matches AudioCommand::Play(b) ==> final(self)@ == queue_after_play(
                old(self)@,
                b@,
            )),
            (cmd is Halt ==> final(self)@ == queue_after_halt(old(self)@)),
    {
        match cmd {
            AudioCommand::Play(bytes) => {
                if bytes.len() < 2 {
                    return;
                }
                let samples = decode_samples(&bytes);
                self.queue.push(samples);
                proof {
                    assert(self@ =~= queue_after_play(old(self)@, bytes@));
                }
            },
            AudioCommand::Halt => {
                self.queue.clear();
                proof {
                    assert(self@ =~= Seq::<Seq<i16>>::empty());
                }
            },
        }
    }

    /// The queued segments, oldest first.
    pub fn queued_segments(&self) -> (r: &Vec<Vec<i16>>)
        ensures
            r@.map_values(|seg: Vec<i16>| seg@) == self@,
    {
        &self.queue
    }
}

/// Ordering law: two play commands in a row append their samples in arrival
/// order, so every sample of the first stands before every sample of the
/// second in the pending stream.
pub proof fn lemma_play_ordering(q: Seq<Seq<i16>>, b1: Seq<u8>, b2: Seq<u8>)
    requires
        b1.len() >= 2,
        b2.len() >= 2,
    ensures
        pending_samples(queue_after_play(q, b1)) == pending_samples(q) + samples_of(b1),
        pending_samples(queue_after_play(queue_after_play(q, b1), b2)) == pending_samples(q)
            + samples_of(b1) + samples_of(b2),
{
    q.lemma_flatten_push(samples_of(b1));
    queue_after_play(q, b1).lemma_flatten_push(samples_of(b2));
}

/// Barge-in law: a halt empties the pending stream, and whatever a play
/// observed after the halt contributes is all the audio left, so no sample
/// queued before the halt is ever played after it.
pub proof fn lemma_halt_discards(q: Seq<Seq<i16>>, b: Seq<u8>)
    ensures
        pending_samples(queue_after_halt(q)) == Seq::<i16>::empty(),
        b.len() >= 2 ==> pending_samples(queue_after_play(queue_after_halt(q), b)) == samples_of(
            b,
        ),
        b.len() < 2 ==> pending_samples(queue_after_play(queue_after_halt(q), b)) == Seq::<
            i16,
        >::empty(),
{
    let empty = queue_after_halt(q);
    assert(pending_samples(empty) =~= Seq::<i16>::empty());
    if b.len() >= 2 {
        empty.lemma_flatten_push(samples_of(b));
        assert(Seq::<i16>::empty() + samples_of(b) =~= samples_of(b));
    }
}

} // verus!
