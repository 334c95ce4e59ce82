//! The accel-related traits and actor.

use std::collections::VecDeque;
use std::marker::PhantomData;
use vstd::prelude::*;

verus! {

/// Raw, unprocessed accel data.
#[derive(Clone, Copy, Debug, PartialEq, Eq)]
pub struct RawAccelData(u64);

/// Munged, processed accel data.
///
/// The only way to one is [`ProcessedAccelData::from_raw`]: a processed accel
/// sample always comes from a raw accel sample.
#[derive(Clone, Copy, Debug, PartialEq, Eq)]
pub struct ProcessedAccelData(u64);

impl View for RawAccelData {
    type V = u64;

    /// The payload of the sample.
    closed spec fn view(&self) -> u64 {
        self.0
    }
}

impl View for ProcessedAccelData {
    type V = u64;

    /// The payload of the sample.
    closed spec fn view(&self) -> u64 {
        self.0
    }
}

impl RawAccelData {
    /// The raw sample with the given payload.
    pub closed spec fn spec_new(payload: u64) -> RawAccelData {
        RawAccelData(payload)
    }

    /// A raw sample with the given payload.
    pub fn new(payload: u64) -> (raw: RawAccelData)
        ensures
            raw == Self::spec_new(payload),
            raw@ == payload,
    {
        RawAccelData(payload)
    }

    /// The payload of the sample.
    pub fn payload(&self) -> (payload: u64)
        ensures
            payload == self@,
    {
        self.0
    }
}

impl ProcessedAccelData {
    /// What processing makes of a raw sample. For now the payload passes
    /// through untouched.
    pub closed spec fn spec_from_raw(raw: RawAccelData) -> ProcessedAccelData {
        ProcessedAccelData(raw.0)
    }

    /// Processes one raw sample.
    pub fn from_raw(raw: RawAccelData) -> (processed: ProcessedAccelData)
        ensures
            processed == Self::spec_from_raw(raw),
            processed@ == raw@,
    {
        ProcessedAccelData(raw.0)
    }

    /// The payload of the sample.
    pub fn payload(&self) -> (payload: u64)
        ensures
            payload == self@,
    {
        self.0
    }
}

/// What processing makes of a run of raw samples: each sample processed, in
/// the order given.
pub open spec fn processed_all(raw: Seq<RawAccelData>) -> Seq<ProcessedAccelData> {
    Seq::new(raw.len(), |i: int| ProcessedAccelData::spec_from_raw(raw[i]))
}

/// Processing gives one processed sample for each raw sample, in the same
/// order, and each is what processing makes of that raw sample alone: it
/// carries the payload of the raw sample.
pub proof fn lemma_processed_all(raw: Seq<RawAccelData>)
    ensures
        processed_all(raw).len() == raw.len(),
        forall|i: int|
            0 <= i < raw.len() ==> #[trigger] processed_all(raw)[i]
                == ProcessedAccelData::spec_from_raw(raw[i]),
        forall|i: int| 0 <= i < raw.len() ==> #[trigger] processed_all(raw)[i]@ == raw[i]@,
{
}

/// Anything that can provide raw accel data.
///
/// A source is modelled by the samples it has still to hand out: it hands
/// them out one by one, oldest first, and has run dry when none is left.
pub trait AccelSource {
    /// The raw samples still to come, oldest first.
    spec fn pending(&self) -> Seq<RawAccelData>;

    /// Hands out the oldest pending sample, or `None` once the source has
    /// run dry.
    fn read_accel(&mut self) -> (raw: Option<RawAccelData>)
        ensures
            raw == if old(self).pending().len() > 0 {
                Some(old(self).pending().first())
            } else {
                None
            },
            final(self).pending() == if old(self).pending().len() > 0 {
                old(self).pending().drop_first()
            } else {
                old(self).pending()
            },
    ;
}

/// Anything that can make use of processed accel data.
///
/// A sink is modelled by the samples it holds, in the order in which they
/// were delivered to it.
pub trait AccelSink {
    /// The processed samples that the sink holds, oldest first.
    spec fn delivered(&self) -> Seq<ProcessedAccelData>;

    /// Takes one processed sample.
    fn send_accel(&mut self, data: ProcessedAccelData)
        ensures
            final(self).delivered() == old(self).delivered().push(data),
    ;
}

/// A queue of raw samples is a source that hands them out front first.
impl AccelSource for VecDeque<RawAccelData> {
    open spec fn pending(&self) -> Seq<RawAccelData> {
        self@
    }

    fn read_accel(&mut self) -> (raw: Option<RawAccelData>) {
        self.pop_front()
    }
}

/// A vector of processed samples is a sink that keeps all it is handed.
impl AccelSink for Vec<ProcessedAccelData> {
    open spec fn delivered(&self) -> Seq<ProcessedAccelData> {
        self@
    }

    fn send_accel(&mut self, data: ProcessedAccelData) {
        self.push(data);
    }
}

/// The accel actor: the loop that carries samples from an accel source,
/// through processing, to an accel sink.
pub struct AccelActor<Source, Sink> {
    source: PhantomData<Source>,
    sink: PhantomData<Sink>,
}

impl<Source: AccelSource, Sink: AccelSink> AccelActor<Source, Sink> {
    /// Runs the processing loop until the source has run dry: every pending
    /// sample is processed and delivered, in order, and nothing else is.
    pub fn run(source: &mut Source, sink: &mut Sink)
        ensures
            final(source).pending().len() == 0,
            final(sink).delivered() == old(sink).delivered() + processed_all(
                old(source).pending(),
            ),
    {
        let ghost script = source.pending();
        let ghost before = sink.delivered();
        let ghost mut done: int = 0;
        loop
            invariant
                0 <= done <= script.len(),
                source.pending() == script.skip(done),
                sink.delivered() == before + processed_all(script.take(done)),
            ensures
                source.pending().len() == 0,
                sink.delivered() == before + processed_all(script),
            decreases source.pending().len(),
        {
            let more = Self::process(source, sink);
            if !more {
                break;
            }
            proof {
                done = done + 1;
            }
        }
    }

    /// One turn of the loop: takes the next raw sample, processes it and
    /// delivers it. Returns whether there was a sample to take.
    pub fn process(source: &mut Source, sink: &mut Sink) -> (more: bool)
        ensures
            more == (old(source).pending().len() > 0),
            more ==> final(source).pending() == old(source).pending().drop_first()
                && final(sink).delivered() == old(sink).delivered().push(
                ProcessedAccelData::spec_from_raw(old(source).pending().first()),
            ),
            !more ==> final(source).pending() == old(source).pending() && final(sink).delivered()
                == old(sink).delivered(),
    {
        match source.read_accel() {
            Some(raw) => {
                let processed = ProcessedAccelData::from_raw(raw);
                sink.send_accel(processed);
                true
            },
            None => false,
        }
    }
}

} // verus!
