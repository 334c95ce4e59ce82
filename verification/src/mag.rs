//! The mag-related traits and actor.

use std::collections::VecDeque;
use std::marker::PhantomData;
use vstd::prelude::*;

verus! {

/// Raw, unprocessed mag data.
#[derive(Clone, Copy, Debug, PartialEq, Eq)]
pub struct RawMagData(u64);

/// Munged, processed mag data.
///
/// The only way to one is [`ProcessedMagData::from_raw`]: a processed mag
/// sample always comes from a raw mag sample.
#[derive(Clone, Copy, Debug, PartialEq, Eq)]
pub struct ProcessedMagData(u64);

impl View for RawMagData {
    type V = u64;

    /// The payload of the sample.
    closed spec fn view(&self) -> u64 {
        self.0
    }
}

impl View for ProcessedMagData {
    type V = u64;

    /// The payload of the sample.
    closed spec fn view(&self) -> u64 {
        self.0
    }
}

impl RawMagData {
    /// The raw sample with the given payload.
    pub closed spec fn spec_new(payload: u64) -> RawMagData {
        RawMagData(payload)
    }

    /// A raw sample with the given payload.
    pub fn new(payload: u64) -> (raw: RawMagData)
        ensures
            raw == Self::spec_new(payload),
            raw@ == payload,
    {
        RawMagData(payload)
    }

    /// The payload of the sample.
    pub fn payload(&self) -> (payload: u64)
        ensures
            payload == self@,
    {
        self.0
    }
}

impl ProcessedMagData {
    /// What processing makes of a raw sample. For now the payload passes
    /// through untouched.
    pub closed spec fn spec_from_raw(raw: RawMagData) -> ProcessedMagData {
        ProcessedMagData(raw.0)
    }

    /// Processes one raw sample.
    pub fn from_raw(raw: RawMagData) -> (processed: ProcessedMagData)
        ensures
            processed == Self::spec_from_raw(raw),
            processed@ == raw@,
    {
        ProcessedMagData(raw.0)
    }

    /// The payload of the sample.
    pub fn payload(&self) -> (payload: u64)
        ensures
            payload == self@,
    {
        self.0
    }
}

/// What processing makes of a run of raw samples: each sample processed, in
/// the order given.
pub open spec fn processed_all(raw: Seq<RawMagData>) -> Seq<ProcessedMagData> {
    Seq::new(raw.len(), |i: int| ProcessedMagData::spec_from_raw(raw[i]))
}

/// Processing gives one processed sample for each raw sample, in the same
/// order, and each is what processing makes of that raw sample alone: it
/// carries the payload of the raw sample.
pub proof fn lemma_processed_all(raw: Seq<RawMagData>)
    ensures
        processed_all(raw).len() == raw.len(),
        forall|i: int|
            0 <= i < raw.len() ==> #[trigger] processed_all(raw)[i]
                == ProcessedMagData::spec_from_raw(raw[i]),
        forall|i: int| 0 <= i < raw.len() ==> #[trigger] processed_all(raw)[i]@ == raw[i]@,
{
}

/// Anything that can provide raw mag data.
///
/// A source is modelled by the samples it has still to hand out: it hands
/// them out one by one, oldest first, and has run dry when none is left.
pub trait MagSource {
    /// The raw samples still to come, oldest first.
    spec fn pending(&self) -> Seq<RawMagData>;

    /// Hands out the oldest pending sample, or `None` once the source has
    /// run dry.
    fn read_mag(&mut self) -> (raw: Option<RawMagData>)
        ensures
            raw == if old(self).pending().len() > 0 {
                Some(old(self).pending().first())
            } else {
                None
            },
            final(self).pending() == if old(self).pending().len() > 0 {
                old(self).pending().drop_first()
            } else {
                old(self).pending()
            },
    ;
}

/// Anything that can make use of processed mag data.
///
/// A sink is modelled by the samples it holds, in the order in which they
/// were delivered to it.
pub trait MagSink {
    /// The processed samples that the sink holds, oldest first.
    spec fn delivered(&self) -> Seq<ProcessedMagData>;

    /// Takes one processed sample.
    fn send_mag(&mut self, data: ProcessedMagData)
        ensures
            final(self).delivered() == old(self).delivered().push(data),
    ;
}

/// A queue of raw samples is a source that hands them out front first.
impl MagSource for VecDeque<RawMagData> {
    open spec fn pending(&self) -> Seq<RawMagData> {
        self@
    }

    fn read_mag(&mut self) -> (raw: Option<RawMagData>) {
        self.pop_front()
    }
}

/// A vector of processed samples is a sink that keeps all it is handed.
impl MagSink for Vec<ProcessedMagData> {
    open spec fn delivered(&self) -> Seq<ProcessedMagData> {
        self@
    }

    fn send_mag(&mut self, data: ProcessedMagData) {
        self.push(data);
    }
}

/// The mag actor: the loop that carries samples from an mag source,
/// through processing, to an mag sink.
pub struct MagActor<Source, Sink> {
    source: PhantomData<Source>,
    sink: PhantomData<Sink>,
}

impl<Source: MagSource, Sink: MagSink> MagActor<Source, Sink> {
    /// Runs the processing loop until the source has run dry: every pending
    /// sample is processed and delivered, in order, and nothing else is.
    pub fn run(source: &mut Source, sink: &mut Sink)
        ensures
            final(source).pending().len() == 0,
            final(sink).delivered() == old(sink).delivered() + processed_all(
                old(source).pending(),
            ),
    {
        let ghost script = source.pending();
        let ghost before = sink.delivered();
        let ghost mut done: int = 0;
        loop
            invariant
                0 <= done <= script.len(),
                source.pending() == script.skip(done),
                sink.delivered() == before + processed_all(script.take(done)),
            ensures
                source.pending().len() == 0,
                sink.delivered() == before + processed_all(script),
            decreases source.pending().len(),
        {
            let more = Self::process(source, sink);
            if !more {
                break;
            }
            proof {
                done = done + 1;
            }
        }
    }

    /// One turn of the loop: takes the next raw sample, processes it and
    /// delivers it. Returns whether there was a sample to take.
    pub fn process(source: &mut Source, sink: &mut Sink) -> (more: bool)
        ensures
            more == (old(source).pending().len() > 0),
            more ==> final(source).pending() == old(source).pending().drop_first()
                && final(sink).delivered() == old(sink).delivered().push(
                ProcessedMagData::spec_from_raw(old(source).pending().first()),
            ),
            !more ==> final(source).pending() == old(source).pending() && final(sink).delivered()
                == old(sink).delivered(),
    {
        match source.read_mag() {
            Some(raw) => {
                let processed = ProcessedMagData::from_raw(raw);
                sink.send_mag(processed);
                true
            },
            None => false,
        }
    }
}

} // verus!
