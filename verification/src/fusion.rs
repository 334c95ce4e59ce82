//! The traits and actor related to sensor fusion.

use crate::accel::{AccelSink, ProcessedAccelData};
use crate::gyro::{GyroSink, ProcessedGyroData};
use crate::mag::{MagSink, ProcessedMagData};
use std::collections::VecDeque;
use std::marker::PhantomData;
use vstd::prelude::*;
use vstd::std_specs::convert::FromSpecImpl;

verus! {

/// The input to sensor fusion is all of our various kinds of sensor data.
#[derive(Clone, Copy, Debug, PartialEq, Eq)]
pub enum SensorInput {
    /// Input from the accel sensor.
    Accel(ProcessedAccelData),
    /// Input from the gyro sensor.
    Gyro(ProcessedGyroData),
    /// Input from the mag sensor.
    Mag(ProcessedMagData),
}

impl From<ProcessedAccelData> for SensorInput {
    fn from(data: ProcessedAccelData) -> (input: SensorInput) {
        SensorInput::Accel(data)
    }
}

impl FromSpecImpl<ProcessedAccelData> for SensorInput {
    open spec fn obeys_from_spec() -> bool {
        true
    }

    open spec fn from_spec(data: ProcessedAccelData) -> SensorInput {
        SensorInput::Accel(data)
    }
}

impl From<ProcessedGyroData> for SensorInput {
    fn from(data: ProcessedGyroData) -> (input: SensorInput) {
        SensorInput::Gyro(data)
    }
}

impl FromSpecImpl<ProcessedGyroData> for SensorInput {
    open spec fn obeys_from_spec() -> bool {
        true
    }

    open spec fn from_spec(data: ProcessedGyroData) -> SensorInput {
        SensorInput::Gyro(data)
    }
}

impl From<ProcessedMagData> for SensorInput {
    fn from(data: ProcessedMagData) -> (input: SensorInput) {
        SensorInput::Mag(data)
    }
}

impl FromSpecImpl<ProcessedMagData> for SensorInput {
    open spec fn obeys_from_spec() -> bool {
        true
    }

    open spec fn from_spec(data: ProcessedMagData) -> SensorInput {
        SensorInput::Mag(data)
    }
}

/// Anything that can provide sensor input data.
///
/// A source is modelled by the inputs it has still to hand out, in the order
/// in which it will hand them out. Where three sensors feed one source, that
/// order is the interleaving in which their samples arrived.
pub trait SensorInputSource {
    /// The inputs still to come, oldest first.
    spec fn pending(&self) -> Seq<SensorInput>;

    /// Hands out the oldest pending input, or `None` once the source has run
    /// dry.
    fn read_sensor_input(&mut self) -> (input: Option<SensorInput>)
        ensures
            input == if old(self).pending().len() > 0 {
                Some(old(self).pending().first())
            } else {
                None
            },
            final(self).pending() == if old(self).pending().len() > 0 {
                old(self).pending().drop_first()
            } else {
                old(self).pending()
            },
    ;
}

/// The output of sensor fusion.
///
/// It holds nothing yet. What fusion computes is an open question, and until
/// it is settled [`FusedSensorOutput::join`] passes the output through.
#[derive(Clone, Copy, Debug, PartialEq, Eq)]
pub struct FusedSensorOutput {}

impl Default for FusedSensorOutput {
    /// The fused output before any input.
    fn default() -> (fused: FusedSensorOutput)
        ensures
            fused == FusedSensorOutput::spec_default(),
    {
        FusedSensorOutput {}
    }
}

impl FusedSensorOutput {
    /// The fused output before any input.
    pub open spec fn spec_default() -> FusedSensorOutput {
        FusedSensorOutput {}
    }

    /// What fusing one more input into this output gives: for now, this
    /// output untouched.
    pub open spec fn spec_join(self, more_input: SensorInput) -> FusedSensorOutput {
        self
    }

    /// Fuse more sensor input data into this fused output.
    pub fn join(self, more_input: SensorInput) -> (fused: FusedSensorOutput)
        ensures
            fused == self.spec_join(more_input),
    {
        self
    }
}

/// The fused output after `inputs` have been fused into `start`, one after
/// the other, first to last.
pub open spec fn fused(start: FusedSensorOutput, inputs: Seq<SensorInput>) -> FusedSensorOutput
    decreases inputs.len(),
{
    if inputs.len() == 0 {
        start
    } else {
        fused(start, inputs.drop_last()).spec_join(inputs.last())
    }
}

/// The fused outputs that come up while `inputs` are fused into `start`: one
/// for each input, the `i`-th being the fused output after the first `i + 1`
/// inputs.
pub open spec fn fused_each(start: FusedSensorOutput, inputs: Seq<SensorInput>) -> Seq<
    FusedSensorOutput,
> {
    Seq::new(inputs.len(), |i: int| fused(start, inputs.take(i + 1)))
}

/// Fusing is a fold over the inputs in the order given: there is one fused
/// output for each input, the first is the join of `start` with the first
/// input, and each later one is the join of the one before it with its own
/// input. No input is left out and none is joined twice.
pub proof fn lemma_fused_each(start: FusedSensorOutput, inputs: Seq<SensorInput>)
    ensures
        fused_each(start, inputs).len() == inputs.len(),
        inputs.len() > 0 ==> fused_each(start, inputs)[0] == start.spec_join(inputs[0]),
        forall|i: int|
            0 < i < inputs.len() ==> #[trigger] fused_each(start, inputs)[i] == fused_each(
                start,
                inputs,
            )[i - 1].spec_join(inputs[i]),
        inputs.len() > 0 ==> fused_each(start, inputs).last() == fused(start, inputs),
{
    if inputs.len() > 0 {
        assert(fused(start, inputs.take(1).drop_last()) == start);
        assert(inputs.take(inputs.len() as int) == inputs);
    }
    assert forall|i: int| 0 < i < inputs.len() implies #[trigger] fused_each(start, inputs)[i]
        == fused_each(start, inputs)[i - 1].spec_join(inputs[i]) by {
        assert(inputs.take(i + 1).drop_last() == inputs.take(i));
    }
}

/// Anything that wants to use the fused sensor output.
///
/// A sink is modelled by the fused outputs it holds, in the order in which
/// they were sent to it.
pub trait SensorOutputSink {
    /// The fused outputs that the sink holds, oldest first.
    spec fn received(&self) -> Seq<FusedSensorOutput>;

    /// Send the fused sensor output to the sink.
    fn send_sensor_output(&mut self, output: FusedSensorOutput)
        ensures
            final(self).received() == old(self).received().push(output),
    ;
}

/// A vector of fused outputs is a sink that keeps all it is handed.
impl SensorOutputSink for Vec<FusedSensorOutput> {
    open spec fn received(&self) -> Seq<FusedSensorOutput> {
        self@
    }

    fn send_sensor_output(&mut self, output: FusedSensorOutput) {
        self.push(output);
    }
}

/// The accel samples among `inputs`, in the order in which they stand there.
pub open spec fn accel_inputs(inputs: Seq<SensorInput>) -> Seq<ProcessedAccelData>
    decreases inputs.len(),
{
    if inputs.len() == 0 {
        Seq::empty()
    } else {
        let before = accel_inputs(inputs.drop_last());
        match inputs.last() {
            SensorInput::Accel(data) => before.push(data),
            _ => before,
        }
    }
}

/// The gyro samples among `inputs`, in the order in which they stand there.
pub open spec fn gyro_inputs(inputs: Seq<SensorInput>) -> Seq<ProcessedGyroData>
    decreases inputs.len(),
{
    if inputs.len() == 0 {
        Seq::empty()
    } else {
        let before = gyro_inputs(inputs.drop_last());
        match inputs.last() {
            SensorInput::Gyro(data) => before.push(data),
            _ => before,
        }
    }
}

/// The mag samples among `inputs`, in the order in which they stand there.
pub open spec fn mag_inputs(inputs: Seq<SensorInput>) -> Seq<ProcessedMagData>
    decreases inputs.len(),
{
    if inputs.len() == 0 {
        Seq::empty()
    } else {
        let before = mag_inputs(inputs.drop_last());
        match inputs.last() {
            SensorInput::Mag(data) => before.push(data),
            _ => before,
        }
    }
}

/// A sample that goes to the back of a run of tagged samples lengthens the
/// samples of its own sensor by itself, at their end, and leaves the samples
/// of the other two sensors as they were: each sensor's samples keep the
/// order in which that sensor delivered them, however the three interleave.
pub proof fn lemma_push_keeps_each_sensor_in_order(inputs: Seq<SensorInput>, input: SensorInput)
    ensures
        accel_inputs(inputs.push(input)) == match input {
            SensorInput::Accel(data) => accel_inputs(inputs).push(data),
            _ => accel_inputs(inputs),
        },
        gyro_inputs(inputs.push(input)) == match input {
            SensorInput::Gyro(data) => gyro_inputs(inputs).push(data),
            _ => gyro_inputs(inputs),
        },
        mag_inputs(inputs.push(input)) == match input {
            SensorInput::Mag(data) => mag_inputs(inputs).push(data),
            _ => mag_inputs(inputs),
        },
{
    assert(inputs.push(input).drop_last() == inputs);
}

/// The conduit between the three sensor actors and sensor fusion: a queue of
/// tagged samples.
///
/// It is the sink of all three sensor actors and the source of the fusion
/// actor. Each sample goes in at the back, tagged with its sensor, and the
/// samples come out at the front: in the order in which they went in, whatever
/// sensor they are from.
#[derive(Debug)]
pub struct FanIn {
    queue: VecDeque<SensorInput>,
}

impl View for FanIn {
    type V = Seq<SensorInput>;

    /// The inputs in the queue, oldest first.
    closed spec fn view(&self) -> Seq<SensorInput> {
        self.queue@
    }
}

impl FanIn {
    /// An empty conduit.
    pub fn new() -> (fan_in: FanIn)
        ensures
            fan_in@ == Seq::<SensorInput>::empty(),
    {
        FanIn { queue: VecDeque::new() }
    }

    /// Takes one tagged sample, at the back of the queue.
    pub fn push(&mut self, input: SensorInput)
        ensures
            final(self)@ == old(self)@.push(input),
    {
        self.queue.push_back(input);
    }

    /// The number of inputs in the queue.
    pub fn len(&self) -> (len: usize)
        ensures
            len == self@.len(),
    {
        self.queue.len()
    }
}

/// As an accel sink the conduit holds the accel samples in its queue; one
/// more goes to the back of the queue, tagged as accel.
impl AccelSink for FanIn {
    open spec fn delivered(&self) -> Seq<ProcessedAccelData> {
        accel_inputs(self@)
    }

    fn send_accel(&mut self, data: ProcessedAccelData)
        ensures
            final(self)@ == old(self)@.push(SensorInput::Accel(data)),
    {
        self.queue.push_back(SensorInput::from(data));
        proof {
            lemma_push_keeps_each_sensor_in_order(old(self)@, SensorInput::Accel(data));
        }
    }
}

/// As a gyro sink the conduit holds the gyro samples in its queue; one more
/// goes to the back of the queue, tagged as gyro.
impl GyroSink for FanIn {
    open spec fn delivered(&self) -> Seq<ProcessedGyroData> {
        gyro_inputs(self@)
    }

    fn send_gyro(&mut self, data: ProcessedGyroData)
        ensures
            final(self)@ == old(self)@.push(SensorInput::Gyro(data)),
    {
        self.queue.push_back(SensorInput::from(data));
        proof {
            lemma_push_keeps_each_sensor_in_order(old(self)@, SensorInput::Gyro(data));
        }
    }
}

/// As a mag sink the conduit holds the mag samples in its queue; one more
/// goes to the back of the queue, tagged as mag.
impl MagSink for FanIn {
    open spec fn delivered(&self) -> Seq<ProcessedMagData> {
        mag_inputs(self@)
    }

    fn send_mag(&mut self, data: ProcessedMagData)
        ensures
            final(self)@ == old(self)@.push(SensorInput::Mag(data)),
    {
        self.queue.push_back(SensorInput::from(data));
        proof {
            lemma_push_keeps_each_sensor_in_order(old(self)@, SensorInput::Mag(data));
        }
    }
}

/// As a source the conduit hands out its queue, front first.
impl SensorInputSource for FanIn {
    open spec fn pending(&self) -> Seq<SensorInput> {
        self@
    }

    fn read_sensor_input(&mut self) -> (input: Option<SensorInput>) {
        self.queue.pop_front()
    }
}

/// The sensor fusion actor: the loop that takes tagged samples from a
/// source, fuses each into its running output, and hands every new output to
/// a sink.
pub struct SensorFusionActor<Source, Sink> {
    source: PhantomData<Source>,
    sink: PhantomData<Sink>,
}

impl<Source: SensorInputSource, Sink: SensorOutputSink> SensorFusionActor<Source, Sink> {
    /// Runs the fusion loop until the source has run dry, and returns the
    /// fused output it has arrived at.
    ///
    /// It starts from the default output and fuses each pending input into
    /// it, in the order in which the source hands them out. The sink gets one
    /// fused output for each input: the output after that input.
    pub fn run(source: &mut Source, sink: &mut Sink) -> (fused_output: FusedSensorOutput)
        ensures
            final(source).pending().len() == 0,
            fused_output == fused(FusedSensorOutput::spec_default(), old(source).pending()),
            final(sink).received() == old(sink).received() + fused_each(
                FusedSensorOutput::spec_default(),
                old(source).pending(),
            ),
    {
        let mut data = FusedSensorOutput::default();
        let ghost start = data;
        let ghost script = source.pending();
        let ghost before = sink.received();
        let ghost mut done: int = 0;
        loop
            invariant
                start == FusedSensorOutput::spec_default(),
                0 <= done <= script.len(),
                source.pending() == script.skip(done),
                data == fused(start, script.take(done)),
                sink.received() == before + fused_each(start, script.take(done)),
            ensures
                source.pending().len() == 0,
                data == fused(start, script),
                sink.received() == before + fused_each(start, script),
            decreases source.pending().len(),
        {
            match Self::process(data, source, sink) {
                Some(next) => {
                    proof {
                        let seen = script.take(done);
                        let grown = script.take(done + 1);
                        assert(grown.drop_last() == seen);
                        assert forall|i: int| 0 <= i < done implies #[trigger] fused_each(
                            start,
                            grown,
                        )[i] == fused_each(start, seen)[i] by {
                            assert(grown.take(i + 1) == seen.take(i + 1));
                        }
                        assert(grown.take(done + 1) == grown);
                        done = done + 1;
                    }
                    data = next;
                },
                None => {
                    assert(script.take(done) == script);
                    break ;
                },
            }
        }
        data
    }

    /// One turn of the loop: takes the next input, fuses it into `data` and
    /// hands the new output to the sink. Returns the new output, or `None`
    /// if there was no input to take.
    pub fn process(data: FusedSensorOutput, source: &mut Source, sink: &mut Sink) -> (fused_output:
        Option<FusedSensorOutput>)
        ensures
            fused_output == if old(source).pending().len() > 0 {
                Some(data.spec_join(old(source).pending().first()))
            } else {
                None
            },
            final(source).pending() == if old(source).pending().len() > 0 {
                old(source).pending().drop_first()
            } else {
                old(source).pending()
            },
            final(sink).received() == if old(source).pending().len() > 0 {
                old(sink).received().push(data.spec_join(old(source).pending().first()))
            } else {
                old(sink).received()
            },
    {
        match source.read_sensor_input() {
            Some(input) => {
                let fused_output = data.join(input);
                sink.send_sensor_output(fused_output);
                Some(fused_output)
            },
            None => None,
        }
    }
}

} // verus!
