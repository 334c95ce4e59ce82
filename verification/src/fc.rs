//! The flight controller.

use crate::io::{
    read_reg, spec_read_reg, transcript, BlockRead, BlockReadView, BusError, BusOp, BusOpView,
    BusReply, BusReplyView, Step, StepView, Transcript,
};
use byteorder::{BigEndian, ByteOrder};
use vstd::prelude::*;
use vstd::slice::slice_subrange;

verus! {

/// The register that holds the identity of the device.
pub const WHO_AM_I: u8 = 0x75;

/// The identity that a unit of the MPU family reports.
pub const MPU_IDENTITY: u8 = 0x68;

/// The first power management register.
pub const PWR_MGMT_1: u8 = 0x6b;

/// For [`PWR_MGMT_1`]: out of sleep, clocked by the internal oscillator.
pub const WAKE_UP: u8 = 0x00;

/// The sample rate divider register, the first of the four configuration
/// registers.
pub const SMPLRT_DIV: u8 = 0x19;

/// For [`SMPLRT_DIV`]: the 1 kHz sample rate divided by 200.
pub const SAMPLE_RATE_DIVIDER: u8 = 199;

/// For the configuration register: no FSYNC, low-pass filter at 5 Hz.
pub const LOW_PASS_5HZ: u8 = 0x06;

/// For the gyroscope configuration register: full scale at +/- 250
/// degrees/second. [`GYRO_COUNTS_PER_DPS`] goes with this range.
pub const GYRO_FULL_SCALE_250DPS: u8 = 0x00;

/// For the accelerometer configuration register: full scale at +/- 2 g.
/// [`ACCEL_COUNTS_PER_G`] goes with this range.
pub const ACCEL_FULL_SCALE_2G: u8 = 0x00;

/// The first of the measurement registers.
pub const MEASUREMENTS: u8 = 0x3b;

/// The number of measurement registers: three axes of acceleration, the
/// temperature and three axes of rotation, two bytes each.
pub const MEASUREMENTS_LEN: usize = 14;

/// Counts per g of the accelerometer at [`ACCEL_FULL_SCALE_2G`].
pub const ACCEL_COUNTS_PER_G: u16 = 16384;

/// Counts per degree/second of the gyroscope at [`GYRO_FULL_SCALE_250DPS`].
pub const GYRO_COUNTS_PER_DPS: u16 = 131;

/// Counts per degree Celsius of the temperature sensor.
pub const TEMP_COUNTS_PER_DEGREE: u16 = 340;

/// The temperature, in degrees Celsius, at a count of zero.
pub const TEMP_OFFSET_DEGREES: i16 = 35;

/// One measurement in real units, held exactly: it stands for
/// `raw / per_unit + offset`.
#[derive(Clone, Copy, Debug, PartialEq, Eq)]
pub struct Measurement {
    /// The count that the device reported.
    pub raw: i16,
    /// The number of counts that make one unit.
    pub per_unit: u16,
    /// The value, in units, at a count of zero.
    pub offset: i16,
}

/// Structure to hold measurements in real units.
#[derive(Clone, Copy, Debug, PartialEq, Eq)]
pub struct MPUSample {
    /// Acceleration X/Y/Z in g's
    pub accel: [Measurement; 3],
    /// Temperature in degrees Celsius
    pub temp: Measurement,
    /// Rotational velocity X/Y/Z in degrees/second
    pub gyro: [Measurement; 3],
}

/// The signed 16-bit integer that `high` and `low` spell in big-endian
/// order, `high` first.
pub open spec fn spec_be_i16(high: u8, low: u8) -> i16 {
    let unsigned = high as int * 256 + low as int;
    if unsigned < 32768 {
        unsigned as i16
    } else {
        (unsigned - 65536) as i16
    }
}

/// The `index`-th big-endian 16-bit word of `bytes`.
pub open spec fn spec_word(bytes: Seq<u8>, index: int) -> i16 {
    spec_be_i16(bytes[2 * index], bytes[2 * index + 1])
}

/// `byteorder::BigEndian::read_i16`, of the trait `ByteOrder`: the first two
/// bytes of `buf` read as a signed 16-bit integer in big-endian order. It
/// panics on fewer than two bytes, which `requires` leaves out.
#[verifier::external_body]
fn read_be_i16(buf: &[u8]) -> (value: i16)
    requires
        buf@.len() >= 2,
    ensures
        value == spec_be_i16(buf@[0], buf@[1]),
{
    BigEndian::read_i16(buf)
}

impl Measurement {
    /// An acceleration along one axis, in g's.
    pub open spec fn spec_accel(raw: i16) -> Measurement {
        Measurement { raw, per_unit: ACCEL_COUNTS_PER_G, offset: 0 }
    }

    /// A temperature, in degrees Celsius.
    pub open spec fn spec_temp(raw: i16) -> Measurement {
        Measurement { raw, per_unit: TEMP_COUNTS_PER_DEGREE, offset: TEMP_OFFSET_DEGREES }
    }

    /// A rotational velocity about one axis, in degrees/second.
    pub open spec fn spec_gyro(raw: i16) -> Measurement {
        Measurement { raw, per_unit: GYRO_COUNTS_PER_DPS, offset: 0 }
    }

    /// An acceleration along one axis, in g's, from the count of the
    /// accelerometer.
    pub fn accel(raw: i16) -> (measurement: Measurement)
        ensures
            measurement == Self::spec_accel(raw),
    {
        Measurement { raw, per_unit: ACCEL_COUNTS_PER_G, offset: 0 }
    }

    /// A temperature, in degrees Celsius, from the count of the temperature
    /// sensor.
    pub fn temp(raw: i16) -> (measurement: Measurement)
        ensures
            measurement == Self::spec_temp(raw),
    {
        Measurement { raw, per_unit: TEMP_COUNTS_PER_DEGREE, offset: TEMP_OFFSET_DEGREES }
    }

    /// A rotational velocity about one axis, in degrees/second, from the
    /// count of the gyroscope.
    pub fn gyro(raw: i16) -> (measurement: Measurement)
        ensures
            measurement == Self::spec_gyro(raw),
    {
        Measurement { raw, per_unit: GYRO_COUNTS_PER_DPS, offset: 0 }
    }
}

impl MPUSample {
    /// The sample that one block of the measurement registers holds: seven
    /// big-endian words, acceleration first, then the temperature, then
    /// rotation.
    pub open spec fn spec_decode(bytes: Seq<u8>) -> MPUSample {
        MPUSample {
            accel: [
                Measurement::spec_accel(spec_word(bytes, 0)),
                Measurement::spec_accel(spec_word(bytes, 1)),
                Measurement::spec_accel(spec_word(bytes, 2)),
            ],
            temp: Measurement::spec_temp(spec_word(bytes, 3)),
            gyro: [
                Measurement::spec_gyro(spec_word(bytes, 4)),
                Measurement::spec_gyro(spec_word(bytes, 5)),
                Measurement::spec_gyro(spec_word(bytes, 6)),
            ],
        }
    }

    /// Decodes one block of the measurement registers. There is a sample in
    /// it exactly when the block has the length of the measurement registers.
    pub fn decode(bytes: &[u8]) -> (sample: Option<MPUSample>)
        ensures
            sample == if bytes@.len() == MEASUREMENTS_LEN {
                Some(Self::spec_decode(bytes@))
            } else {
                None
            },
    {
        if bytes.len() != MEASUREMENTS_LEN {
            return None;
        }
        let accel_x = read_be_i16(slice_subrange(bytes, 0, 2));
        let accel_y = read_be_i16(slice_subrange(bytes, 2, 4));
        let accel_z = read_be_i16(slice_subrange(bytes, 4, 6));
        let temp = read_be_i16(slice_subrange(bytes, 6, 8));
        let gyro_x = read_be_i16(slice_subrange(bytes, 8, 10));
        let gyro_y = read_be_i16(slice_subrange(bytes, 10, 12));
        let gyro_z = read_be_i16(slice_subrange(bytes, 12, 14));
        let sample = MPUSample {
            accel: [
                Measurement::accel(accel_x),
                Measurement::accel(accel_y),
                Measurement::accel(accel_z),
            ],
            temp: Measurement::temp(temp),
            gyro: [
                Measurement::gyro(gyro_x),
                Measurement::gyro(gyro_y),
                Measurement::gyro(gyro_z),
            ],
        };
        Some(sample)
    }
}

/// Why setting up the unit came to nothing.
#[derive(Debug, PartialEq, Eq)]
pub enum InitError<E> {
    /// The transport failed; its error is handed on untouched.
    Transport(E),
    /// The identity register does not hold [`MPU_IDENTITY`]: this is no unit
    /// of the MPU family, or it is not at this address.
    IdentityMismatch,
    /// The reply does not answer the operation that was asked for.
    OutOfStep,
}

/// The write that wakes the device up.
pub open spec fn spec_wake_up() -> Seq<u8> {
    seq![PWR_MGMT_1, WAKE_UP]
}

/// The write that configures the device: sample rate divider, low-pass
/// filter, gyroscope range and accelerometer range, in one bus write.
pub open spec fn spec_configuration() -> Seq<u8> {
    seq![
        SMPLRT_DIV,
        SAMPLE_RATE_DIVIDER,
        LOW_PASS_5HZ,
        GYRO_FULL_SCALE_250DPS,
        ACCEL_FULL_SCALE_2G,
    ]
}

/// What the handshake is waiting for.
#[derive(Debug)]
enum HandshakePhase {
    Identifying(BlockRead),
    Waking,
    Configuring,
}

/// The setting up of a unit, in progress: the identity check, then the
/// wake-up write, then the configuration write.
#[derive(Debug)]
pub struct Handshake {
    phase: HandshakePhase,
}

/// A [`Handshake`] as a plain value: what it is waiting for.
pub enum HandshakeView {
    /// The block read of the identity register is under way.
    Identifying(BlockReadView),
    /// The wake-up write is on the bus.
    Waking,
    /// The configuration write is on the bus.
    Configuring,
}

impl View for Handshake {
    type V = HandshakeView;

    closed spec fn view(&self) -> HandshakeView {
        match self.phase {
            HandshakePhase::Identifying(read) => HandshakeView::Identifying(read@),
            HandshakePhase::Waking => HandshakeView::Waking,
            HandshakePhase::Configuring => HandshakeView::Configuring,
        }
    }
}

/// The flight controller.
///
/// Samples the sensors. There is one only for a unit that has been through
/// the handshake: identified, woken up and configured.
#[derive(Debug)]
pub struct FlightController {
    configured: (),
}

impl View for FlightController {
    type V = ();

    open spec fn view(&self) -> () {
        ()
    }
}

/// The reading of one sample, in progress: the block read of the measurement
/// registers.
#[derive(Debug)]
pub struct SampleRead {
    read: BlockRead,
}

/// A [`SampleRead`] as a plain value.
pub struct SampleReadView {
    /// The block read of the measurement registers.
    pub read: BlockReadView,
}

impl View for SampleRead {
    type V = SampleReadView;

    closed spec fn view(&self) -> SampleReadView {
        SampleReadView { read: self.read@ }
    }
}

impl View for MPUSample {
    type V = MPUSample;

    open spec fn view(&self) -> MPUSample {
        *self
    }
}

impl HandshakeView {
    /// How the handshake goes on after a reply.
    ///
    /// The identity comes first. Only a device that reports [`MPU_IDENTITY`]
    /// is written to: it is woken up, then configured. A failure of the
    /// transport ends the handshake where it stands.
    pub open spec fn advance<E>(self, reply: BusReplyView<E>) -> StepView<
        HandshakeView,
        (),
        InitError<E>,
    > {
        match self {
            HandshakeView::Identifying(read) => match read.advance(reply) {
                StepView::Issue(next, op) => StepView::Issue(HandshakeView::Identifying(next), op),
                StepView::Done(Ok(bytes)) => if bytes.len() != 1 {
                    StepView::Done(Err(InitError::OutOfStep))
                } else if bytes[0] == MPU_IDENTITY {
                    StepView::Issue(HandshakeView::Waking, BusOpView::Write(spec_wake_up()))
                } else {
                    StepView::Done(Err(InitError::IdentityMismatch))
                },
                StepView::Done(Err(BusError::Transport(error))) => StepView::Done(
                    Err(InitError::Transport(error)),
                ),
                StepView::Done(Err(BusError::OutOfStep)) => StepView::Done(
                    Err(InitError::OutOfStep),
                ),
            },
            HandshakeView::Waking => match reply {
                BusReplyView::Written => StepView::Issue(
                    HandshakeView::Configuring,
                    BusOpView::Write(spec_configuration()),
                ),
                BusReplyView::Failed(error) => StepView::Done(Err(InitError::Transport(error))),
                BusReplyView::Data(_) => StepView::Done(Err(InitError::OutOfStep)),
            },
            HandshakeView::Configuring => match reply {
                BusReplyView::Written => StepView::Done(Ok(())),
                BusReplyView::Failed(error) => StepView::Done(Err(InitError::Transport(error))),
                BusReplyView::Data(_) => StepView::Done(Err(InitError::OutOfStep)),
            },
        }
    }
}

impl SampleReadView {
    /// How the reading of a sample goes on after a reply: as the block read
    /// does, and the block that comes out of it is decoded.
    pub open spec fn advance<E>(self, reply: BusReplyView<E>) -> StepView<
        SampleReadView,
        MPUSample,
        BusError<E>,
    > {
        match self.read.advance(reply) {
            StepView::Issue(next, op) => StepView::Issue(SampleReadView { read: next }, op),
            StepView::Done(Ok(bytes)) => if bytes.len() == MEASUREMENTS_LEN {
                StepView::Done(Ok(MPUSample::spec_decode(bytes)))
            } else {
                StepView::Done(Err(BusError::OutOfStep))
            },
            StepView::Done(Err(error)) => StepView::Done(Err(error)),
        }
    }
}

/// How setting up a unit begins: with the block read of the identity
/// register.
pub open spec fn spec_new() -> (HandshakeView, BusOpView) {
    (
        HandshakeView::Identifying(spec_read_reg(WHO_AM_I, 1).0),
        spec_read_reg(WHO_AM_I, 1).1,
    )
}

/// How reading a sample begins: with the block read of the measurement
/// registers.
pub open spec fn spec_read_sample() -> (SampleReadView, BusOpView) {
    (
        SampleReadView { read: spec_read_reg(MEASUREMENTS, MEASUREMENTS_LEN).0 },
        spec_read_reg(MEASUREMENTS, MEASUREMENTS_LEN).1,
    )
}

impl FlightController {
    /// Set up an MPU-9150's configuration registers: begins the handshake,
    /// and names its first bus operation.
    pub fn new() -> (start: (Handshake, BusOp))
        ensures
            (start.0@, start.1@) == spec_new(),
    {
        let (read, op) = read_reg(WHO_AM_I, 1);
        (Handshake { phase: HandshakePhase::Identifying(read) }, op)
    }

    /// Read an `MPUSample` from the device: begins the block read of the
    /// measurement registers, and names its first bus operation.
    pub fn read_sample(&self) -> (start: (SampleRead, BusOp))
        ensures
            (start.0@, start.1@) == spec_read_sample(),
    {
        let (read, op) = read_reg(MEASUREMENTS, MEASUREMENTS_LEN);
        (SampleRead { read }, op)
    }
}

impl Handshake {
    /// Takes the reply to the operation that is on the bus, and says how the
    /// handshake goes on. It ends in a flight controller when the device has
    /// been identified, woken up and configured.
    pub fn advance<E>(self, reply: BusReply<E>) -> (step: Step<
        Handshake,
        FlightController,
        InitError<E>,
    >)
        ensures
            step@ == self@.advance(reply@),
    {
        match self.phase {
            HandshakePhase::Identifying(read) => match read.advance(reply) {
                Step::Issue(next, op) => Step::Issue(
                    Handshake { phase: HandshakePhase::Identifying(next) },
                    op,
                ),
                Step::Done(Ok(bytes)) => if bytes.len() != 1 {
                    Step::Done(Err(InitError::OutOfStep))
                } else if bytes[0] == MPU_IDENTITY {
                    let wake_up: Vec<u8> = vec![PWR_MGMT_1, WAKE_UP];
                    Step::Issue(Handshake { phase: HandshakePhase::Waking }, BusOp::Write(wake_up))
                } else {
                    Step::Done(Err(InitError::IdentityMismatch))
                },
                Step::Done(Err(BusError::Transport(error))) => Step::Done(
                    Err(InitError::Transport(error)),
                ),
                Step::Done(Err(BusError::OutOfStep)) => Step::Done(Err(InitError::OutOfStep)),
            },
            HandshakePhase::Waking => match reply {
                BusReply::Written => {
                    let configuration: Vec<u8> = vec![
                        SMPLRT_DIV,
                        SAMPLE_RATE_DIVIDER,
                        LOW_PASS_5HZ,
                        GYRO_FULL_SCALE_250DPS,
                        ACCEL_FULL_SCALE_2G,
                    ];
                    Step::Issue(
                        Handshake { phase: HandshakePhase::Configuring },
                        BusOp::Write(configuration),
                    )
                },
                BusReply::Failed(error) => Step::Done(Err(InitError::Transport(error))),
                BusReply::Data(_) => Step::Done(Err(InitError::OutOfStep)),
            },
            HandshakePhase::Configuring => match reply {
                BusReply::Written => Step::Done(Ok(FlightController { configured: () })),
                BusReply::Failed(error) => Step::Done(Err(InitError::Transport(error))),
                BusReply::Data(_) => Step::Done(Err(InitError::OutOfStep)),
            },
        }
    }
}

impl SampleRead {
    /// Takes the reply to the operation that is on the bus, and says how the
    /// reading goes on. It ends in the sample that the block holds.
    pub fn advance<E>(self, reply: BusReply<E>) -> (step: Step<SampleRead, MPUSample, BusError<E>>)
        ensures
            step@ == self@.advance(reply@),
    {
        match self.read.advance(reply) {
            Step::Issue(next, op) => Step::Issue(SampleRead { read: next }, op),
            Step::Done(Ok(bytes)) => match MPUSample::decode(bytes.as_slice()) {
                Some(sample) => Step::Done(Ok(sample)),
                None => Step::Done(Err(BusError::OutOfStep)),
            },
            Step::Done(Err(error)) => Step::Done(Err(error)),
        }
    }
}

/// The transcript of setting up a unit, on a bus that answers with `replies`
/// in turn.
pub open spec fn handshake_transcript<E>(replies: Seq<BusReplyView<E>>) -> Transcript<
    (),
    InitError<E>,
> {
    transcript(
        |machine: HandshakeView, reply: BusReplyView<E>| machine.advance(reply),
        spec_new().0,
        spec_new().1,
        replies,
    )
}

/// The transcript of reading one sample, on a bus that answers with
/// `replies` in turn.
pub open spec fn sample_transcript<E>(replies: Seq<BusReplyView<E>>) -> Transcript<
    MPUSample,
    BusError<E>,
> {
    transcript(
        |machine: SampleReadView, reply: BusReplyView<E>| machine.advance(reply),
        spec_read_sample().0,
        spec_read_sample().1,
        replies,
    )
}

/// The bus operations of a handshake that goes through: the block read of
/// the identity register, the wake-up write, the configuration write.
pub open spec fn handshake_ops() -> Seq<BusOpView> {
    seq![
        BusOpView::Write(seq![WHO_AM_I]),
        BusOpView::Read(1),
        BusOpView::Write(spec_wake_up()),
        BusOpView::Write(spec_configuration()),
    ]
}

/// The replies of a bus on which a handshake goes through, up to the
/// `count`-th: the writes go through, and the identity register holds
/// [`MPU_IDENTITY`].
pub open spec fn handshake_goes_well<E>(replies: Seq<BusReplyView<E>>, count: int) -> bool {
    &&& count <= replies.len()
    &&& 0 < count ==> replies[0] == BusReplyView::<E>::Written
    &&& 1 < count ==> replies[1] == BusReplyView::<E>::Data(seq![MPU_IDENTITY])
    &&& 2 < count ==> replies[2] == BusReplyView::<E>::Written
    &&& 3 < count ==> replies[3] == BusReplyView::<E>::Written
}

/// Setting up fails with `IdentityMismatch` when the identity register does
/// not hold [`MPU_IDENTITY`], and then neither the wake-up write nor the
/// configuration write is issued: the block read of the identity register is
/// all that reaches the bus.
pub proof fn lemma_wrong_identity_ends_handshake<E>(identity: u8, replies: Seq<BusReplyView<E>>)
    requires
        identity != MPU_IDENTITY,
        replies.len() >= 2,
        replies[0] == BusReplyView::<E>::Written,
        replies[1] == BusReplyView::<E>::Data(seq![identity]),
    ensures
        handshake_transcript(replies) == (Transcript::<(), InitError<E>> {
            ops: seq![BusOpView::Write(seq![WHO_AM_I]), BusOpView::Read(1)],
            outcome: Some(Err(InitError::IdentityMismatch)),
        }),
{
    reveal_with_fuel(transcript, 3);
    assert(seq![BusOpView::Write(seq![WHO_AM_I])] + seq![BusOpView::Read(1)] == seq![
        BusOpView::Write(seq![WHO_AM_I]),
        BusOpView::Read(1),
    ]);
}

/// On a device that reports [`MPU_IDENTITY`] and takes every write, setting
/// up issues the block read of the identity register, then the wake-up write,
/// then the configuration write, each once, and ends in a flight controller.
pub proof fn lemma_handshake_sets_up<E>(replies: Seq<BusReplyView<E>>)
    requires
        handshake_goes_well(replies, 4),
    ensures
        handshake_transcript(replies) == (Transcript::<(), InitError<E>> {
            ops: handshake_ops(),
            outcome: Some(Ok(())),
        }),
{
    reveal_with_fuel(transcript, 5);
    assert(seq![BusOpView::Write(seq![WHO_AM_I])] + (seq![BusOpView::Read(1)] + (seq![
        BusOpView::Write(spec_wake_up()),
    ] + seq![BusOpView::Write(spec_configuration())])) == handshake_ops());
}

/// Any failure of the transport ends the handshake: what had gone well
/// before it stays issued, nothing is issued after it, and the result is the
/// error of the transport.
pub proof fn lemma_transport_failure_ends_handshake<E>(
    failed: int,
    error: E,
    replies: Seq<BusReplyView<E>>,
)
    requires
        0 <= failed < 4,
        failed < replies.len(),
        handshake_goes_well(replies, failed),
        replies[failed] == BusReplyView::Failed(error),
    ensures
        handshake_transcript(replies) == (Transcript::<(), InitError<E>> {
            ops: handshake_ops().take(failed + 1),
            outcome: Some(Err(InitError::Transport(error))),
        }),
{
    reveal_with_fuel(transcript, 5);
    let o0 = seq![BusOpView::Write(seq![WHO_AM_I])];
    let o1 = seq![BusOpView::Read(1)];
    let o2 = seq![BusOpView::Write(spec_wake_up())];
    let o3 = seq![BusOpView::Write(spec_configuration())];
    if failed == 0 {
        assert(handshake_ops().take(1) == o0);
    } else if failed == 1 {
        assert(handshake_ops().take(2) == o0 + o1);
    } else if failed == 2 {
        assert(handshake_ops().take(3) == o0 + (o1 + o2));
    } else {
        assert(handshake_ops().take(4) == o0 + (o1 + (o2 + o3)));
    }
}

/// When the write and the read both go through, reading a sample issues one
/// write of `[MEASUREMENTS]` and one read of the whole block, and its result
/// is the block decoded.
pub proof fn lemma_read_sample_decodes<E>(block: Seq<u8>, replies: Seq<BusReplyView<E>>)
    requires
        block.len() == MEASUREMENTS_LEN,
        replies.len() >= 2,
        replies[0] == BusReplyView::<E>::Written,
        replies[1] == BusReplyView::<E>::Data(block),
    ensures
        sample_transcript(replies) == (Transcript::<MPUSample, BusError<E>> {
            ops: seq![BusOpView::Write(seq![MEASUREMENTS]), BusOpView::Read(MEASUREMENTS_LEN)],
            outcome: Some(Ok(MPUSample::spec_decode(block))),
        }),
{
    reveal_with_fuel(transcript, 3);
    assert(seq![BusOpView::Write(seq![MEASUREMENTS])] + seq![
        BusOpView::Read(MEASUREMENTS_LEN),
    ] == seq![BusOpView::Write(seq![MEASUREMENTS]), BusOpView::Read(MEASUREMENTS_LEN)]);
}

/// When the transport fails, reading a sample ends with the error of the
/// transport and without a sample; after a failed write the read is never
/// issued.
pub proof fn lemma_transport_failure_ends_read_sample<E>(
    failed: int,
    error: E,
    replies: Seq<BusReplyView<E>>,
)
    requires
        0 <= failed < 2,
        failed < replies.len(),
        failed == 1 ==> replies[0] == BusReplyView::<E>::Written,
        replies[failed] == BusReplyView::Failed(error),
    ensures
        sample_transcript(replies) == (Transcript::<MPUSample, BusError<E>> {
            ops: seq![
                BusOpView::Write(seq![MEASUREMENTS]),
                BusOpView::Read(MEASUREMENTS_LEN),
            ].take(failed + 1),
            outcome: Some(Err(BusError::Transport(error))),
        }),
{
    reveal_with_fuel(transcript, 3);
    let o0 = seq![BusOpView::Write(seq![MEASUREMENTS])];
    let o1 = seq![BusOpView::Read(MEASUREMENTS_LEN)];
    let both = seq![BusOpView::Write(seq![MEASUREMENTS]), BusOpView::Read(MEASUREMENTS_LEN)];
    if failed == 0 {
        assert(both.take(1) == o0);
    } else {
        assert(both.take(2) == o0 + o1);
    }
}

} // verus!
