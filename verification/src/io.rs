//! IO helper functions.
//!
//! The register bus offers two primitives: write some bytes to the device,
//! and read some bytes from it. This module holds them as data. A machine
//! here never touches the bus: it names the next operation, the driver
//! performs it and comes back with the reply.

use vstd::prelude::*;

verus! {

/// One primitive operation on the register bus.
#[derive(Debug, PartialEq, Eq)]
pub enum BusOp {
    /// Write these bytes to the device, in one bus write.
    Write(Vec<u8>),
    /// Read this many bytes from the device, in one bus read.
    Read(usize),
}

/// How the bus answered one primitive operation.
#[derive(Debug, PartialEq, Eq)]
pub enum BusReply<E> {
    /// The write went through.
    Written,
    /// The read went through, and these are the bytes it filled in.
    Data(Vec<u8>),
    /// The operation failed in the transport.
    Failed(E),
}

/// Why a transaction on the bus came to nothing.
#[derive(Debug, PartialEq, Eq)]
pub enum BusError<E> {
    /// The transport failed; its error is handed on untouched.
    Transport(E),
    /// The reply does not answer the operation that was asked for: a write
    /// answered with data, a read answered as a write, or a read that filled
    /// another number of bytes than it was asked to.
    OutOfStep,
}

/// Where a transaction stands after a reply.
#[derive(Debug)]
pub enum Step<M, T, E> {
    /// Perform this operation, and come back to this machine with its reply.
    Issue(M, BusOp),
    /// The transaction is over, and this is what came of it.
    Done(Result<T, E>),
}

/// A [`BusOp`] as a plain value.
pub enum BusOpView {
    Write(Seq<u8>),
    Read(usize),
}

/// A [`BusReply`] as a plain value.
pub enum BusReplyView<E> {
    Written,
    Data(Seq<u8>),
    Failed(E),
}

/// A [`Step`] as a plain value.
pub enum StepView<M, T, E> {
    Issue(M, BusOpView),
    Done(Result<T, E>),
}

impl View for BusOp {
    type V = BusOpView;

    open spec fn view(&self) -> BusOpView {
        match self {
            BusOp::Write(bytes) => BusOpView::Write(bytes@),
            BusOp::Read(len) => BusOpView::Read(*len),
        }
    }
}

impl<E> View for BusReply<E> {
    type V = BusReplyView<E>;

    open spec fn view(&self) -> BusReplyView<E> {
        match self {
            BusReply::Written => BusReplyView::Written,
            BusReply::Data(bytes) => BusReplyView::Data(bytes@),
            BusReply::Failed(error) => BusReplyView::Failed(*error),
        }
    }
}

impl<M: View, T: View, E> View for Step<M, T, E> {
    type V = StepView<M::V, T::V, E>;

    open spec fn view(&self) -> StepView<M::V, T::V, E> {
        match self {
            Step::Issue(machine, op) => StepView::Issue(machine@, op@),
            Step::Done(Ok(value)) => StepView::Done(Ok(value@)),
            Step::Done(Err(error)) => StepView::Done(Err(*error)),
        }
    }
}

/// What the block read is waiting for.
#[derive(Clone, Copy, Debug, PartialEq, Eq)]
pub enum BlockReadPhase {
    /// The write that selects the start register is on the bus.
    Selecting,
    /// The read of the block is on the bus.
    Reading,
}

/// A block read in progress: one write that selects the start register,
/// then one read of the whole block.
///
/// The device locks its measurement registers for the length of one bus
/// read, so the block must come in a single read: bytes from two reads could
/// belong to two sampling instants.
#[derive(Debug)]
pub struct BlockRead {
    reg: u8,
    len: usize,
    phase: BlockReadPhase,
}

/// A [`BlockRead`] as a plain value.
pub struct BlockReadView {
    /// The register the block starts at.
    pub reg: u8,
    /// The number of bytes in the block.
    pub len: usize,
    /// What the block read is waiting for.
    pub phase: BlockReadPhase,
}

impl View for BlockRead {
    type V = BlockReadView;

    closed spec fn view(&self) -> BlockReadView {
        BlockReadView { reg: self.reg, len: self.len, phase: self.phase }
    }
}

/// How a block read of `len` bytes from register `reg` on begins: with the
/// write of `[reg]`.
pub open spec fn spec_read_reg(reg: u8, len: usize) -> (BlockReadView, BusOpView) {
    (BlockReadView { reg, len, phase: BlockReadPhase::Selecting }, BusOpView::Write(seq![reg]))
}

impl BlockReadView {
    /// How a block read goes on after a reply.
    ///
    /// A failure of the write ends it before any read; a failure of the read
    /// ends it without data; the bytes of a read that went through are its
    /// result as they came.
    pub open spec fn advance<E>(self, reply: BusReplyView<E>) -> StepView<
        BlockReadView,
        Seq<u8>,
        BusError<E>,
    > {
        match reply {
            BusReplyView::Failed(error) => StepView::Done(Err(BusError::Transport(error))),
            BusReplyView::Written => if self.phase == BlockReadPhase::Selecting {
                StepView::Issue(
                    BlockReadView { phase: BlockReadPhase::Reading, ..self },
                    BusOpView::Read(self.len),
                )
            } else {
                StepView::Done(Err(BusError::OutOfStep))
            },
            BusReplyView::Data(bytes) => if self.phase == BlockReadPhase::Reading && bytes.len()
                == self.len {
                StepView::Done(Ok(bytes))
            } else {
                StepView::Done(Err(BusError::OutOfStep))
            },
        }
    }
}

/// Read a contiguous series of `len` registers from the device, starting
/// with `reg`: begins the block read, and names its first bus operation.
pub fn read_reg(reg: u8, len: usize) -> (start: (BlockRead, BusOp))
    ensures
        (start.0@, start.1@) == spec_read_reg(reg, len),
{
    let select = vec![reg];
    assert(select@ == seq![reg]);
    (BlockRead { reg, len, phase: BlockReadPhase::Selecting }, BusOp::Write(select))
}

impl BlockRead {
    /// Takes the reply to the operation that is on the bus, and says how the
    /// block read goes on.
    pub fn advance<E>(self, reply: BusReply<E>) -> (step: Step<BlockRead, Vec<u8>, BusError<E>>)
        ensures
            step@ == self@.advance(reply@),
    {
        match reply {
            BusReply::Failed(error) => Step::Done(Err(BusError::Transport(error))),
            BusReply::Written => match self.phase {
                BlockReadPhase::Selecting => Step::Issue(
                    BlockRead { reg: self.reg, len: self.len, phase: BlockReadPhase::Reading },
                    BusOp::Read(self.len),
                ),
                BlockReadPhase::Reading => Step::Done(Err(BusError::OutOfStep)),
            },
            BusReply::Data(bytes) => match self.phase {
                BlockReadPhase::Selecting => Step::Done(Err(BusError::OutOfStep)),
                BlockReadPhase::Reading => if bytes.len() == self.len {
                    Step::Done(Ok(bytes))
                } else {
                    Step::Done(Err(BusError::OutOfStep))
                },
            },
        }
    }
}

/// What a driver sees of one transaction: the operations it was asked to
/// perform, in order, and what came of the transaction, if it got that far.
pub struct Transcript<T, E> {
    /// The operations issued, first to last.
    pub ops: Seq<BusOpView>,
    /// The result, once the transaction is over.
    pub outcome: Option<Result<T, E>>,
}

/// The transcript of a machine that has just issued `op`, on a bus that
/// answers with `replies` in turn.
///
/// Each reply answers the operation issued last. A transaction that is over
/// takes no further reply, and one that has run out of replies is left
/// waiting with its last operation on the bus.
pub open spec fn transcript<M, E, T, F>(
    advance: spec_fn(M, BusReplyView<E>) -> StepView<M, T, F>,
    machine: M,
    op: BusOpView,
    replies: Seq<BusReplyView<E>>,
) -> Transcript<T, F>
    decreases replies.len(),
{
    if replies.len() == 0 {
        Transcript { ops: seq![op], outcome: None }
    } else {
        match advance(machine, replies.first()) {
            StepView::Issue(next, next_op) => {
                let rest = transcript(advance, next, next_op, replies.drop_first());
                Transcript { ops: seq![op] + rest.ops, outcome: rest.outcome }
            },
            StepView::Done(result) => Transcript { ops: seq![op], outcome: Some(result) },
        }
    }
}

/// The transcript of a block read of `len` bytes from register `reg` on, on
/// a bus that answers with `replies` in turn.
pub open spec fn read_reg_transcript<E>(
    reg: u8,
    len: usize,
    replies: Seq<BusReplyView<E>>,
) -> Transcript<Seq<u8>, BusError<E>> {
    transcript(
        |machine: BlockReadView, reply: BusReplyView<E>| machine.advance(reply),
        spec_read_reg(reg, len).0,
        spec_read_reg(reg, len).1,
        replies,
    )
}

/// When the write and the read both go through, a block read issues exactly
/// one write of `[reg]` followed by exactly one read of `len` bytes, and its
/// result is the data of that read, unmodified.
pub proof fn lemma_read_reg_reads_block<E>(
    reg: u8,
    len: usize,
    data: Seq<u8>,
    replies: Seq<BusReplyView<E>>,
)
    requires
        data.len() == len,
        replies.len() >= 2,
        replies[0] == BusReplyView::<E>::Written,
        replies[1] == BusReplyView::<E>::Data(data),
    ensures
        read_reg_transcript(reg, len, replies) == (Transcript::<Seq<u8>, BusError<E>> {
            ops: seq![BusOpView::Write(seq![reg]), BusOpView::Read(len)],
            outcome: Some(Ok(data)),
        }),
{
    reveal_with_fuel(transcript, 3);
    assert(seq![BusOpView::Write(seq![reg])] + seq![BusOpView::Read(len)] == seq![
        BusOpView::Write(seq![reg]),
        BusOpView::Read(len),
    ]);
}

/// When the write fails, a block read never performs the read: the write of
/// `[reg]` is all it issues, and its result is the write's error.
pub proof fn lemma_read_reg_write_fails<E>(
    reg: u8,
    len: usize,
    error: E,
    replies: Seq<BusReplyView<E>>,
)
    requires
        replies.len() >= 1,
        replies[0] == BusReplyView::Failed(error),
    ensures
        read_reg_transcript(reg, len, replies) == (Transcript::<Seq<u8>, BusError<E>> {
            ops: seq![BusOpView::Write(seq![reg])],
            outcome: Some(Err(BusError::Transport(error))),
        }),
{
    reveal_with_fuel(transcript, 2);
}

/// When the write goes through and the read fails, a block read issues the
/// write and the read, and its result is the read's error: no byte of the
/// block comes out.
pub proof fn lemma_read_reg_read_fails<E>(
    reg: u8,
    len: usize,
    error: E,
    replies: Seq<BusReplyView<E>>,
)
    requires
        replies.len() >= 2,
        replies[0] == BusReplyView::<E>::Written,
        replies[1] == BusReplyView::Failed(error),
    ensures
        read_reg_transcript(reg, len, replies) == (Transcript::<Seq<u8>, BusError<E>> {
            ops: seq![BusOpView::Write(seq![reg]), BusOpView::Read(len)],
            outcome: Some(Err(BusError::Transport(error))),
        }),
{
    reveal_with_fuel(transcript, 3);
    assert(seq![BusOpView::Write(seq![reg])] + seq![BusOpView::Read(len)] == seq![
        BusOpView::Write(seq![reg]),
        BusOpView::Read(len),
    ]);
}

} // verus!
