//! The decisions of a compute dispatch: what to stage on the device, and how
//! the asynchronous readback of the result proceeds. The device work itself
//! (buffers, passes, submission, polling, mapping) is performed by the caller,
//! which hands each outcome back as an event.
use vstd::prelude::*;
use crate::pow2::{next_pow2, next_pow2_all};
use crate::words::{bytes_to_words, decode_words, encode_words, lemma_words_round_trip, words_to_bytes};

verus! {

/// Why a dispatch, or the acquisition of a device, did not produce a result.
#[derive(Clone, Copy, Debug, PartialEq, Eq, Structural)]
pub enum ExecError {
    /// The adapter refused to open a logical device.
    DeviceRequest,
    /// The input has more elements than one dispatch can address.
    InputTooLarge,
    /// Mapping the staging buffer for reading failed, or its notice never came.
    MapFailed,
    /// The mapped bytes do not hold one word per input element.
    LengthMismatch,
    /// An event came that the readback was not waiting for.
    UnexpectedEvent,
}

/// Bytes per element in the device buffers.
pub const WORD_SIZE: u64 = 4;

/// An input of `n` elements can be staged and dispatched: one workgroup per
/// element fits the X dimension of a dispatch, and its bytes fit in memory.
pub open spec fn dispatchable(n: nat) -> bool {
    n <= u32::MAX && 4 * n <= usize::MAX
}

/// What one non-empty dispatch needs from the device.
pub struct DispatchPlan {
    /// Byte size of the storage buffer and of the staging buffer.
    pub size: u64,
    /// Workgroups along X; Y and Z are one.
    pub workgroups: u32,
    /// Initial bytes of the storage buffer.
    pub contents: Vec<u8>,
}

/// How an input is to be processed.
pub enum Dispatch {
    /// Nothing to compute: the result is empty, and no device work is done.
    Nothing,
    /// Stage, dispatch and read back as the plan says.
    Run(DispatchPlan),
}

/// The plan for `numbers` is exactly the staging of its elements.
pub open spec fn plans(numbers: Seq<u32>, p: DispatchPlan) -> bool {
    &&& p.size == 4 * numbers.len()
    &&& p.workgroups == numbers.len()
    &&& p.contents@ == words_to_bytes(numbers)
}

/// Decides the device work for `numbers`: nothing for an empty input, an
/// `InputTooLarge` error where the input cannot be dispatched, and otherwise
/// buffers of four bytes per element holding its words, with one workgroup
/// per element.
pub fn plan_dispatch(numbers: &[u32]) -> (r: Result<Dispatch, ExecError>)
    ensures
        !dispatchable(numbers@.len()) <==> r == Err::<Dispatch, ExecError>(ExecError::InputTooLarge),
        dispatchable(numbers@.len()) && numbers@.len() == 0 ==> r matches Ok(Dispatch::Nothing),
        dispatchable(numbers@.len()) && numbers@.len() > 0 ==> (r matches Ok(Dispatch::Run(p))
            && plans(numbers@, p)),
{
    let n = numbers.len();
    if n > u32::MAX as usize || n > usize::MAX / 4 {
        return Err(ExecError::InputTooLarge);
    }
    if n == 0 {
        return Ok(Dispatch::Nothing);
    }
    let contents = encode_words(numbers);
    Ok(Dispatch::Run(DispatchPlan { size: n as u64 * WORD_SIZE, workgroups: n as u32, contents }))
}

/// The words of the bytes read back for an input of `expected` elements:
/// exactly those bytes read in order, where there are four per element.
pub fn finish_readback(expected: usize, bytes: &[u8]) -> (r: Result<Vec<u32>, ExecError>)
    ensures
        bytes@.len() == 4 * expected <==> r is Ok,
        r matches Ok(ws) ==> ws@ == bytes_to_words(bytes@) && ws@.len() == expected,
        r matches Err(e) ==> e == ExecError::LengthMismatch,
{
    if bytes.len() / 4 != expected || bytes.len() % 4 != 0 {
        return Err(ExecError::LengthMismatch);
    }
    Ok(decode_words(bytes))
}

/// Where the kernel leaves in the storage buffer, in place of each staged
/// word, its next power of two, the bytes read back are four per input
/// element, so the readback finishes with a result; and that result is
/// `next_pow2_all(numbers)`: as long as the input, in input order, each
/// element the next power of two of the input element at its index. Read
/// back unchanged, the staged bytes give the input itself.
pub proof fn lemma_dispatch_yields_transform(numbers: Seq<u32>, p: DispatchPlan)
    requires
        plans(numbers, p),
    ensures
        bytes_to_words(p.contents@) == numbers,
        words_to_bytes(next_pow2_all(numbers)).len() == p.size,
        bytes_to_words(words_to_bytes(next_pow2_all(numbers))) == next_pow2_all(numbers),
        next_pow2_all(numbers).len() == numbers.len(),
        forall|i: int|
            0 <= i < numbers.len() ==> #[trigger] bytes_to_words(
                words_to_bytes(next_pow2_all(numbers)),
            )[i] == next_pow2(numbers[i]),
{
    lemma_words_round_trip(numbers);
    lemma_words_round_trip(next_pow2_all(numbers));
}

/// Where the readback of one dispatch stands.
#[derive(Clone, Copy, Debug, PartialEq, Eq, Structural)]
pub enum Phase {
    /// Commands are submitted and the mapping is requested; the device must be
    /// driven before its notice can come.
    Polling,
    /// The device was driven; the mapping notice is awaited.
    Waiting,
    /// The staging buffer is mapped; its bytes are awaited.
    Reading,
    /// A result or an error has been issued.
    Finished,
}

/// An outcome of the device work that the caller performed.
pub enum ReadbackEvent {
    /// The device was driven until its outstanding work was serviced.
    Polled,
    /// The staging buffer is mapped for reading.
    Mapped,
    /// The mapping was refused.
    MapRefused,
    /// The mapping notice can no longer come.
    Disconnected,
    /// The bytes of the mapped staging buffer; the mapping is released.
    Data(Vec<u8>),
}

/// What the caller is to do next.
pub enum ReadbackAction {
    /// Drive the device until its outstanding work is serviced.
    Poll,
    /// Wait for the mapping notice.
    Receive,
    /// Copy out the mapped bytes and release the mapping.
    ReadMapped,
    /// The dispatch produced these words.
    Done(Vec<u32>),
    /// The dispatch failed.
    Fail(ExecError),
}

/// The readback of one dispatch of `expected` elements.
pub struct Readback {
    /// Elements in the dispatched input.
    pub expected: usize,
    /// Where the readback stands.
    pub phase: Phase,
}

/// `ev` is the event that phase `ph` waits for.
pub open spec fn awaited(ph: Phase, ev: ReadbackEvent) -> bool {
    match ph {
        Phase::Polling => ev is Polled,
        Phase::Waiting => ev is Mapped || ev is MapRefused || ev is Disconnected,
        Phase::Reading => ev is Data,
        Phase::Finished => false,
    }
}

impl Readback {
    /// Starts the readback of a submitted dispatch with a pending mapping
    /// request: the device is driven first, since nothing else makes the
    /// mapping notice come.
    pub fn new(expected: usize) -> (r: (Readback, ReadbackAction))
        ensures
            r.0.expected == expected,
            r.0.phase == Phase::Polling,
            r.1 is Poll,
    {
        (Readback { expected, phase: Phase::Polling }, ReadbackAction::Poll)
    }

    /// Takes the outcome of the last action and decides the next one.
    pub fn step(&mut self, ev: ReadbackEvent) -> (a: ReadbackAction)
        ensures
            final(self).expected == old(self).expected,
            a is Receive ==> old(self).phase == Phase::Polling && ev is Polled,
            a is Done ==> old(self).phase == Phase::Reading && ev is Data,
            !awaited(old(self).phase, ev) ==> final(self).phase == Phase::Finished
                && a == ReadbackAction::Fail(ExecError::UnexpectedEvent),
            old(self).phase == Phase::Polling && ev is Polled ==> final(self).phase == Phase::Waiting
                && a is Receive,
            old(self).phase == Phase::Waiting && ev is Mapped ==> final(self).phase == Phase::Reading
                && a is ReadMapped,
            old(self).phase == Phase::Waiting && (ev is MapRefused || ev is Disconnected)
                ==> final(self).phase == Phase::Finished && a == ReadbackAction::Fail(
                ExecError::MapFailed,
            ),
            old(self).phase == Phase::Reading && ev is Data ==> final(self).phase == Phase::Finished
                && (ev->Data_0@.len() == 4 * old(self).expected <==> a is Done)
                && (a matches ReadbackAction::Done(ws) ==> ws@ == bytes_to_words(ev->Data_0@)
                && ws@.len() == old(self).expected)
                && (!(a is Done) ==> a == ReadbackAction::Fail(ExecError::LengthMismatch)),
    {
        match (self.phase, ev) {
            (Phase::Polling, ReadbackEvent::Polled) => {
                self.phase = Phase::Waiting;
                ReadbackAction::Receive
            },
            (Phase::Waiting, ReadbackEvent::Mapped) => {
                self.phase = Phase::Reading;
                ReadbackAction::ReadMapped
            },
            (Phase::Waiting, ReadbackEvent::MapRefused) | (Phase::Waiting, ReadbackEvent::Disconnected) => {
                self.phase = Phase::Finished;
                ReadbackAction::Fail(ExecError::MapFailed)
            },
            (Phase::Reading, ReadbackEvent::Data(bytes)) => {
                self.phase = Phase::Finished;
                match finish_readback(self.expected, bytes.as_slice()) {
                    Ok(ws) => ReadbackAction::Done(ws),
                    Err(e) => ReadbackAction::Fail(e),
                }
            },
            _ => {
                self.phase = Phase::Finished;
                ReadbackAction::Fail(ExecError::UnexpectedEvent)
            },
        }
    }
}

} // verus!
