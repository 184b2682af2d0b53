//! The reader behind a running stream: decoding of bulk transfers, undoing the
//! output randomization of the ADC, and the rule for giving a stream up.
use vstd::endian::{endianness, Endian};
use vstd::prelude::*;

use crate::lanes;
use crate::lanes::LANES;

verus! {

/// What undoing the randomization makes of one sample: a set low bit marks a
/// sample whose other bits were inverted.
pub open spec fn derando_sample(d: i16) -> i16 {
    if d & 1 == 1 {
        d ^ -2i16
    } else {
        d
    }
}

/// [`derando_sample`] on every sample.
pub open spec fn derando_all(data: Seq<i16>) -> Seq<i16> {
    Seq::new(data.len(), |i: int| derando_sample(data[i]))
}

/// Undoing the randomization twice gives the samples back: the transform is its
/// own inverse, which is what makes it safe to apply in place.
pub proof fn derando_is_involution(data: Seq<i16>)
    ensures
        derando_all(derando_all(data)) == data,
{
    assert forall|i: int| 0 <= i < data.len() implies derando_sample(
        derando_sample(#[trigger] data[i]),
    ) == data[i] by {
        let d = data[i];
        assert((d & 1 == 1) ==> ((d ^ -2i16) & 1 == 1 && ((d ^ -2i16) ^ -2i16) == d))
            by (bit_vector);
    }
    assert(derando_all(derando_all(data)) =~= data);
}

/// Randomization never touches the low bit of a sample, and a sample whose low
/// bit is clear is left as it is.
pub proof fn derando_keeps_low_bit(d: i16)
    ensures
        derando_sample(d) & 1 == d & 1,
        d & 1 != 1 ==> derando_sample(d) == d,
{
    assert((d ^ -2i16) & 1 == d & 1) by (bit_vector);
}

/// Consecutive failed transfers tolerated before the stream is given up. A
/// single stall is often transient: the endpoint recovers once the remaining
/// queued transfers drain.
pub const MAX_CONSECUTIVE_ERRORS: u32 = 32;

/// Address of the bulk endpoint that carries samples.
pub const BULK_ENDPOINT: u8 = 0x81;

/// Transfers kept in flight.
pub const QUEUED_TRANSFERS: u32 = 32;

/// Bytes per transfer: a burst of 16 SuperSpeed packets of 1024 bytes.
pub const TRANSFER_SIZE: usize = 16384;

/// How long to wait for a transfer before looking at the cancel flag again.
pub const POLL_MS: u64 = 100;

/// What the reader is told between two of its actions.
pub enum StreamEvent<'a> {
    /// The stream has been cancelled.
    Cancelled,
    /// No transfer completed within [`POLL_MS`].
    TimedOut,
    /// A transfer completed with these bytes.
    Received(&'a [u8]),
    /// A transfer completed with an error.
    Failed,
}

/// What the reader does next.
#[derive(Debug, PartialEq, Eq)]
pub enum StreamAction {
    /// Submit `count` fresh buffers of `size` bytes each, then wait.
    Queue { count: u32, size: usize },
    /// Wait for the next transfer.
    Wait,
    /// Hand these samples to the callback, resubmit the buffer, then wait.
    Deliver(Vec<i16>),
    /// Resubmit the buffer, then wait.
    Resubmit,
    /// Tell the callback that the stream has failed, then end the stream.
    Abort,
    /// End the stream.
    Stop,
}

/// The signed 16-bit number with these low and high bytes.
pub open spec fn signed_pair(low: u8, high: u8) -> int {
    let unsigned = low + 256 * high;
    if unsigned < 0x8000 {
        unsigned
    } else {
        unsigned - 0x1_0000
    }
}

/// The signed 16-bit number that the host keeps in memory as these two bytes.
pub open spec fn host_i16(first: u8, second: u8) -> int {
    match endianness() {
        Endian::Little => signed_pair(first, second),
        Endian::Big => signed_pair(second, first),
    }
}

/// The 16-bit numbers that `bytes` are in the memory of the host. An odd byte at
/// the end belongs to no sample.
pub open spec fn decoded(bytes: Seq<u8>) -> Seq<i16> {
    Seq::new(bytes.len() / 2, |i: int| host_i16(bytes[2 * i], bytes[2 * i + 1]) as i16)
}

/// Calls `i16::from_ne_bytes`. Claimed: the result is the number whose two bytes
/// these are in the byte order of the host, the first one low on a little-endian
/// host and high on a big-endian one.
#[verifier::external_body]
fn from_ne_bytes(bytes: [u8; 2]) -> (sample: i16)
    ensures
        sample == host_i16(bytes@[0], bytes@[1]),
{
    i16::from_ne_bytes(bytes)
}

/// Reads the 16-bit samples of a transfer, in the byte order of the host.
pub fn decode_samples(bytes: &[u8]) -> (samples: Vec<i16>)
    ensures
        samples@ == decoded(bytes@),
        samples@.len() == bytes@.len() / 2,
{
    let len: usize = bytes.len();
    let count: usize = len / 2;
    let mut samples: Vec<i16> = Vec::new();
    let mut i: usize = 0;
    while i < count
        invariant
            len == bytes@.len(),
            count == len / 2,
            i <= count,
            samples@ == decoded(bytes@).take(i as int),
        decreases count - i,
    {
        let pair: [u8; 2] = [bytes[2 * i], bytes[2 * i + 1]];
        samples.push(from_ne_bytes(pair));
        assert(samples@ =~= decoded(bytes@).take(i + 1));
        i += 1;
    }
    assert(samples@ =~= decoded(bytes@));
    samples
}

/// The reader of a running stream: whether it undoes the randomization, and how
/// many transfers in a row have failed.
pub struct WorkerState {
    pub rando: bool,
    pub errors: nat,
}

/// Failures counted after one more event: a received transfer clears the count,
/// a failed one adds to it up to the limit, anything else leaves it.
pub open spec fn errors_after(errors: nat, event: StreamEvent) -> nat {
    match event {
        StreamEvent::Received(_) => 0,
        StreamEvent::Failed => if errors + 1 < MAX_CONSECUTIVE_ERRORS {
            errors + 1
        } else {
            MAX_CONSECUTIVE_ERRORS as nat
        },
        _ => errors,
    }
}

/// The samples that the callback gets for a transfer of `bytes`.
pub open spec fn delivered(rando: bool, bytes: Seq<u8>) -> Seq<i16> {
    if rando {
        derando_all(decoded(bytes))
    } else {
        decoded(bytes)
    }
}

/// Whether `action` is how a reader in state `s` answers `event`.
pub open spec fn answers(s: WorkerState, event: StreamEvent, action: StreamAction) -> bool {
    match event {
        StreamEvent::Cancelled => action is Stop,
        StreamEvent::TimedOut => action is Wait,
        StreamEvent::Received(bytes) => if bytes@.len() == 0 {
            action is Resubmit
        } else {
            action matches StreamAction::Deliver(samples) && samples@ == delivered(s.rando, bytes@)
        },
        StreamEvent::Failed => if s.errors + 1 < MAX_CONSECUTIVE_ERRORS {
            action is Resubmit
        } else {
            action is Abort
        },
    }
}

/// The reader of a running stream.
pub struct AsyncReadWorker {
    rando_flag: bool,
    errors: u32,
}

impl View for AsyncReadWorker {
    type V = WorkerState;

    closed spec fn view(&self) -> WorkerState {
        WorkerState { rando: self.rando_flag, errors: self.errors as nat }
    }
}

impl AsyncReadWorker {
    /// A reader that has seen no transfer yet.
    pub fn new(rando_flag: bool) -> (worker: Self)
        ensures
            worker@ == (WorkerState { rando: rando_flag, errors: 0 }),
    {
        AsyncReadWorker { rando_flag, errors: 0 }
    }

    /// What to do once the bulk endpoint has been claimed, or could not be: a
    /// missing endpoint is reported through the callback.
    pub fn start(&self, claimed: bool) -> (action: StreamAction)
        ensures
            action == if claimed {
                StreamAction::Queue { count: QUEUED_TRANSFERS, size: TRANSFER_SIZE }
            } else {
                StreamAction::Abort
            },
            claimed ==> action == (StreamAction::Queue { count: 32, size: 16384 }),
    {
        if claimed {
            StreamAction::Queue { count: QUEUED_TRANSFERS, size: TRANSFER_SIZE }
        } else {
            StreamAction::Abort
        }
    }

    /// What to do about `event`. A time-out is not the end of the stream, and
    /// neither is a failed transfer until [`MAX_CONSECUTIVE_ERRORS`] of them
    /// come with no successful one in between.
    pub fn on_event(&mut self, event: StreamEvent) -> (action: StreamAction)
        ensures
            answers(old(self)@, event, action),
            final(self)@ == (WorkerState {
                errors: errors_after(old(self)@.errors, event),
                ..old(self)@
            }),
    {
        match event {
            StreamEvent::Cancelled => StreamAction::Stop,
            StreamEvent::TimedOut => StreamAction::Wait,
            StreamEvent::Received(bytes) => {
                self.errors = 0;
                if bytes.len() == 0 {
                    StreamAction::Resubmit
                } else {
                    let mut samples = decode_samples(bytes);
                    if self.rando_flag {
                        Self::derando(samples.as_mut_slice());
                    }
                    StreamAction::Deliver(samples)
                }
            },
            StreamEvent::Failed => {
                if self.errors < MAX_CONSECUTIVE_ERRORS - 1 {
                    self.errors = self.errors + 1;
                    StreamAction::Resubmit
                } else {
                    self.errors = MAX_CONSECUTIVE_ERRORS;
                    StreamAction::Abort
                }
            },
        }
    }

    /// Undoes the output randomization in place, eight samples at a time and
    /// then one by one for what is left.
    pub fn derando(data: &mut [i16])
        ensures
            final(data)@ == derando_all(old(data)@),
            final(data)@.len() == old(data)@.len(),
    {
        let ghost before = data@;
        let len: usize = data.len();
        let one = lanes::splat(1);
        let zero = lanes::splat(0);
        let flip = lanes::splat(-2);
        let mut i: usize = 0;
        while len - i >= LANES
            invariant
                i <= len,
                len == data@.len() == before.len(),
                lanes::lanes(one) == Seq::new(8, |k: int| 1i16),
                lanes::lanes(zero) == Seq::new(8, |k: int| 0i16),
                lanes::lanes(flip) == Seq::new(8, |k: int| -2i16),
                data@ == derando_all(before).take(i as int) + before.skip(i as int),
            decreases len - i,
        {
            let v = lanes::load(&data[i..i + LANES]);
            let low_bit = lanes::bit_and(v, one);
            let odd = lanes::simd_eq(low_bit, one);
            let to_xor = lanes::blend(odd, flip, zero);
            let out = lanes::bit_xor(v, to_xor);
            let array = lanes::as_array(&out);
            let ghost start = data@;
            assert forall|k: int| 0 <= k < 8 implies #[trigger] array@[k] == derando_sample(
                before[i + k],
            ) by {
                let d = before[i + k];
                assert(lanes::lanes(v)[k] == d);
                assert(d ^ 0i16 == d) by (bit_vector);
            }
            let mut k: usize = 0;
            while k < LANES
                invariant
                    k <= LANES,
                    i + LANES <= len,
                    len == data@.len() == before.len(),
                    array@.len() == 8,
                    forall|j: int|
                        0 <= j < 8 ==> #[trigger] array@[j] == derando_sample(before[i + j]),
                    data@ == derando_all(before).take(i + k) + before.skip(i + k),
                decreases LANES - k,
            {
                data[i + k] = array[k];
                assert(data@ =~= derando_all(before).take(i + k + 1) + before.skip(i + k + 1));
                k += 1;
            }
            i += LANES;
        }
        while i < len
            invariant
                i <= len,
                len == data@.len() == before.len(),
                data@ == derando_all(before).take(i as int) + before.skip(i as int),
            decreases len - i,
        {
            let d: i16 = data[i];
            assert(d == before[i as int]);
            if d & 1 == 1 {
                data[i] = d ^ -2;
            }
            assert(data@ =~= derando_all(before).take(i + 1) + before.skip(i + 1));
            i += 1;
        }
        assert(data@ =~= derando_all(before));
    }
}

/// Failed transfers since the last one that succeeded; time-outs in between do
/// not count either way.
pub open spec fn failures_since_success(history: Seq<StreamEvent>) -> nat
    decreases history.len(),
{
    if history.len() == 0 {
        0
    } else {
        match history.last() {
            StreamEvent::Received(_) => 0,
            StreamEvent::Failed => failures_since_success(history.drop_last()) + 1,
            _ => failures_since_success(history.drop_last()),
        }
    }
}

/// A fresh reader after a whole history of events.
pub open spec fn worker_after(rando: bool, history: Seq<StreamEvent>) -> WorkerState
    decreases history.len(),
{
    if history.len() == 0 {
        WorkerState { rando, errors: 0 }
    } else {
        let before = worker_after(rando, history.drop_last());
        WorkerState { errors: errors_after(before.errors, history.last()), ..before }
    }
}

/// Whatever has happened on a stream, a failed transfer ends it exactly when it
/// is at least the 32nd failure since the last transfer that succeeded, and
/// until then the reader keeps the buffer in flight.
pub proof fn stream_gives_up_on_persistent_failure(
    rando: bool,
    history: Seq<StreamEvent>,
    action: StreamAction,
)
    requires
        answers(worker_after(rando, history), StreamEvent::Failed, action),
    ensures
        failures_since_success(history) + 1 >= 32 ==> action is Abort,
        failures_since_success(history) + 1 < 32 ==> action is Resubmit,
{
    worker_counts_failures(rando, history);
}

/// The error count of a reader is the number of failures since the last
/// success, as far as the limit, and no event changes whether it undoes the
/// randomization.
pub proof fn worker_counts_failures(rando: bool, history: Seq<StreamEvent>)
    ensures
        worker_after(rando, history).rando == rando,
        worker_after(rando, history).errors == if failures_since_success(history) < 32 {
            failures_since_success(history)
        } else {
            32
        },
    decreases history.len(),
{
    if history.len() > 0 {
        worker_counts_failures(rando, history.drop_last());
    }
}

/// The callback calls that an action comes to: `Some` with the samples of a
/// delivery, `None` where the stream is given up.
pub open spec fn calls_made(action: StreamAction) -> Seq<Option<Seq<i16>>> {
    match action {
        StreamAction::Deliver(samples) => seq![Some(samples@)],
        StreamAction::Abort => seq![None],
        _ => Seq::empty(),
    }
}

/// The callback calls that a reader in state `s` makes for `event`.
pub open spec fn calls_for(s: WorkerState, event: StreamEvent) -> Seq<Option<Seq<i16>>> {
    match event {
        StreamEvent::Received(bytes) => if bytes@.len() == 0 {
            Seq::empty()
        } else {
            seq![Some(delivered(s.rando, bytes@))]
        },
        StreamEvent::Failed => if s.errors + 1 < MAX_CONSECUTIVE_ERRORS {
            Seq::empty()
        } else {
            seq![None]
        },
        _ => Seq::empty(),
    }
}

/// Whether `event` ends the stream of a reader in state `s`.
pub open spec fn ends(s: WorkerState, event: StreamEvent) -> bool {
    match event {
        StreamEvent::Cancelled => true,
        StreamEvent::Failed => s.errors + 1 >= MAX_CONSECUTIVE_ERRORS,
        _ => false,
    }
}

/// The callback calls and the end of a stream are what the reader's answers say.
pub proof fn answers_make_the_calls(s: WorkerState, event: StreamEvent, action: StreamAction)
    requires
        answers(s, event, action),
    ensures
        calls_made(action) == calls_for(s, event),
        ends(s, event) <==> action is Stop || action is Abort,
{
}

/// The callback calls that a reader in state `s` makes over a whole history of
/// events, up to the one that ends the stream.
pub open spec fn callbacks(s: WorkerState, history: Seq<StreamEvent>) -> Seq<Option<Seq<i16>>>
    decreases history.len(),
{
    if history.len() == 0 {
        Seq::empty()
    } else if ends(s, history[0]) {
        calls_for(s, history[0])
    } else {
        calls_for(s, history[0]) + callbacks(
            WorkerState { errors: errors_after(s.errors, history[0]), ..s },
            history.skip(1),
        )
    }
}

/// A history without its time-outs.
pub open spec fn without_timeouts(history: Seq<StreamEvent>) -> Seq<StreamEvent>
    decreases history.len(),
{
    if history.len() == 0 {
        Seq::empty()
    } else {
        let rest = without_timeouts(history.skip(1));
        if history[0] is TimedOut {
            rest
        } else {
            seq![history[0]] + rest
        }
    }
}

proof fn timeouts_call_nothing(s: WorkerState, history: Seq<StreamEvent>)
    ensures
        callbacks(s, history) == callbacks(s, without_timeouts(history)),
    decreases history.len(),
{
    if history.len() > 0 {
        let event = history[0];
        let next = WorkerState { errors: errors_after(s.errors, event), ..s };
        let rest = without_timeouts(history.skip(1));
        timeouts_call_nothing(next, history.skip(1));
        if event is TimedOut {
            assert(callbacks(s, history) =~= callbacks(next, history.skip(1)));
        } else {
            let kept = seq![event] + rest;
            assert(kept[0] == event);
            assert(kept.skip(1) =~= rest);
        }
    }
}

/// A gap in the samples is no part of the stream: two histories that differ only
/// in their time-outs make the same callback calls.
pub proof fn timeouts_change_no_callback(
    s: WorkerState,
    a: Seq<StreamEvent>,
    b: Seq<StreamEvent>,
)
    requires
        without_timeouts(a) == without_timeouts(b),
    ensures
        callbacks(s, a) == callbacks(s, b),
{
    timeouts_call_nothing(s, a);
    timeouts_call_nothing(s, b);
}

/// A sample is the number from -32768 to 32767 that its two bytes stand for: it
/// differs from the unsigned number by nothing or by a full turn.
pub proof fn signed_pair_is_its_bytes(low: u8, high: u8)
    ensures
        -0x8000 <= signed_pair(low, high) < 0x8000,
        (signed_pair(low, high) - low - 256 * high) % 0x1_0000 == 0,
        signed_pair(low, high) < 0 <==> high >= 0x80,
{
}

/// A transfer of n bytes holds n / 2 samples, and sample `i` is the number that
/// bytes `2 * i` and `2 * i + 1` are on the host: low byte first where it is
/// little-endian, high byte first where it is not.
pub proof fn transfer_is_decoded_whole(bytes: Seq<u8>)
    ensures
        decoded(bytes).len() == bytes.len() / 2,
        forall|i: int|
            #![trigger decoded(bytes)[i]]
            0 <= i < bytes.len() / 2 ==> {
                let first = bytes[2 * i] as int;
                let second = bytes[2 * i + 1] as int;
                &&& endianness() is Little ==> (decoded(bytes)[i] - first - 256 * second)
                    % 0x1_0000 == 0
                &&& endianness() is Big ==> (decoded(bytes)[i] - second - 256 * first) % 0x1_0000
                    == 0
            },
{
    assert forall|i: int|
        #![trigger decoded(bytes)[i]]
        0 <= i < bytes.len() / 2 implies {
        let first = bytes[2 * i] as int;
        let second = bytes[2 * i + 1] as int;
        &&& endianness() is Little ==> (decoded(bytes)[i] - first - 256 * second) % 0x1_0000 == 0
        &&& endianness() is Big ==> (decoded(bytes)[i] - second - 256 * first) % 0x1_0000 == 0
    } by {
        signed_pair_is_its_bytes(bytes[2 * i], bytes[2 * i + 1]);
        signed_pair_is_its_bytes(bytes[2 * i + 1], bytes[2 * i]);
    }
}

/// The bytes that samples are in the memory of the host.
pub open spec fn encoded(samples: Seq<i16>) -> Seq<u8> {
    Seq::new(
        2 * samples.len(),
        |k: int|
            {
                let unsigned = samples[k / 2] as int % 0x1_0000;
                if (k % 2 == 0) == (endianness() is Little) {
                    (unsigned % 256) as u8
                } else {
                    (unsigned / 256) as u8
                }
            },
    )
}

/// No byte of a transfer is lost but an odd one at its end: the samples, put
/// back into bytes, are the transfer.
pub proof fn samples_encode_to_their_transfer(bytes: Seq<u8>)
    ensures
        encoded(decoded(bytes)) == bytes.take(2 * (bytes.len() / 2) as int),
{
    let samples = decoded(bytes);
    assert forall|k: int| 0 <= k < 2 * (bytes.len() / 2) implies #[trigger] encoded(samples)[k]
        == bytes[k] by {
        let i = k / 2;
        signed_pair_is_its_bytes(bytes[2 * i], bytes[2 * i + 1]);
        signed_pair_is_its_bytes(bytes[2 * i + 1], bytes[2 * i]);
        assert(samples[i] == host_i16(bytes[2 * i], bytes[2 * i + 1]));
        assert(k == 2 * i || k == 2 * i + 1);
    }
    assert(encoded(samples) =~= bytes.take(2 * (bytes.len() / 2) as int));
}

/// Undoing the randomization keeps every sample in its place: one whose low bit
/// is set turns into its negative, and every other one stays.
pub proof fn derando_negates_odd_samples(data: Seq<i16>)
    ensures
        derando_all(data).len() == data.len(),
        forall|i: int|
            #![trigger derando_all(data)[i]]
            0 <= i < data.len() ==> derando_all(data)[i] == if data[i] & 1 == 1 {
                -data[i]
            } else {
                data[i] as int
            },
{
    assert forall|i: int|
        #![trigger derando_all(data)[i]]
        0 <= i < data.len() implies derando_all(data)[i] == if data[i] & 1 == 1 {
        -data[i]
    } else {
        data[i] as int
    } by {
        let d = data[i];
        assert(d & 1 == 1 ==> (d ^ -2i16) + d == 0) by (bit_vector);
    }
}

/// A transfer of n bytes, n not 0, is handed to the callback as n / 2 samples,
/// as they are or with the randomization undone. One without data is not handed
/// on, but its buffer goes back in flight.
pub proof fn received_transfer_is_delivered_whole(
    s: WorkerState,
    bytes: &[u8],
    action: StreamAction,
)
    requires
        answers(s, StreamEvent::Received(bytes), action),
    ensures
        bytes@.len() == 0 ==> action is Resubmit,
        bytes@.len() > 0 ==> {
            &&& action matches StreamAction::Deliver(samples)
            &&& samples@.len() == bytes@.len() / 2
            &&& !s.rando ==> encoded(samples@) == bytes@.take(2 * (bytes@.len() / 2) as int)
            &&& forall|i: int|
                #![trigger samples@[i]]
                0 <= i < bytes@.len() / 2 ==> samples@[i] == if s.rando && decoded(bytes@)[i] & 1
                    == 1 {
                    -decoded(bytes@)[i]
                } else {
                    decoded(bytes@)[i] as int
                }
        },
{
    transfer_is_decoded_whole(bytes@);
    samples_encode_to_their_transfer(bytes@);
    derando_negates_odd_samples(decoded(bytes@));
}

/// What a reader does about everything else: a cancelled stream stops at once, a
/// time-out is waited through and forgotten, and a failure is tolerated until it
/// is the 32nd in a row. A transfer that succeeds clears the count, whatever it
/// holds.
pub proof fn reader_tolerates_what_passes(
    s: WorkerState,
    event: StreamEvent,
    action: StreamAction,
)
    requires
        answers(s, event, action),
    ensures
        event is Cancelled ==> action is Stop,
        event is TimedOut ==> action is Wait && errors_after(s.errors, event) == s.errors,
        event is Cancelled ==> errors_after(s.errors, event) == s.errors,
        event is Failed && s.errors < 32 ==> errors_after(s.errors, event) == s.errors + 1,
        event is Failed && s.errors >= 32 ==> errors_after(s.errors, event) == 32,
        event is Failed ==> (action is Abort <==> s.errors + 1 >= 32),
        event is Failed ==> (action is Resubmit <==> s.errors + 1 < 32),
        event is Received ==> errors_after(s.errors, event) == 0,
        event is Received ==> action is Deliver || action is Resubmit,
{
}

/// After a transfer that succeeded, whatever came before it, a stream lives
/// through 31 failures in a row and ends with the next.
pub proof fn failures_in_a_row_end_a_stream(
    rando: bool,
    history: Seq<StreamEvent>,
    bytes: &[u8],
    n: nat,
    action: StreamAction,
)
    requires
        n < 32,
        answers(
            worker_after(
                rando,
                history.push(StreamEvent::Received(bytes)) + Seq::new(
                    n,
                    |i: int| StreamEvent::Failed,
                ),
            ),
            StreamEvent::Failed,
            action,
        ),
    ensures
        n == 31 ==> action is Abort,
        n < 31 ==> action is Resubmit,
{
    failures_add_up(rando, history.push(StreamEvent::Received(bytes)), n);
    assert(history.push(StreamEvent::Received(bytes)).drop_last() =~= history);
}

proof fn failures_add_up(rando: bool, history: Seq<StreamEvent>, n: nat)
    requires
        n < 32,
        worker_after(rando, history).errors == 0,
    ensures
        worker_after(
            rando,
            history + Seq::new(n, |i: int| StreamEvent::Failed),
        ).errors == n,
    decreases n,
{
    let all = history + Seq::new(n, |i: int| StreamEvent::Failed);
    if n == 0 {
        assert(all =~= history);
    } else {
        failures_add_up(rando, history, (n - 1) as nat);
        assert(all.drop_last() =~= history + Seq::new(
            (n - 1) as nat,
            |i: int| StreamEvent::Failed,
        ));
    }
}

/// Every transfer of a stream that has not ended reaches the callback, in order
/// and once: a further transfer adds its own call to those made before, and
/// nothing else.
pub proof fn transfers_reach_the_callback_in_order(
    s: WorkerState,
    history: Seq<StreamEvent>,
    bytes: &[u8],
)
    requires
        forall|i: int|
            0 <= i < history.len() ==> #[trigger] history[i] is Received || history[i] is TimedOut,
    ensures
        callbacks(s, history.push(StreamEvent::Received(bytes))) == callbacks(s, history)
            + if bytes@.len() == 0 {
            Seq::empty()
        } else {
            seq![Some(delivered(s.rando, bytes@))]
        },
    decreases history.len(),
{
    let all = history.push(StreamEvent::Received(bytes));
    if history.len() == 0 {
        let next = WorkerState { errors: errors_after(s.errors, all[0]), ..s };
        assert(callbacks(next, all.skip(1)) =~= Seq::empty());
        assert(callbacks(s, all) =~= callbacks(s, history) + calls_for(s, all[0]));
    } else {
        let next = WorkerState { errors: errors_after(s.errors, history[0]), ..s };
        let rest = history.skip(1);
        assert forall|i: int| 0 <= i < rest.len() implies #[trigger] rest[i] is Received || rest[i]
            is TimedOut by {
            assert(rest[i] == history[i + 1]);
        }
        transfers_reach_the_callback_in_order(next, rest, bytes);
        assert(all.skip(1) =~= rest.push(StreamEvent::Received(bytes)));
        assert(callbacks(s, all) =~= callbacks(s, history) + if bytes@.len() == 0 {
            Seq::empty()
        } else {
            seq![Some(delivered(s.rando, bytes@))]
        });
    }
}

/// A reader keeps 32 transfers of a whole burst each, 16 packets of 1024 bytes,
/// in flight on the first IN endpoint, and looks at the cancel flag ten times a
/// second.
pub proof fn reader_keeps_bursts_in_flight()
    ensures
        QUEUED_TRANSFERS == 32,
        TRANSFER_SIZE == 16 * 1024,
        BULK_ENDPOINT == 0x80 + 1,
        POLL_MS * 10 == 1000,
        MAX_CONSECUTIVE_ERRORS == 32,
{
}

} // verus!
