//! What whole operations come to: the laws of carrying out register writes on a
//! device that may refuse transfers.
use vstd::prelude::*;

use crate::error::SdrError;
use crate::gain::{Gain, GainCatalog};
use crate::interface::{AdcBits, Hardware, RadioModel, Register};
use crate::sdr::{Action, FilterMode, Progress, RadioState, Verdict};
use crate::sdr::{
    antenna_bias, asks, bit, cause_of, given_up, harmonic, opened, plain, pll_locked, reported,
    standing, switched,
};
use crate::task::{Commit, RegisterWrite, TaskKind};
use crate::task::{TaskState, refusal_text};
use crate::usb::DeviceInfo;
use crate::usb::{
    le_bytes, le_value, register_bytes_round_trip, registers_are_reached_by_number,
};

verus! {

/// An operation after transfers that went as `causes` says: `None` for one that
/// the device took, and otherwise why it failed.
#[verifier::opaque]
pub open spec fn run(p: Progress, causes: Seq<Option<Seq<char>>>) -> Progress
    decreases causes.len(),
{
    if causes.len() == 0 || !(p.verdict is Open) {
        p
    } else {
        run(reported(p.radio, p.task, causes[0]), causes.skip(1))
    }
}

/// What one more transfer, or the lack of one, makes of a run.
proof fn run_step(s: RadioState, t: TaskState, causes: Seq<Option<Seq<char>>>)
    ensures
        t.done() || causes.len() == 0 ==> run(standing(s, t), causes) == standing(s, t),
        !t.done() && causes.len() > 0 ==> {
            let write = t.writes[t.next as int];
            run(standing(s, t), causes) == match causes[0] {
                None => run(standing(s.committed(write.commit), t.accepted()), causes.skip(1)),
                Some(text) => if t.refused().failures < 4 {
                    run(standing(s, t.refused()), causes.skip(1))
                } else {
                    given_up(s, t, text)
                },
            }
        },
{
    reveal_with_fuel(run, 2);
}

/// An operation stays what it was planned as, however its transfers go.
proof fn run_keeps_plan(s: RadioState, t: TaskState, causes: Seq<Option<Seq<char>>>)
    ensures
        run(standing(s, t), causes).task.kind == t.kind,
        run(standing(s, t), causes).task.writes == t.writes,
    decreases causes.len(),
{
    run_step(s, t, causes);
    if !t.done() && causes.len() > 0 {
        let write = t.writes[t.next as int];
        if causes[0] is None {
            run_keeps_plan(s.committed(write.commit), t.accepted(), causes.skip(1));
        } else if t.refused().failures < 4 {
            run_keeps_plan(s, t.refused(), causes.skip(1));
        }
    }
}

/// The radio after a whole list of writes has been committed.
pub open spec fn committed_all(s: RadioState, writes: Seq<RegisterWrite>) -> RadioState
    decreases writes.len(),
{
    if writes.len() == 0 {
        s
    } else {
        committed_all(s.committed(writes[0].commit), writes.skip(1))
    }
}

/// An operation goes through when the device takes every transfer: each write
/// is made once, and all of them are committed in order.
pub proof fn accepted_operation_goes_through(
    s: RadioState,
    t: TaskState,
    causes: Seq<Option<Seq<char>>>,
)
    requires
        t.next <= t.writes.len(),
        causes.len() == t.writes.len() - t.next,
        forall|i: int| 0 <= i < causes.len() ==> causes[i] is None,
    ensures
        run(standing(s, t), causes).verdict is Done,
        run(standing(s, t), causes).task.kind == t.kind,
        run(standing(s, t), causes).task.writes == t.writes,
        run(standing(s, t), causes).task.next == t.writes.len(),
        run(standing(s, t), causes).radio == committed_all(
            s,
            t.writes.skip(t.next as int),
        ).finished(t.kind),
    decreases causes.len(),
{
    run_keeps_plan(s, t, causes);
    run_step(s, t, causes);
    if causes.len() > 0 {
        let write = t.writes[t.next as int];
        let rest = causes.skip(1);
        assert forall|i: int| 0 <= i < rest.len() implies rest[i] is None by {
            assert(rest[i] == causes[i + 1]);
        }
        accepted_operation_goes_through(s.committed(write.commit), t.accepted(), rest);
        assert(t.writes.skip(t.next as int).skip(1) =~= t.writes.skip((t.next + 1) as int));
        assert(t.writes.skip(t.next as int)[0] == write);
    }
}

/// Every operation comes to an end after at most four transfers per write,
/// however the transfers go.
pub proof fn operation_ends(s: RadioState, t: TaskState, causes: Seq<Option<Seq<char>>>)
    requires
        t.next <= t.writes.len(),
        t.failures < 4,
        causes.len() + t.failures >= 4 * (t.writes.len() - t.next),
    ensures
        !(run(standing(s, t), causes).verdict is Open),
        run(standing(s, t), causes).task.kind == t.kind,
    decreases causes.len(),
{
    run_keeps_plan(s, t, causes);
    run_step(s, t, causes);
    if !t.done() {
        let write = t.writes[t.next as int];
        if causes[0] is None {
            operation_ends(s.committed(write.commit), t.accepted(), causes.skip(1));
        } else if t.refused().failures < 4 {
            operation_ends(s, t.refused(), causes.skip(1));
        }
    }
}

/// Whether four failures in a row end at transfer `n`, counting `failures` that
/// came before the first.
pub open spec fn four_failures_end_at(
    failures: nat,
    causes: Seq<Option<Seq<char>>>,
    n: int,
) -> bool {
    &&& 0 < n <= causes.len()
    &&& n + failures >= 4
    &&& forall|j: int| 0 <= j < n && n - 4 <= j ==> #[trigger] causes[j] is Some
}

/// An operation fails only where a write has failed four times in a row; the
/// error then names that write's register and why the last attempt failed. A
/// stream start that fails leaves the device idle and without a reader.
pub proof fn operation_fails_after_four_failures(
    s: RadioState,
    t: TaskState,
    causes: Seq<Option<Seq<char>>>,
) -> (n: int)
    requires
        t.failures < 4,
    ensures
        run(standing(s, t), causes).verdict matches Verdict::Failed(text) ==> {
            let end = run(standing(s, t), causes);
            &&& four_failures_end_at(t.failures, causes, n)
            &&& end.task.kind == t.kind
            &&& t.next <= end.task.next < t.writes.len()
            &&& text == refusal_text(
                t.writes[end.task.next as int].reg,
                causes[n - 1].unwrap(),
            )
            &&& t.kind == TaskKind::Start ==> !end.radio.running && !end.radio.reading
        },
    decreases causes.len(),
{
    run_keeps_plan(s, t, causes);
    run_step(s, t, causes);
    if t.done() || causes.len() == 0 {
        0
    } else {
        let write = t.writes[t.next as int];
        let rest = causes.skip(1);
        if causes[0] is None {
            let m = operation_fails_after_four_failures(
                s.committed(write.commit),
                t.accepted(),
                rest,
            );
            if run(standing(s, t), causes).verdict is Failed {
                assert forall|j: int| 0 <= j < m + 1 && m + 1 - 4 <= j implies #[trigger] causes[j]
                    is Some by {
                    assert(causes[j] == rest[j - 1]);
                }
            }
            m + 1
        } else if t.refused().failures < 4 {
            let m = operation_fails_after_four_failures(s, t.refused(), rest);
            if run(standing(s, t), causes).verdict is Failed {
                assert forall|j: int| 0 <= j < m + 1 && m + 1 - 4 <= j implies #[trigger] causes[j]
                    is Some by {
                    if j > 0 {
                        assert(causes[j] == rest[j - 1]);
                    }
                }
            }
            m + 1
        } else {
            1
        }
    }
}

/// The commits that arming a device can make: gains, and nothing else.
pub open spec fn only_gains(writes: Seq<RegisterWrite>) -> bool {
    forall|i: int| 0 <= i < writes.len() ==> !(#[trigger] writes[i].commit is Stopped)
}

/// Two radios that differ in their gains at most.
pub open spec fn same_but_gains(a: RadioState, b: RadioState) -> bool {
    a == (RadioState { if_gain: a.if_gain, rf_gain: a.rf_gain, ..b })
}

/// [`same_but_gains`], to be unfolded where it is needed.
#[verifier::opaque]
spec fn kin(a: RadioState, b: RadioState) -> bool {
    same_but_gains(a, b)
}

proof fn kin_to_itself(s: RadioState)
    ensures
        kin(s, s),
{
    reveal(kin);
}

proof fn commit_makes_kin(a: RadioState, b: RadioState, commit: Commit)
    requires
        kin(a, b),
        !(commit is Stopped),
    ensures
        kin(a.committed(commit), b),
{
    reveal(kin);
}

proof fn end_makes_kin(a: RadioState, b: RadioState)
    requires
        kin(a, b),
    ensures
        kin(
            a.finished(TaskKind::Start),
            RadioState { running: true, reading: true, ..b },
        ),
        kin(
            a.failed(TaskKind::Start),
            RadioState { running: false, reading: false, ..b },
        ),
{
    reveal(kin);
}

/// A stream start under way on a radio in state `s`, that began with one in
/// state `first`.
proof fn start_outcome(
    first: RadioState,
    s: RadioState,
    t: TaskState,
    causes: Seq<Option<Seq<char>>>,
)
    requires
        t.kind == TaskKind::Start,
        only_gains(t.writes),
        kin(s, first),
    ensures
        ({
            let end = run(standing(s, t), causes);
            match end.verdict {
                Verdict::Open => kin(end.radio, first),
                Verdict::Done => kin(
                    end.radio,
                    RadioState { running: true, reading: true, ..first },
                ),
                Verdict::Failed(_) => kin(
                    end.radio,
                    RadioState { running: false, reading: false, ..first },
                ),
            }
        }),
    decreases causes.len(),
{
    run_step(s, t, causes);
    end_makes_kin(s, first);
    if !t.done() && causes.len() > 0 {
        let write = t.writes[t.next as int];
        let rest = causes.skip(1);
        if causes[0] is None {
            commit_makes_kin(s, first, write.commit);
            start_outcome(first, s.committed(write.commit), t.accepted(), rest);
        } else if t.refused().failures < 4 {
            start_outcome(first, s, t.refused(), rest);
        }
    }
}

/// However the transfers of a stream start go, it ends in one of two ways: with
/// the device running and a reader at work, or with the device idle and no
/// reader. No setting changes but the gains, which become the steps in use.
pub proof fn stream_start_is_all_or_nothing(
    s: RadioState,
    if_index: u32,
    rf_index: u32,
    causes: Seq<Option<Seq<char>>>,
)
    ensures
        ({
            let started = RadioState { running: true, ..s };
            let t = TaskState::planned(TaskKind::Start, s.arming_writes(if_index, rf_index));
            let end = run(standing(started, t), causes);
            &&& end.task.kind == TaskKind::Start
            &&& match end.verdict {
                Verdict::Open => same_but_gains(end.radio, started),
                Verdict::Done => same_but_gains(
                    end.radio,
                    RadioState { running: true, reading: true, ..s },
                ),
                Verdict::Failed(_) => same_but_gains(
                    end.radio,
                    RadioState { running: false, reading: false, ..s },
                ),
            }
        }),
{
    let started = RadioState { running: true, ..s };
    let t = TaskState::planned(TaskKind::Start, s.arming_writes(if_index, rf_index));
    assert(only_gains(t.writes));
    run_keeps_plan(started, t, causes);
    kin_to_itself(started);
    start_outcome(started, started, t, causes);
    reveal(kin);
}

/// Writes that commit nothing leave the radio as it is.
proof fn nothing_committed(s: RadioState, writes: Seq<RegisterWrite>, n: int)
    requires
        0 <= n <= writes.len(),
        forall|i: int| 0 <= i < n ==> #[trigger] writes[i].commit is Nothing,
    ensures
        committed_all(s, writes) == committed_all(s, writes.skip(n)),
    decreases n,
{
    if n == 0 {
        assert(writes.skip(0) =~= writes);
    } else {
        let rest = writes.skip(1);
        assert forall|i: int| 0 <= i < n - 1 implies #[trigger] rest[i].commit is Nothing by {
            assert(rest[i] == writes[i + 1]);
        }
        nothing_committed(s, rest, n - 1);
        assert(rest.skip(n - 1) =~= writes.skip(n));
        assert(writes[0].commit is Nothing);
    }
}

/// Starting a stream on a device that takes every transfer leaves each gain at
/// the step in use, where the model has that step.
pub proof fn started_gains_are_steps(
    s: RadioState,
    if_index: u32,
    rf_index: u32,
    causes: Seq<Option<Seq<char>>>,
)
    requires
        causes.len() == 8,
        forall|i: int| 0 <= i < causes.len() ==> causes[i] is None,
    ensures
        ({
            let started = RadioState { running: true, ..s };
            let t = TaskState::planned(TaskKind::Start, s.arming_writes(if_index, rf_index));
            let end = run(standing(started, t), causes);
            let if_steps = s.profile().if_steps@;
            let rf_steps = s.profile().rf_steps@;
            &&& end.verdict is Done
            &&& end.radio == (RadioState {
                running: true,
                reading: true,
                if_gain: if if_index < if_steps.len() {
                    if_steps[if_index as int]
                } else {
                    s.if_gain
                },
                rf_gain: if rf_index < rf_steps.len() {
                    rf_steps[rf_index as int]
                } else {
                    s.rf_gain
                },
                ..s
            })
        }),
{
    let started = RadioState { running: true, ..s };
    let t = TaskState::planned(TaskKind::Start, s.arming_writes(if_index, rf_index));
    accepted_operation_goes_through(started, t, causes);
    assert(t.writes.skip(0) =~= t.writes);
    nothing_committed(started, t.writes, 5);
    let tail = t.writes.skip(5);
    let if_write = s.if_gain_write(if_index);
    let rf_write = s.rf_gain_write(rf_index);
    assert(tail[0] == if_write);
    assert(tail.skip(1)[0] == rf_write);
    let after_if = started.committed(if_write.commit);
    let after_rf = after_if.committed(rf_write.commit);
    assert(committed_all(started, tail) == committed_all(after_if, tail.skip(1)));
    assert(committed_all(after_if, tail.skip(1)) == committed_all(after_rf, tail.skip(1).skip(1)));
    let last = tail.skip(1).skip(1);
    assert(last.len() == 1 && last[0].commit is Nothing);
    nothing_committed(after_rf, last, 1);
    assert(committed_all(after_rf, last.skip(1)) == after_rf);
}

proof fn stop_outcome(s: RadioState, t: TaskState, causes: Seq<Option<Seq<char>>>)
    requires
        t.kind == TaskKind::Stop,
        !s.reading,
        t.next < t.writes.len() == 4,
        t.writes == s.stopping_writes(),
    ensures
        ({
            let end = run(standing(s, t), causes);
            if end.verdict is Done {
                end.radio == (RadioState { running: false, ..s })
            } else {
                end.radio == s
            }
        }),
    decreases causes.len(),
{
    run_step(s, t, causes);
    if causes.len() > 0 {
        let write = t.writes[t.next as int];
        let rest = causes.skip(1);
        if causes[0] is None {
            if t.next < 3 {
                stop_outcome(s, t.accepted(), rest);
            } else {
                run_step(s.committed(write.commit), t.accepted(), rest);
            }
        } else if t.refused().failures < 4 {
            stop_outcome(s, t.refused(), rest);
        }
    }
}

/// Stopping a stream makes the device idle once every write has gone through,
/// and changes no setting whatever happens. The settings that are locked while
/// streaming are open to change again from then on.
pub proof fn stream_stop_unlocks_settings(s: RadioState, causes: Seq<Option<Seq<char>>>)
    requires
        s.reading,
    ensures
        ({
            let stopped = RadioState { reading: false, ..s };
            let end = run(standing(stopped, s.stopping()), causes);
            &&& end.task.kind == TaskKind::Stop
            &&& end.verdict is Done ==> end.radio == (RadioState {
                running: false,
                reading: false,
                ..s
            })
            &&& !(end.verdict is Done) ==> end.radio == stopped
        }),
{
    let stopped = RadioState { reading: false, ..s };
    run_keeps_plan(stopped, s.stopping(), causes);
    assert(stopped.stopping_writes() =~= s.stopping_writes());
    stop_outcome(stopped, s.stopping(), causes);
}

/// Cancelling a stream that was never started does nothing and succeeds.
pub proof fn stop_without_stream_is_safe(s: RadioState, causes: Seq<Option<Seq<char>>>)
    requires
        !s.reading,
    ensures
        run(standing(s, s.stopping()), causes).verdict is Done,
        run(standing(s, s.stopping()), causes).task.kind == TaskKind::Apply,
        run(standing(s, s.stopping()), causes).radio == s,
{
    run_step(s, s.stopping(), causes);
}

/// A setting made while idle reaches the device on start just as one made while
/// running does: arming carries the sampling mode, the clock, the filter, the
/// center frequency, both gains and the switches of the ADC.
pub proof fn arming_carries_every_setting(s: RadioState, if_index: u32, rf_index: u32)
    ensures
        ({
            let writes = s.arming_writes(if_index, rf_index);
            let running = RadioState { running: true, ..s };
            &&& writes.len() == 8
            &&& writes[0].reg == Register::REG_TUNER
            &&& writes[0].value == if s.direct_sampling {
                0u32
            } else {
                1u32
            }
            &&& writes[1].reg == Register::REG_ADCFREQ && writes[1].value == s.xtal_freq
            &&& writes[2].reg == Register::REG_DIRECT_ADC_FILTER && writes[2].value
                == s.adc_filter.number()
            &&& writes.subrange(3, 5) == running.when_running(running.center_freq_writes())
            &&& writes.subrange(5, 6) == running.when_running(
                seq![running.if_gain_write(if_index)],
            )
            &&& writes.subrange(6, 7) == running.when_running(
                seq![running.rf_gain_write(rf_index)],
            )
            &&& writes.subrange(7, 8) == running.adc_task().writes
        }),
{
    let writes = s.arming_writes(if_index, rf_index);
    let running = RadioState { running: true, ..s };
    assert(writes.subrange(3, 5) =~= running.when_running(running.center_freq_writes()));
    assert(writes.subrange(5, 6) =~= running.when_running(seq![running.if_gain_write(if_index)]));
    assert(writes.subrange(6, 7) =~= running.when_running(seq![running.rf_gain_write(rf_index)]));
    assert(writes.subrange(7, 8) =~= running.adc_task().writes);
}

/// A stream start sets the enable bit of the ADC and a stream stop clears it.
/// Neither touches any other bit of the switches.
pub proof fn stream_controls_enable_bit(s: RadioState, if_index: u32, rf_index: u32)
    requires
        s.wf(),
        s.hw.adc.disjoint(),
    ensures
        ({
            let enable = s.hw.adc.enable as u32;
            let start = s.arming_writes(if_index, rf_index).last();
            let stop = s.stopping_writes()[0];
            &&& start.reg == Register::REG_ADC && stop.reg == Register::REG_ADC
            &&& start.value & enable == enable
            &&& stop.value & enable == 0
            &&& start.value & !enable == stop.value
            &&& stop.value == s.adc_flags
        }),
{
    let flags = s.adc_flags;
    let enable = s.hw.adc.enable;
    assert(flags & enable == 0 ==> ((flags | enable) as u32) & (enable as u32) == enable as u32 && (
    flags as u32) & (enable as u32) == 0 && ((flags | enable) as u32) & !(enable as u32)
        == flags as u32) by (bit_vector);
}

/// The two register values of a center frequency put together are that
/// frequency.
pub proof fn center_freq_reaches_device_whole(s: RadioState)
    ensures
        s.center_freq_writes()[0].value * 0x1_0000_0000 + s.center_freq_writes()[1].value
            == s.center_freq,
{
    let freq = s.center_freq;
    assert(freq / 0x1_0000_0000 < 0x1_0000_0000);
    assert(s.center_freq_writes()[0].value == freq / 0x1_0000_0000);
    assert(s.center_freq_writes()[1].value == freq % 0x1_0000_0000);
}

/// A running radio's IF gain becomes the step that was selected once the device
/// has taken the write.
pub proof fn running_if_gain_becomes_step(s: RadioState, gain: Gain, index: u32)
    requires
        s.running,
        index < s.profile().if_steps@.len(),
    ensures
        ({
            let requested = RadioState { if_gain: gain, ..s };
            let t = TaskState::planned(
                TaskKind::Apply,
                s.when_running(seq![s.if_gain_write(index)]),
            );
            let end = run(standing(requested, t), seq![None::<Seq<char>>]);
            &&& end.verdict is Done
            &&& end.radio == (RadioState { if_gain: s.profile().if_steps@[index as int], ..s })
        }),
{
    let requested = RadioState { if_gain: gain, ..s };
    let t = TaskState::planned(TaskKind::Apply, s.when_running(seq![s.if_gain_write(index)]));
    accepted_operation_goes_through(requested, t, seq![None::<Seq<char>>]);
    reveal_with_fuel(committed_all, 3);
    assert(t.writes.skip(0) =~= t.writes);
}

/// A running radio's RF gain becomes the step that was selected once the device
/// has taken the write.
pub proof fn running_rf_gain_becomes_step(s: RadioState, gain: Gain, index: u32)
    requires
        s.running,
        index < s.profile().rf_steps@.len(),
    ensures
        ({
            let requested = RadioState { rf_gain: gain, ..s };
            let t = TaskState::planned(
                TaskKind::Apply,
                s.when_running(seq![s.rf_gain_write(index)]),
            );
            let end = run(standing(requested, t), seq![None::<Seq<char>>]);
            &&& end.verdict is Done
            &&& end.radio == (RadioState { rf_gain: s.profile().rf_steps@[index as int], ..s })
        }),
{
    let requested = RadioState { rf_gain: gain, ..s };
    let t = TaskState::planned(TaskKind::Apply, s.when_running(seq![s.rf_gain_write(index)]));
    accepted_operation_goes_through(requested, t, seq![None::<Seq<char>>]);
    reveal_with_fuel(committed_all, 3);
    assert(t.writes.skip(0) =~= t.writes);
}

/// A switch of the ADC shows in its bits and in no others, and the last setting
/// of a switch is the one that counts.
pub proof fn switch_touches_only_its_bits(flags: u8, mask: u8, other: u8, first: bool, last: bool)
    ensures
        switched(flags, mask, true) & mask == mask,
        switched(flags, mask, false) & mask == 0,
        mask & other == 0 ==> switched(flags, mask, last) & other == flags & other,
        switched(switched(flags, mask, first), mask, last) == switched(flags, mask, last),
{
    assert((flags | mask) & mask == mask) by (bit_vector);
    assert((flags & !mask) & mask == 0) by (bit_vector);
    assert(mask & other == 0 ==> (flags | mask) & other == flags & other) by (bit_vector);
    assert(mask & other == 0 ==> (flags & !mask) & other == flags & other) by (bit_vector);
    assert((flags | mask) | mask == flags | mask) by (bit_vector);
    assert((flags | mask) & !mask == flags & !mask) by (bit_vector);
    assert((flags & !mask) | mask == flags | mask) by (bit_vector);
    assert((flags & !mask) & !mask == flags & !mask) by (bit_vector);
}

/// The switches of the ADC.
pub enum Switch {
    Dither,
    Pga,
    Rando,
    HfHighz,
    ExtClock,
}

impl Switch {
    /// The bits of a switch.
    pub open spec fn mask(self, adc: AdcBits) -> u8 {
        match self {
            Switch::Dither => adc.dither,
            Switch::Pga => adc.pga,
            Switch::Rando => adc.rando,
            Switch::HfHighz => adc.hf_highz,
            Switch::ExtClock => adc.ext_clock,
        }
    }

    /// Whether a radio lets the switch be set: randomization is locked while
    /// streaming.
    pub open spec fn open_on(self, s: RadioState) -> bool {
        !(self is Rando && s.running)
    }
}

/// A radio after a switch of its ADC has been called to a position.
pub open spec fn switch_called(s: RadioState, switch: Switch, on: bool) -> RadioState {
    if switch.open_on(s) {
        s.with_adc(switch.mask(s.hw.adc), on)
    } else {
        s
    }
}

/// A radio after a whole series of such calls.
pub open spec fn switches_called(s: RadioState, calls: Seq<(Switch, bool)>) -> RadioState
    decreases calls.len(),
{
    if calls.len() == 0 {
        s
    } else {
        switch_called(
            switches_called(s, calls.drop_last()),
            calls.last().0,
            calls.last().1,
        )
    }
}

/// The position that the last call of a switch asked for, if it was called.
pub open spec fn last_position(calls: Seq<(Switch, bool)>, switch: Switch) -> Option<bool>
    decreases calls.len(),
{
    if calls.len() == 0 {
        None
    } else if calls.last().0 == switch {
        Some(calls.last().1)
    } else {
        last_position(calls.drop_last(), switch)
    }
}

proof fn switches_share_no_bit(adc: AdcBits, a: Switch, b: Switch)
    requires
        adc.disjoint(),
        a != b,
    ensures
        a.mask(adc) & b.mask(adc) == 0,
{
    let x = a.mask(adc);
    let y = b.mask(adc);
    assert(x & y == y & x) by (bit_vector);
}

/// After any series of calls of the five switches, the bits of each are what its
/// own last call asked for, and what they were where it was not called or is
/// locked. Nothing of the radio but the switches changes.
pub proof fn last_call_of_a_switch_counts(
    s: RadioState,
    calls: Seq<(Switch, bool)>,
    switch: Switch,
)
    requires
        s.hw.adc.disjoint(),
    ensures
        ({
            let end = switches_called(s, calls);
            let mask = switch.mask(s.hw.adc);
            &&& end == (RadioState { adc_flags: end.adc_flags, ..s })
            &&& end.adc_flags & mask == match last_position(calls, switch) {
                Some(on) => if !switch.open_on(s) {
                    s.adc_flags & mask
                } else if on {
                    mask
                } else {
                    0
                },
                None => s.adc_flags & mask,
            }
        }),
    decreases calls.len(),
{
    if calls.len() > 0 {
        last_call_of_a_switch_counts(s, calls.drop_last(), switch);
        let before = switches_called(s, calls.drop_last());
        let (called, on) = calls.last();
        let mask = switch.mask(s.hw.adc);
        switch_touches_only_its_bits(
            before.adc_flags,
            called.mask(s.hw.adc),
            mask,
            on,
            on,
        );
        if called != switch {
            switches_share_no_bit(s.hw.adc, called, switch);
        }
    }
}

/// Nothing that can be switched while streaming changes whether the ADC
/// randomizes its output, and the value in its control register says the same:
/// the reader of a stream undoes the randomization exactly when it is there.
pub proof fn randomization_is_fixed_while_streaming(s: RadioState, mask: u8, on: bool)
    requires
        s.hw.adc.disjoint(),
        mask == s.hw.adc.dither || mask == s.hw.adc.pga || mask == s.hw.adc.hf_highz || mask
            == s.hw.adc.ext_clock,
    ensures
        s.with_adc(mask, on).derandomizes() == s.derandomizes(),
        (s.adc_value() & (s.hw.adc.rando as u32) != 0) == s.derandomizes(),
{
    let flags = s.adc_flags;
    let rando = s.hw.adc.rando;
    let enable = s.hw.adc.enable;
    assert(mask & rando == 0) by {
        assert(rando & mask == mask & rando) by (bit_vector);
    }
    switch_touches_only_its_bits(flags, mask, rando, on, on);
    assert(enable & rando == 0 ==> (((flags | enable) as u32) & (rando as u32) != 0) == (flags
        & rando != 0)) by (bit_vector);
}

/// A GPIO state that was written reads back with the state of every pin as it
/// was.
pub proof fn gpio_state_round_trip(state: u8)
    ensures
        le_value(le_bytes((state & 0x7F) as u32)) % 0x80 == state & 0x7F,
{
    assert(state & 0x7F < 0x80) by (bit_vector);
    register_bytes_round_trip((state & 0x7F) as u32);
}

/// A radio that could be opened is of a known model, runs the firmware that the
/// driver works with, starts out idle in direct sampling, and reports the
/// version as major byte and minor byte.
pub proof fn opened_radio_runs_expected_firmware(
    device: DeviceInfo,
    hw: Hardware,
    gains: GainCatalog,
    data: Seq<u8>,
)
    requires
        data.len() >= 4,
        RadioModel::of_byte(data[0]) != RadioModel::NORADIO,
        data[1] == hw.firmware_major,
        data[2] == hw.firmware_minor,
    ensures
        ({
            let s = opened(device, hw, gains, data);
            &&& s.firmware_version / 0x100 == hw.firmware_major
            &&& s.firmware_version % 0x100 == hw.firmware_minor
            &&& s.model != RadioModel::NORADIO
            &&& s.wf() && !s.running && s.direct_sampling && s.xtal_freq > 0
        }),
{
    let enable = hw.adc.enable;
    assert(0u8 & enable == 0) by (bit_vector);
}

/// The ranges and steps of a radio are those that the catalog holds for its very
/// model and its current sampling mode.
pub proof fn radio_has_the_gains_of_its_model(s: RadioState)
    ensures
        s.model == RadioModel::NORADIO ==> s.profile() == if s.direct_sampling {
            s.gains.noradio.direct
        } else {
            s.gains.noradio.tuner
        },
        s.model == RadioModel::RX888 ==> s.profile() == if s.direct_sampling {
            s.gains.rx888.direct
        } else {
            s.gains.rx888.tuner
        },
        s.model == RadioModel::RX888r2 ==> s.profile() == if s.direct_sampling {
            s.gains.rx888r2.direct
        } else {
            s.gains.rx888r2.tuner
        },
        s.model == RadioModel::RX888plus ==> s.profile() == if s.direct_sampling {
            s.gains.rx888plus.direct
        } else {
            s.gains.rx888plus.tuner
        },
        s.model == RadioModel::RX888pro ==> s.profile() == if s.direct_sampling {
            s.gains.rx888pro.direct
        } else {
            s.gains.rx888pro.tuner
        },
{
}

/// The firmware knows the filters by the numbers 0 to 3, one each.
pub proof fn filters_have_their_own_numbers()
    ensures
        FilterMode::Freq64MHz.number() == 0,
        FilterMode::Freq32MHz.number() == 1,
        FilterMode::FMUndersample.number() == 2,
        FilterMode::Bypass.number() == 3,
{
}

/// The tuner register reports a locked PLL in the bit that counts 2 and harmonic
/// mode in the bit that counts 4, whatever else it holds.
pub proof fn tuner_reports_in_its_own_bits(status: u32)
    ensures
        pll_locked(status) <==> (status / 2) % 2 == 1,
        harmonic(status) <==> (status / 4) % 2 == 1,
{
    assert((status & 0x2 != 0) == ((status / 2) % 2 == 1) && (status & 0x4 != 0) == ((status / 4)
        % 2 == 1)) by (bit_vector);
}

/// A register write that only sets a register changes nothing in the radio, and
/// a switch goes out as 1 or 0.
pub proof fn plain_writes_only_set_a_register(reg: Register, value: u32, on: bool)
    ensures
        plain(reg, value).reg == reg,
        plain(reg, value).value == value,
        plain(reg, value).commit is Nothing,
        bit(true) == 1,
        bit(false) == 0,
{
}

/// A radio that was just opened is the device that was found, of the model that
/// its first byte says, and has its settings at their defaults: direct sampling,
/// the 64 MHz filter, center frequency 0, gains of 0 dB, no switch of the ADC on,
/// and a clock of 61.44 MHz on the PRO and of 64 MHz on every other model.
pub proof fn opened_radio_has_default_settings(
    device: DeviceInfo,
    hw: Hardware,
    gains: GainCatalog,
    data: Seq<u8>,
)
    ensures
        ({
            let s = opened(device, hw, gains, data);
            &&& s.device == device && s.hw == hw && s.gains == gains
            &&& s.firmware_version == 256 * data[1] + data[2]
            &&& data[0] == 0x03 ==> s.model == RadioModel::RX888
            &&& data[0] == 0x04 ==> s.model == RadioModel::RX888r2
            &&& data[0] == 0x05 ==> s.model == RadioModel::RX888plus
            &&& data[0] == 0x07 ==> s.model == RadioModel::RX888pro
            &&& data[0] == 0x07 ==> s.xtal_freq == 61_440_000
            &&& data[0] != 0x07 ==> s.xtal_freq == 64_000_000
            &&& s.direct_sampling && s.center_freq == 0
            &&& s.adc_filter == FilterMode::Freq64MHz && s.adc_flags == 0
            &&& s.if_gain.bits == 0 && s.rf_gain.bits == 0
            &&& !s.running && !s.reading
        }),
{
}

/// The value that a register holds after writes, if one of them was to it.
pub open spec fn last_written(writes: Seq<RegisterWrite>, reg: Register) -> Option<u32>
    decreases writes.len(),
{
    if writes.len() == 0 {
        None
    } else if writes.last().reg == reg {
        Some(writes.last().value)
    } else {
        last_written(writes.drop_last(), reg)
    }
}

/// A stream that is started with no setting changed since the radio was opened
/// runs with the tuner off, the model's clock, the 64 MHz filter, center frequency
/// 0, and nothing but the enable bit in the control register of the ADC.
pub proof fn first_start_writes_the_defaults(
    device: DeviceInfo,
    hw: Hardware,
    gains: GainCatalog,
    data: Seq<u8>,
    if_index: u32,
    rf_index: u32,
)
    ensures
        ({
            let writes = opened(device, hw, gains, data).arming_writes(if_index, rf_index);
            &&& last_written(writes, Register::REG_TUNER) == Some(0u32)
            &&& last_written(writes, Register::REG_ADCFREQ) == Some(
                if data[0] == 0x07 {
                    61_440_000u32
                } else {
                    64_000_000u32
                },
            )
            &&& last_written(writes, Register::REG_DIRECT_ADC_FILTER) == Some(0u32)
            &&& last_written(writes, Register::REG_TUNER_CENTER_FREQ_HIGH) == Some(0u32)
            &&& last_written(writes, Register::REG_TUNER_CENTER_FREQ_LOW) == Some(0u32)
            &&& last_written(writes, Register::REG_ADC) == Some(hw.adc.enable as u32)
        }),
{
    let s = opened(device, hw, gains, data);
    let writes = s.arming_writes(if_index, rf_index);
    let enable = hw.adc.enable;
    start_brings_every_setting_to_the_device(s, if_index, rf_index);
    assert(0u8 | enable == enable) by (bit_vector);
    reveal_with_fuel(last_written, 9);
}

/// A stream start brings every setting to the device: the sampling mode, the
/// clock, the filter, both halves of the center frequency, each gain to the
/// register of the current mode, and last of all the switches of the ADC
/// together with its enable bit.
pub proof fn start_brings_every_setting_to_the_device(s: RadioState, if_index: u32, rf_index: u32)
    ensures
        ({
            let w = s.arming_writes(if_index, rf_index);
            &&& w.len() == 8
            &&& w[0].reg == Register::REG_TUNER
            &&& s.direct_sampling ==> w[0].value == 0
            &&& !s.direct_sampling ==> w[0].value == 1
            &&& w[1].reg == Register::REG_ADCFREQ && w[1].value == s.xtal_freq
            &&& w[2].reg == Register::REG_DIRECT_ADC_FILTER
            &&& s.adc_filter == FilterMode::Freq64MHz ==> w[2].value == 0
            &&& s.adc_filter == FilterMode::Freq32MHz ==> w[2].value == 1
            &&& s.adc_filter == FilterMode::FMUndersample ==> w[2].value == 2
            &&& s.adc_filter == FilterMode::Bypass ==> w[2].value == 3
            &&& w[3].reg == Register::REG_TUNER_CENTER_FREQ_HIGH
            &&& w[4].reg == Register::REG_TUNER_CENTER_FREQ_LOW
            &&& w[3].value * 0x1_0000_0000 + w[4].value == s.center_freq
            &&& s.direct_sampling ==> w[5].reg == Register::REG_DIRECT_IF_GAIN
            &&& !s.direct_sampling ==> w[5].reg == Register::REG_TUNER_IF_GAIN
            &&& s.direct_sampling ==> w[6].reg == Register::REG_DIRECT_RF_GAIN
            &&& !s.direct_sampling ==> w[6].reg == Register::REG_TUNER_RF_GAIN
            &&& w[5].value == if_index && w[6].value == rf_index
            &&& w[7].reg == Register::REG_ADC
            &&& w[7].value == s.adc_flags | s.hw.adc.enable
            &&& forall|i: int|
                0 <= i < 8 && i != 5 && i != 6 ==> (#[trigger] w[i]).commit is Nothing
            &&& w[5].commit == if if_index < s.profile().if_steps@.len() {
                Commit::IfGain(s.profile().if_steps@[if_index as int])
            } else {
                Commit::Nothing
            }
            &&& w[6].commit == if rf_index < s.profile().rf_steps@.len() {
                Commit::RfGain(s.profile().rf_steps@[rf_index as int])
            } else {
                Commit::Nothing
            }
        }),
{
    center_freq_reaches_device_whole(s);
}

/// A stream stop switches everything off, in either sampling mode and whatever
/// the settings are: the ADC keeps its switches without the enable bit, and the
/// tuner and the bias voltage of both antennas get a 0. It writes to no other
/// register, and the device counts as idle with the last of these writes. Where
/// no stream is read, a stop writes nothing.
pub proof fn stop_powers_everything_down(s: RadioState, reg: Register)
    ensures
        s.stopping().next == 0 && s.stopping().failures == 0,
        !s.reading ==> s.stopping().kind == TaskKind::Apply && s.stopping().writes.len() == 0,
        s.reading ==> {
            let w = s.stopping().writes;
            &&& s.stopping().kind == TaskKind::Stop
            &&& last_written(w, Register::REG_ADC) == Some(s.adc_flags as u32)
            &&& last_written(w, Register::REG_TUNER) == Some(0u32)
            &&& last_written(w, Register::REG_DIRECT_ANT_BIAS) == Some(0u32)
            &&& last_written(w, Register::REG_TUNER_ANT_BIAS) == Some(0u32)
            &&& last_written(w, reg) is Some ==> reg == Register::REG_ADC || reg
                == Register::REG_TUNER || reg == Register::REG_DIRECT_ANT_BIAS || reg
                == Register::REG_TUNER_ANT_BIAS
            &&& w.len() == 4 && w[0].reg == Register::REG_ADC && w[1].reg == Register::REG_TUNER
            &&& forall|i: int| 0 <= i < 3 ==> (#[trigger] w[i]).commit is Nothing
            &&& w[3].commit is Stopped
        },
{
    reveal_with_fuel(last_written, 5);
}

/// The writes that the device takes in the course of an operation.
pub open spec fn taken(t: TaskState, causes: Seq<Option<Seq<char>>>) -> Seq<RegisterWrite>
    decreases causes.len(),
{
    if t.done() || causes.len() == 0 {
        Seq::empty()
    } else {
        match causes[0] {
            None => seq![t.writes[t.next as int]] + taken(t.accepted(), causes.skip(1)),
            Some(_) => if t.refused().failures < 4 {
                taken(t.refused(), causes.skip(1))
            } else {
                Seq::empty()
            },
        }
    }
}

/// However its transfers go, an operation has brought to the device just the
/// writes up to the one where it stands, in order and each once; one that has
/// gone through has brought them all.
pub proof fn device_takes_writes_in_order(
    s: RadioState,
    t: TaskState,
    causes: Seq<Option<Seq<char>>>,
)
    requires
        t.next <= t.writes.len(),
    ensures
        ({
            let end = run(standing(s, t), causes);
            &&& t.next <= end.task.next <= t.writes.len()
            &&& taken(t, causes) == t.writes.subrange(t.next as int, end.task.next as int)
            &&& end.verdict is Done <==> end.task.next == t.writes.len()
        }),
    decreases causes.len(),
{
    run_step(s, t, causes);
    let end = run(standing(s, t), causes);
    if !t.done() && causes.len() > 0 {
        let write = t.writes[t.next as int];
        let rest = causes.skip(1);
        if causes[0] is None {
            let after = s.committed(write.commit);
            device_takes_writes_in_order(after, t.accepted(), rest);
            assert(seq![write] + t.writes.subrange((t.next + 1) as int, end.task.next as int)
                =~= t.writes.subrange(t.next as int, end.task.next as int));
        } else if t.refused().failures < 4 {
            device_takes_writes_in_order(s, t.refused(), rest);
        }
    }
    if taken(t, causes).len() == 0 {
        assert(taken(t, causes) =~= t.writes.subrange(t.next as int, t.next as int));
    }
}

/// After a stop that has gone through, however often its transfers had to be
/// repeated, the last value that the device took for the tuner and for the bias
/// voltage of each antenna is 0.
pub proof fn stopped_device_is_powered_down(s: RadioState, causes: Seq<Option<Seq<char>>>)
    requires
        s.reading,
    ensures
        ({
            let stopped = RadioState { reading: false, ..s };
            let writes = taken(s.stopping(), causes);
            run(standing(stopped, s.stopping()), causes).verdict is Done ==> {
                &&& last_written(writes, Register::REG_ADC) == Some(s.adc_flags as u32)
                &&& last_written(writes, Register::REG_TUNER) == Some(0u32)
                &&& last_written(writes, Register::REG_DIRECT_ANT_BIAS) == Some(0u32)
                &&& last_written(writes, Register::REG_TUNER_ANT_BIAS) == Some(0u32)
            }
        }),
{
    let stopped = RadioState { reading: false, ..s };
    let t = s.stopping();
    device_takes_writes_in_order(stopped, t, causes);
    stop_powers_everything_down(s, Register::REG_ADC);
    assert(t.writes.subrange(0, t.writes.len() as int) =~= t.writes);
}

/// Settings go to a running device at once and to an idle one not at all.
pub proof fn settings_apply_at_once_when_running(s: RadioState, writes: Seq<RegisterWrite>)
    ensures
        s.running ==> s.when_running(writes) == writes,
        !s.running ==> s.when_running(writes).len() == 0,
        s.adc_task().kind == TaskKind::Apply,
        s.adc_task().next == 0 && s.adc_task().failures == 0,
        !s.running ==> s.adc_task().writes.len() == 0,
        s.running ==> {
            let w = s.adc_task().writes;
            &&& w.len() == 1
            &&& w[0].reg == Register::REG_ADC
            &&& w[0].value == s.adc_flags | s.hw.adc.enable
            &&& w[0].commit is Nothing
        },
{
}

/// A gain goes to the register of its kind in the current sampling mode, as the
/// index asked for, and becomes the step behind that index where the model has
/// one.
pub proof fn gain_goes_to_the_register_of_the_mode(s: RadioState, index: u32)
    ensures
        s.if_gain_write(index).value == index,
        s.rf_gain_write(index).value == index,
        s.direct_sampling ==> s.if_gain_write(index).reg == Register::REG_DIRECT_IF_GAIN,
        s.direct_sampling ==> s.rf_gain_write(index).reg == Register::REG_DIRECT_RF_GAIN,
        !s.direct_sampling ==> s.if_gain_write(index).reg == Register::REG_TUNER_IF_GAIN,
        !s.direct_sampling ==> s.rf_gain_write(index).reg == Register::REG_TUNER_RF_GAIN,
        s.if_gain_write(index).commit == if index < s.profile().if_steps@.len() {
            Commit::IfGain(s.profile().if_steps@[index as int])
        } else {
            Commit::Nothing
        },
        s.rf_gain_write(index).commit == if index < s.profile().rf_steps@.len() {
            Commit::RfGain(s.profile().rf_steps@[index as int])
        } else {
            Commit::Nothing
        },
{
}

/// A center frequency goes out as its upper half and then its lower half, each
/// to its own register.
pub proof fn center_freq_goes_out_in_halves(s: RadioState)
    ensures
        ({
            let w = s.center_freq_writes();
            &&& w.len() == 2
            &&& w[0].reg == Register::REG_TUNER_CENTER_FREQ_HIGH
            &&& w[1].reg == Register::REG_TUNER_CENTER_FREQ_LOW
            &&& w[0].value * 0x1_0000_0000 + w[1].value == s.center_freq
            &&& w[0].commit is Nothing && w[1].commit is Nothing
        }),
{
    center_freq_reaches_device_whole(s);
}

/// The preamplifier of the current sampling mode is switched, and the bias
/// voltage of the antenna that the index stands for.
pub proof fn front_end_switches_go_to_their_own_register(s: RadioState, on: bool)
    ensures
        s.direct_sampling ==> s.preamp_write(on).reg == Register::REG_DIRECT_PREAMP,
        !s.direct_sampling ==> s.preamp_write(on).reg == Register::REG_TUNER_PREAMP,
        on ==> s.preamp_write(on).value == 1,
        !on ==> s.preamp_write(on).value == 0,
        s.preamp_write(on).commit is Nothing,
        antenna_bias(0) == Register::REG_DIRECT_ANT_BIAS,
        antenna_bias(1) == Register::REG_TUNER_ANT_BIAS,
{
}

/// A switch of the ADC changes its own bits and nothing else in the radio, and
/// the samples are randomized exactly when a bit of that switch is on.
pub proof fn adc_switch_changes_only_the_flags(s: RadioState, mask: u8, other: u8, on: bool)
    ensures
        s.with_adc(mask, on) == (RadioState { adc_flags: s.with_adc(mask, on).adc_flags, ..s }),
        on ==> s.with_adc(mask, on).adc_flags & mask == mask,
        !on ==> s.with_adc(mask, on).adc_flags & mask == 0,
        mask & other == 0 ==> s.with_adc(mask, on).adc_flags & other == s.adc_flags & other,
        s.derandomizes() <==> s.adc_flags & s.hw.adc.rando != 0,
        s.adc_value() == s.adc_flags | s.hw.adc.enable,
{
    switch_touches_only_its_bits(s.adc_flags, mask, other, on, on);
}

/// What the device takes shows in the radio: a gain step in that gain and in
/// nothing else, the end of a stream in the device being idle without a reader,
/// and any other write not at all. A start that goes through leaves the device
/// running with a reader, one that fails leaves it idle without; the end of any
/// other operation changes nothing.
pub proof fn radio_keeps_up_with_the_device(s: RadioState, gain: Gain, kind: TaskKind)
    ensures
        s.committed(Commit::Nothing) == s,
        s.committed(Commit::IfGain(gain)) == (RadioState { if_gain: gain, ..s }),
        s.committed(Commit::RfGain(gain)) == (RadioState { rf_gain: gain, ..s }),
        s.committed(Commit::Stopped) == (RadioState { running: false, reading: false, ..s }),
        s.finished(TaskKind::Start) == (RadioState { running: true, reading: true, ..s }),
        s.failed(TaskKind::Start) == (RadioState { running: false, reading: false, ..s }),
        kind != TaskKind::Start ==> s.finished(kind) == s && s.failed(kind) == s,
{
}

/// One transfer of an operation, told by how it went: the write counts as taken
/// and the next one follows; or it stays, with one failure more; or, with the
/// fourth failure, the operation is over and says which register it was.
pub proof fn each_transfer_moves_an_operation_on(
    s: RadioState,
    t: TaskState,
    cause: Option<Seq<char>>,
)
    requires
        t.next < t.writes.len(),
    ensures
        ({
            let end = reported(s, t, cause);
            let write = t.writes[t.next as int];
            &&& end.task.kind == t.kind && end.task.writes == t.writes
            &&& cause is None ==> {
                &&& end.task.next == t.next + 1 && end.task.failures == 0
                &&& t.next + 1 < t.writes.len() ==> end.verdict is Open && end.radio
                    == s.committed(write.commit)
                &&& t.next + 1 == t.writes.len() ==> end.verdict is Done && end.radio
                    == s.committed(write.commit).finished(t.kind)
            }
            &&& cause matches Some(text) ==> {
                &&& end.task.next == t.next
                &&& t.failures + 1 <= 4 ==> end.task.failures == t.failures + 1
                &&& t.failures + 1 < 4 ==> end.verdict is Open && end.radio == s
                &&& t.failures + 1 >= 4 ==> end.radio == s.failed(t.kind) && end.verdict
                    == Verdict::Failed(refusal_text(write.reg, text))
            }
        }),
{
}

/// A report to an operation that has nothing left to write changes nothing: it
/// stays where it is and has gone through.
pub proof fn finished_operation_stays_finished(
    s: RadioState,
    t: TaskState,
    cause: Option<Seq<char>>,
)
    requires
        t.next >= t.writes.len(),
    ensures
        reported(s, t, cause).task == t,
        reported(s, t, cause).verdict is Done,
        reported(s, t, cause).radio == if t.kind == TaskKind::Start {
            RadioState { running: true, reading: true, ..s }
        } else {
            s
        },
{
}

/// What an operation asks for is the transfer of its current write, at once on
/// the first attempt and after 2 ms on a further one; a reader, which undoes the
/// randomization if there is one, where a start has gone through; and otherwise
/// nothing more than to report how it ended.
pub proof fn operation_asks_for_its_current_write(s: RadioState, t: TaskState, action: Action)
    requires
        asks(standing(s, t), action),
    ensures
        t.next < t.writes.len() ==> {
            let write = t.writes[t.next as int];
            &&& action matches Action::Transfer { pause_ms, out }
            &&& t.failures == 0 ==> pause_ms == 0
            &&& t.failures > 0 ==> pause_ms == 2
            &&& out.request == s.hw.register_request
            &&& out.value == 0
            &&& out.index == s.hw.registers.at(write.reg)
            &&& out.data@.len() == 4
            &&& write.value == out.data@[0] + 256 * (out.data@[1] + 256 * (out.data@[2] + 256
                * out.data@[3]))
            &&& standing(s, t).radio == s
        },
        t.next >= t.writes.len() && t.kind == TaskKind::Start ==> {
            &&& action matches Action::SpawnReader(worker)
            &&& worker@.rando == (s.adc_flags & s.hw.adc.rando != 0)
            &&& worker@.errors == 0
            &&& standing(s, t).radio == (RadioState { running: true, reading: true, ..s })
        },
        t.next >= t.writes.len() && t.kind != TaskKind::Start ==> {
            &&& action == Action::Finished(Ok(()))
            &&& standing(s, t).radio == s
        },
{
    if t.next < t.writes.len() {
        let write = t.writes[t.next as int];
        registers_are_reached_by_number(s.hw, write.reg, write.value, action->out);
    }
}

/// A failed operation reports its text as a communication error, and a transfer
/// has a cause exactly when it failed.
pub proof fn failed_operation_reports_its_text(p: Progress, action: Action, cause: String)
    ensures
        asks(p, action) ==> (p.verdict matches Verdict::Failed(text) ==> {
            &&& action matches Action::Finished(Err(SdrError::CommunicationError(said)))
            &&& said@ == text
        }),
        cause_of(Ok(())) is None,
        cause_of(Err(cause)) == Some(cause@),
{
}

/// A radio is as it should be exactly when its model is known, no reader is at
/// work on an idle device, and the switches leave the enable bit alone.
pub proof fn radios_are_well_formed(s: RadioState)
    ensures
        s.wf() <==> {
            &&& s.model != RadioModel::NORADIO
            &&& !(s.reading && !s.running)
            &&& s.hw.adc.disjoint() ==> s.adc_flags & s.hw.adc.enable == 0
        },
{
}

} // verus!
