//! The radio: its settings, and what each operation does to them and to the
//! device.
use vstd::prelude::*;
use vstd::string::StringExecFns;

use crate::error::SdrError;
use crate::gain::{Gain, GainCatalog, GainProfile};
use crate::interface::{Hardware, RadioModel, Register};
use crate::stream::AsyncReadWorker;
use crate::stream::WorkerState;
use crate::task::{Commit, RegisterWrite, Task, TaskKind};
use crate::task::{TaskState, refusal_text, refusal};
use crate::text::{decimal, int_text};
use crate::usb::{ControlRead, ControlWrite, DeviceInfo, RegisterReply};
use crate::usb::{complete, le_value, pause_after, register_value};

verus! {

#[derive(Clone, Copy, PartialEq, Eq, Structural)]
enum DeviceState {
    Idle,
    Running,
}

/// ADC filter for RX888 PRO
#[derive(Debug, Clone, Copy, PartialEq, Eq, Structural)]
pub enum FilterMode {
    /// 64Mhz LPF Filter
    Freq64MHz,
    /// 32Mhz LPF Filter
    Freq32MHz,
    /// BPF Filter for FM Undersampling
    FMUndersample,
    /// Bypass mode: anti-aliasing must be handled by the input signal
    Bypass,
}

impl FilterMode {
    /// The number by which the firmware knows the filter.
    pub open spec fn number(self) -> u32 {
        match self {
            FilterMode::Freq64MHz => 0,
            FilterMode::Freq32MHz => 1,
            FilterMode::FMUndersample => 2,
            FilterMode::Bypass => 3,
        }
    }

    /// The number by which the firmware knows the filter.
    pub fn code(&self) -> (code: u32)
        ensures
            code == self.number(),
    {
        match self {
            FilterMode::Freq64MHz => 0,
            FilterMode::Freq32MHz => 1,
            FilterMode::FMUndersample => 2,
            FilterMode::Bypass => 3,
        }
    }
}

/// Everything that is known of a radio.
pub struct RadioState {
    pub device: DeviceInfo,
    pub hw: Hardware,
    pub gains: GainCatalog,
    pub firmware_version: u16,
    pub model: RadioModel,
    pub xtal_freq: u32,
    pub direct_sampling: bool,
    pub center_freq: u64,
    pub if_gain: Gain,
    pub rf_gain: Gain,
    pub adc_flags: u8,
    pub adc_filter: FilterMode,
    /// Whether settings go to the device at once.
    pub running: bool,
    /// Whether a reader is at work.
    pub reading: bool,
}

/// A write that changes nothing in the radio.
pub open spec fn plain(reg: Register, value: u32) -> RegisterWrite {
    RegisterWrite { reg, value, commit: Commit::Nothing }
}

fn plain_write(reg: Register, value: u32) -> (write: RegisterWrite)
    ensures
        write == plain(reg, value),
{
    RegisterWrite { reg, value, commit: Commit::Nothing }
}

/// Whether the tuner register reports a locked PLL.
pub open spec fn pll_locked(status: u32) -> bool {
    status & 0x2 != 0
}

/// Whether the tuner register reports harmonic mode.
pub open spec fn harmonic(status: u32) -> bool {
    status & 0x4 != 0
}

/// The register of the bias voltage on the direct (0) or tuner (1) antenna.
pub open spec fn antenna_bias(index: int) -> Register {
    if index == 0 {
        Register::REG_DIRECT_ANT_BIAS
    } else {
        Register::REG_TUNER_ANT_BIAS
    }
}

/// One for `true`, zero for `false`.
pub open spec fn bit(on: bool) -> u32 {
    if on {
        1
    } else {
        0
    }
}

/// `flags` with `mask` switched on or off.
pub open spec fn switched(flags: u8, mask: u8, on: bool) -> u8 {
    if on {
        flags | mask
    } else {
        flags & !mask
    }
}

/// A switch whose bits are not those of `enable` leaves those clear.
proof fn switch_spares_enable(flags: u8, mask: u8, on: bool, enable: u8)
    requires
        flags & enable == 0,
        enable & mask == 0,
    ensures
        switched(flags, mask, on) & enable == 0,
{
    assert(flags & enable == 0 && enable & mask == 0 ==> (flags | mask) & enable == 0 && (flags
        & !mask) & enable == 0) by (bit_vector);
}

impl RadioState {
    /// The model is a known one, a reader is at work only while the device is
    /// running, and the switches of the ADC leave its enable bit alone.
    pub open spec fn wf(self) -> bool {
        &&& self.model != RadioModel::NORADIO
        &&& self.reading ==> self.running
        &&& self.hw.adc.disjoint() ==> self.adc_flags & self.hw.adc.enable == 0
    }

    /// The gains that the model offers in the current sampling mode.
    pub open spec fn profile(self) -> GainProfile {
        self.gains.at(self.model, self.direct_sampling)
    }

    /// What the ADC control register holds while streaming.
    pub open spec fn adc_value(self) -> u32 {
        (self.adc_flags | self.hw.adc.enable) as u32
    }

    /// Whether the ADC randomizes its output, so that the reader has to undo it.
    pub open spec fn derandomizes(self) -> bool {
        self.adc_flags & self.hw.adc.rando != 0
    }

    /// The radio with a switch of the ADC on or off.
    pub open spec fn with_adc(self, mask: u8, on: bool) -> RadioState {
        RadioState { adc_flags: switched(self.adc_flags, mask, on), ..self }
    }

    /// The operation that brings the switches of the ADC to a running device.
    pub open spec fn adc_task(self) -> TaskState {
        TaskState::planned(
            TaskKind::Apply,
            self.when_running(seq![plain(Register::REG_ADC, self.adc_value())]),
        )
    }

    /// Writes that retune a running device.
    pub open spec fn center_freq_writes(self) -> Seq<RegisterWrite> {
        seq![
            plain(
                Register::REG_TUNER_CENTER_FREQ_HIGH,
                (self.center_freq / 0x1_0000_0000) as u32,
            ),
            plain(
                Register::REG_TUNER_CENTER_FREQ_LOW,
                (self.center_freq % 0x1_0000_0000) as u32,
            ),
        ]
    }

    /// Write that selects step `index` of the IF gain. The gain becomes that
    /// step where the model has one.
    pub open spec fn if_gain_write(self, index: u32) -> RegisterWrite {
        let steps = self.profile().if_steps@;
        RegisterWrite {
            reg: if self.direct_sampling {
                Register::REG_DIRECT_IF_GAIN
            } else {
                Register::REG_TUNER_IF_GAIN
            },
            value: index,
            commit: if index < steps.len() {
                Commit::IfGain(steps[index as int])
            } else {
                Commit::Nothing
            },
        }
    }

    /// Write that selects step `index` of the RF gain. The gain becomes that
    /// step where the model has one.
    pub open spec fn rf_gain_write(self, index: u32) -> RegisterWrite {
        let steps = self.profile().rf_steps@;
        RegisterWrite {
            reg: if self.direct_sampling {
                Register::REG_DIRECT_RF_GAIN
            } else {
                Register::REG_TUNER_RF_GAIN
            },
            value: index,
            commit: if index < steps.len() {
                Commit::RfGain(steps[index as int])
            } else {
                Commit::Nothing
            },
        }
    }

    /// Writes that arm the device for streaming.
    pub open spec fn arming_writes(self, if_index: u32, rf_index: u32) -> Seq<RegisterWrite> {
        seq![
            plain(Register::REG_TUNER, bit(!self.direct_sampling)),
            plain(Register::REG_ADCFREQ, self.xtal_freq),
            plain(Register::REG_DIRECT_ADC_FILTER, self.adc_filter.number()),
        ] + self.center_freq_writes() + seq![
            self.if_gain_write(if_index),
            self.rf_gain_write(rf_index),
            plain(Register::REG_ADC, self.adc_value()),
        ]
    }

    /// Writes that stop the stream and power down what it used.
    pub open spec fn stopping_writes(self) -> Seq<RegisterWrite> {
        seq![
            plain(Register::REG_ADC, self.adc_flags as u32),
            plain(Register::REG_TUNER, 0),
            plain(Register::REG_DIRECT_ANT_BIAS, 0),
            RegisterWrite { reg: Register::REG_TUNER_ANT_BIAS, value: 0, commit: Commit::Stopped },
        ]
    }

    /// The operation that stops the stream, if there is one.
    pub open spec fn stopping(self) -> TaskState {
        if self.reading {
            TaskState::planned(TaskKind::Stop, self.stopping_writes())
        } else {
            TaskState::planned(TaskKind::Apply, Seq::empty())
        }
    }

    /// Write that switches the preamplifier of the current sampling mode.
    pub open spec fn preamp_write(self, on: bool) -> RegisterWrite {
        plain(
            if self.direct_sampling {
                Register::REG_DIRECT_PREAMP
            } else {
                Register::REG_TUNER_PREAMP
            },
            bit(on),
        )
    }

    /// `writes` on a running device; an idle one gets the setting on start.
    pub open spec fn when_running(self, writes: Seq<RegisterWrite>) -> Seq<RegisterWrite> {
        if self.running {
            writes
        } else {
            Seq::empty()
        }
    }

    /// The radio once the device has taken a write.
    pub open spec fn committed(self, commit: Commit) -> RadioState {
        match commit {
            Commit::Nothing => self,
            Commit::IfGain(gain) => RadioState { if_gain: gain, ..self },
            Commit::RfGain(gain) => RadioState { rf_gain: gain, ..self },
            Commit::Stopped => RadioState { running: false, reading: false, ..self },
        }
    }

    /// The radio once an operation has gone through.
    pub open spec fn finished(self, kind: TaskKind) -> RadioState {
        match kind {
            TaskKind::Start => RadioState { running: true, reading: true, ..self },
            _ => self,
        }
    }

    /// The radio once an operation has failed.
    pub open spec fn failed(self, kind: TaskKind) -> RadioState {
        match kind {
            TaskKind::Start => RadioState { running: false, reading: false, ..self },
            _ => self,
        }
    }
}

/// What carrying out an operation asks for next.
pub enum Action {
    /// Pause, make the transfer, and report how it went.
    Transfer { pause_ms: u64, out: ControlWrite },
    /// Spawn the reader; the operation has gone through.
    SpawnReader(AsyncReadWorker),
    /// The operation is over.
    Finished(Result<(), SdrError>),
}

/// How an operation stands.
pub enum Verdict {
    /// Its current write has yet to be carried out.
    Open,
    /// It has gone through.
    Done,
    /// It has failed, with this text.
    Failed(Seq<char>),
}

/// An operation under way on a radio.
pub struct Progress {
    pub radio: RadioState,
    pub task: TaskState,
    pub verdict: Verdict,
}

/// An operation in state `t` on a radio in state `s`: it has gone through once
/// all its writes have.
pub open spec fn standing(s: RadioState, t: TaskState) -> Progress {
    if t.done() {
        Progress { radio: s.finished(t.kind), task: t, verdict: Verdict::Done }
    } else {
        Progress { radio: s, task: t, verdict: Verdict::Open }
    }
}

/// An operation whose current write has failed once too often, this time for
/// the given cause.
pub open spec fn given_up(s: RadioState, t: TaskState, cause: Seq<char>) -> Progress {
    Progress {
        radio: s.failed(t.kind),
        task: t.refused(),
        verdict: Verdict::Failed(refusal_text(t.writes[t.next as int].reg, cause)),
    }
}

/// The operation after a transfer that the device took (`None`) or that failed
/// for the given cause.
pub open spec fn reported(s: RadioState, t: TaskState, cause: Option<Seq<char>>) -> Progress {
    if t.done() {
        standing(s, t)
    } else {
        let write = t.writes[t.next as int];
        match cause {
            None => standing(s.committed(write.commit), t.accepted()),
            Some(text) => if t.refused().failures < 4 {
                standing(s, t.refused())
            } else {
                given_up(s, t, text)
            },
        }
    }
}

/// Whether `action` is what an operation asks for.
pub open spec fn asks(p: Progress, action: Action) -> bool {
    match p.verdict {
        Verdict::Open => {
            let write = p.task.writes[p.task.next as int];
            &&& action matches Action::Transfer { pause_ms, out }
            &&& pause_ms == pause_after(p.task.failures)
            &&& out.writes(p.radio.hw, write.reg, write.value)
        },
        Verdict::Done => if p.task.kind == TaskKind::Start {
            action matches Action::SpawnReader(worker) && worker@ == (WorkerState {
                rando: p.radio.derandomizes(),
                errors: 0,
            })
        } else {
            action == Action::Finished(Ok(()))
        },
        Verdict::Failed(text) => {
            &&& action matches Action::Finished(Err(SdrError::CommunicationError(said)))
            &&& said@ == text
        },
    }
}

/// The cause of a failed transfer, if it failed.
pub open spec fn cause_of(outcome: Result<(), String>) -> Option<Seq<char>> {
    match outcome {
        Ok(()) => None,
        Err(cause) => Some(cause@),
    }
}

/// How opening a device went.
pub enum Handshake {
    /// The device could not be opened.
    OpenFailed(String),
    /// Its interface could not be claimed.
    ClaimFailed(String),
    /// This came back for the information register.
    Replied(RegisterReply),
}

/// A radio just opened on a device whose information register holds `data`: the
/// model byte, then the firmware version.
pub open spec fn opened(
    device: DeviceInfo,
    hw: Hardware,
    gains: GainCatalog,
    data: Seq<u8>,
) -> RadioState {
    let model = RadioModel::of_byte(data[0]);
    RadioState {
        device,
        hw,
        gains,
        firmware_version: (data[1] * 0x100 + data[2]) as u16,
        model,
        xtal_freq: if model == RadioModel::RX888pro {
            61_440_000
        } else {
            64_000_000
        },
        direct_sampling: true,
        center_freq: 0,
        if_gain: Gain { bits: 0 },
        rf_gain: Gain { bits: 0 },
        adc_flags: 0,
        adc_filter: FilterMode::Freq64MHz,
        running: false,
        reading: false,
    }
}

/// Physical RX888-family SDR device API.
///
/// Some parameters (crystal frequency, direct sampling) are only changeable
/// while idle. Gains and center frequency apply immediately when running, and
/// otherwise on start.
pub struct Radio {
    // readonly fields
    device_info: DeviceInfo,
    hw: Hardware,
    gains: GainCatalog,
    firmware_version: u16,
    model: RadioModel,
    // static parameters, set before starting
    // and not changed during operation
    xtal_freq: u32,
    direct_sampling: bool,
    // dynamic parameters
    center_freq: u64,
    if_gain: Gain,
    rf_gain: Gain,
    // state
    state: DeviceState,
    adc_flags: u8,
    adc_filter: FilterMode,
    // whether a reader is at work
    reading: bool,
}

impl View for Radio {
    type V = RadioState;

    closed spec fn view(&self) -> RadioState {
        RadioState {
            device: self.device_info,
            hw: self.hw,
            gains: self.gains,
            firmware_version: self.firmware_version,
            model: self.model,
            xtal_freq: self.xtal_freq,
            direct_sampling: self.direct_sampling,
            center_freq: self.center_freq,
            if_gain: self.if_gain,
            rf_gain: self.rf_gain,
            adc_flags: self.adc_flags,
            adc_filter: self.adc_filter,
            running: self.state == DeviceState::Running,
            reading: self.reading,
        }
    }
}

impl Radio {
    #[verifier::type_invariant]
    spec fn inv(self) -> bool {
        self@.wf()
    }

    /// Opens a device that enumeration has found, given how opening and claiming
    /// it and reading its information register went.
    ///
    /// Firmware version and model are validated, in that order: another version
    /// than the expected one is an error, and so is a device of no known model.
    pub fn new(
        device_info: DeviceInfo,
        hw: Hardware,
        gains: GainCatalog,
        handshake: Handshake,
    ) -> (radio: Result<Radio, SdrError>)
        requires
            handshake matches Handshake::Replied(reply) ==> complete(reply),
        ensures
            match handshake {
                Handshake::OpenFailed(cause) | Handshake::ClaimFailed(cause) => {
                    &&& radio matches Err(SdrError::DeviceOpenFailed(text))
                    &&& text == cause
                },
                Handshake::Replied(Err(cause)) => {
                    &&& radio matches Err(SdrError::CommunicationError(text))
                    &&& text == cause
                },
                Handshake::Replied(Ok(data)) => if data@[1] != hw.firmware_major || data@[2]
                    != hw.firmware_minor {
                    radio == Err::<Radio, SdrError>(
                        SdrError::FirmwareVersionMismatch {
                            expected_major: hw.firmware_major,
                            expected_minor: hw.firmware_minor,
                            got_major: data@[1],
                            got_minor: data@[2],
                        },
                    )
                } else if RadioModel::of_byte(data@[0]) == RadioModel::NORADIO {
                    radio == Err::<Radio, SdrError>(SdrError::DeviceNotFound)
                } else {
                    &&& radio matches Ok(radio)
                    &&& radio@ == opened(device_info, hw, gains, data@)
                    &&& radio@.wf()
                    &&& radio@.adc_filter == FilterMode::Freq64MHz && radio@.adc_flags == 0
                    &&& radio@.direct_sampling && radio@.center_freq == 0
                    &&& radio@.xtal_freq == if data@[0] == 0x07 {
                        61_440_000u32
                    } else {
                        64_000_000u32
                    }
                    &&& !radio@.running && !radio@.reading
                },
            },
    {
        let data = match handshake {
            Handshake::OpenFailed(cause) | Handshake::ClaimFailed(cause) => {
                return Err(SdrError::DeviceOpenFailed(cause));
            },
            Handshake::Replied(Err(cause)) => {
                return Err(SdrError::CommunicationError(cause));
            },
            Handshake::Replied(Ok(data)) => data,
        };
        let major: u8 = data[1];
        let minor: u8 = data[2];
        if major != hw.firmware_major || minor != hw.firmware_minor {
            return Err(
                SdrError::FirmwareVersionMismatch {
                    expected_major: hw.firmware_major,
                    expected_minor: hw.firmware_minor,
                    got_major: major,
                    got_minor: minor,
                },
            );
        }
        proof {
            let enable = hw.adc.enable;
            assert(0u8 & enable == 0) by (bit_vector);
        }
        let model = RadioModel::from_byte(data[0]);
        if model == RadioModel::NORADIO {
            return Err(SdrError::DeviceNotFound);
        }
        let xtal_freq: u32 = if model == RadioModel::RX888pro {
            61_440_000
        } else {
            64_000_000
        };
        Ok(
            Radio {
                device_info,
                hw,
                gains,
                firmware_version: (major as u16) * 0x100 + (minor as u16),
                model,
                xtal_freq,
                direct_sampling: true,
                center_freq: 0,
                if_gain: Gain { bits: 0 },
                rf_gain: Gain { bits: 0 },
                state: DeviceState::Idle,
                adc_flags: 0,
                adc_filter: FilterMode::Freq64MHz,
                reading: false,
            },
        )
    }

    /// What to do now about an operation.
    pub fn next_action(&mut self, task: &Task) -> (action: Action)
        ensures
            asks(standing(old(self)@, task@), action),
            final(self)@ == standing(old(self)@, task@).radio,
            final(self)@.wf(),
    {
        proof {
            use_type_invariant(&*self);
        }
        match task.current() {
            Some(write) => {
                let pause_ms: u64 = task.pause_ms();
                let out = ControlWrite::to_register(&self.hw, write.reg, write.value);
                Action::Transfer { pause_ms, out }
            },
            None => match task.kind() {
                TaskKind::Start => {
                    self.state = DeviceState::Running;
                    self.reading = true;
                    Action::SpawnReader(
                        AsyncReadWorker::new(self.adc_flags & self.hw.adc.rando != 0),
                    )
                },
                _ => Action::Finished(Ok(())),
            },
        }
    }

    fn apply(&mut self, commit: Commit)
        ensures
            final(self)@ == old(self)@.committed(commit),
    {
        proof {
            use_type_invariant(&*self);
        }
        match commit {
            Commit::Nothing => {},
            Commit::IfGain(gain) => {
                self.if_gain = gain;
            },
            Commit::RfGain(gain) => {
                self.rf_gain = gain;
            },
            Commit::Stopped => {
                self.reading = false;
                self.state = DeviceState::Idle;
            },
        }
    }

    /// What to do about an operation after the transfer that it asked for.
    ///
    /// A write that the device takes is committed and the next one follows. A
    /// write that it refuses is tried again, four times in all; then the
    /// operation fails with an error that names the register.
    pub fn transferred(&mut self, task: &mut Task, outcome: Result<(), String>) -> (action: Action)
        ensures
            asks(reported(old(self)@, old(task)@, cause_of(outcome)), action),
            final(self)@ == reported(old(self)@, old(task)@, cause_of(outcome)).radio,
            final(task)@ == reported(old(self)@, old(task)@, cause_of(outcome)).task,
            final(self)@.wf(),
    {
        proof {
            use_type_invariant(&*self);
        }
        match task.current() {
            None => {},
            Some(write) => match outcome {
                Ok(()) => {
                    self.apply(write.commit);
                    task.accept();
                },
                Err(cause) => {
                    if !task.refuse() {
                        if task.kind() == TaskKind::Start {
                            self.reading = false;
                            self.state = DeviceState::Idle;
                        }
                        return Action::Finished(Err(refusal(write.reg, cause.as_str())));
                    }
                },
            },
        }
        self.next_action(task)
    }

    /// The device behind this radio.
    pub fn device_info(&self) -> (info: &DeviceInfo)
        ensures
            *info == self@.device,
    {
        &self.device_info
    }

    /// Set external crystal frequency used by the ADC clocking logic.
    /// For the SDR hardware, xtal_freq equals the real sample rate.
    ///
    /// Must be idle; changing while running is an error.
    pub fn set_xtal_freq(&mut self, freq: u32) -> (result: Result<(), SdrError>)
        ensures
            result == if old(self)@.running {
                Err(SdrError::DeviceRunning)
            } else {
                Ok(())
            },
            final(self)@ == if old(self)@.running {
                old(self)@
            } else {
                RadioState { xtal_freq: freq, ..old(self)@ }
            },
            final(self)@.wf(),
    {
        proof {
            use_type_invariant(&*self);
        }
        if self.state != DeviceState::Idle {
            return Err(SdrError::DeviceRunning);
        }
        self.xtal_freq = freq;
        Ok(())
    }

    /// Get configured crystal frequency in Hz.
    /// For the SDR hardware, this is the real sample rate.
    pub fn get_xtal_freq(&self) -> (freq: u32)
        ensures
            freq == self@.xtal_freq,
    {
        self.xtal_freq
    }

    /// Enable/disable direct sampling mode.
    ///
    /// When `true`, ADC is routed directly (HF bands); when `false`, tuner
    /// path is used (VHF/UHF). Must be idle to change.
    pub fn set_direct_sampling(&mut self, mode: bool) -> (result: Result<(), SdrError>)
        ensures
            result == if old(self)@.running {
                Err(SdrError::DeviceRunning)
            } else {
                Ok(())
            },
            final(self)@ == if old(self)@.running {
                old(self)@
            } else {
                RadioState { direct_sampling: mode, ..old(self)@ }
            },
            final(self)@.wf(),
    {
        proof {
            use_type_invariant(&*self);
        }
        if self.state != DeviceState::Idle {
            return Err(SdrError::DeviceRunning);
        }
        self.direct_sampling = mode;
        Ok(())
    }

    /// Query direct sampling mode.
    pub fn get_direct_sampling(&self) -> (mode: bool)
        ensures
            mode == self@.direct_sampling,
    {
        self.direct_sampling
    }

    /// The transfer that reads `reg`.
    pub fn read_register(&self, reg: Register) -> (request: ControlRead)
        ensures
            request == ControlRead::reads(self@.hw, reg),
    {
        ControlRead::from_register(&self.hw, reg)
    }

    /// The transfer whose reply [`Radio::get_pll_lock`] and
    /// [`Radio::get_tuner_status`] read.
    pub fn tuner_status_request(&self) -> (request: ControlRead)
        ensures
            request == ControlRead::reads(self@.hw, Register::REG_TUNER),
    {
        self.read_register(Register::REG_TUNER)
    }

    /// Query the tuner PLL lock status, given the tuner register.
    ///
    /// Only meaningful in tuner mode: in direct sampling there is no PLL to
    /// lock and this reports false.
    pub fn get_pll_lock(&self, reply: RegisterReply) -> (locked: Result<bool, SdrError>)
        requires
            complete(reply),
        ensures
            match reply {
                Ok(data) => locked == Ok::<bool, SdrError>(
                    !self@.direct_sampling && pll_locked(le_value(data@) as u32),
                ),
                Err(cause) => {
                    &&& locked matches Err(SdrError::CommunicationError(text))
                    &&& text == cause
                },
            },
    {
        match register_value(reply) {
            Ok(value) => Ok(!self.direct_sampling && value & 0x2 != 0),
            Err(e) => Err(e),
        }
    }

    /// Get detected radio model.
    pub fn get_model(&self) -> (model: RadioModel)
        ensures
            model == self@.model,
    {
        self.model
    }

    /// Return IF gain range (min, max) according to current model/mode.
    pub fn get_if_gain_range(&self) -> (range: (Gain, Gain))
        ensures
            range == self@.profile().if_range,
    {
        self.gains.profile(self.model, self.direct_sampling).if_range
    }

    /// Return IF gain steps for current model/mode.
    pub fn get_if_gain_steps(&self) -> (steps: &[Gain])
        ensures
            steps@ == self@.profile().if_steps@,
    {
        self.gains.profile(self.model, self.direct_sampling).if_steps.as_slice()
    }

    /// Return RF gain range (min, max) according to current model/mode.
    pub fn get_rf_gain_range(&self) -> (range: (Gain, Gain))
        ensures
            range == self@.profile().rf_range,
    {
        self.gains.profile(self.model, self.direct_sampling).rf_range
    }

    /// Return RF gain steps for current model/mode.
    pub fn get_rf_gain_steps(&self) -> (steps: &[Gain])
        ensures
            steps@ == self@.profile().rf_steps@,
    {
        self.gains.profile(self.model, self.direct_sampling).rf_steps.as_slice()
    }

    fn if_gain_write(&self, index: u32) -> (write: RegisterWrite)
        ensures
            write == self@.if_gain_write(index),
    {
        let steps = self.get_if_gain_steps();
        RegisterWrite {
            reg: if self.direct_sampling {
                Register::REG_DIRECT_IF_GAIN
            } else {
                Register::REG_TUNER_IF_GAIN
            },
            value: index,
            commit: if (index as usize) < steps.len() {
                Commit::IfGain(steps[index as usize])
            } else {
                Commit::Nothing
            },
        }
    }

    fn rf_gain_write(&self, index: u32) -> (write: RegisterWrite)
        ensures
            write == self@.rf_gain_write(index),
    {
        let steps = self.get_rf_gain_steps();
        RegisterWrite {
            reg: if self.direct_sampling {
                Register::REG_DIRECT_RF_GAIN
            } else {
                Register::REG_TUNER_RF_GAIN
            },
            value: index,
            commit: if (index as usize) < steps.len() {
                Commit::RfGain(steps[index as usize])
            } else {
                Commit::Nothing
            },
        }
    }

    /// Set IF gain, given the index that the gain has in the current model and
    /// mode.
    ///
    /// When running, the index goes to the device and the gain becomes the step
    /// behind it; otherwise the gain is stored and applied on start.
    pub fn set_if_gain(&mut self, gain: Gain, gain_index: u32) -> (task: Task)
        ensures
            final(self)@ == (RadioState { if_gain: gain, ..old(self)@ }),
            final(self)@.wf(),
            task@ == TaskState::planned(
                TaskKind::Apply,
                old(self)@.when_running(seq![old(self)@.if_gain_write(gain_index)]),
            ),
    {
        proof {
            use_type_invariant(&*self);
        }
        self.if_gain = gain;
        let mut writes: Vec<RegisterWrite> = Vec::new();
        if self.state == DeviceState::Running {
            writes.push(self.if_gain_write(gain_index));
        }
        assert(writes@ =~= old(self)@.when_running(seq![old(self)@.if_gain_write(gain_index)]));
        Task::new(TaskKind::Apply, writes)
    }

    /// Get current IF gain.
    pub fn get_if_gain(&self) -> (gain: Gain)
        ensures
            gain == self@.if_gain,
    {
        self.if_gain
    }

    /// Set RF gain, given the index that the gain has in the current model and
    /// mode.
    ///
    /// When running, the index goes to the device and the gain becomes the step
    /// behind it; otherwise the gain is stored and applied on start.
    pub fn set_rf_gain(&mut self, gain: Gain, gain_index: u32) -> (task: Task)
        ensures
            final(self)@ == (RadioState { rf_gain: gain, ..old(self)@ }),
            final(self)@.wf(),
            task@ == TaskState::planned(
                TaskKind::Apply,
                old(self)@.when_running(seq![old(self)@.rf_gain_write(gain_index)]),
            ),
    {
        proof {
            use_type_invariant(&*self);
        }
        self.rf_gain = gain;
        let mut writes: Vec<RegisterWrite> = Vec::new();
        if self.state == DeviceState::Running {
            writes.push(self.rf_gain_write(gain_index));
        }
        assert(writes@ =~= old(self)@.when_running(seq![old(self)@.rf_gain_write(gain_index)]));
        Task::new(TaskKind::Apply, writes)
    }

    /// Get current RF gain.
    pub fn get_rf_gain(&self) -> (gain: Gain)
        ensures
            gain == self@.rf_gain,
    {
        self.rf_gain
    }

    fn push_center_freq(&self, writes: &mut Vec<RegisterWrite>)
        ensures
            final(writes)@ == old(writes)@ + self@.center_freq_writes(),
    {
        let freq: u64 = self.center_freq;
        let high: u32 = (freq >> 32) as u32;
        let low: u32 = (freq & 0xFFFF_FFFF) as u32;
        proof {
            assert((freq >> 32) as u32 == (freq / 0x1_0000_0000) as u32 && (freq & 0xFFFF_FFFF)
                as u32 == (freq % 0x1_0000_0000) as u32) by (bit_vector);
        }
        writes.push(plain_write(Register::REG_TUNER_CENTER_FREQ_HIGH, high));
        writes.push(plain_write(Register::REG_TUNER_CENTER_FREQ_LOW, low));
        assert(writes@ =~= old(writes)@ + self@.center_freq_writes());
    }

    /// Set physical radio center frequency in Hz.
    ///
    /// When running, writes high/low 32-bit halves to firmware registers for
    /// immediate retune. Stored otherwise and applied on start.
    pub fn set_center_freq(&mut self, freq: u64) -> (task: Task)
        ensures
            final(self)@ == (RadioState { center_freq: freq, ..old(self)@ }),
            final(self)@.wf(),
            task@ == TaskState::planned(
                TaskKind::Apply,
                final(self)@.when_running(final(self)@.center_freq_writes()),
            ),
    {
        proof {
            use_type_invariant(&*self);
        }
        self.center_freq = freq;
        let mut writes: Vec<RegisterWrite> = Vec::new();
        if self.state == DeviceState::Running {
            self.push_center_freq(&mut writes);
        }
        assert(writes@ =~= self@.when_running(self@.center_freq_writes()));
        Task::new(TaskKind::Apply, writes)
    }

    /// Get current physical center frequency in Hz.
    pub fn get_center_freq(&self) -> (freq: u64)
        ensures
            freq == self@.center_freq,
    {
        self.center_freq
    }

    /// Get validated firmware version (major<<8 | minor).
    pub fn get_firmware_version(&self) -> (version: u16)
        ensures
            version == self@.firmware_version,
    {
        self.firmware_version
    }

    /// The register writes that arm the hardware for streaming.
    fn arm_for_streaming(&self, if_index: u32, rf_index: u32) -> (writes: Vec<RegisterWrite>)
        ensures
            writes@ == self@.arming_writes(if_index, rf_index),
    {
        let mut writes: Vec<RegisterWrite> = Vec::new();
        writes.push(plain_write(Register::REG_TUNER, if self.direct_sampling { 0 } else { 1 }));
        writes.push(plain_write(Register::REG_ADCFREQ, self.xtal_freq));
        writes.push(plain_write(Register::REG_DIRECT_ADC_FILTER, self.adc_filter.code()));
        self.push_center_freq(&mut writes);
        writes.push(self.if_gain_write(if_index));
        writes.push(self.rf_gain_write(rf_index));
        writes.push(
            plain_write(Register::REG_ADC, (self.adc_flags | self.hw.adc.enable) as u32),
        );
        assert(writes@ =~= self@.arming_writes(if_index, rf_index));
        writes
    }

    /// Start asynchronous streaming, given the indices that the stored gains
    /// have in the current model and mode.
    ///
    /// The device counts as running while it is armed, and is idle again where
    /// arming fails.
    pub fn read_async(&mut self, if_index: u32, rf_index: u32) -> (task: Result<Task, SdrError>)
        ensures
            if old(self)@.reading {
                task == Err::<Task, SdrError>(SdrError::AlreadyRunning) && final(self)@ == old(
                    self,
                )@
            } else if !old(self)@.device.at_super_speed() {
                task == Err::<Task, SdrError>(SdrError::NotSuperSpeed) && final(self)@ == old(
                    self,
                )@
            } else {
                &&& final(self)@ == (RadioState { running: true, ..old(self)@ })
                &&& task matches Ok(task)
                &&& task@ == TaskState::planned(
                    TaskKind::Start,
                    old(self)@.arming_writes(if_index, rf_index),
                )
            },
            final(self)@.wf(),
    {
        proof {
            use_type_invariant(&*self);
        }
        if self.reading {
            return Err(SdrError::AlreadyRunning);
        }
        if !self.device_info.is_super_speed() {
            return Err(SdrError::NotSuperSpeed);
        }
        self.state = DeviceState::Running;
        let writes = self.arm_for_streaming(if_index, rf_index);
        assert(writes@ =~= old(self)@.arming_writes(if_index, rf_index));
        Ok(Task::new(TaskKind::Start, writes))
    }

    /// Cancel asynchronous streaming started by `read_async`.
    ///
    /// The reader is stopped, then the ADC enable bit is cleared and what the
    /// stream used is powered down. Safe to call if not running.
    pub fn read_cancel(&mut self) -> (task: Task)
        ensures
            final(self)@ == (RadioState { reading: false, ..old(self)@ }),
            final(self)@.wf(),
            task@ == old(self)@.stopping(),
            // whatever the settings, the tuner and both bias voltages go off
            old(self)@.reading ==> {
                &&& task@.writes.len() == 4
                &&& task@.writes[0].reg == Register::REG_ADC
                &&& task@.writes[0].value == old(self)@.adc_flags
                &&& task@.writes[1].reg == Register::REG_TUNER && task@.writes[1].value == 0
                &&& task@.writes[2].reg == Register::REG_DIRECT_ANT_BIAS && task@.writes[2].value
                    == 0
                &&& task@.writes[3].reg == Register::REG_TUNER_ANT_BIAS && task@.writes[3].value
                    == 0
            },
            !old(self)@.reading ==> task@.writes.len() == 0,
    {
        proof {
            use_type_invariant(&*self);
        }
        let mut writes: Vec<RegisterWrite> = Vec::new();
        if !self.reading {
            assert(writes@ =~= Seq::empty());
            return Task::new(TaskKind::Apply, writes);
        }
        self.reading = false;
        writes.push(plain_write(Register::REG_ADC, self.adc_flags as u32));
        writes.push(plain_write(Register::REG_TUNER, 0));
        writes.push(plain_write(Register::REG_DIRECT_ANT_BIAS, 0));
        writes.push(
            RegisterWrite {
                reg: Register::REG_TUNER_ANT_BIAS,
                value: 0,
                commit: Commit::Stopped,
            },
        );
        assert(writes@ =~= old(self)@.stopping_writes());
        Task::new(TaskKind::Stop, writes)
    }

    fn switch_adc(&mut self, mask: u8, enable: bool) -> (task: Task)
        requires
            old(self)@.hw.adc.disjoint() ==> old(self)@.hw.adc.enable & mask == 0,
        ensures
            final(self)@ == old(self)@.with_adc(mask, enable),
            final(self)@.wf(),
            task@ == final(self)@.adc_task(),
    {
        proof {
            use_type_invariant(&*self);
            if self.hw.adc.disjoint() {
                switch_spares_enable(self.adc_flags, mask, enable, self.hw.adc.enable);
            }
        }
        if enable {
            self.adc_flags = self.adc_flags | mask;
        } else {
            self.adc_flags = self.adc_flags & !mask;
        }
        let mut writes: Vec<RegisterWrite> = Vec::new();
        if self.state == DeviceState::Running {
            writes.push(
                plain_write(Register::REG_ADC, (self.adc_flags | self.hw.adc.enable) as u32),
            );
        }
        assert(writes@ =~= self@.adc_task().writes);
        Task::new(TaskKind::Apply, writes)
    }

    /// Switch ADC dither; applied immediately when running.
    pub fn enable_adc_dither(&mut self, enable: bool) -> (task: Task)
        ensures
            final(self)@ == old(self)@.with_adc(old(self)@.hw.adc.dither, enable),
            final(self)@.wf(),
            task@ == final(self)@.adc_task(),
    {
        self.switch_adc(self.hw.adc.dither, enable)
    }

    /// Switch the programmable gain amplifier of the ADC; applied immediately
    /// when running.
    pub fn enable_adc_pga(&mut self, enable: bool) -> (task: Task)
        ensures
            final(self)@ == old(self)@.with_adc(old(self)@.hw.adc.pga, enable),
            final(self)@.wf(),
            task@ == final(self)@.adc_task(),
    {
        self.switch_adc(self.hw.adc.pga, enable)
    }

    /// Switch output randomization of the ADC. The reader of a stream undoes
    /// it, so it cannot change while running.
    pub fn enable_adc_rando(&mut self, enable: bool) -> (result: Result<(), SdrError>)
        ensures
            result == if old(self)@.running {
                Err(SdrError::DeviceRunning)
            } else {
                Ok(())
            },
            final(self)@ == if old(self)@.running {
                old(self)@
            } else {
                old(self)@.with_adc(old(self)@.hw.adc.rando, enable)
            },
            final(self)@.wf(),
    {
        proof {
            use_type_invariant(&*self);
        }
        if self.state != DeviceState::Idle {
            return Err(SdrError::DeviceRunning);
        }
        proof {
            if self.hw.adc.disjoint() {
                switch_spares_enable(
                    self.adc_flags,
                    self.hw.adc.rando,
                    enable,
                    self.hw.adc.enable,
                );
            }
        }
        if enable {
            self.adc_flags = self.adc_flags | self.hw.adc.rando;
        } else {
            self.adc_flags = self.adc_flags & !self.hw.adc.rando;
        }
        Ok(())
    }

    /// Enable or disable antenna bias voltage
    /// - `index`: 0 for direct sampling mode, 1 for tuner mode
    /// - `enable`: true to enable, false to disable
    ///
    /// This setting takes effect immediately.
    pub fn enable_antenna_bias(&mut self, index: i32, enable: bool) -> (task: Result<
        Task,
        SdrError,
    >)
        ensures
            final(self)@ == old(self)@,
            if index == 0 || index == 1 {
                &&& task matches Ok(task)
                &&& task@ == TaskState::planned(
                    TaskKind::Apply,
                    seq![plain(antenna_bias(index as int), bit(enable))],
                )
            } else {
                &&& task matches Err(SdrError::InvalidParameter(text))
                &&& text@ == "Invalid antenna bias index: "@ + decimal(index as int)
            },
    {
        let reg = match index {
            0 => Register::REG_DIRECT_ANT_BIAS,
            1 => Register::REG_TUNER_ANT_BIAS,
            _ => {
                let number = int_text(index as i64);
                return Err(
                    SdrError::InvalidParameter(
                        String::from_str("Invalid antenna bias index: ").concat(number.as_str()),
                    ),
                );
            },
        };
        let mut writes: Vec<RegisterWrite> = Vec::new();
        writes.push(plain_write(reg, if enable { 1 } else { 0 }));
        assert(writes@ =~= seq![plain(antenna_bias(index as int), bit(enable))]);
        Ok(Task::new(TaskKind::Apply, writes))
    }

    /// Switch the HF input to high impedance; applied immediately when running.
    pub fn enable_hf_highz(&mut self, enable: bool) -> (task: Task)
        ensures
            final(self)@ == old(self)@.with_adc(old(self)@.hw.adc.hf_highz, enable),
            final(self)@.wf(),
            task@ == final(self)@.adc_task(),
    {
        self.switch_adc(self.hw.adc.hf_highz, enable)
    }

    /// Enable or disable external clock mode.
    /// When enabled, the ADC clock is driven by an external source, and the
    /// internal crystal is disconnected. Applied immediately when running.
    pub fn enable_ext_clock(&mut self, enable: bool) -> (task: Task)
        ensures
            final(self)@ == old(self)@.with_adc(old(self)@.hw.adc.ext_clock, enable),
            final(self)@.wf(),
            task@ == final(self)@.adc_task(),
    {
        self.switch_adc(self.hw.adc.ext_clock, enable)
    }

    /// Select the ADC filter; applied immediately when running.
    pub fn set_adc_filter(&mut self, filter: FilterMode) -> (task: Task)
        ensures
            final(self)@ == (RadioState { adc_filter: filter, ..old(self)@ }),
            final(self)@.wf(),
            task@ == TaskState::planned(
                TaskKind::Apply,
                old(self)@.when_running(
                    seq![plain(Register::REG_DIRECT_ADC_FILTER, filter.number())],
                ),
            ),
    {
        proof {
            use_type_invariant(&*self);
        }
        self.adc_filter = filter;
        let mut writes: Vec<RegisterWrite> = Vec::new();
        if self.state == DeviceState::Running {
            writes.push(plain_write(Register::REG_DIRECT_ADC_FILTER, filter.code()));
        }
        assert(writes@ =~= old(self)@.when_running(
            seq![plain(Register::REG_DIRECT_ADC_FILTER, filter.number())],
        ));
        Task::new(TaskKind::Apply, writes)
    }

    /// Get tuner status, given the tuner register:
    /// - PLL locked: true if PLL is locked, false otherwise
    /// - Harmonic mode: true if Harmonic is used, false otherwise
    pub fn get_tuner_status(&self, reply: RegisterReply) -> (status: Result<
        (bool, bool),
        SdrError,
    >)
        requires
            complete(reply),
        ensures
            match reply {
                Ok(data) => status == Ok::<(bool, bool), SdrError>(
                    (pll_locked(le_value(data@) as u32), harmonic(le_value(data@) as u32)),
                ),
                Err(cause) => {
                    &&& status matches Err(SdrError::CommunicationError(text))
                    &&& text == cause
                },
            },
    {
        match register_value(reply) {
            Ok(value) => {
                let locked = value & 0x2 != 0;
                let harmonic = value & 0x4 != 0;
                Ok((locked, harmonic))
            },
            Err(e) => Err(e),
        }
    }

    /// Set external GPIO state for the 7 GPIO pins on the I/O expander: one bit
    /// per pin, bits 0-6. Bit 7 is ignored.
    pub fn set_ext_gpio(&mut self, gpio_state: u8) -> (task: Result<Task, SdrError>)
        ensures
            final(self)@ == old(self)@,
            task matches Ok(task) && task@ == TaskState::planned(
                TaskKind::Apply,
                seq![plain(Register::REG_EXT_GPIO, (gpio_state & 0x7F) as u32)],
            ),
    {
        let mut writes: Vec<RegisterWrite> = Vec::new();
        writes.push(plain_write(Register::REG_EXT_GPIO, (gpio_state & 0x7F) as u32));
        assert(writes@ =~= seq![plain(Register::REG_EXT_GPIO, (gpio_state & 0x7F) as u32)]);
        Ok(Task::new(TaskKind::Apply, writes))
    }

    /// The transfer whose reply [`Radio::get_ext_gpio`] reads.
    pub fn ext_gpio_request(&self) -> (request: ControlRead)
        ensures
            request == ControlRead::reads(self@.hw, Register::REG_EXT_GPIO),
    {
        self.read_register(Register::REG_EXT_GPIO)
    }

    /// Get current external GPIO state for the 7 GPIO pins on the I/O expander,
    /// given the GPIO register. Bit 7 is always 0.
    pub fn get_ext_gpio(&self, reply: RegisterReply) -> (state: Result<u8, SdrError>)
        requires
            complete(reply),
        ensures
            match reply {
                Ok(data) => state matches Ok(state) && state == le_value(data@) % 0x80,
                Err(cause) => {
                    &&& state matches Err(SdrError::CommunicationError(text))
                    &&& text == cause
                },
            },
    {
        match register_value(reply) {
            Ok(value) => {
                proof {
                    assert((value & 0x7F) as u8 == value % 0x80) by (bit_vector);
                }
                Ok((value & 0x7F) as u8)
            },
            Err(e) => Err(e),
        }
    }

    /// Enable or disable the preamplifier of the current sampling mode, which
    /// provides gain for weak signals.
    pub fn enable_preamp(&mut self, enable: bool) -> (task: Task)
        ensures
            final(self)@ == old(self)@,
            task@ == TaskState::planned(
                TaskKind::Apply,
                seq![old(self)@.preamp_write(enable)],
            ),
    {
        let reg = if self.direct_sampling {
            Register::REG_DIRECT_PREAMP
        } else {
            Register::REG_TUNER_PREAMP
        };
        let mut writes: Vec<RegisterWrite> = Vec::new();
        writes.push(plain_write(reg, if enable { 1 } else { 0 }));
        assert(writes@ =~= seq![self@.preamp_write(enable)]);
        Task::new(TaskKind::Apply, writes)
    }
}

} // verus!
