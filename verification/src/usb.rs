//! The USB side of the driver: devices, register transfers, and when to repeat
//! a transfer that failed.
use vstd::prelude::*;
use vstd::string::StringExecFns;

use crate::error::SdrError;
use crate::interface::{Hardware, Register};

verus! {

/// Speeds at which a device can be connected.
#[derive(Debug, Clone, Copy, PartialEq, Eq, Structural)]
pub enum Speed {
    Low,
    Full,
    High,
    Super,
    SuperPlus,
}

/// What USB enumeration tells of a device.
#[derive(Debug, PartialEq, Eq)]
pub struct DeviceInfo {
    pub vendor_id: u16,
    pub product_id: u16,
    pub speed: Option<Speed>,
    pub manufacturer: Option<String>,
    pub product: Option<String>,
    pub serial: Option<String>,
}

impl DeviceInfo {
    /// Whether the device runs at SuperSpeed.
    pub open spec fn at_super_speed(self) -> bool {
        self.speed == Some(Speed::Super)
    }

    /// Whether the device runs at SuperSpeed.
    pub fn is_super_speed(&self) -> (yes: bool)
        ensures
            yes == self.at_super_speed(),
    {
        match self.speed {
            Some(Speed::Super) => true,
            _ => false,
        }
    }
}

/// A vendor control transfer to the device.
#[derive(Debug, PartialEq, Eq)]
pub struct ControlWrite {
    pub request: u8,
    pub value: u16,
    pub index: u16,
    pub data: Vec<u8>,
}

/// A vendor control transfer from the device.
#[derive(Debug, Clone, Copy, PartialEq, Eq, Structural)]
pub struct ControlRead {
    pub request: u8,
    pub value: u16,
    pub index: u16,
    pub length: u16,
}

/// How long a control transfer may take.
pub const TRANSFER_TIMEOUT_MS: u64 = 500;

/// How often a control transfer is tried.
pub const ATTEMPTS: u32 = 4;

/// Pause before a control transfer is tried again.
pub const RETRY_PAUSE_MS: u64 = 2;

/// The four bytes of `value`, least significant first.
pub open spec fn le_bytes(value: u32) -> Seq<u8> {
    seq![
        (value % 0x100) as u8,
        (value / 0x100 % 0x100) as u8,
        (value / 0x1_0000 % 0x100) as u8,
        (value / 0x100_0000) as u8,
    ]
}

/// The number whose bytes, least significant first, start `bytes`.
pub open spec fn le_value(bytes: Seq<u8>) -> int {
    bytes[0] + 0x100 * bytes[1] + 0x1_0000 * bytes[2] + 0x100_0000 * bytes[3]
}

/// A value that goes to a register in one transfer reads back as the same value
/// from a transfer of those bytes.
pub proof fn register_bytes_round_trip(value: u32)
    ensures
        le_bytes(value).len() == 4,
        le_value(le_bytes(value)) == value,
{
    assert(value == value % 0x100 + 0x100 * (value / 0x100 % 0x100) + 0x1_0000 * (value / 0x1_0000
        % 0x100) + 0x100_0000 * (value / 0x100_0000)) by (bit_vector);
    assert(value / 0x100_0000 < 0x100) by (bit_vector);
    let bytes = le_bytes(value);
    assert(bytes[0] == value % 0x100);
    assert(bytes[1] == value / 0x100 % 0x100);
    assert(bytes[2] == value / 0x1_0000 % 0x100);
    assert(bytes[3] == value / 0x100_0000);
}

impl ControlWrite {
    /// Whether this transfer writes `value` to `reg`.
    pub open spec fn writes(self, hw: Hardware, reg: Register, value: u32) -> bool {
        &&& self.request == hw.register_request
        &&& self.value == 0
        &&& self.index == hw.registers.at(reg)
        &&& self.data@ == le_bytes(value)
    }

    /// The transfer that writes `value` to `reg`.
    pub fn to_register(hw: &Hardware, reg: Register, value: u32) -> (out: ControlWrite)
        ensures
            out.writes(*hw, reg, value),
    {
        let b0: u8 = (value & 0xff) as u8;
        let b1: u8 = ((value >> 8) & 0xff) as u8;
        let b2: u8 = ((value >> 16) & 0xff) as u8;
        let b3: u8 = (value >> 24) as u8;
        let data: Vec<u8> = vec![b0, b1, b2, b3];
        proof {
            assert((value & 0xff) as u8 == (value % 0x100) as u8 && ((value >> 8) & 0xff) as u8 == (
            value / 0x100 % 0x100) as u8 && ((value >> 16) & 0xff) as u8 == (value / 0x1_0000
                % 0x100) as u8 && (value >> 24) as u8 == (value / 0x100_0000) as u8)
                by (bit_vector);
            assert(data@ =~= le_bytes(value));
        }
        ControlWrite {
            request: hw.register_request,
            value: 0,
            index: hw.registers.number(reg),
            data,
        }
    }
}

impl ControlRead {
    /// The transfer that reads `reg`.
    pub open spec fn reads(hw: Hardware, reg: Register) -> ControlRead {
        ControlRead {
            request: hw.register_request,
            value: 0,
            index: hw.registers.at(reg),
            length: 4,
        }
    }

    /// The transfer that reads `reg`.
    pub fn from_register(hw: &Hardware, reg: Register) -> (inp: ControlRead)
        ensures
            inp == ControlRead::reads(*hw, reg),
    {
        ControlRead {
            request: hw.register_request,
            value: 0,
            index: hw.registers.number(reg),
            length: 4,
        }
    }
}

/// What came back for a register read: the bytes that the device sent, or why
/// it sent none.
pub type RegisterReply = Result<Vec<u8>, String>;

/// Whether a reply holds a register: the device answers with four bytes.
pub open spec fn complete(reply: RegisterReply) -> bool {
    reply matches Ok(data) ==> data@.len() >= 4
}

/// Reads the register value out of a reply.
pub fn register_value(reply: RegisterReply) -> (value: Result<u32, SdrError>)
    requires
        complete(reply),
    ensures
        match reply {
            Ok(data) => value matches Ok(v) && v == le_value(data@),
            Err(cause) => value matches Err(SdrError::CommunicationError(text)) && text == cause,
        },
{
    match reply {
        Ok(data) => {
            let b0: u8 = data[0];
            let b1: u8 = data[1];
            let b2: u8 = data[2];
            let b3: u8 = data[3];
            let value: u32 = (b0 as u32) + 0x100 * (b1 as u32) + 0x1_0000 * (b2 as u32)
                + 0x100_0000 * (b3 as u32);
            Ok(value)
        },
        Err(cause) => Err(SdrError::CommunicationError(cause)),
    }
}

/// Counts the failures of one control transfer.
///
/// The device stalls the control endpoint when a register that it forwards to
/// the tuner does not answer; the next transfer clears the stall, so asking
/// again is all it takes.
#[derive(Debug, Clone, Copy, PartialEq, Eq, Structural)]
pub struct Retry {
    failures: u32,
}

impl View for Retry {
    type V = nat;

    closed spec fn view(&self) -> nat {
        self.failures as nat
    }
}

/// Failures counted after one more, up to the number of attempts.
pub open spec fn failures_after(failures: nat) -> nat {
    if failures + 1 < ATTEMPTS {
        failures + 1
    } else {
        ATTEMPTS as nat
    }
}

/// The pause before an attempt that follows this many failed ones.
pub open spec fn pause_after(failures: nat) -> u64 {
    if failures == 0 {
        0
    } else {
        RETRY_PAUSE_MS
    }
}

impl Retry {
    /// A transfer that has not been tried yet.
    pub fn new() -> (retry: Retry)
        ensures
            retry@ == 0,
    {
        Retry { failures: 0 }
    }

    /// How long to pause before the next attempt.
    pub fn pause_ms(&self) -> (pause: u64)
        ensures
            pause == pause_after(self@),
    {
        if self.failures == 0 {
            0
        } else {
            RETRY_PAUSE_MS
        }
    }

    /// Counts a failed attempt, and says whether to try again.
    pub fn failed(&mut self) -> (again: bool)
        ensures
            final(self)@ == failures_after(old(self)@),
            again == (failures_after(old(self)@) < ATTEMPTS),
    {
        if self.failures < ATTEMPTS - 1 {
            self.failures = self.failures + 1;
            true
        } else {
            self.failures = ATTEMPTS;
            false
        }
    }
}

/// How a control transfer stands after an attempt.
#[derive(Debug, PartialEq, Eq)]
pub enum Attempt<T> {
    /// It went through.
    Done(T),
    /// It is to be tried again after a pause.
    Again { pause_ms: u64 },
    /// It has failed for good: what was tried, and why the last attempt failed.
    GaveUp { context: String, cause: String },
}

/// Whether `attempt` is how a transfer stands that had failed `failures` times
/// and whose next attempt went as `outcome` says.
pub open spec fn judged<T>(
    failures: nat,
    outcome: Result<T, String>,
    context: Seq<char>,
    attempt: Attempt<T>,
) -> bool {
    match outcome {
        Ok(value) => attempt == Attempt::Done(value),
        Err(cause) => if failures_after(failures) < ATTEMPTS {
            attempt == Attempt::<T>::Again { pause_ms: RETRY_PAUSE_MS }
        } else {
            &&& attempt matches Attempt::GaveUp { context: said, cause: last }
            &&& said@ == context
            &&& last == cause
        },
    }
}

/// Control OUT (host -> device): what comes of an attempt.
pub fn control_write(retry: &mut Retry, outcome: Result<(), String>) -> (attempt: Attempt<()>)
    ensures
        judged(old(retry)@, outcome, "USB write failed after 4 attempts"@, attempt),
        final(retry)@ == if outcome is Ok {
            old(retry)@
        } else {
            failures_after(old(retry)@)
        },
{
    match outcome {
        Ok(()) => Attempt::Done(()),
        Err(cause) => {
            if retry.failed() {
                Attempt::Again { pause_ms: retry.pause_ms() }
            } else {
                Attempt::GaveUp {
                    context: String::from_str("USB write failed after 4 attempts"),
                    cause,
                }
            }
        },
    }
}

/// Control IN (device -> host): what comes of an attempt.
pub fn control_read(retry: &mut Retry, outcome: Result<Vec<u8>, String>) -> (attempt: Attempt<
    Vec<u8>,
>)
    ensures
        judged(old(retry)@, outcome, "USB read failed after 4 attempts"@, attempt),
        final(retry)@ == if outcome is Ok {
            old(retry)@
        } else {
            failures_after(old(retry)@)
        },
{
    match outcome {
        Ok(data) => Attempt::Done(data),
        Err(cause) => {
            if retry.failed() {
                Attempt::Again { pause_ms: retry.pause_ms() }
            } else {
                Attempt::GaveUp {
                    context: String::from_str("USB read failed after 4 attempts"),
                    cause,
                }
            }
        },
    }
}

/// How a transfer that has failed `failures` times ends when its next attempts
/// go as `accepted` says: `Some(true)` once one is accepted, `Some(false)` once
/// it is given up, `None` while that is open.
pub open spec fn retried(failures: nat, accepted: Seq<bool>) -> Option<bool>
    decreases accepted.len(),
{
    if accepted.len() == 0 {
        None
    } else if accepted[0] {
        Some(true)
    } else if failures_after(failures) < ATTEMPTS {
        retried(failures_after(failures), accepted.skip(1))
    } else {
        Some(false)
    }
}

/// A transfer goes through exactly when one of its first four attempts is
/// accepted.
pub proof fn four_attempts_decide(accepted: Seq<bool>)
    requires
        accepted.len() >= 4,
    ensures
        retried(0, accepted) == Some(accepted[0] || accepted[1] || accepted[2] || accepted[3]),
{
    reveal_with_fuel(retried, 5);
    let after1 = accepted.skip(1);
    let after2 = after1.skip(1);
    let after3 = after2.skip(1);
    assert(after1[0] == accepted[1]);
    assert(after2[0] == accepted[2]);
    assert(after3[0] == accepted[3]);
}

/// The bytes of a register value go out least significant first, and the four
/// bytes that start a reply are read the same way.
pub proof fn register_bytes_are_least_significant_first(value: u32, reply: Seq<u8>)
    requires
        reply.len() >= 4,
    ensures
        le_bytes(value).len() == 4,
        value == le_bytes(value)[0] + 256 * (le_bytes(value)[1] + 256 * (le_bytes(value)[2] + 256
            * le_bytes(value)[3])),
        le_value(reply) == reply[0] + 256 * (reply[1] + 256 * (reply[2] + 256 * reply[3])),
        0 <= le_value(reply) <= u32::MAX,
        le_bytes(le_value(reply) as u32) == reply.take(4),
{
    register_bytes_round_trip(value);
    let v = le_value(reply) as u32;
    register_bytes_round_trip(v);
    same_value_same_bytes(le_bytes(v), reply);
    assert(le_bytes(v) =~= reply.take(4));
}

proof fn same_value_same_bytes(a: Seq<u8>, b: Seq<u8>)
    requires
        le_value(a) == le_value(b),
    ensures
        a[0] == b[0] && a[1] == b[1] && a[2] == b[2] && a[3] == b[3],
{
}

/// A register write is a vendor transfer of the four bytes of the value, and a
/// register read one of four bytes; both go to the number of the register.
pub proof fn registers_are_reached_by_number(
    hw: Hardware,
    reg: Register,
    value: u32,
    out: ControlWrite,
)
    requires
        out.writes(hw, reg, value),
    ensures
        out.request == hw.register_request,
        out.value == 0,
        out.index == hw.registers.at(reg),
        out.data@.len() == 4,
        value == out.data@[0] + 256 * (out.data@[1] + 256 * (out.data@[2] + 256 * out.data@[3])),
        ControlRead::reads(hw, reg).request == hw.register_request,
        ControlRead::reads(hw, reg).value == 0,
        ControlRead::reads(hw, reg).index == hw.registers.at(reg),
        ControlRead::reads(hw, reg).length == 4,
{
    register_bytes_are_least_significant_first(value, le_bytes(value));
}

/// A reply holds a register exactly when it is an error or has four bytes.
pub proof fn complete_replies_hold_a_register(reply: RegisterReply)
    ensures
        complete(reply) <==> (reply is Err || reply->Ok_0@.len() >= 4),
{
}

/// Only a device that reports SuperSpeed runs at SuperSpeed.
pub proof fn super_speed_is_one_speed(device: DeviceInfo)
    ensures
        device.at_super_speed() <==> device.speed == Some(Speed::Super),
{
}

/// The first attempt of a transfer is made at once and each further one after
/// 2 ms. A failure is followed by another attempt until there have been four;
/// then the transfer is given up for the cause of the last failure. A success
/// ends it at any time.
pub proof fn transfer_is_tried_four_times<T>(
    failures: nat,
    outcome: Result<T, String>,
    context: Seq<char>,
    attempt: Attempt<T>,
)
    requires
        judged(failures, outcome, context, attempt),
    ensures
        pause_after(failures) == if failures == 0 {
            0u64
        } else {
            2u64
        },
        failures < 4 ==> failures_after(failures) == failures + 1,
        failures >= 4 ==> failures_after(failures) == 4,
        outcome matches Ok(value) ==> attempt == Attempt::Done(value),
        outcome is Err && failures + 1 < 4 ==> attempt == (Attempt::<T>::Again { pause_ms: 2 }),
        outcome matches Err(cause) ==> failures + 1 >= 4 ==> {
            &&& attempt matches Attempt::GaveUp { context: said, cause: last }
            &&& said@ == context
            &&& last == cause
        },
{
}

/// A control transfer has half a second, and four attempts.
pub proof fn transfers_have_half_a_second()
    ensures
        2 * TRANSFER_TIMEOUT_MS == 1000,
        ATTEMPTS == 4,
        RETRY_PAUSE_MS == 2,
{
}

} // verus!
