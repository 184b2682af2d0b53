//! The C interface of the driver: handles, output arguments and error codes.
//!
//! A pointer argument is an `Option` here, and a null pointer is `None`.
use vstd::prelude::*;
use vstd::utf8::{encode_utf8, valid_utf8};

use crate::discovery::Role;
use crate::discovery::{count, none_counted, nth, nth_exists, plays};
use crate::error::SdrError;
use crate::gain::Gain;
use crate::interface::{Register, UsbIds};
use crate::sdr::{FilterMode, Radio, RadioState};
use crate::sdr::{bit, plain, pll_locked};
use crate::task::{Task, TaskKind};
use crate::task::TaskState;
use crate::usb::{ControlRead, DeviceInfo, RegisterReply};
use crate::usb::{complete, le_value};

verus! {

/// Operation succeeded.
pub const SDDC_SUCCESS: i32 = 0;
/// Null device handle or generic unspecified error.
pub const SDDC_ERROR: i32 = -1;
/// Setting cannot be changed while the device is streaming; stop with `sddc_cancel_async()` first.
pub const SDDC_ERROR_BUSY: i32 = -2;
/// A parameter value is out of the allowed range.
pub const SDDC_ERROR_INVALID_PARAM: i32 = -3;
/// USB transfer or firmware register communication failure.
pub const SDDC_ERROR_IO: i32 = -4;
/// No RX888-family device found at the requested index.
pub const SDDC_ERROR_NO_DEVICE: i32 = -5;
/// Device is present but not connected at SuperSpeed (USB 3.0).
pub const SDDC_ERROR_USB_SPEED: i32 = -6;
/// Firmware version on the device does not match the required version.
pub const SDDC_ERROR_FIRMWARE: i32 = -7;
/// USB device or interface could not be opened or claimed by the OS.
pub const SDDC_ERROR_OPEN: i32 = -8;

/// Size of the buffers that receive USB strings.
pub const STRING_SIZE: usize = 256;

/// Handle to an open RX888-family SDR device.
///
/// All functions but those that look for devices take this handle as their
/// first argument.
#[allow(non_camel_case_types)]
pub struct sddc_dev_t {
    pub radio: Radio,
}

impl View for sddc_dev_t {
    type V = RadioState;

    open spec fn view(&self) -> RadioState {
        self.radio@
    }
}

/// What a call comes to.
pub enum Call {
    /// It returns this code.
    Return(i32),
    /// It carries out this operation, and returns the code of its result.
    Run(Task),
}

impl Call {
    /// Whether the call carries out an operation in state `t`.
    pub open spec fn runs(self, t: TaskState) -> bool {
        self matches Call::Run(task) && task@ == t
    }
}

/// The code of an error.
pub open spec fn error_code(e: SdrError) -> i32 {
    match e {
        SdrError::DeviceNotFound => SDDC_ERROR_NO_DEVICE,
        SdrError::NotSuperSpeed => SDDC_ERROR_USB_SPEED,
        SdrError::DeviceOpenFailed(_) => SDDC_ERROR_OPEN,
        SdrError::FirmwareVersionMismatch { .. } => SDDC_ERROR_FIRMWARE,
        SdrError::CommunicationError(_) => SDDC_ERROR_IO,
        SdrError::DeviceRunning => SDDC_ERROR_BUSY,
        SdrError::AlreadyRunning => SDDC_ERROR_BUSY,
        SdrError::InvalidParameter(_) => SDDC_ERROR_INVALID_PARAM,
    }
}

/// The code of a result.
pub open spec fn result_code(result: Result<(), SdrError>) -> i32 {
    match result {
        Ok(()) => SDDC_SUCCESS,
        Err(e) => error_code(e),
    }
}

/// No error is reported as a success, and no two kinds of error share a code
/// but the two that say that the device is busy.
pub proof fn error_codes_tell_errors_apart(a: SdrError, b: SdrError)
    ensures
        error_code(a) < 0,
        error_code(a) != SDDC_ERROR,
        error_code(a) == error_code(b) <==> {
            ||| (a is DeviceNotFound && b is DeviceNotFound)
            ||| (a is NotSuperSpeed && b is NotSuperSpeed)
            ||| (a is DeviceOpenFailed && b is DeviceOpenFailed)
            ||| (a is FirmwareVersionMismatch && b is FirmwareVersionMismatch)
            ||| (a is CommunicationError && b is CommunicationError)
            ||| (a is InvalidParameter && b is InvalidParameter)
            ||| ((a is DeviceRunning || a is AlreadyRunning) && (b is DeviceRunning
                || b is AlreadyRunning))
        },
{
}

/// Map a typed `SdrError` to a C integer error code.
pub fn sdr_error_to_c_int(e: &SdrError) -> (code: i32)
    ensures
        code == error_code(*e),
{
    match e {
        SdrError::DeviceNotFound => SDDC_ERROR_NO_DEVICE,
        SdrError::NotSuperSpeed => SDDC_ERROR_USB_SPEED,
        SdrError::DeviceOpenFailed(_) => SDDC_ERROR_OPEN,
        SdrError::FirmwareVersionMismatch { .. } => SDDC_ERROR_FIRMWARE,
        SdrError::CommunicationError(_) => SDDC_ERROR_IO,
        SdrError::DeviceRunning => SDDC_ERROR_BUSY,
        SdrError::AlreadyRunning => SDDC_ERROR_BUSY,
        SdrError::InvalidParameter(_) => SDDC_ERROR_INVALID_PARAM,
    }
}

/// Map the result of an operation to a C integer code.
pub fn result_to_c_int(result: &Result<(), SdrError>) -> (code: i32)
    ensures
        code == result_code(*result),
{
    match result {
        Ok(()) => SDDC_SUCCESS,
        Err(e) => sdr_error_to_c_int(e),
    }
}

/// A buffer after an empty C string has been written to it.
pub open spec fn emptied(before: Seq<u8>) -> Seq<u8> {
    before.update(0, 0)
}

/// A buffer after `bytes`, cut to leave room for the terminator in `maxlen`
/// bytes, have been written to it as a C string.
pub open spec fn filled(before: Seq<u8>, bytes: Seq<u8>, maxlen: nat) -> Seq<u8> {
    if maxlen == 0 {
        before
    } else {
        let n = if bytes.len() + 1 > maxlen {
            (maxlen - 1) as int
        } else {
            bytes.len() as int
        };
        bytes.take(n).push(0) + before.skip(n + 1)
    }
}

/// A C string written to a buffer ends within the limit, holds nothing but a
/// prefix of the text before its terminator, and leaves the rest of the buffer
/// alone.
pub proof fn written_string_is_terminated(before: Seq<u8>, bytes: Seq<u8>, maxlen: nat) -> (n:
    int)
    requires
        0 < maxlen <= before.len(),
    ensures
        0 <= n < maxlen,
        n <= bytes.len(),
        n == bytes.len() || n == maxlen - 1,
        filled(before, bytes, maxlen).len() == before.len(),
        filled(before, bytes, maxlen)[n] == 0,
        filled(before, bytes, maxlen).take(n) == bytes.take(n),
        filled(before, bytes, maxlen).skip(n + 1) == before.skip(n + 1),
{
    let n = if bytes.len() + 1 > maxlen {
        maxlen - 1
    } else {
        bytes.len() as int
    };
    let after = filled(before, bytes, maxlen);
    assert(after.take(n) =~= bytes.take(n));
    assert(after.skip(n + 1) =~= before.skip(n + 1));
    n
}

/// Writes an empty C string.
pub fn write_empty_cstr(buf: Option<&mut [u8]>)
    requires
        buf matches Some(b) ==> b@.len() > 0,
    ensures
        buf matches Some(b) ==> final(b)@ == emptied(b@),
{
    if let Some(b) = buf {
        b[0] = 0;
    }
}

/// Writes a C string, cut to fit in `maxlen` bytes with its terminator.
pub fn write_cstr_limited(buf: Option<&mut [u8]>, s: &str, maxlen: usize)
    requires
        buf matches Some(b) ==> maxlen <= b@.len(),
    ensures
        buf matches Some(b) ==> final(b)@ == filled(b@, encode_utf8(s@), maxlen as nat),
{
    if let Some(b) = buf {
        if maxlen == 0 {
            return;
        }
        let ghost before = b@;
        let bytes = s.as_bytes();
        let n: usize = if bytes.len() > maxlen - 1 {
            maxlen - 1
        } else {
            bytes.len()
        };
        let mut i: usize = 0;
        while i < n
            invariant
                i <= n < before.len(),
                n <= bytes@.len(),
                b@ == bytes@.take(i as int) + before.skip(i as int),
            decreases n - i,
        {
            b[i] = bytes[i];
            assert(b@ =~= bytes@.take(i + 1) + before.skip(i + 1));
            i += 1;
        }
        b[n] = 0;
        assert(b@ =~= filled(before, bytes@, maxlen as nat));
    }
}

/// Whether a buffer has room for a USB string.
pub open spec fn roomy(buf: Option<&mut [u8]>) -> bool {
    buf matches Some(b) ==> b@.len() >= STRING_SIZE
}

/// A buffer after a USB string, if the device has it, has been written to it.
pub open spec fn stored(before: Seq<u8>, text: Option<String>) -> Seq<u8> {
    match text {
        Some(text) => filled(before, encode_utf8(text@), STRING_SIZE as nat),
        None => emptied(before),
    }
}

fn write_string(buf: Option<&mut [u8]>, text: &Option<String>)
    requires
        roomy(buf),
    ensures
        buf matches Some(b) ==> final(b)@ == stored(b@, *text),
{
    match text {
        Some(text) => write_cstr_limited(buf, text.as_str(), STRING_SIZE),
        None => write_empty_cstr(buf),
    }
}

/// How a walk over the devices goes on.
#[derive(Debug, PartialEq, Eq)]
pub enum Lookup<T> {
    /// Look for the device at this index.
    Next(u32),
    /// This is the answer.
    Answer(T),
}

/// Counting after the lookup at index `count`.
pub open spec fn count_step(count: u32, found: bool) -> Lookup<u32> {
    if found {
        Lookup::Next((count + 1) as u32)
    } else {
        Lookup::Answer(count)
    }
}

/// Get the number of available SDR devices: devices are looked up at one index
/// after the other, and `count` have been found when the lookup at index `count`
/// finds one or does not.
pub fn sddc_get_device_count(count: u32, found: bool) -> (step: Lookup<u32>)
    requires
        found ==> count < u32::MAX,
    ensures
        step == count_step(count, found),
{
    if found {
        Lookup::Next(count + 1)
    } else {
        Lookup::Answer(count)
    }
}

/// What counting comes to when the lookups from index `count` on go as `found`
/// says, if they settle it.
pub open spec fn counted(count: u32, found: Seq<bool>) -> Option<u32>
    decreases found.len(),
{
    if found.len() == 0 {
        None
    } else {
        match count_step(count, found[0]) {
            Lookup::Next(next) => counted(next, found.skip(1)),
            Lookup::Answer(answer) => Some(answer),
        }
    }
}

/// Counting gives the number of devices found before the first lookup that
/// finds none.
pub proof fn count_is_first_gap(count: u32, found: Seq<bool>, n: int)
    requires
        0 <= n < found.len(),
        count + n <= u32::MAX,
        !found[n],
        forall|i: int| 0 <= i < n ==> found[i],
    ensures
        counted(count, found) == Some((count + n) as u32),
    decreases n,
{
    if n > 0 {
        let rest = found.skip(1);
        assert forall|i: int| 0 <= i < n - 1 implies rest[i] by {
            assert(rest[i] == found[i + 1]);
        }
        assert(rest[n - 1] == found[n]);
        count_is_first_gap((count + 1) as u32, rest, n - 1);
    }
}

/// On a bus that does not change, counting gives the number of devices that run
/// the firmware at SuperSpeed: every index below it names such a device and no
/// other index does, and it is 0 exactly where there is none.
pub proof fn count_on_stable_bus(devices: Seq<DeviceInfo>, ids: UsbIds, found: Seq<bool>)
    requires
        count(devices, ids, Role::Radio) < found.len(),
        count(devices, ids, Role::Radio) <= u32::MAX,
        forall|i: int|
            0 <= i < found.len() ==> #[trigger] found[i] == (nth(
                devices,
                ids,
                Role::Radio,
                i as nat,
            ) is Some),
    ensures
        counted(0, found) == Some(count(devices, ids, Role::Radio) as u32),
        counted(0, found) matches Some(result) ==> {
            &&& forall|i: nat| #[trigger]
                nth(devices, ids, Role::Radio, i) is Some <==> i < result
            &&& result == 0 <==> forall|i: int|
                0 <= i < devices.len() ==> !plays(#[trigger] devices[i], ids, Role::Radio)
        },
{
    let n = count(devices, ids, Role::Radio);
    assert forall|i: int| 0 <= i < found.len() implies #[trigger] found[i] == (i < n) by {
        nth_exists(devices, ids, Role::Radio, i as nat);
    }
    count_is_first_gap(0, found, n as int);
    assert forall|i: nat| #[trigger] nth(devices, ids, Role::Radio, i) is Some <==> i < n by {
        nth_exists(devices, ids, Role::Radio, i);
    }
    none_counted(devices, ids, Role::Radio);
}

/// The bytes of a name as a C string; a name with a zero byte in it cannot be
/// one, and is empty instead.
pub open spec fn c_string(bytes: Seq<u8>) -> Seq<u8> {
    if bytes.contains(0) {
        seq![0]
    } else {
        bytes.push(0)
    }
}

fn to_c_string(bytes: &[u8]) -> (name: Vec<u8>)
    ensures
        name@ == c_string(bytes@),
{
    let mut name: Vec<u8> = Vec::new();
    let mut i: usize = 0;
    while i < bytes.len()
        invariant
            i <= bytes@.len(),
            name@ == bytes@.take(i as int),
            forall|k: int| 0 <= k < i ==> #[trigger] bytes@[k] != 0,
        decreases bytes@.len() - i,
    {
        let byte: u8 = bytes[i];
        if byte == 0 {
            let mut empty: Vec<u8> = Vec::new();
            empty.push(0);
            assert(bytes@.contains(0) && empty@ =~= seq![0u8]);
            return empty;
        }
        name.push(byte);
        assert(bytes@.take(i + 1) =~= bytes@.take(i as int).push(byte));
        i += 1;
    }
    assert(bytes@.take(i as int) =~= bytes@);
    name.push(0);
    name
}

/// Get device name: the product string of the device that was looked up, as a
/// C string, or nothing if there is no such device.
pub fn sddc_get_device_name(device: Option<&DeviceInfo>) -> (name: Option<Vec<u8>>)
    ensures
        match device {
            None => name is None,
            Some(device) => {
                &&& name matches Some(name)
                &&& name@ == match device.product {
                    Some(text) => c_string(encode_utf8(text@)),
                    None => c_string(Seq::empty()),
                }
            },
        },
{
    match device {
        None => None,
        Some(device) => match &device.product {
            Some(text) => Some(to_c_string(text.as_str().as_bytes())),
            None => {
                let nothing: Vec<u8> = Vec::new();
                Some(to_c_string(nothing.as_slice()))
            },
        },
    }
}

/// Get USB device strings of the device that was looked up.
///
/// NOTE: Each string buffer must provide space for up to 256 bytes.
pub fn sddc_get_device_usb_strings(
    device: Option<&DeviceInfo>,
    manufact: Option<&mut [u8]>,
    product: Option<&mut [u8]>,
    serial: Option<&mut [u8]>,
) -> (code: i32)
    requires
        roomy(manufact),
        roomy(product),
        roomy(serial),
    ensures
        match device {
            None => {
                &&& code == SDDC_ERROR
                &&& manufact matches Some(b) ==> final(b)@ == emptied(b@)
                &&& product matches Some(b) ==> final(b)@ == emptied(b@)
                &&& serial matches Some(b) ==> final(b)@ == emptied(b@)
            },
            Some(device) => {
                &&& code == SDDC_SUCCESS
                &&& manufact matches Some(b) ==> final(b)@ == stored(b@, device.manufacturer)
                &&& product matches Some(b) ==> final(b)@ == stored(b@, device.product)
                &&& serial matches Some(b) ==> final(b)@ == stored(b@, device.serial)
            },
        },
{
    match device {
        None => {
            write_empty_cstr(manufact);
            write_empty_cstr(product);
            write_empty_cstr(serial);
            SDDC_ERROR
        },
        Some(device) => {
            write_string(manufact, &device.manufacturer);
            write_string(product, &device.product);
            write_string(serial, &device.serial);
            SDDC_SUCCESS
        },
    }
}

/// Calls `core::str::from_utf8`. Claimed: bytes that are UTF-8 come back as the
/// text that they encode, and other bytes give nothing.
#[verifier::external_body]
fn from_utf8(bytes: &[u8]) -> (text: Option<&str>)
    ensures
        match text {
            Some(text) => valid_utf8(bytes@) && encode_utf8(text@) == bytes@,
            None => !valid_utf8(bytes@),
        },
{
    core::str::from_utf8(bytes).ok()
}

/// The serial number that [`sddc_get_index_by_serial`] looks for, given the
/// bytes of a C string, or the code to return where there is none.
pub fn serial_argument(serial: Option<&[u8]>) -> (text: Result<String, i32>)
    ensures
        match serial {
            None => text == Err::<String, i32>(SDDC_ERROR_INVALID_PARAM),
            Some(bytes) => match text {
                Ok(text) => valid_utf8(bytes@) && encode_utf8(text@) == bytes@,
                Err(code) => code == SDDC_ERROR_INVALID_PARAM && !valid_utf8(bytes@),
            },
        },
{
    match serial {
        None => Err(SDDC_ERROR_INVALID_PARAM),
        Some(bytes) => match from_utf8(bytes) {
            Some(text) => Ok(text.to_owned()),
            None => Err(SDDC_ERROR_INVALID_PARAM),
        },
    }
}

/// Whether a device has a given serial number.
pub open spec fn has_serial(device: DeviceInfo, serial: Seq<char>) -> bool {
    device.serial matches Some(text) && text@ == serial
}

/// The search for a serial number after the lookup at `index`.
pub open spec fn serial_step(
    serial: Seq<char>,
    index: u32,
    device: Option<DeviceInfo>,
) -> Lookup<i32> {
    match device {
        None => if index == 0 {
            Lookup::Answer(SDDC_ERROR_NO_DEVICE)
        } else {
            Lookup::Answer(SDDC_ERROR)
        },
        Some(device) => if has_serial(device, serial) {
            Lookup::Answer(index as i32)
        } else {
            Lookup::Next((index + 1) as u32)
        },
    }
}

/// What the search comes to when the lookups from `index` on find `devices`,
/// and nothing after them.
pub open spec fn searched(serial: Seq<char>, index: u32, devices: Seq<DeviceInfo>) -> i32
    decreases devices.len(),
{
    if devices.len() == 0 {
        match serial_step(serial, index, None) {
            Lookup::Answer(code) => code,
            Lookup::Next(_) => SDDC_ERROR,
        }
    } else {
        match serial_step(serial, index, Some(devices[0])) {
            Lookup::Answer(code) => code,
            Lookup::Next(next) => searched(serial, next, devices.skip(1)),
        }
    }
}

/// The search gives the index of the first device with the serial number.
pub proof fn first_serial_wins(serial: Seq<char>, index: u32, devices: Seq<DeviceInfo>, n: int)
    requires
        0 <= n < devices.len(),
        index + n <= i32::MAX,
        has_serial(devices[n], serial),
        forall|i: int| 0 <= i < n ==> !has_serial(devices[i], serial),
    ensures
        searched(serial, index, devices) == index + n,
    decreases n,
{
    if n > 0 {
        let rest = devices.skip(1);
        assert forall|i: int| 0 <= i < n - 1 implies !has_serial(rest[i], serial) by {
            assert(rest[i] == devices[i + 1]);
        }
        assert(rest[n - 1] == devices[n]);
        first_serial_wins(serial, (index + 1) as u32, rest, n - 1);
    }
}

/// A search that finds no device with the serial number tells a bus without
/// devices from one whose devices have other serial numbers.
pub proof fn unknown_serial_is_an_error(serial: Seq<char>, index: u32, devices: Seq<DeviceInfo>)
    requires
        index + devices.len() <= u32::MAX,
        forall|i: int| 0 <= i < devices.len() ==> !has_serial(devices[i], serial),
    ensures
        searched(serial, index, devices) == if index + devices.len() == 0 {
            SDDC_ERROR_NO_DEVICE
        } else {
            SDDC_ERROR
        },
    decreases devices.len(),
{
    if devices.len() > 0 {
        let rest = devices.skip(1);
        assert forall|i: int| 0 <= i < rest.len() implies !has_serial(rest[i], serial) by {
            assert(rest[i] == devices[i + 1]);
        }
        unknown_serial_is_an_error(serial, (index + 1) as u32, rest);
    }
}

/// Get device index by USB serial string descriptor: devices are looked up at
/// one index after the other, and the lookup at `index` found `device`.
///
/// The answer is
/// - device index of first matching device
/// - SDDC_ERROR_NO_DEVICE if no devices were found
/// - SDDC_ERROR if devices were found, but none matched
pub fn sddc_get_index_by_serial(
    serial: &String,
    index: u32,
    device: Option<&DeviceInfo>,
) -> (step: Lookup<i32>)
    requires
        device is Some ==> index < u32::MAX,
    ensures
        step == match device {
            Some(device) => serial_step(serial@, index, Some(*device)),
            None => serial_step(serial@, index, None),
        },
{
    match device {
        None => {
            if index == 0 {
                Lookup::Answer(SDDC_ERROR_NO_DEVICE)
            } else {
                Lookup::Answer(SDDC_ERROR)
            }
        },
        Some(device) => {
            if let Some(text) = &device.serial {
                if text.eq(serial) {
                    return Lookup::Answer(#[verifier::truncate] (index as i32));
                }
            }
            Lookup::Next(index + 1)
        },
    }
}

/// Open the device: hands out a handle to the radio, or the code of what went
/// wrong.
pub fn sddc_open(dev: Option<&mut Option<sddc_dev_t>>, radio: Result<Radio, SdrError>) -> (code:
    i32)
    ensures
        match dev {
            None => code == SDDC_ERROR,
            Some(slot) => match radio {
                Ok(radio) => code == SDDC_SUCCESS && *final(slot) == Some(sddc_dev_t { radio }),
                Err(e) => code == error_code(e) && *final(slot) == *slot,
            },
        },
{
    match dev {
        None => SDDC_ERROR,
        Some(slot) => match radio {
            Ok(radio) => {
                *slot = Some(sddc_dev_t { radio });
                SDDC_SUCCESS
            },
            Err(e) => sdr_error_to_c_int(&e),
        },
    }
}

/// Close the device opened by `sddc_open()`: gives the code, and the operation
/// that ends a stream before the device goes, whose result does not matter.
pub fn sddc_close(dev: Option<&mut sddc_dev_t>) -> (closing: (i32, Option<Task>))
    ensures
        match dev {
            None => closing == (SDDC_ERROR, None::<Task>),
            Some(d) => {
                &&& closing.0 == SDDC_SUCCESS
                &&& closing.1 matches Some(task)
                &&& task@ == d@.stopping()
                &&& final(d)@ == (RadioState { reading: false, ..d@ })
            },
        },
{
    match dev {
        None => (SDDC_ERROR, None),
        Some(d) => (SDDC_SUCCESS, Some(d.radio.read_cancel())),
    }
}

/// Get USB device strings for an open device.
///
/// NOTE: Each string buffer must provide space for up to 256 bytes.
pub fn sddc_get_usb_strings(
    dev: Option<&sddc_dev_t>,
    manufact: Option<&mut [u8]>,
    product: Option<&mut [u8]>,
    serial: Option<&mut [u8]>,
) -> (code: i32)
    requires
        roomy(manufact),
        roomy(product),
        roomy(serial),
    ensures
        match dev {
            None => {
                &&& code == SDDC_ERROR
                &&& manufact matches Some(b) ==> final(b)@ == b@
                &&& product matches Some(b) ==> final(b)@ == b@
                &&& serial matches Some(b) ==> final(b)@ == b@
            },
            Some(dev) => {
                &&& code == SDDC_SUCCESS
                &&& manufact matches Some(b) ==> final(b)@ == stored(b@, dev@.device.manufacturer)
                &&& product matches Some(b) ==> final(b)@ == stored(b@, dev@.device.product)
                &&& serial matches Some(b) ==> final(b)@ == stored(b@, dev@.device.serial)
            },
        },
{
    match dev {
        None => SDDC_ERROR,
        Some(dev) => sddc_get_device_usb_strings(
            Some(dev.radio.device_info()),
            manufact,
            product,
            serial,
        ),
    }
}

/// Set ADC crystal oscillator frequency.
/// At the SDR device level, xtal_freq equals the sample rate. The setting
/// cannot be changed while streaming.
pub fn sddc_set_xtal_freq(dev: Option<&mut sddc_dev_t>, rtl_freq: u32) -> (code: i32)
    ensures
        match dev {
            None => code == SDDC_ERROR,
            Some(d) => if d@.running {
                code == SDDC_ERROR_BUSY && final(d)@ == d@
            } else {
                code == SDDC_SUCCESS && final(d)@ == (RadioState { xtal_freq: rtl_freq, ..d@ })
            },
        },
{
    match dev {
        None => SDDC_ERROR,
        Some(d) => result_to_c_int(&d.radio.set_xtal_freq(rtl_freq)),
    }
}

/// Get ADC crystal oscillator frequency.
pub fn sddc_get_xtal_freq(dev: Option<&sddc_dev_t>, value: Option<&mut u32>) -> (code: i32)
    ensures
        match (dev, value) {
            (Some(d), Some(v)) => code == SDDC_SUCCESS && *final(v) == d@.xtal_freq,
            (None, Some(v)) => code == SDDC_ERROR && *final(v) == *v,
            (_, None) => code == SDDC_ERROR,
        },
{
    match (dev, value) {
        (Some(d), Some(v)) => {
            *v = d.radio.get_xtal_freq();
            SDDC_SUCCESS
        },
        _ => SDDC_ERROR,
    }
}

/// Set the IF gain, given the index that it has in the current model and
/// sampling mode. Applied immediately when streaming.
pub fn sddc_set_if_gain(dev: Option<&mut sddc_dev_t>, value: Gain, gain_index: u32) -> (call: Call)
    ensures
        match dev {
            None => call == Call::Return(SDDC_ERROR),
            Some(d) => {
                &&& final(d)@ == (RadioState { if_gain: value, ..d@ })
                &&& call.runs(
                    TaskState::planned(
                        TaskKind::Apply,
                        d@.when_running(seq![d@.if_gain_write(gain_index)]),
                    ),
                )
            },
        },
{
    match dev {
        None => Call::Return(SDDC_ERROR),
        Some(d) => Call::Run(d.radio.set_if_gain(value, gain_index)),
    }
}

/// Set the RF gain, given the index that it has in the current model and
/// sampling mode. Applied immediately when streaming.
pub fn sddc_set_rf_gain(dev: Option<&mut sddc_dev_t>, value: Gain, gain_index: u32) -> (call: Call)
    ensures
        match dev {
            None => call == Call::Return(SDDC_ERROR),
            Some(d) => {
                &&& final(d)@ == (RadioState { rf_gain: value, ..d@ })
                &&& call.runs(
                    TaskState::planned(
                        TaskKind::Apply,
                        d@.when_running(seq![d@.rf_gain_write(gain_index)]),
                    ),
                )
            },
        },
{
    match dev {
        None => Call::Return(SDDC_ERROR),
        Some(d) => Call::Run(d.radio.set_rf_gain(value, gain_index)),
    }
}

/// Get the current IF gain.
pub fn sddc_get_if_gain(dev: Option<&sddc_dev_t>, value: Option<&mut Gain>) -> (code: i32)
    ensures
        match (dev, value) {
            (Some(d), Some(v)) => code == SDDC_SUCCESS && *final(v) == d@.if_gain,
            (None, Some(v)) => code == SDDC_ERROR && *final(v) == *v,
            (_, None) => code == SDDC_ERROR,
        },
{
    match (dev, value) {
        (Some(d), Some(v)) => {
            *v = d.radio.get_if_gain();
            SDDC_SUCCESS
        },
        _ => SDDC_ERROR,
    }
}

/// Get the IF gain range supported by this device and sampling mode.
pub fn sddc_get_if_gain_range(
    dev: Option<&sddc_dev_t>,
    min: Option<&mut Gain>,
    max: Option<&mut Gain>,
) -> (code: i32)
    ensures
        match (dev, min, max) {
            (Some(d), Some(mn), Some(mx)) => {
                &&& code == SDDC_SUCCESS
                &&& (*final(mn), *final(mx)) == d@.profile().if_range
            },
            _ => {
                &&& code == SDDC_ERROR
                &&& min matches Some(mn) ==> *final(mn) == *mn
                &&& max matches Some(mx) ==> *final(mx) == *mx
            },
        },
{
    match (dev, min, max) {
        (Some(d), Some(mn), Some(mx)) => {
            let (low, high) = d.radio.get_if_gain_range();
            *mn = low;
            *mx = high;
            SDDC_SUCCESS
        },
        _ => SDDC_ERROR,
    }
}

/// Get the discrete IF gain steps supported by this device and sampling mode,
/// and how many there are.
pub fn sddc_get_if_gain_steps<'a>(
    dev: Option<&'a sddc_dev_t>,
    steps: Option<&mut &'a [Gain]>,
) -> (count: i32)
    ensures
        match (dev, steps) {
            (Some(d), Some(s)) => {
                &&& final(s)@ == d@.profile().if_steps@
                &&& count == d@.profile().if_steps@.len() as i32
            },
            (None, Some(s)) => count == SDDC_ERROR && *final(s) == *s,
            (_, None) => count == SDDC_ERROR,
        },
{
    match (dev, steps) {
        (Some(d), Some(s)) => {
            let slice = d.radio.get_if_gain_steps();
            *s = slice;
            #[verifier::truncate]
            (slice.len() as i32)
        },
        _ => SDDC_ERROR,
    }
}

/// Get the current RF gain.
pub fn sddc_get_rf_gain(dev: Option<&sddc_dev_t>, value: Option<&mut Gain>) -> (code: i32)
    ensures
        match (dev, value) {
            (Some(d), Some(v)) => code == SDDC_SUCCESS && *final(v) == d@.rf_gain,
            (None, Some(v)) => code == SDDC_ERROR && *final(v) == *v,
            (_, None) => code == SDDC_ERROR,
        },
{
    match (dev, value) {
        (Some(d), Some(v)) => {
            *v = d.radio.get_rf_gain();
            SDDC_SUCCESS
        },
        _ => SDDC_ERROR,
    }
}

/// Get the RF gain range supported by this device and sampling mode.
pub fn sddc_get_rf_gain_range(
    dev: Option<&sddc_dev_t>,
    min: Option<&mut Gain>,
    max: Option<&mut Gain>,
) -> (code: i32)
    ensures
        match (dev, min, max) {
            (Some(d), Some(mn), Some(mx)) => {
                &&& code == SDDC_SUCCESS
                &&& (*final(mn), *final(mx)) == d@.profile().rf_range
            },
            _ => {
                &&& code == SDDC_ERROR
                &&& min matches Some(mn) ==> *final(mn) == *mn
                &&& max matches Some(mx) ==> *final(mx) == *mx
            },
        },
{
    match (dev, min, max) {
        (Some(d), Some(mn), Some(mx)) => {
            let (low, high) = d.radio.get_rf_gain_range();
            *mn = low;
            *mx = high;
            SDDC_SUCCESS
        },
        _ => SDDC_ERROR,
    }
}

/// Get the discrete RF gain steps supported by this device and sampling mode,
/// and how many there are.
pub fn sddc_get_rf_gain_steps<'a>(
    dev: Option<&'a sddc_dev_t>,
    steps: Option<&mut &'a [Gain]>,
) -> (count: i32)
    ensures
        match (dev, steps) {
            (Some(d), Some(s)) => {
                &&& final(s)@ == d@.profile().rf_steps@
                &&& count == d@.profile().rf_steps@.len() as i32
            },
            (None, Some(s)) => count == SDDC_ERROR && *final(s) == *s,
            (_, None) => count == SDDC_ERROR,
        },
{
    match (dev, steps) {
        (Some(d), Some(s)) => {
            let slice = d.radio.get_rf_gain_steps();
            *s = slice;
            #[verifier::truncate]
            (slice.len() as i32)
        },
        _ => SDDC_ERROR,
    }
}

/// Get the current center frequency in Hz (64-bit), or 0 without a device.
pub fn sddc_get_center_freq64(dev: Option<&sddc_dev_t>) -> (value: u64)
    ensures
        value == match dev {
            None => 0,
            Some(d) => d@.center_freq,
        },
{
    match dev {
        None => 0,
        Some(d) => d.radio.get_center_freq(),
    }
}

/// Set the center frequency for the device (64-bit). Applied immediately when
/// streaming.
pub fn sddc_set_center_freq64(dev: Option<&mut sddc_dev_t>, freq: u64) -> (call: Call)
    ensures
        match dev {
            None => call == Call::Return(SDDC_ERROR),
            Some(d) => {
                &&& final(d)@ == (RadioState { center_freq: freq, ..d@ })
                &&& call.runs(
                    TaskState::planned(
                        TaskKind::Apply,
                        final(d)@.when_running(final(d)@.center_freq_writes()),
                    ),
                )
            },
        },
{
    match dev {
        None => Call::Return(SDDC_ERROR),
        Some(d) => Call::Run(d.radio.set_center_freq(freq)),
    }
}

/// Get current ADC sample rate in Hz, which equals the crystal oscillator
/// frequency, or 0 without a device.
pub fn sddc_get_sample_rate(dev: Option<&sddc_dev_t>) -> (value: u32)
    ensures
        value == match dev {
            None => 0,
            Some(d) => d@.xtal_freq,
        },
{
    match dev {
        None => 0,
        Some(d) => d.radio.get_xtal_freq(),
    }
}

/// Enable or disable direct sampling mode. This setting cannot be changed while
/// streaming.
pub fn sddc_set_direct_sampling(dev: Option<&mut sddc_dev_t>, on: i32) -> (code: i32)
    ensures
        match dev {
            None => code == SDDC_ERROR,
            Some(d) => if d@.running {
                code == SDDC_ERROR_BUSY && final(d)@ == d@
            } else {
                code == SDDC_SUCCESS && final(d)@ == (RadioState { direct_sampling: on != 0, ..d@ })
            },
        },
{
    match dev {
        None => SDDC_ERROR,
        Some(d) => result_to_c_int(&d.radio.set_direct_sampling(on != 0)),
    }
}

/// Get state of direct sampling mode: 1 if enabled, 0 if disabled.
pub fn sddc_get_direct_sampling(dev: Option<&sddc_dev_t>) -> (value: i32)
    ensures
        value == match dev {
            None => SDDC_ERROR,
            Some(d) => if d@.direct_sampling {
                1
            } else {
                0
            },
        },
{
    match dev {
        None => SDDC_ERROR,
        Some(d) => {
            if d.radio.get_direct_sampling() {
                1
            } else {
                0
            }
        },
    }
}

/// The transfer whose reply [`sddc_get_pll_lock`] reads, if the call needs one.
pub fn pll_lock_request(dev: Option<&sddc_dev_t>, has_output: bool) -> (request: Option<
    ControlRead,
>)
    ensures
        request == match dev {
            Some(d) => if has_output {
                Some(ControlRead::reads(d@.hw, Register::REG_TUNER))
            } else {
                None
            },
            None => None,
        },
{
    match dev {
        Some(d) => {
            if has_output {
                Some(d.radio.tuner_status_request())
            } else {
                None
            }
        },
        None => None,
    }
}

/// Query the tuner PLL lock status, given the tuner register.
///
/// Only meaningful in tuner mode: in direct-sampling mode there is no PLL to
/// lock and this reports 0.
pub fn sddc_get_pll_lock(
    dev: Option<&sddc_dev_t>,
    locked: Option<&mut i32>,
    reply: RegisterReply,
) -> (code: i32)
    requires
        complete(reply),
    ensures
        match (dev, locked) {
            (Some(d), Some(v)) => match reply {
                Ok(data) => {
                    &&& code == SDDC_SUCCESS
                    &&& *final(v) == bit(
                        !d@.direct_sampling && pll_locked(le_value(data@) as u32),
                    )
                },
                Err(_) => code == SDDC_ERROR_IO && *final(v) == *v,
            },
            (None, Some(v)) => code == SDDC_ERROR && *final(v) == *v,
            (_, None) => code == SDDC_ERROR,
        },
{
    match (dev, locked) {
        (Some(d), Some(v)) => match d.radio.get_pll_lock(reply) {
            Ok(yes) => {
                *v = if yes {
                    1
                } else {
                    0
                };
                SDDC_SUCCESS
            },
            Err(e) => sdr_error_to_c_int(&e),
        },
        _ => SDDC_ERROR,
    }
}

/// Start asynchronous sample streaming, given the indices that the stored gains
/// have in the current model and sampling mode.
pub fn sddc_read_async(
    dev: Option<&mut sddc_dev_t>,
    has_callback: bool,
    if_index: u32,
    rf_index: u32,
) -> (call: Call)
    ensures
        match dev {
            None => call == Call::Return(SDDC_ERROR),
            Some(d) => if !has_callback {
                call == Call::Return(SDDC_ERROR) && final(d)@ == d@
            } else if d@.reading {
                call == Call::Return(SDDC_ERROR_BUSY) && final(d)@ == d@
            } else if !d@.device.at_super_speed() {
                call == Call::Return(SDDC_ERROR_USB_SPEED) && final(d)@ == d@
            } else {
                &&& final(d)@ == (RadioState { running: true, ..d@ })
                &&& call.runs(
                    TaskState::planned(TaskKind::Start, d@.arming_writes(if_index, rf_index)),
                )
            },
        },
{
    match dev {
        None => Call::Return(SDDC_ERROR),
        Some(d) => {
            if !has_callback {
                return Call::Return(SDDC_ERROR);
            }
            match d.radio.read_async(if_index, rf_index) {
                Ok(task) => Call::Run(task),
                Err(e) => Call::Return(sdr_error_to_c_int(&e)),
            }
        },
    }
}

/// The sample count that the callback gets: 0 says that the stream has failed,
/// so a transfer without a whole sample is not reported at all.
pub fn callback_count(samples: Option<&[i16]>) -> (count: Option<u32>)
    ensures
        count == match samples {
            None => Some(0u32),
            Some(samples) => if samples@.len() == 0 {
                None
            } else {
                Some(samples@.len() as u32)
            },
        },
        // a count of 0 always says that the stream has failed
        samples matches Some(samples) && samples@.len() <= u32::MAX ==> count != Some(0u32),
{
    match samples {
        None => Some(0),
        Some(samples) => {
            if samples.len() == 0 {
                None
            } else {
                Some(#[verifier::truncate] (samples.len() as u32))
            }
        },
    }
}

/// Stop asynchronous streaming started by `sddc_read_async()`.
/// Safe to call even if no streaming is in progress.
pub fn sddc_cancel_async(dev: Option<&mut sddc_dev_t>) -> (call: Call)
    ensures
        match dev {
            None => call == Call::Return(SDDC_ERROR),
            Some(d) => {
                &&& final(d)@ == (RadioState { reading: false, ..d@ })
                &&& call.runs(d@.stopping())
            },
        },
{
    match dev {
        None => Call::Return(SDDC_ERROR),
        Some(d) => Call::Run(d.radio.read_cancel()),
    }
}

/// Enable or disable the antenna bias-tee voltage.
///
/// - `on`: bitmask - bit 0 = HF port bias, bit 1 = VHF/UHF port bias
///   (0 = both off, 1 = HF on, 2 = VHF on, 3 = both on)
pub fn sddc_enable_bias_tee(dev: Option<&mut sddc_dev_t>, on: i32) -> (call: Call)
    ensures
        match dev {
            None => call == Call::Return(SDDC_ERROR),
            Some(d) => {
                &&& final(d)@ == d@
                &&& call.runs(
                    TaskState::planned(
                        TaskKind::Apply,
                        seq![
                            plain(Register::REG_DIRECT_ANT_BIAS, bit(on & 0x01 != 0)),
                            plain(Register::REG_TUNER_ANT_BIAS, bit(on & 0x02 != 0)),
                        ],
                    ),
                )
            },
        },
{
    match dev {
        None => Call::Return(SDDC_ERROR),
        Some(d) => {
            let hf = match d.radio.enable_antenna_bias(0, on & 0x01 != 0) {
                Ok(task) => task,
                Err(e) => {
                    return Call::Return(sdr_error_to_c_int(&e));
                },
            };
            let vhf = match d.radio.enable_antenna_bias(1, on & 0x02 != 0) {
                Ok(task) => task,
                Err(e) => {
                    return Call::Return(sdr_error_to_c_int(&e));
                },
            };
            assert(hf@.writes + vhf@.writes =~= seq![
                plain(Register::REG_DIRECT_ANT_BIAS, bit(on & 0x01 != 0)),
                plain(Register::REG_TUNER_ANT_BIAS, bit(on & 0x02 != 0)),
            ]);
            Call::Run(hf.followed_by(vhf))
        },
    }
}

/// Enable or disable ADC dither. Applied immediately when streaming.
pub fn sddc_enable_adc_dither(dev: Option<&mut sddc_dev_t>, on: i32) -> (call: Call)
    ensures
        match dev {
            None => call == Call::Return(SDDC_ERROR),
            Some(d) => {
                &&& final(d)@ == d@.with_adc(d@.hw.adc.dither, on != 0)
                &&& call.runs(final(d)@.adc_task())
            },
        },
{
    match dev {
        None => Call::Return(SDDC_ERROR),
        Some(d) => Call::Run(d.radio.enable_adc_dither(on != 0)),
    }
}

/// Enable or disable the ADC programmable gain amplifier (PGA). Applied
/// immediately when streaming.
pub fn sddc_enable_adc_pga(dev: Option<&mut sddc_dev_t>, on: i32) -> (call: Call)
    ensures
        match dev {
            None => call == Call::Return(SDDC_ERROR),
            Some(d) => {
                &&& final(d)@ == d@.with_adc(d@.hw.adc.pga, on != 0)
                &&& call.runs(final(d)@.adc_task())
            },
        },
{
    match dev {
        None => Call::Return(SDDC_ERROR),
        Some(d) => Call::Run(d.radio.enable_adc_pga(on != 0)),
    }
}

/// Enable or disable ADC output bit randomization, which the reader of a stream
/// undoes. Cannot be changed while streaming.
pub fn sddc_enable_adc_rando(dev: Option<&mut sddc_dev_t>, on: i32) -> (code: i32)
    ensures
        match dev {
            None => code == SDDC_ERROR,
            Some(d) => if d@.running {
                code == SDDC_ERROR_BUSY && final(d)@ == d@
            } else {
                code == SDDC_SUCCESS && final(d)@ == d@.with_adc(d@.hw.adc.rando, on != 0)
            },
        },
{
    match dev {
        None => SDDC_ERROR,
        Some(d) => result_to_c_int(&d.radio.enable_adc_rando(on != 0)),
    }
}

/// Get the installed firmware version as a packed 16-bit value, major version
/// first, or 0 without a device.
pub fn sddc_get_firmware_version(dev: Option<&sddc_dev_t>) -> (value: u16)
    ensures
        value == match dev {
            None => 0,
            Some(d) => d@.firmware_version,
        },
{
    match dev {
        None => 0,
        Some(d) => d.radio.get_firmware_version(),
    }
}

/// Enable or disable HF input high-impedance mode. Applied immediately when
/// streaming.
pub fn sddc_enable_hf_highz(dev: Option<&mut sddc_dev_t>, on: i32) -> (call: Call)
    ensures
        match dev {
            None => call == Call::Return(SDDC_ERROR),
            Some(d) => {
                &&& final(d)@ == d@.with_adc(d@.hw.adc.hf_highz, on != 0)
                &&& call.runs(final(d)@.adc_task())
            },
        },
{
    match dev {
        None => Call::Return(SDDC_ERROR),
        Some(d) => Call::Run(d.radio.enable_hf_highz(on != 0)),
    }
}

/// Enable or disable external clock input (RX888 PRO only). Applied immediately
/// when streaming.
pub fn sddc_enable_ext_clock(dev: Option<&mut sddc_dev_t>, on: i32) -> (call: Call)
    ensures
        match dev {
            None => call == Call::Return(SDDC_ERROR),
            Some(d) => {
                &&& final(d)@ == d@.with_adc(d@.hw.adc.ext_clock, on != 0)
                &&& call.runs(final(d)@.adc_task())
            },
        },
{
    match dev {
        None => Call::Return(SDDC_ERROR),
        Some(d) => Call::Run(d.radio.enable_ext_clock(on != 0)),
    }
}

/// Set the ADC anti-aliasing filter mode (RX888 PRO only). Applied immediately
/// when streaming.
pub fn sddc_set_adc_filter(dev: Option<&mut sddc_dev_t>, mode: FilterMode) -> (call: Call)
    ensures
        match dev {
            None => call == Call::Return(SDDC_ERROR),
            Some(d) => {
                &&& final(d)@ == (RadioState { adc_filter: mode, ..d@ })
                &&& call.runs(
                    TaskState::planned(
                        TaskKind::Apply,
                        d@.when_running(
                            seq![plain(Register::REG_DIRECT_ADC_FILTER, mode.number())],
                        ),
                    ),
                )
            },
        },
{
    match dev {
        None => Call::Return(SDDC_ERROR),
        Some(d) => Call::Run(d.radio.set_adc_filter(mode)),
    }
}

/// Set the state of the 7 pins of the extension I/O port (RX888 PRO only): one
/// bit per pin, and the high bit is reserved.
pub fn sddc_set_ext_io_port_state(dev: Option<&mut sddc_dev_t>, state: u8) -> (call: Call)
    ensures
        match dev {
            None => call == Call::Return(SDDC_ERROR),
            Some(d) => {
                &&& final(d)@ == d@
                &&& call.runs(
                    TaskState::planned(
                        TaskKind::Apply,
                        seq![plain(Register::REG_EXT_GPIO, (state & 0x7F) as u32)],
                    ),
                )
            },
        },
{
    match dev {
        None => Call::Return(SDDC_ERROR),
        Some(d) => match d.radio.set_ext_gpio(state) {
            Ok(task) => Call::Run(task),
            Err(e) => Call::Return(sdr_error_to_c_int(&e)),
        },
    }
}

/// Enable or disable the front-end preamplifier of the current sampling mode.
/// Applied immediately.
pub fn sddc_enable_preamp(dev: Option<&mut sddc_dev_t>, on: i32) -> (call: Call)
    ensures
        match dev {
            None => call == Call::Return(SDDC_ERROR),
            Some(d) => {
                &&& final(d)@ == d@
                &&& call.runs(TaskState::planned(TaskKind::Apply, seq![d@.preamp_write(on != 0)]))
            },
        },
{
    match dev {
        None => Call::Return(SDDC_ERROR),
        Some(d) => Call::Run(d.radio.enable_preamp(on != 0)),
    }
}

/// Every outcome has its documented code.
pub proof fn outcomes_have_their_own_codes(e: SdrError)
    ensures
        result_code(Ok(())) == 0,
        result_code(Err(e)) == error_code(e),
        error_code(e) == -2 <==> e is DeviceRunning || e is AlreadyRunning,
        error_code(e) == -3 <==> e is InvalidParameter,
        error_code(e) == -4 <==> e is CommunicationError,
        error_code(e) == -5 <==> e is DeviceNotFound,
        error_code(e) == -6 <==> e is NotSuperSpeed,
        error_code(e) == -7 <==> e is FirmwareVersionMismatch,
        error_code(e) == -8 <==> e is DeviceOpenFailed,
        SDDC_SUCCESS == 0 && SDDC_ERROR == -1 && SDDC_ERROR_BUSY == -2,
        SDDC_ERROR_INVALID_PARAM == -3 && SDDC_ERROR_IO == -4 && SDDC_ERROR_NO_DEVICE == -5,
        SDDC_ERROR_USB_SPEED == -6 && SDDC_ERROR_FIRMWARE == -7 && SDDC_ERROR_OPEN == -8,
        STRING_SIZE == 256,
{
}

/// A call carries out an operation only if it holds that very operation, and a
/// handle shows the radio that it holds.
pub proof fn calls_carry_out_what_they_hold(
    task: Task,
    t: TaskState,
    code: i32,
    handle: sddc_dev_t,
)
    ensures
        Call::Run(task).runs(t) <==> task@ == t,
        !Call::Return(code).runs(t),
        handle@ == handle.radio@,
{
}

/// An empty string ends at its first byte and leaves the rest of the buffer.
pub proof fn empty_string_ends_at_once(before: Seq<u8>)
    requires
        before.len() > 0,
    ensures
        emptied(before).len() == before.len(),
        emptied(before)[0] == 0,
        emptied(before).skip(1) == before.skip(1),
{
    assert(emptied(before).skip(1) =~= before.skip(1));
}

/// A string that is to fit in no byte is not written, and one that fits in its
/// limit is written whole.
pub proof fn string_is_cut_only_where_it_has_to_be(before: Seq<u8>, bytes: Seq<u8>, maxlen: nat)
    requires
        maxlen <= before.len(),
    ensures
        maxlen == 0 ==> filled(before, bytes, maxlen) == before,
        bytes.len() < maxlen ==> {
            &&& filled(before, bytes, maxlen).take(bytes.len() as int) == bytes
            &&& filled(before, bytes, maxlen)[bytes.len() as int] == 0
        },
        0 < maxlen <= bytes.len() ==> {
            &&& filled(before, bytes, maxlen).take(maxlen - 1) == bytes.take(maxlen - 1)
            &&& filled(before, bytes, maxlen)[maxlen - 1] == 0
        },
{
    if maxlen > 0 {
        let n = written_string_is_terminated(before, bytes, maxlen);
        if bytes.len() < maxlen {
            assert(bytes.take(n) =~= bytes);
        }
    }
}

/// A USB string takes at most 255 bytes of its buffer and a terminator, and a
/// string that the device does not have is empty.
pub proof fn usb_string_fits_its_buffer(before: Seq<u8>, text: String)
    requires
        before.len() >= 256,
    ensures
        ({
            let bytes = encode_utf8(text@);
            let n = if bytes.len() < 255 {
                bytes.len() as int
            } else {
                255
            };
            let after = stored(before, Some(text));
            &&& after.len() == before.len()
            &&& after.take(n) == bytes.take(n)
            &&& after[n] == 0
            &&& after.skip(n + 1) == before.skip(n + 1)
        }),
        stored(before, None).len() == before.len(),
        stored(before, None)[0] == 0,
        stored(before, None).skip(1) == before.skip(1),
{
    let n = written_string_is_terminated(before, encode_utf8(text@), 256);
    empty_string_ends_at_once(before);
}

/// A device name ends with its only zero byte. It is the product string as a
/// whole, or empty where that has a zero byte in it.
pub proof fn device_name_ends_with_its_only_zero(bytes: Seq<u8>)
    ensures
        c_string(bytes).last() == 0,
        forall|i: int| 0 <= i < c_string(bytes).len() - 1 ==> #[trigger] c_string(bytes)[i] != 0,
        (forall|i: int| 0 <= i < bytes.len() ==> #[trigger] bytes[i] != 0) ==> c_string(
            bytes,
        ).drop_last() == bytes,
        (exists|i: int| 0 <= i < bytes.len() && #[trigger] bytes[i] == 0) ==> c_string(bytes).len()
            == 1,
{
    if forall|i: int| 0 <= i < bytes.len() ==> #[trigger] bytes[i] != 0 {
        assert(!bytes.contains(0));
        assert(c_string(bytes).drop_last() =~= bytes);
    }
    if !bytes.contains(0) {
        assert forall|i: int| 0 <= i < bytes.len() implies #[trigger] bytes[i] != 0 by {}
    }
}

/// A walk over the devices goes from each index to the next. Counting ends at
/// the first index without a device, and a search there or at a device with the
/// serial number asked for, which is compared as a whole.
pub proof fn walks_go_from_index_to_index(
    count: u32,
    serial: Seq<char>,
    device: DeviceInfo,
    text: String,
)
    requires
        count < u32::MAX,
    ensures
        count_step(count, true) == Lookup::<u32>::Next((count + 1) as u32),
        count_step(count, false) == Lookup::Answer(count),
        serial_step(serial, 0, None) == Lookup::Answer(-5i32),
        count > 0 ==> serial_step(serial, count, None) == Lookup::Answer(-1i32),
        device.serial is None ==> serial_step(serial, count, Some(device)) == Lookup::<i32>::Next(
            (count + 1) as u32,
        ),
        device.serial == Some(text) && text@ != serial ==> serial_step(serial, count, Some(device))
            == Lookup::<i32>::Next((count + 1) as u32),
        device.serial == Some(text) && text@ == serial && count <= i32::MAX ==> serial_step(
            serial,
            count,
            Some(device),
        ) == Lookup::Answer(count as i32),
{
}

/// A buffer has room for a USB string exactly when it is missing or has 256
/// bytes.
pub proof fn string_buffers_have_256_bytes(buf: Option<&mut [u8]>)
    ensures
        roomy(buf) <==> (buf matches Some(b) ==> b@.len() >= 256),
{
}

} // verus!
