use sddc::discovery::Selection;
use sddc::error::SdrError;
use sddc::gain::{Gain, GainCatalog, GainProfile, ModelGains};
use sddc::interface::{AdcBits, Hardware, RegisterMap, UsbIds};
use sddc::sddc::{
    callback_count, pll_lock_request, result_to_c_int, sddc_cancel_async, sddc_close, sddc_dev_t,
    sddc_enable_adc_dither, sddc_enable_adc_pga, sddc_enable_adc_rando, sddc_enable_bias_tee,
    sddc_enable_ext_clock, sddc_enable_hf_highz, sddc_enable_preamp, sddc_get_center_freq64,
    sddc_get_device_count, sddc_get_device_name, sddc_get_device_usb_strings,
    sddc_get_direct_sampling, sddc_get_firmware_version, sddc_get_if_gain, sddc_get_if_gain_range,
    sddc_get_if_gain_steps, sddc_get_index_by_serial, sddc_get_pll_lock, sddc_get_rf_gain,
    sddc_get_rf_gain_range, sddc_get_rf_gain_steps, sddc_get_sample_rate, sddc_get_usb_strings,
    sddc_get_xtal_freq, sddc_open, sddc_read_async, sddc_set_adc_filter, sddc_set_center_freq64,
    sddc_set_direct_sampling, sddc_set_ext_io_port_state, sddc_set_if_gain, sddc_set_rf_gain,
    sddc_set_xtal_freq, sdr_error_to_c_int, serial_argument, write_cstr_limited, write_empty_cstr,
    Call, Lookup, SDDC_ERROR, SDDC_ERROR_BUSY, SDDC_ERROR_FIRMWARE, SDDC_ERROR_INVALID_PARAM,
    SDDC_ERROR_IO, SDDC_ERROR_NO_DEVICE, SDDC_ERROR_OPEN, SDDC_ERROR_USB_SPEED, SDDC_SUCCESS,
    STRING_SIZE,
};
use sddc::sdr::{Action, FilterMode, Handshake, Radio};
use sddc::task::Task;
use sddc::usb::{ControlRead, DeviceInfo, Speed};

fn hardware() -> Hardware {
    Hardware {
        ids: UsbIds { vendor: 0x1234, firmware: 0x00a1, bootloader: 0x00a3 },
        register_request: 0xb7,
        registers: RegisterMap {
            info_reset: 0,
            adc: 1,
            adcfreq: 2,
            tuner: 16,
            tuner_center_freq_high: 17,
            tuner_center_freq_low: 18,
            tuner_if_gain: 19,
            tuner_rf_gain: 20,
            tuner_ant_bias: 21,
            tuner_preamp: 22,
            direct_if_gain: 32,
            direct_rf_gain: 33,
            direct_ant_bias: 34,
            direct_preamp: 35,
            direct_adc_filter: 36,
            ext_gpio: 48,
        },
        adc: AdcBits { enable: 1, dither: 2, pga: 4, rando: 8, hf_highz: 16, ext_clock: 32 },
        firmware_major: 3,
        firmware_minor: 2,
    }
}

fn db(value: f32) -> Gain {
    Gain { bits: value.to_bits() }
}

fn profile(offset: f32) -> GainProfile {
    GainProfile {
        if_range: (db(-10.0 + offset), db(20.0 + offset)),
        if_steps: vec![db(-10.0 + offset), db(0.0 + offset), db(10.0 + offset), db(20.0 + offset)],
        rf_range: (db(-31.5 + offset), db(0.0 + offset)),
        rf_steps: vec![db(-31.5 + offset), db(-10.0 + offset), db(0.0 + offset)],
    }
}

fn model_gains(offset: f32) -> ModelGains {
    ModelGains { direct: profile(offset), tuner: profile(offset + 0.5) }
}

fn gains() -> GainCatalog {
    GainCatalog {
        noradio: model_gains(0.0),
        rx888: model_gains(1.0),
        rx888r2: model_gains(2.0),
        rx888plus: model_gains(3.0),
        rx888pro: model_gains(4.0),
    }
}

fn device(speed: Option<Speed>, serial: &str) -> DeviceInfo {
    let ids = hardware().ids;
    DeviceInfo {
        vendor_id: ids.vendor,
        product_id: ids.firmware,
        speed,
        manufacturer: None,
        product: Some("RX888".to_string()),
        serial: Some(serial.to_string()),
    }
}

fn bus() -> Vec<DeviceInfo> {
    vec![device(Some(Speed::Super), "0001"), device(Some(Speed::Super), "0002")]
}

/// Looks up a device as the functions that take an index do.
fn lookup(bus: &[DeviceInfo], index: u32) -> Option<&DeviceInfo> {
    Radio::find_device(bus, &hardware().ids, index).map(|place| &bus[place])
}

fn open(speed: Option<Speed>) -> Result<Radio, SdrError> {
    Radio::new(
        device(speed, "0001"),
        hardware(),
        gains(),
        Handshake::Replied(Ok(vec![4, 3, 2, 0])),
    )
}

fn create_test_device() -> sddc_dev_t {
    let mut dev = None;
    let ret = sddc_open(Some(&mut dev), open(Some(Speed::Super)));
    assert_eq!(ret, 0, "Failed to open device");
    dev.expect("Device pointer is null")
}

fn close_test_device(mut dev: sddc_dev_t) {
    let (ret, task) = sddc_close(Some(&mut dev));
    run(&mut dev, task.expect("a device that closes stops its stream"), &mut vec![]);
    assert_eq!(ret, 0, "Failed to close device");
}

/// Carries out an operation on a device that accepts everything.
fn run(dev: &mut sddc_dev_t, mut task: Task, wire: &mut Vec<(u16, u32)>) -> i32 {
    let mut action = dev.radio.next_action(&task);
    loop {
        match action {
            Action::Transfer { out, .. } => {
                let data = out.data;
                wire.push((out.index, u32::from_le_bytes([data[0], data[1], data[2], data[3]])));
                action = dev.radio.transferred(&mut task, Ok(()));
            }
            Action::SpawnReader(_) => return SDDC_SUCCESS,
            Action::Finished(result) => return result_to_c_int(&result),
        }
    }
}

fn traced(dev: &mut sddc_dev_t, call: Call) -> (i32, Vec<(u16, u32)>) {
    let mut wire = vec![];
    let code = match call {
        Call::Return(code) => code,
        Call::Run(task) => run(dev, task, &mut wire),
    };
    (code, wire)
}

fn call(dev: &mut sddc_dev_t, call: Call) -> i32 {
    traced(dev, call).0
}

/// The code of a call that comes to no operation.
fn returned(call: Call) -> i32 {
    match call {
        Call::Return(code) => code,
        Call::Run(_) => panic!("the call has an operation to carry out"),
    }
}

fn start(dev: &mut sddc_dev_t) -> i32 {
    let started = sddc_read_async(Some(&mut *dev), true, 0, 0);
    call(dev, started)
}

/// The device count of a bus.
fn counted(bus: &[DeviceInfo]) -> u32 {
    let mut index = 0;
    loop {
        match sddc_get_device_count(index, lookup(bus, index).is_some()) {
            Lookup::Next(next) => index = next,
            Lookup::Answer(count) => return count,
        }
    }
}

fn index_by_serial(bus: &[DeviceInfo], serial: Option<&[u8]>) -> i32 {
    let serial = match serial_argument(serial) {
        Ok(serial) => serial,
        Err(code) => return code,
    };
    let mut index = 0;
    loop {
        match sddc_get_index_by_serial(&serial, index, lookup(bus, index)) {
            Lookup::Next(next) => index = next,
            Lookup::Answer(code) => return code,
        }
    }
}

#[test]
fn test_get_device_count() {
    let count = counted(&bus());
    assert!(count > 0, "Should detect at least one device");
}

#[test]
fn test_get_device_name() {
    let bus = bus();
    let name = sddc_get_device_name(lookup(&bus, 0)).expect("Device name should not be null");
    assert_ne!(name[0], 0, "Device name should not be empty");
}

#[test]
fn test_get_device_name_invalid_index() {
    let bus = bus();
    let name = sddc_get_device_name(lookup(&bus, 999));
    assert!(name.is_none(), "Invalid index should return null");
}

#[test]
fn test_get_device_usb_strings() {
    let bus = bus();
    let mut manufact = [0; 256];
    let mut product = [0; 256];
    let mut serial = [0; 256];

    let ret = sddc_get_device_usb_strings(
        lookup(&bus, 0),
        Some(&mut manufact),
        Some(&mut product),
        Some(&mut serial),
    );
    assert_eq!(ret, 0, "Should succeed getting USB strings");
}

#[test]
fn test_get_device_usb_strings_null_buffers() {
    let bus = bus();
    let ret = sddc_get_device_usb_strings(lookup(&bus, 0), None, None, None);
    assert_eq!(ret, 0, "Should handle null buffers");
}

#[test]
fn test_get_device_usb_strings_invalid_index() {
    let bus = bus();
    let mut manufact = [0; 256];
    let mut product = [0; 256];
    let mut serial = [0; 256];

    let ret = sddc_get_device_usb_strings(
        lookup(&bus, 999),
        Some(&mut manufact),
        Some(&mut product),
        Some(&mut serial),
    );
    assert_eq!(ret, -1, "Invalid index should return error");
}

#[test]
fn test_get_index_by_serial_null() {
    let ret = index_by_serial(&bus(), None);
    assert_eq!(
        ret, SDDC_ERROR_INVALID_PARAM,
        "Null serial should return SDDC_ERROR_INVALID_PARAM"
    );
}

#[test]
fn test_open_close_device() {
    let mut dev = None;
    let ret = sddc_open(Some(&mut dev), open(Some(Speed::Super)));
    assert_eq!(ret, 0, "Should open device successfully");
    assert!(dev.is_some(), "Device pointer should not be null");

    let (ret, _) = sddc_close(dev.as_mut());
    assert_eq!(ret, 0, "Should close device successfully");
}

#[test]
fn test_open_null_pointer() {
    let ret = sddc_open(None, open(Some(Speed::Super)));
    assert_eq!(ret, -1, "Opening with null pointer should fail");
}

#[test]
fn test_close_null_device() {
    let (ret, task) = sddc_close(None);
    assert_eq!(ret, -1, "Closing null device should fail");
    assert!(task.is_none());
}

#[test]
fn test_get_usb_strings_open_device() {
    let dev = create_test_device();

    let mut manufact = [0; 256];
    let mut product = [0; 256];
    let mut serial = [0; 256];

    let ret = sddc_get_usb_strings(
        Some(&dev),
        Some(&mut manufact),
        Some(&mut product),
        Some(&mut serial),
    );

    assert_eq!(ret, 0);
    assert!(product[0] != 0, "Product string should not be empty");
    assert!(serial[0] != 0, "Serial string should not be empty");

    close_test_device(dev);
}

#[test]
fn test_xtal_freq() {
    let mut dev = create_test_device();

    let ret = sddc_set_xtal_freq(Some(&mut dev), 64_000_000);
    assert_eq!(ret, 0, "Should set xtal freq successfully");

    let mut freq: u32 = 0;
    let ret = sddc_get_xtal_freq(Some(&dev), Some(&mut freq));
    assert_eq!(ret, 0, "Should get xtal freq successfully");
    assert_eq!(freq, 64_000_000, "Frequency should match");

    close_test_device(dev);
}

#[test]
fn test_xtal_freq_null_device() {
    let ret = sddc_set_xtal_freq(None, 64_000_000);
    assert_eq!(ret, -1);

    let mut freq: u32 = 0;
    let ret = sddc_get_xtal_freq(None, Some(&mut freq));
    assert_eq!(ret, -1);
}

#[test]
fn test_if_gain() {
    let mut dev = create_test_device();

    let set = sddc_set_if_gain(Some(&mut dev), db(10.0), 2);
    let ret = call(&mut dev, set);
    assert_eq!(ret, 0, "Should set IF gain successfully");

    let mut gain = db(0.0);
    let ret = sddc_get_if_gain(Some(&dev), Some(&mut gain));
    assert_eq!(ret, 0, "Should get IF gain successfully");
    assert_eq!(f32::from_bits(gain.bits), 10.0, "Gain should match");

    close_test_device(dev);
}

#[test]
fn test_if_gain_null_device() {
    let ret = returned(sddc_set_if_gain(None, db(10.0), 2));
    assert_eq!(ret, -1);

    let mut gain = db(0.0);
    let ret = sddc_get_if_gain(None, Some(&mut gain));
    assert_eq!(ret, -1);
}

#[test]
fn test_rf_gain() {
    let mut dev = create_test_device();

    let set = sddc_set_rf_gain(Some(&mut dev), db(5.0), 2);
    let ret = call(&mut dev, set);
    assert_eq!(ret, 0, "Should set RF gain successfully");

    let mut gain = db(0.0);
    let ret = sddc_get_rf_gain(Some(&dev), Some(&mut gain));
    assert_eq!(ret, 0, "Should get RF gain successfully");
    assert_eq!(f32::from_bits(gain.bits), 5.0, "Gain should match");

    close_test_device(dev);
}

#[test]
fn test_rf_gain_null_device() {
    let ret = returned(sddc_set_rf_gain(None, db(5.0), 2));
    assert_eq!(ret, -1);

    let mut gain = db(0.0);
    let ret = sddc_get_rf_gain(None, Some(&mut gain));
    assert_eq!(ret, -1);
}

#[test]
fn test_if_gain_range() {
    let dev = create_test_device();

    let mut min = db(0.0);
    let mut max = db(0.0);
    let ret = sddc_get_if_gain_range(Some(&dev), Some(&mut min), Some(&mut max));
    assert_eq!(ret, 0, "Should get IF gain range successfully");
    assert!(f32::from_bits(min.bits) <= f32::from_bits(max.bits), "Min should be <= max");

    close_test_device(dev);
}

#[test]
fn test_if_gain_range_null_pointers() {
    let mut min = db(0.0);
    let mut max = db(0.0);

    let ret = sddc_get_if_gain_range(None, Some(&mut min), Some(&mut max));
    assert_eq!(ret, -1);

    let ret = sddc_get_if_gain_range(None, None, Some(&mut max));
    assert_eq!(ret, -1);

    let ret = sddc_get_if_gain_range(None, Some(&mut min), None);
    assert_eq!(ret, -1);
}

#[test]
fn test_if_gain_steps() {
    let dev = create_test_device();

    let mut steps: &[Gain] = &[];
    let ret = sddc_get_if_gain_steps(Some(&dev), Some(&mut steps));
    assert!(ret >= 0, "Should get IF gain steps successfully");

    if ret > 0 {
        assert!(!steps.is_empty(), "Steps pointer should not be null");
    }

    close_test_device(dev);
}

#[test]
fn test_if_gain_steps_null_device() {
    let mut steps: &[Gain] = &[];
    let ret = sddc_get_if_gain_steps(None, Some(&mut steps));
    assert_eq!(ret, -1);
}

#[test]
fn test_rf_gain_range() {
    let dev = create_test_device();

    let mut min = db(0.0);
    let mut max = db(0.0);
    let ret = sddc_get_rf_gain_range(Some(&dev), Some(&mut min), Some(&mut max));
    assert_eq!(ret, 0, "Should get RF gain range successfully");
    assert!(f32::from_bits(min.bits) <= f32::from_bits(max.bits), "Min should be <= max");

    close_test_device(dev);
}

#[test]
fn test_rf_gain_steps() {
    let dev = create_test_device();

    let mut steps: &[Gain] = &[];
    let ret = sddc_get_rf_gain_steps(Some(&dev), Some(&mut steps));
    assert!(ret >= 0, "Should get RF gain steps successfully");

    if ret > 0 {
        assert!(!steps.is_empty(), "Steps pointer should not be null");
    }

    close_test_device(dev);
}

#[test]
fn test_center_freq64() {
    let mut dev = create_test_device();

    let set = sddc_set_center_freq64(Some(&mut dev), 14_070_000_u64);
    let ret = call(&mut dev, set);
    assert_eq!(ret, 0, "Should set center freq64 successfully");

    let freq = sddc_get_center_freq64(Some(&dev));
    assert_eq!(freq, 14_070_000_u64, "Frequency should match");

    close_test_device(dev);
}

#[test]
fn test_center_freq_null_device() {
    let ret = returned(sddc_set_center_freq64(None, 14_070_000));
    assert_eq!(ret, -1);

    let freq = sddc_get_center_freq64(None);
    assert_eq!(freq, 0);
}

#[test]
fn test_sample_rate() {
    let mut dev = create_test_device();

    sddc_set_xtal_freq(Some(&mut dev), 64_000_000);

    let rate = sddc_get_sample_rate(Some(&dev));
    assert_eq!(rate, 64_000_000, "Sample rate should equal xtal_freq at SDR device level");

    close_test_device(dev);
}

#[test]
fn test_sample_rate_null_device() {
    let rate = sddc_get_sample_rate(None);
    assert_eq!(rate, 0);
}

#[test]
fn test_direct_sampling() {
    let mut dev = create_test_device();

    let ret = sddc_set_direct_sampling(Some(&mut dev), 1);
    assert_eq!(ret, 0, "Should set direct sampling successfully");

    let state = sddc_get_direct_sampling(Some(&dev));
    assert_eq!(state, 1, "Direct sampling should be enabled");

    let ret = sddc_set_direct_sampling(Some(&mut dev), 0);
    assert_eq!(ret, 0, "Should disable direct sampling successfully");

    let state = sddc_get_direct_sampling(Some(&dev));
    assert_eq!(state, 0, "Direct sampling should be disabled");

    close_test_device(dev);
}

#[test]
fn test_direct_sampling_null_device() {
    let ret = sddc_set_direct_sampling(None, 1);
    assert_eq!(ret, -1);

    let state = sddc_get_direct_sampling(None);
    assert_eq!(state, -1);
}

#[test]
fn test_cancel_async() {
    let mut dev = create_test_device();

    let cancel = sddc_cancel_async(Some(&mut dev));
    let ret = call(&mut dev, cancel);
    assert_eq!(ret, 0, "Should cancel async successfully");

    close_test_device(dev);
}

#[test]
fn test_cancel_async_null_device() {
    let ret = returned(sddc_cancel_async(None));
    assert_eq!(ret, -1);
}

#[test]
fn test_bias_tee() {
    let mut dev = create_test_device();

    for (on, hf, vhf, what) in [
        (0, 0, 0, "Should disable bias tee"),
        (1, 1, 0, "Should enable HF bias tee"),
        (2, 0, 1, "Should enable VHF bias tee"),
        (3, 1, 1, "Should enable both bias tees"),
    ] {
        let bias = sddc_enable_bias_tee(Some(&mut dev), on);
        let (ret, wire) = traced(&mut dev, bias);
        assert_eq!(ret, 0, "{}", what);
        assert_eq!(wire, vec![(34, hf), (21, vhf)]);
    }

    close_test_device(dev);
}

#[test]
fn test_bias_tee_null_device() {
    let ret = returned(sddc_enable_bias_tee(None, 1));
    assert_eq!(ret, -1);
}

#[test]
fn test_adc_dither() {
    let mut dev = create_test_device();

    let set = sddc_enable_adc_dither(Some(&mut dev), 1);
    assert_eq!(call(&mut dev, set), 0, "Should enable ADC dither");

    let set = sddc_enable_adc_dither(Some(&mut dev), 0);
    assert_eq!(call(&mut dev, set), 0, "Should disable ADC dither");

    close_test_device(dev);
}

#[test]
fn test_adc_dither_null_device() {
    let ret = returned(sddc_enable_adc_dither(None, 1));
    assert_eq!(ret, -1);
}

#[test]
fn test_adc_pga() {
    let mut dev = create_test_device();

    let set = sddc_enable_adc_pga(Some(&mut dev), 1);
    assert_eq!(call(&mut dev, set), 0, "Should enable ADC PGA");

    let set = sddc_enable_adc_pga(Some(&mut dev), 0);
    assert_eq!(call(&mut dev, set), 0, "Should disable ADC PGA");

    close_test_device(dev);
}

#[test]
fn test_adc_pga_null_device() {
    let ret = returned(sddc_enable_adc_pga(None, 1));
    assert_eq!(ret, -1);
}

#[test]
fn test_firmware_version() {
    let dev = create_test_device();

    let version = sddc_get_firmware_version(Some(&dev));
    assert!(version > 0, "Firmware version should be non-zero");
    assert_eq!(version, 0x0302);

    close_test_device(dev);
}

#[test]
fn test_firmware_version_null_device() {
    let version = sddc_get_firmware_version(None);
    assert_eq!(version, 0);
}

#[test]
fn test_read_async_null_callback() {
    let mut dev = create_test_device();

    let ret = returned(sddc_read_async(Some(&mut dev), false, 0, 0));
    assert_eq!(ret, -1, "Should fail with null callback");

    close_test_device(dev);
}

#[test]
fn test_read_async_null_device() {
    let ret = returned(sddc_read_async(None, true, 0, 0));
    assert_eq!(ret, -1);
}

#[test]
fn error_codes() {
    for (error, code) in [
        (SdrError::DeviceNotFound, SDDC_ERROR_NO_DEVICE),
        (SdrError::NotSuperSpeed, SDDC_ERROR_USB_SPEED),
        (SdrError::DeviceOpenFailed("x".to_string()), SDDC_ERROR_OPEN),
        (
            SdrError::FirmwareVersionMismatch {
                expected_major: 3,
                expected_minor: 2,
                got_major: 1,
                got_minor: 0,
            },
            SDDC_ERROR_FIRMWARE,
        ),
        (SdrError::CommunicationError("x".to_string()), SDDC_ERROR_IO),
        (SdrError::DeviceRunning, SDDC_ERROR_BUSY),
        (SdrError::AlreadyRunning, SDDC_ERROR_BUSY),
        (SdrError::InvalidParameter("x".to_string()), SDDC_ERROR_INVALID_PARAM),
    ] {
        assert_eq!(sdr_error_to_c_int(&error), code);
        assert_eq!(result_to_c_int(&Err(error)), code);
    }
    assert_eq!(result_to_c_int(&Ok(())), SDDC_SUCCESS);
    assert_eq!(
        [
            SDDC_SUCCESS,
            SDDC_ERROR,
            SDDC_ERROR_BUSY,
            SDDC_ERROR_INVALID_PARAM,
            SDDC_ERROR_IO,
            SDDC_ERROR_NO_DEVICE,
            SDDC_ERROR_USB_SPEED,
            SDDC_ERROR_FIRMWARE,
            SDDC_ERROR_OPEN
        ],
        [0, -1, -2, -3, -4, -5, -6, -7, -8]
    );
}

#[test]
fn strings_are_cut_and_terminated() {
    let mut buf = [0xaa; 8];
    write_cstr_limited(Some(&mut buf), "abc", 8);
    assert_eq!(buf, [b'a', b'b', b'c', 0, 0xaa, 0xaa, 0xaa, 0xaa]);

    let mut buf = [0xaa; 8];
    write_cstr_limited(Some(&mut buf), "abcdef", 4);
    assert_eq!(buf, [b'a', b'b', b'c', 0, 0xaa, 0xaa, 0xaa, 0xaa]);

    let mut buf = [0xaa; 4];
    write_cstr_limited(Some(&mut buf), "abc", 4);
    assert_eq!(buf, [b'a', b'b', b'c', 0]);

    let mut buf = [0xaa; 4];
    write_cstr_limited(Some(&mut buf), "abc", 1);
    assert_eq!(buf, [0, 0xaa, 0xaa, 0xaa]);

    let mut buf = [0xaa; 4];
    write_cstr_limited(Some(&mut buf), "abc", 0);
    assert_eq!(buf, [0xaa; 4]);
    write_empty_cstr(Some(&mut buf));
    assert_eq!(buf, [0, 0xaa, 0xaa, 0xaa]);

    // a multi-byte character may be cut in two
    let mut buf = [0xaa; 4];
    write_cstr_limited(Some(&mut buf), "a\u{e9}\u{e9}", 3);
    assert_eq!(buf, [b'a', 0xc3, 0, 0xaa]);

    // and is whole where it fits
    let mut buf = [0xaa; 4];
    write_cstr_limited(Some(&mut buf), "a\u{e9}\u{e9}", 4);
    assert_eq!(buf, [b'a', 0xc3, 0xa9, 0]);

    write_cstr_limited(None, "abc", 4);
    write_empty_cstr(None);
}

#[test]
fn usb_strings_reach_the_buffers() {
    let long = "x".repeat(300);
    let mut info = device(Some(Speed::Super), "0042");
    info.product = Some(long);
    let mut manufact = [0xaa; STRING_SIZE];
    let mut product = [0xaa; STRING_SIZE];
    let mut serial = [0xaa; STRING_SIZE];
    let ret = sddc_get_device_usb_strings(
        Some(&info),
        Some(&mut manufact),
        Some(&mut product),
        Some(&mut serial),
    );
    assert_eq!(ret, 0);
    assert_eq!(manufact[0], 0);
    assert_eq!(manufact[1], 0xaa);
    assert_eq!(&product[..255], &[b'x'; 255]);
    assert_eq!(product[255], 0);
    assert_eq!(&serial[..6], &[b'0', b'0', b'4', b'2', 0, 0xaa]);

    // without a device the strings are empty
    let ret = sddc_get_device_usb_strings(None, None, Some(&mut product), None);
    assert_eq!(ret, SDDC_ERROR);
    assert_eq!(&product[..2], &[0, b'x']);

    // without a handle nothing is written
    assert_eq!(sddc_get_usb_strings(None, None, None, Some(&mut serial)), SDDC_ERROR);
    assert_eq!(&serial[..6], &[b'0', b'0', b'4', b'2', 0, 0xaa]);
}

#[test]
fn device_names() {
    let mut info = device(Some(Speed::Super), "0001");
    assert_eq!(sddc_get_device_name(Some(&info)), Some(b"RX888\0".to_vec()));
    info.product = None;
    assert_eq!(sddc_get_device_name(Some(&info)), Some(vec![0]));
    info.product = Some("RX\0888".to_string());
    assert_eq!(sddc_get_device_name(Some(&info)), Some(vec![0]));
}

#[test]
fn counting_devices() {
    assert_eq!(counted(&[]), 0);
    assert_eq!(counted(&bus()), 2);
    let mut mixed = bus();
    mixed.push(device(Some(Speed::High), "0003"));
    mixed.push(device(Some(Speed::Super), "0004"));
    assert_eq!(counted(&mixed), 3);
    // every index below the count names a device, and no other does
    for index in 0..6 {
        assert_eq!(lookup(&mixed, index).is_some(), index < 3);
    }
    assert_eq!(counted(&[device(Some(Speed::High), "0001")]), 0);
}

#[test]
fn searching_for_a_serial_number() {
    let bus = bus();
    assert_eq!(index_by_serial(&bus, Some(b"0001")), 0);
    assert_eq!(index_by_serial(&bus, Some(b"0002")), 1);
    assert_eq!(index_by_serial(&bus, Some(b"0003")), SDDC_ERROR);
    assert_eq!(index_by_serial(&bus, Some(b"")), SDDC_ERROR);
    assert_eq!(index_by_serial(&[], Some(b"0001")), SDDC_ERROR_NO_DEVICE);
    assert_eq!(index_by_serial(&bus, Some(&[0xff, 0xfe])), SDDC_ERROR_INVALID_PARAM);
    let twins =
        vec![device(Some(Speed::Super), "\u{e9}"), device(Some(Speed::Super), "\u{e9}")];
    assert_eq!(index_by_serial(&twins, Some(&[0xc3, 0xa9])), 0);
    assert_eq!(serial_argument(Some(&[0xc3, 0xa9])), Ok("\u{e9}".to_string()));
}

#[test]
fn opening_reports_what_went_wrong() {
    let mut dev = None;
    let radio = Radio::open(Selection::NotFound).map(|_| open(Some(Speed::Super)).unwrap());
    assert_eq!(sddc_open(Some(&mut dev), radio), SDDC_ERROR_NO_DEVICE);
    let radio = Radio::open(Selection::NotSuperSpeed).map(|_| open(Some(Speed::Super)).unwrap());
    assert_eq!(sddc_open(Some(&mut dev), radio), SDDC_ERROR_USB_SPEED);
    for (handshake, code) in [
        (Handshake::OpenFailed("x".to_string()), SDDC_ERROR_OPEN),
        (Handshake::ClaimFailed("x".to_string()), SDDC_ERROR_OPEN),
        (Handshake::Replied(Err("x".to_string())), SDDC_ERROR_IO),
        (Handshake::Replied(Ok(vec![4, 9, 9, 0])), SDDC_ERROR_FIRMWARE),
        (Handshake::Replied(Ok(vec![6, 3, 2, 0])), SDDC_ERROR_NO_DEVICE),
    ] {
        let radio =
            Radio::new(device(Some(Speed::Super), "0001"), hardware(), gains(), handshake);
        assert_eq!(sddc_open(Some(&mut dev), radio), code);
    }
    assert!(dev.is_none());
}

#[test]
fn missing_outputs_are_errors() {
    let dev = create_test_device();
    let mut gain = db(7.0);
    assert_eq!(sddc_get_xtal_freq(Some(&dev), None), -1);
    assert_eq!(sddc_get_if_gain(Some(&dev), None), -1);
    assert_eq!(sddc_get_rf_gain(Some(&dev), None), -1);
    assert_eq!(sddc_get_if_gain_range(Some(&dev), Some(&mut gain), None), -1);
    assert_eq!(sddc_get_rf_gain_range(Some(&dev), None, Some(&mut gain)), -1);
    assert_eq!(gain, db(7.0));
    assert_eq!(sddc_get_if_gain_steps(Some(&dev), None), -1);
    assert_eq!(sddc_get_rf_gain_steps(Some(&dev), None), -1);
    assert_eq!(sddc_get_pll_lock(Some(&dev), None, Ok(vec![0; 4])), -1);
}

#[test]
fn gain_tables_reach_the_caller() {
    let dev = create_test_device();
    let mut steps: &[Gain] = &[];
    assert_eq!(sddc_get_if_gain_steps(Some(&dev), Some(&mut steps)), 4);
    assert_eq!(steps, &[db(-8.0), db(2.0), db(12.0), db(22.0)]);
    assert_eq!(sddc_get_rf_gain_steps(Some(&dev), Some(&mut steps)), 3);
    assert_eq!(steps, &[db(-29.5), db(-8.0), db(2.0)]);
    let mut min = db(0.0);
    let mut max = db(0.0);
    assert_eq!(sddc_get_rf_gain_range(Some(&dev), Some(&mut min), Some(&mut max)), 0);
    assert_eq!((min, max), (db(-29.5), db(2.0)));
}

#[test]
fn streaming_locks_settings() {
    let mut dev = create_test_device();
    assert_eq!(start(&mut dev), 0);
    assert_eq!(start(&mut dev), SDDC_ERROR_BUSY);
    assert_eq!(sddc_set_xtal_freq(Some(&mut dev), 1), SDDC_ERROR_BUSY);
    assert_eq!(sddc_set_direct_sampling(Some(&mut dev), 0), SDDC_ERROR_BUSY);
    assert_eq!(sddc_enable_adc_rando(Some(&mut dev), 1), SDDC_ERROR_BUSY);
    let cancel = sddc_cancel_async(Some(&mut dev));
    assert_eq!(traced(&mut dev, cancel), (0, vec![(1, 0), (16, 0), (34, 0), (21, 0)]));
    assert_eq!(sddc_set_xtal_freq(Some(&mut dev), 1), 0);
    assert_eq!(sddc_enable_adc_rando(Some(&mut dev), 1), 0);
    assert_eq!(sddc_enable_adc_rando(None, 1), SDDC_ERROR);
}

#[test]
fn a_slow_device_does_not_stream() {
    let mut dev = None;
    assert_eq!(sddc_open(Some(&mut dev), open(Some(Speed::High))), 0);
    let mut dev = dev.unwrap();
    assert_eq!(start(&mut dev), SDDC_ERROR_USB_SPEED);
}

#[test]
fn switches_write_the_adc_register() {
    let mut dev = create_test_device();
    assert_eq!(start(&mut dev), 0);
    let set = sddc_enable_hf_highz(Some(&mut dev), 1);
    assert_eq!(traced(&mut dev, set), (0, vec![(1, 17)]));
    let set = sddc_enable_ext_clock(Some(&mut dev), -1);
    assert_eq!(traced(&mut dev, set), (0, vec![(1, 49)]));
    let set = sddc_enable_hf_highz(Some(&mut dev), 0);
    assert_eq!(traced(&mut dev, set), (0, vec![(1, 33)]));
    let set = sddc_set_adc_filter(Some(&mut dev), FilterMode::Freq32MHz);
    assert_eq!(traced(&mut dev, set), (0, vec![(36, 1)]));
    let set = sddc_enable_preamp(Some(&mut dev), 1);
    assert_eq!(traced(&mut dev, set), (0, vec![(35, 1)]));
    let set = sddc_set_ext_io_port_state(Some(&mut dev), 0x3f);
    assert_eq!(traced(&mut dev, set), (0, vec![(48, 0x3f)]));
    let set = sddc_set_ext_io_port_state(Some(&mut dev), 0x40);
    assert_eq!(traced(&mut dev, set), (0, vec![(48, 0x40)]));
    let set = sddc_set_ext_io_port_state(Some(&mut dev), 0x81);
    assert_eq!(traced(&mut dev, set), (0, vec![(48, 0x01)]));
    assert_eq!(returned(sddc_enable_hf_highz(None, 1)), -1);
    assert_eq!(returned(sddc_enable_ext_clock(None, 1)), -1);
    assert_eq!(returned(sddc_set_adc_filter(None, FilterMode::Bypass)), -1);
    assert_eq!(returned(sddc_enable_preamp(None, 1)), -1);
    assert_eq!(returned(sddc_set_ext_io_port_state(None, 1)), -1);
}

#[test]
fn pll_lock() {
    let mut dev = create_test_device();
    let request = ControlRead { request: 0xb7, value: 0, index: 16, length: 4 };
    assert_eq!(pll_lock_request(Some(&dev), true), Some(request));
    assert_eq!(pll_lock_request(Some(&dev), false), None);
    assert_eq!(pll_lock_request(None, true), None);

    let mut locked = 5;
    assert_eq!(sddc_get_pll_lock(Some(&dev), Some(&mut locked), Ok(vec![2, 0, 0, 0])), 0);
    assert_eq!(locked, 0);
    assert_eq!(sddc_set_direct_sampling(Some(&mut dev), 0), 0);
    assert_eq!(sddc_get_pll_lock(Some(&dev), Some(&mut locked), Ok(vec![2, 0, 0, 0])), 0);
    assert_eq!(locked, 1);
    assert_eq!(
        sddc_get_pll_lock(Some(&dev), Some(&mut locked), Err("gone".to_string())),
        SDDC_ERROR_IO
    );
    assert_eq!(locked, 1);
    assert_eq!(sddc_get_pll_lock(None, Some(&mut locked), Ok(vec![0; 4])), SDDC_ERROR);
    assert_eq!(locked, 1);
}

#[test]
fn only_a_failed_stream_counts_no_samples() {
    assert_eq!(callback_count(None), Some(0));
    assert_eq!(callback_count(Some(&[])), None);
    assert_eq!(callback_count(Some(&[1, 2, 3])), Some(3));
}

#[test]
fn closing_ends_a_stream() {
    let mut dev = create_test_device();
    assert_eq!(start(&mut dev), 0);
    let (code, task) = sddc_close(Some(&mut dev));
    assert_eq!(code, 0);
    let mut wire = vec![];
    run(&mut dev, task.unwrap(), &mut wire);
    assert_eq!(wire, vec![(1, 0), (16, 0), (34, 0), (21, 0)]);
}
