use sddc::error::SdrError;
use sddc::gain::{Gain, GainCatalog, GainProfile, ModelGains};
use sddc::interface::{AdcBits, Hardware, RadioModel, RegisterMap, UsbIds};
use sddc::sdr::{Action, FilterMode, Handshake, Radio};
use sddc::stream::{AsyncReadWorker, StreamAction, StreamEvent};
use sddc::task::Task;
use sddc::usb::{ControlRead, DeviceInfo, Speed};

fn hardware() -> Hardware {
    Hardware {
        ids: UsbIds { vendor: 0x1234, firmware: 0x00a1, bootloader: 0x00a3 },
        register_request: 0xb7,
        registers: RegisterMap {
            info_reset: 0,
            adc: 1,
            adcfreq: 2,
            tuner: 16,
            tuner_center_freq_high: 17,
            tuner_center_freq_low: 18,
            tuner_if_gain: 19,
            tuner_rf_gain: 20,
            tuner_ant_bias: 21,
            tuner_preamp: 22,
            direct_if_gain: 32,
            direct_rf_gain: 33,
            direct_ant_bias: 34,
            direct_preamp: 35,
            direct_adc_filter: 36,
            ext_gpio: 48,
        },
        adc: AdcBits { enable: 1, dither: 2, pga: 4, rando: 8, hf_highz: 16, ext_clock: 32 },
        firmware_major: 3,
        firmware_minor: 2,
    }
}

fn db(value: f32) -> Gain {
    Gain { bits: value.to_bits() }
}

fn profile(offset: f32) -> GainProfile {
    GainProfile {
        if_range: (db(-10.0 + offset), db(20.0 + offset)),
        if_steps: vec![db(-10.0 + offset), db(0.0 + offset), db(10.0 + offset), db(20.0 + offset)],
        rf_range: (db(-31.5 + offset), db(0.0 + offset)),
        rf_steps: vec![db(-31.5 + offset), db(-10.0 + offset), db(0.0 + offset)],
    }
}

fn model_gains(offset: f32) -> ModelGains {
    ModelGains { direct: profile(offset), tuner: profile(offset + 0.5) }
}

fn gains() -> GainCatalog {
    GainCatalog {
        noradio: model_gains(0.0),
        rx888: model_gains(1.0),
        rx888r2: model_gains(2.0),
        rx888plus: model_gains(3.0),
        rx888pro: model_gains(4.0),
    }
}

fn device(speed: Option<Speed>, serial: &str) -> DeviceInfo {
    let ids = hardware().ids;
    DeviceInfo {
        vendor_id: ids.vendor,
        product_id: ids.firmware,
        speed,
        manufacturer: None,
        product: Some("RX888".to_string()),
        serial: Some(serial.to_string()),
    }
}

/// The bytes of samples in the memory of this host.
fn in_memory(samples: &[i16]) -> Vec<u8> {
    samples.iter().flat_map(|sample| sample.to_ne_bytes()).collect()
}

const MODEL_R2: u8 = 0x04;
const MODEL_PRO: u8 = 0x07;

fn reply(model: u8) -> Handshake {
    Handshake::Replied(Ok(vec![model, 3, 2, 0]))
}

fn radio_at(speed: Option<Speed>, model: u8) -> Radio {
    Radio::new(device(speed, "0001"), hardware(), gains(), reply(model)).expect("should open")
}

fn radio() -> Radio {
    radio_at(Some(Speed::Super), MODEL_R2)
}

/// A device on the wire: what reached it, and which registers it refuses how often.
struct Wire {
    writes: Vec<(u16, u32)>,
    pauses: Vec<u64>,
    refusals: Vec<(u16, u32)>,
    reader: Option<AsyncReadWorker>,
}

impl Wire {
    fn new() -> Wire {
        Wire { writes: vec![], pauses: vec![], refusals: vec![], reader: None }
    }

    fn refusing(reg: u16, times: u32) -> Wire {
        let mut wire = Wire::new();
        wire.refusals.push((reg, times));
        wire
    }

    fn carry(&mut self, radio: &mut Radio, mut task: Task) -> Result<(), SdrError> {
        if task.stops_reader() {
            self.reader = None;
        }
        let mut action = radio.next_action(&task);
        loop {
            match action {
                Action::Transfer { pause_ms, out } => {
                    assert_eq!(out.request, hardware().register_request);
                    assert_eq!(out.value, 0);
                    assert_eq!(out.data.len(), 4);
                    self.pauses.push(pause_ms);
                    let value =
                        u32::from_le_bytes([out.data[0], out.data[1], out.data[2], out.data[3]]);
                    let mut outcome = Ok(());
                    for refusal in self.refusals.iter_mut() {
                        if refusal.0 == out.index && refusal.1 > 0 {
                            refusal.1 -= 1;
                            outcome = Err("endpoint stalled".to_string());
                        }
                    }
                    if outcome.is_ok() {
                        self.writes.push((out.index, value));
                    }
                    action = radio.transferred(&mut task, outcome);
                }
                Action::SpawnReader(worker) => {
                    self.reader = Some(worker);
                    return Ok(());
                }
                Action::Finished(result) => return result,
            }
        }
    }
}

fn start(radio: &mut Radio, wire: &mut Wire) -> Result<(), SdrError> {
    let task = radio.read_async(1, 1)?;
    wire.carry(radio, task)
}

fn stop(radio: &mut Radio, wire: &mut Wire) -> Result<(), SdrError> {
    let task = radio.read_cancel();
    wire.carry(radio, task)
}

fn running() -> Radio {
    let mut radio = radio();
    start(&mut radio, &mut Wire::new()).expect("should start");
    radio
}

#[test]
fn test_find_device() {
    let bus = vec![device(Some(Speed::Super), "0001")];
    let ids = hardware().ids;

    let found = Radio::find_device(&bus, &ids, 10);
    assert!(found.is_none());

    let found = Radio::find_device(&bus, &ids, 0);
    assert!(found.is_some());

    let device_info = &bus[found.unwrap()];
    assert_eq!(device_info.vendor_id, ids.vendor);
    assert_eq!(device_info.speed, Some(Speed::Super));
}

#[test]
fn test_new_radio() {
    let radio = radio();
    assert_eq!(radio.device_info().vendor_id, hardware().ids.vendor);
    assert!(radio.get_xtal_freq() > 0);
    assert!(radio.get_direct_sampling());
    assert_eq!(radio.get_if_gain(), db(0.0));
    assert_eq!(radio.get_rf_gain(), db(0.0));
    assert_eq!(radio.get_center_freq(), 0);
    assert_eq!(radio.get_firmware_version(), (3 << 8) + 2);
    assert_ne!(radio.get_model(), RadioModel::NORADIO);
}

#[test]
fn test_read_direct() {
    let mut radio = radio();
    let mut wire = Wire::new();

    assert!(radio.set_direct_sampling(true).is_ok());
    assert!(radio.set_xtal_freq(64_000_000).is_ok());

    start(&mut radio, &mut wire).expect("Failed to start async read");
    let mut worker = wire.reader.take().expect("a reader");
    assert_eq!(
        worker.on_event(StreamEvent::Received(&in_memory(&[1, -1]))),
        StreamAction::Deliver(vec![1, -1])
    );

    assert!(radio.set_xtal_freq(128_000_000).is_err());

    stop(&mut radio, &mut wire).expect("Failed to cancel read");

    assert!(radio.set_xtal_freq(128_000_000).is_ok());
    assert_eq!(radio.get_xtal_freq(), 128_000_000);
}

#[test]
fn models_and_their_clocks() {
    for (byte, model, xtal) in [
        (0x03, RadioModel::RX888, 64_000_000),
        (0x04, RadioModel::RX888r2, 64_000_000),
        (0x05, RadioModel::RX888plus, 64_000_000),
        (0x07, RadioModel::RX888pro, 61_440_000),
    ] {
        let radio = radio_at(Some(Speed::Super), byte);
        assert_eq!(radio.get_model(), model);
        assert_eq!(radio.get_xtal_freq(), xtal);
    }
}

#[test]
fn opening_fails_with_the_cause() {
    let open = |handshake| {
        Radio::new(device(Some(Speed::Super), "0001"), hardware(), gains(), handshake).err()
    };
    assert_eq!(
        open(Handshake::OpenFailed("denied".to_string())),
        Some(SdrError::DeviceOpenFailed("denied".to_string()))
    );
    assert_eq!(
        open(Handshake::ClaimFailed("busy".to_string())),
        Some(SdrError::DeviceOpenFailed("busy".to_string()))
    );
    assert_eq!(
        open(Handshake::Replied(Err("stalled".to_string()))),
        Some(SdrError::CommunicationError("stalled".to_string()))
    );
    // no known model
    for byte in [0x00, 0x01, 0x02, 0x06, 0x08, 0xff] {
        assert_eq!(
            open(Handshake::Replied(Ok(vec![byte, 3, 2, 0]))),
            Some(SdrError::DeviceNotFound)
        );
    }
    // the firmware version is looked at before the model
    assert!(matches!(
        open(Handshake::Replied(Ok(vec![0x06, 3, 1, 0]))),
        Some(SdrError::FirmwareVersionMismatch { got_major: 3, got_minor: 1, .. })
    ));
    let mismatch = open(Handshake::Replied(Ok(vec![4, 2, 9, 0]))).expect("an error");
    assert_eq!(
        mismatch,
        SdrError::FirmwareVersionMismatch {
            expected_major: 3,
            expected_minor: 2,
            got_major: 2,
            got_minor: 9
        }
    );
    assert_eq!(mismatch.message(), "Firmware version mismatch: expected 3.2, got 2.9");
}

#[test]
fn error_messages() {
    let said = |e: SdrError| e.message();
    assert_eq!(said(SdrError::DeviceNotFound), "Device not found");
    assert_eq!(said(SdrError::NotSuperSpeed), "Device not in SuperSpeed mode");
    assert_eq!(said(SdrError::DeviceOpenFailed("x".to_string())), "Failed to open device: x");
    assert_eq!(said(SdrError::CommunicationError("x".to_string())), "USB communication error: x");
    assert_eq!(said(SdrError::DeviceRunning), "Cannot change setting while device is running");
    assert_eq!(
        said(SdrError::AlreadyRunning),
        "Async read already in progress; call read_cancel() first"
    );
    assert_eq!(said(SdrError::InvalidParameter("x".to_string())), "Invalid parameter: x");
}

#[test]
fn starting_writes_every_setting() {
    let mut radio = radio();
    let mut wire = Wire::new();
    radio.set_xtal_freq(61_440_000).unwrap();
    radio.set_direct_sampling(false).unwrap();
    let task = radio.set_center_freq(0x1_2345_6789);
    wire.carry(&mut radio, task).unwrap();
    let task = radio.set_if_gain(db(9.0), 2);
    wire.carry(&mut radio, task).unwrap();
    let task = radio.set_rf_gain(db(-9.0), 1);
    wire.carry(&mut radio, task).unwrap();
    let task = radio.set_adc_filter(FilterMode::FMUndersample);
    wire.carry(&mut radio, task).unwrap();
    let task = radio.enable_adc_dither(true);
    wire.carry(&mut radio, task).unwrap();
    assert_eq!(wire.writes, vec![]);

    let task = radio.read_async(2, 1).unwrap();
    wire.carry(&mut radio, task).unwrap();
    assert_eq!(
        wire.writes,
        vec![
            (16, 1),
            (2, 61_440_000),
            (36, 2),
            (17, 1),
            (18, 0x2345_6789),
            (19, 2),
            (20, 1),
            (1, 2 | 1),
        ]
    );
    assert_eq!(wire.pauses, vec![0; 8]);
    // the gains are now the steps in use
    assert_eq!(radio.get_if_gain(), db(10.0 + 2.5));
    assert_eq!(radio.get_rf_gain(), db(-10.0 + 2.5));
}

#[test]
fn settings_apply_at_once_while_running() {
    let mut radio = running();
    let mut wire = Wire::new();
    let task = radio.set_center_freq(14_070_000);
    wire.carry(&mut radio, task).unwrap();
    let task = radio.set_if_gain(db(11.0), 3);
    wire.carry(&mut radio, task).unwrap();
    let task = radio.set_rf_gain(db(11.0), 7);
    wire.carry(&mut radio, task).unwrap();
    let task = radio.enable_adc_pga(true);
    wire.carry(&mut radio, task).unwrap();
    let task = radio.enable_hf_highz(true);
    wire.carry(&mut radio, task).unwrap();
    let task = radio.enable_adc_pga(false);
    wire.carry(&mut radio, task).unwrap();
    let task = radio.enable_ext_clock(true);
    wire.carry(&mut radio, task).unwrap();
    let task = radio.set_adc_filter(FilterMode::Bypass);
    wire.carry(&mut radio, task).unwrap();
    assert_eq!(
        wire.writes,
        vec![
            (17, 0),
            (18, 14_070_000),
            (32, 3),
            (33, 7),
            (1, 5),
            (1, 21),
            (1, 17),
            (1, 49),
            (36, 3),
        ]
    );
    assert_eq!(radio.get_if_gain(), db(22.0));
    // the model has no step 7: the requested gain stays
    assert_eq!(radio.get_rf_gain(), db(11.0));
}

#[test]
fn some_settings_are_locked_while_running() {
    let mut radio = running();
    assert_eq!(radio.set_xtal_freq(1), Err(SdrError::DeviceRunning));
    assert_eq!(radio.set_direct_sampling(false), Err(SdrError::DeviceRunning));
    assert_eq!(radio.enable_adc_rando(true), Err(SdrError::DeviceRunning));
    assert_eq!(radio.read_async(0, 0).err(), Some(SdrError::AlreadyRunning));
    assert_eq!(radio.get_xtal_freq(), 64_000_000);
    assert!(radio.get_direct_sampling());
}

#[test]
fn streaming_needs_super_speed() {
    for speed in
        [None, Some(Speed::Low), Some(Speed::Full), Some(Speed::High), Some(Speed::SuperPlus)]
    {
        let mut radio = radio_at(speed, MODEL_R2);
        assert_eq!(radio.read_async(0, 0).err(), Some(SdrError::NotSuperSpeed));
        assert!(radio.set_xtal_freq(1).is_ok());
    }
}

#[test]
fn a_stalled_write_is_repeated() {
    let mut radio = running();
    let mut wire = Wire::refusing(18, 3);
    let task = radio.set_center_freq(5);
    assert_eq!(wire.carry(&mut radio, task), Ok(()));
    assert_eq!(wire.writes, vec![(17, 0), (18, 5)]);
    assert_eq!(wire.pauses, vec![0, 0, 2, 2, 2]);
}

#[test]
fn a_write_is_given_up_after_four_attempts() {
    let mut radio = running();
    let mut wire = Wire::refusing(17, 4);
    let task = radio.set_center_freq(5);
    assert_eq!(
        wire.carry(&mut radio, task),
        Err(SdrError::CommunicationError(
            "REG_TUNER_CENTER_FREQ_HIGH: endpoint stalled (after 4 attempts)".to_string()
        ))
    );
    // nothing after the refused write is sent, and the setting is kept
    assert_eq!(wire.writes, vec![]);
    assert_eq!(wire.pauses, vec![0, 2, 2, 2]);
    assert_eq!(radio.get_center_freq(), 5);
}

#[test]
fn a_failed_start_leaves_the_device_idle() {
    for reg in [16, 2, 36, 17, 18, 32, 33, 1] {
        let mut radio = radio();
        let mut wire = Wire::refusing(reg, 4);
        assert!(start(&mut radio, &mut wire).is_err());
        assert!(wire.reader.is_none());
        // idle again: locked settings can change, and a stream can start
        assert!(radio.set_xtal_freq(32_000_000).is_ok());
        assert!(start(&mut radio, &mut Wire::new()).is_ok());
    }
}

#[test]
fn stopping_powers_down() {
    let mut radio = running();
    let mut wire = Wire::new();
    let task = radio.enable_adc_dither(true);
    wire.carry(&mut radio, task).unwrap();
    wire.writes.clear();
    stop(&mut radio, &mut wire).unwrap();
    assert_eq!(wire.writes, vec![(1, 2), (16, 0), (34, 0), (21, 0)]);
    wire.writes.clear();
    // a second stop has nothing to do
    stop(&mut radio, &mut wire).unwrap();
    assert_eq!(wire.writes, vec![]);
}

#[test]
fn a_failed_stop_leaves_the_device_marked_running() {
    let mut radio = running();
    let mut wire = Wire::refusing(34, 4);
    assert!(stop(&mut radio, &mut wire).is_err());
    assert_eq!(radio.set_xtal_freq(1), Err(SdrError::DeviceRunning));
    assert_eq!(stop(&mut radio, &mut Wire::new()), Ok(()));
    assert_eq!(radio.set_xtal_freq(1), Err(SdrError::DeviceRunning));
    // the reader is gone, so a new stream can start and stop
    assert!(start(&mut radio, &mut Wire::new()).is_ok());
    assert!(stop(&mut radio, &mut Wire::new()).is_ok());
    assert!(radio.set_xtal_freq(1).is_ok());
}

#[test]
fn the_reader_undoes_randomization_when_it_is_on() {
    for on in [false, true] {
        let mut radio = radio();
        radio.enable_adc_rando(on).unwrap();
        let mut wire = Wire::new();
        start(&mut radio, &mut wire).unwrap();
        assert_eq!(wire.writes.last(), Some(&(1, if on { 9 } else { 1 })));
        let mut worker = wire.reader.take().unwrap();
        let samples = if on { vec![3i16 ^ -2, 4] } else { vec![3, 4] };
        assert_eq!(
            worker.on_event(StreamEvent::Received(&in_memory(&[3, 4]))),
            StreamAction::Deliver(samples)
        );
    }
}

#[test]
fn the_last_call_of_each_switch_counts() {
    let mut radio = radio();
    radio.enable_adc_rando(false).unwrap();
    radio.enable_adc_rando(true).unwrap();
    for on in [true, false, true] {
        radio.enable_adc_dither(on);
    }
    for on in [true, false] {
        radio.enable_adc_pga(on);
        radio.enable_ext_clock(!on);
    }
    let mut wire = Wire::new();
    start(&mut radio, &mut wire).unwrap();
    assert_eq!(wire.writes.last(), Some(&(1, 1 | 2 | 8 | 32)));
    // locked while streaming
    assert!(radio.enable_adc_rando(false).is_err());
    wire.writes.clear();
    let task = radio.enable_hf_highz(true);
    wire.carry(&mut radio, task).unwrap();
    let task = radio.enable_adc_dither(false);
    wire.carry(&mut radio, task).unwrap();
    assert_eq!(wire.writes, vec![(1, 1 | 2 | 8 | 16 | 32), (1, 1 | 8 | 16 | 32)]);
}

#[test]
fn antenna_bias_and_preamp() {
    let mut radio = radio();
    let mut wire = Wire::new();
    let task = radio.enable_antenna_bias(0, true).unwrap();
    wire.carry(&mut radio, task).unwrap();
    let task = radio.enable_antenna_bias(1, false).unwrap();
    wire.carry(&mut radio, task).unwrap();
    let task = radio.enable_preamp(true);
    wire.carry(&mut radio, task).unwrap();
    radio.set_direct_sampling(false).unwrap();
    let task = radio.enable_preamp(false);
    wire.carry(&mut radio, task).unwrap();
    assert_eq!(wire.writes, vec![(34, 1), (21, 0), (35, 1), (22, 0)]);
    assert_eq!(
        radio.enable_antenna_bias(2, true).err(),
        Some(SdrError::InvalidParameter("Invalid antenna bias index: 2".to_string()))
    );
    assert_eq!(
        radio.enable_antenna_bias(i32::MIN, true).err(),
        Some(SdrError::InvalidParameter("Invalid antenna bias index: -2147483648".to_string()))
    );
}

#[test]
fn gpio_goes_out_and_comes_back() {
    let mut radio = radio();
    let mut wire = Wire::new();
    let task = radio.set_ext_gpio(0x2a).unwrap();
    wire.carry(&mut radio, task).unwrap();
    assert_eq!(wire.writes, vec![(48, 0x2a)]);
    assert_eq!(radio.get_ext_gpio(Ok(vec![0x2a, 0, 0, 0])), Ok(0x2a));
    assert_eq!(radio.get_ext_gpio(Ok(vec![0xff, 1, 0, 0])), Ok(0x7f));
    assert_eq!(
        radio.get_ext_gpio(Err("gone".to_string())),
        Err(SdrError::CommunicationError("gone".to_string()))
    );
    // seven pins; the high bit is ignored
    for (state, pins) in
        [(0x40u8, 0x40u32), (0x7f, 0x7f), (0x80, 0), (0x81, 0x01), (0xff, 0x7f)]
    {
        wire.writes.clear();
        let task = radio.set_ext_gpio(state).unwrap();
        assert_eq!(wire.carry(&mut radio, task), Ok(()));
        assert_eq!(wire.writes, vec![(48, pins)]);
        let reply = pins.to_le_bytes().to_vec();
        assert_eq!(radio.get_ext_gpio(Ok(reply)), Ok(state & 0x7f));
    }
    assert_eq!(
        radio.ext_gpio_request(),
        ControlRead { request: 0xb7, value: 0, index: 48, length: 4 }
    );
}

#[test]
fn tuner_status() {
    let mut radio = radio();
    assert_eq!(
        radio.tuner_status_request(),
        ControlRead { request: 0xb7, value: 0, index: 16, length: 4 }
    );
    // no PLL to lock in direct sampling
    assert_eq!(radio.get_pll_lock(Ok(vec![2, 0, 0, 0])), Ok(false));
    radio.set_direct_sampling(false).unwrap();
    assert_eq!(radio.get_pll_lock(Ok(vec![2, 0, 0, 0])), Ok(true));
    assert_eq!(radio.get_pll_lock(Ok(vec![5, 0, 0, 0])), Ok(false));
    assert_eq!(radio.get_tuner_status(Ok(vec![7, 0, 0, 0])), Ok((true, true)));
    assert_eq!(radio.get_tuner_status(Ok(vec![4, 0, 0, 0])), Ok((false, true)));
    assert_eq!(radio.get_tuner_status(Ok(vec![2, 0, 0, 0])), Ok((true, false)));
    assert_eq!(
        radio.get_pll_lock(Err("gone".to_string())),
        Err(SdrError::CommunicationError("gone".to_string()))
    );
}

#[test]
fn gains_follow_model_and_mode() {
    let mut radio = radio_at(Some(Speed::Super), MODEL_PRO);
    assert_eq!(radio.get_if_gain_range(), (db(-6.0), db(24.0)));
    assert_eq!(radio.get_rf_gain_range(), (db(-27.5), db(4.0)));
    assert_eq!(radio.get_if_gain_steps().len(), 4);
    assert_eq!(radio.get_rf_gain_steps(), &[db(-27.5), db(-6.0), db(4.0)]);
    radio.set_direct_sampling(false).unwrap();
    assert_eq!(radio.get_if_gain_range(), (db(-5.5), db(24.5)));
    assert_eq!(radio.get_rf_gain_range(), (db(-27.0), db(4.5)));
}
