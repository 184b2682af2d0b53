use sddc::error::SdrError;
use sddc::text::int_text;
use sddc::usb::{control_read, control_write, register_value, Attempt, DeviceInfo, Retry, Speed};

#[test]
fn register_values_are_little_endian() {
    assert_eq!(register_value(Ok(vec![0x78, 0x56, 0x34, 0x12])), Ok(0x1234_5678));
    assert_eq!(register_value(Ok(vec![0xff, 0xff, 0xff, 0xff])), Ok(u32::MAX));
    // what follows the register is not looked at
    assert_eq!(register_value(Ok(vec![1, 0, 0, 0, 9])), Ok(1));
    for value in [0u32, 1, 255, 256, 0x8000_0000, 61_440_000] {
        assert_eq!(register_value(Ok(value.to_le_bytes().to_vec())), Ok(value));
    }
    assert_eq!(
        register_value(Err("stalled".to_string())),
        Err(SdrError::CommunicationError("stalled".to_string()))
    );
}

#[test]
fn four_attempts_to_write() {
    let mut retry = Retry::new();
    assert_eq!(retry.pause_ms(), 0);
    for _ in 0..3 {
        assert_eq!(
            control_write(&mut retry, Err("stalled".to_string())),
            Attempt::Again { pause_ms: 2 }
        );
    }
    assert_eq!(
        control_write(&mut retry, Err("gone".to_string())),
        Attempt::GaveUp {
            context: "USB write failed after 4 attempts".to_string(),
            cause: "gone".to_string()
        }
    );
}

#[test]
fn four_attempts_to_read() {
    let mut retry = Retry::new();
    for _ in 0..3 {
        assert_eq!(
            control_read(&mut retry, Err("stalled".to_string())),
            Attempt::Again { pause_ms: 2 }
        );
    }
    assert_eq!(
        control_read(&mut retry, Err("gone".to_string())),
        Attempt::GaveUp {
            context: "USB read failed after 4 attempts".to_string(),
            cause: "gone".to_string()
        }
    );
}

#[test]
fn a_late_success_counts() {
    let mut retry = Retry::new();
    for _ in 0..3 {
        control_write(&mut retry, Err("stalled".to_string()));
    }
    assert_eq!(control_write(&mut retry, Ok(())), Attempt::Done(()));
    let mut retry = Retry::new();
    assert_eq!(control_read(&mut retry, Ok(vec![1, 2])), Attempt::Done(vec![1, 2]));
}

#[test]
fn integers_as_text() {
    for i in [0i64, 7, -7, 10, -10, 42, 255, 1_000_000, i64::MAX, i64::MIN, i64::MIN + 1] {
        assert_eq!(int_text(i), format!("{}", i));
    }
}

#[test]
fn only_super_speed_is_super_speed() {
    let at = |speed| DeviceInfo {
        vendor_id: 1,
        product_id: 2,
        speed,
        manufacturer: None,
        product: None,
        serial: None,
    };
    assert!(at(Some(Speed::Super)).is_super_speed());
    for speed in
        [None, Some(Speed::Low), Some(Speed::Full), Some(Speed::High), Some(Speed::SuperPlus)]
    {
        assert!(!at(speed).is_super_speed());
    }
}
