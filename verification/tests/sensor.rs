use rt_layer0::SensorBuffer;

#[test]
fn test_sensor_buffer() {
    let mut buffer = SensorBuffer::<f64>::new();
    assert!(!buffer.is_valid());

    buffer.write(42.0, 1000);
    assert!(buffer.is_valid());

    let (data, ts) = buffer.read().unwrap();
    assert_eq!(data, 42.0);
    assert_eq!(ts, 1000);
}

#[test]
fn test_sensor_buffer_empty_reads_nothing() {
    let buffer = SensorBuffer::<f64>::new();
    assert!(!buffer.is_valid());
    assert!(buffer.read().is_none());
}

#[test]
fn test_sensor_buffer_latest_write_wins() {
    let mut buffer = SensorBuffer::<u32>::new();
    buffer.write(7, 10);
    buffer.write(9, 20);
    assert_eq!(buffer.read(), Some((9, 20)));
    assert!(buffer.is_valid());
    // A read does not consume the sample: the slot stays valid.
    assert_eq!(buffer.read(), Some((9, 20)));
}

#[test]
fn test_sensor_buffer_default_is_empty() {
    let buffer: SensorBuffer<i64> = SensorBuffer::default();
    assert!(!buffer.is_valid());
    assert!(buffer.read().is_none());
}
