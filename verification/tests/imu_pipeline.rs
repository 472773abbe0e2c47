use hald::imu::{find_iio_device, IioDeviceRecord, IioImu, Imu, MockImu};
use hald::proto::{encode_imu_frame, encode_varint, ImuFrame};
use hald::publisher::{
    filter_input,
    sample_frame,
    sample_period_ms,
    ImuSocket,
    StartAction,
    StopAction,
};

fn le(v: &mut Vec<u8>, x: u32) {
    v.extend_from_slice(&x.to_le_bytes());
}

fn frame() -> ImuFrame {
    ImuFrame {
        timestamp: 300,
        accel: [1, 2, 3],
        gyro: [4, 5, 6],
        mag: [7, 8, 9],
        temp: 10,
        quaternion: [11, 12, 13, 14],
        euler_angles: [15, 16, 17],
    }
}

#[test]
fn varint_encoding() {
    let mut v = Vec::new();
    encode_varint(&mut v, 300);
    assert_eq!(v, vec![0xAC, 0x02]);
    let mut v = Vec::new();
    encode_varint(&mut v, 0);
    assert_eq!(v, vec![0]);
    let mut v = Vec::new();
    encode_varint(&mut v, 127);
    assert_eq!(v, vec![127]);
}

#[test]
fn frame_encoding_matches_wire_layout() {
    let out = encode_imu_frame(&frame());
    let mut expected = vec![8, 0xAC, 0x02];
    expected.extend_from_slice(&[0x12, 12]);
    for x in [1, 2, 3] {
        le(&mut expected, x);
    }
    expected.extend_from_slice(&[0x1A, 12]);
    for x in [4, 5, 6] {
        le(&mut expected, x);
    }
    expected.extend_from_slice(&[0x22, 12]);
    for x in [7, 8, 9] {
        le(&mut expected, x);
    }
    expected.push(0x2D);
    le(&mut expected, 10);
    expected.extend_from_slice(&[0x32, 16]);
    for x in [11, 12, 13, 14] {
        le(&mut expected, x);
    }
    expected.extend_from_slice(&[0x3A, 12]);
    for x in [15, 16, 17] {
        le(&mut expected, x);
    }
    assert_eq!(out, expected);
}

#[test]
fn zero_defaults_are_omitted() {
    let mut f = frame();
    f.timestamp = 0;
    f.temp = 0;
    let out = encode_imu_frame(&f);
    // No timestamp field (key 8) and no temp field (key 0x2D): only the five
    // repeated fields, always present.
    assert_eq!(out.len(), 14 * 4 + 18);
    assert_eq!(out[0], 0x12);
    // Negative float zero counts as the default too.
    f.temp = 0x8000_0000;
    assert_eq!(encode_imu_frame(&f).len(), 14 * 4 + 18);
}

#[test]
fn sample_frame_keeps_channels_and_stamp() {
    let mock = MockImu::new();
    let data = mock.imu_data();
    let f = sample_frame(&data, 123456);
    assert_eq!(f.timestamp, 123456);
    assert_eq!(f.accel.len(), 3);
    assert_eq!(f.gyro.len(), 3);
    assert_eq!(f.mag.len(), 3);
    assert_eq!(f.quaternion.len(), 4);
    assert_eq!(f.euler_angles.len(), 3);
}

#[test]
fn filter_input_reverses_axes() {
    let mock = MockImu::new();
    let mut data = mock.imu_data();
    data.gyro = [1, 2, 3];
    data.accel = [4, 5, 6];
    let (gyro, accel) = filter_input(&data);
    assert_eq!(gyro, [3, 2, 1]);
    assert_eq!(accel, [6, 5, 4]);
}

#[test]
fn start_stop_idempotence() {
    // stop() twice is a no-op; start() twice is a no-op; start, stop, start
    // yields a working publisher again.
    let mut socket = ImuSocket::new(MockImu::new(), "imu0".to_string(), "tcp://127.0.0.1:7000");
    assert!(!socket.is_running());
    assert_eq!(socket.stop().unwrap(), StopAction::AlreadyIdle);
    assert_eq!(socket.start().unwrap(), StartAction::SpawnSampler);
    assert_eq!(socket.start().unwrap(), StartAction::AlreadyRunning);
    assert!(socket.is_running());
    assert_eq!(socket.stop().unwrap(), StopAction::JoinAndDeinit);
    assert_eq!(socket.stop().unwrap(), StopAction::AlreadyIdle);
    assert!(!socket.is_running());
    assert_eq!(socket.start().unwrap(), StartAction::SpawnSampler);
    assert!(socket.is_running());
}

#[test]
fn ticks_publish_only_while_running() {
    let mut socket = ImuSocket::new(MockImu::new(), "imu0".to_string(), "tcp://127.0.0.1:7000");
    let data = MockImu::new().imu_data();
    assert!(socket.on_tick(&data, 1).is_none());
    socket.start().unwrap();
    let bytes = socket.on_tick(&data, 2).unwrap();
    assert!(!bytes.is_empty());
    socket.stop().unwrap();
    assert!(socket.on_tick(&data, 3).is_none());
}

#[test]
fn imu_info_and_schema() {
    let socket = ImuSocket::new(MockImu::new(), "imu0".to_string(), "tcp://127.0.0.1:9100");
    let info = socket.get_device_info();
    let v: serde_json::Value = serde_json::from_str(&info).unwrap();
    assert_eq!(v["device_type"].as_str(), Some("mock"));
    assert_eq!(v["status"].as_str(), Some("idle"));
    assert_eq!(v["sample_rate"].as_u64(), Some(50));
    assert_eq!(v["imu_data_port"].as_u64(), Some(9100));
    let schema = socket.get_schema();
    assert!(schema.contains("message ImuDataProto"));
    assert!(schema.contains("repeated float quaternion = 6;"));
}

#[test]
fn sample_period_from_rate() {
    assert_eq!(sample_period_ms(50), 20);
    assert_eq!(sample_period_ms(30), 33);
}

#[test]
fn channel_scan_records_paths_and_rate() {
    let files: Vec<String> = [
        "in_accel_x_raw",
        "in_accel_y_raw",
        "in_accel_z_raw",
        "in_anglvel_x_raw",
        "in_magn_y_raw",
        "in_temp_raw",
        "sampling_frequency",
        "unrelated_file",
    ]
        .iter()
        .map(|s| s.to_string())
        .collect();
    let imu = IioImu::new(
        "mpu6500".to_string(),
        "/sys/bus/iio/devices/iio:device0".to_string(),
        &files,
        &Some("100\n".to_string()),
        &None,
    );
    assert_eq!(
        imu.accel_x_path.as_deref(),
        Some("/sys/bus/iio/devices/iio:device0/in_accel_x_raw")
    );
    assert!(imu.accel_y_path.is_some() && imu.accel_z_path.is_some());
    assert!(imu.gyro_x_path.is_some() && imu.gyro_y_path.is_none());
    assert!(imu.mag_y_path.is_some() && imu.mag_x_path.is_none());
    assert!(!imu.temp_is_input);
    assert_eq!(imu.sample_rate, 100);
}

#[test]
fn channel_scan_defaults_and_temp_flavor() {
    let files: Vec<String> =
        ["in_temp_raw", "in_temp_input"].iter().map(|s| s.to_string()).collect();
    let imu = IioImu::new("x".to_string(), "/d".to_string(), &files, &None, &None);
    // The later entry wins: a processed temperature channel.
    assert!(imu.temp_is_input);
    assert_eq!(imu.temp_path.as_deref(), Some("/d/in_temp_input"));
    // No readable frequency file: 30 Hz.
    assert_eq!(imu.sample_rate, 30);
}

#[test]
fn iio_device_search_takes_first_match() {
    let devices = vec![
        IioDeviceRecord {
            dir_name: "trigger0".to_string(),
            device_path: "/sys/bus/iio/devices/trigger0".to_string(),
            name: Some("mpu6500".to_string()),
        },
        IioDeviceRecord {
            dir_name: "iio:device0".to_string(),
            device_path: "/sys/bus/iio/devices/iio:device0".to_string(),
            name: Some("other".to_string()),
        },
        IioDeviceRecord {
            dir_name: "iio:device1".to_string(),
            device_path: "/sys/bus/iio/devices/iio:device1".to_string(),
            name: Some("mpu6500".to_string()),
        },
    ];
    assert_eq!(find_iio_device(&devices, "mpu6500"), Some(2));
    assert_eq!(find_iio_device(&devices, "nonexistent"), None);
}

#[test]
fn mock_imu_is_quiet() {
    let mock = MockImu::new();
    assert_eq!(mock.name(), "mock");
    assert_eq!(mock.sample_rate(), 50);
    let data = mock.imu_data();
    assert_eq!(data.accel, [0, 0, 0]);
    assert_eq!(data.temp, 0);
}

#[test]
fn unreadable_endpoint_reads_port_zero() {
    let socket = ImuSocket::new(MockImu::new(), "imu0".to_string(), "ipc:///tmp/sock");
    assert_eq!(socket.imu_data_port, 0);
}

#[test]
fn temp_flavor_order_raw_last_wins() {
    let files: Vec<String> =
        ["in_temp_input", "in_temp_raw"].iter().map(|s| s.to_string()).collect();
    let imu = IioImu::new("x".to_string(), "/d".to_string(), &files, &None, &None);
    assert!(!imu.temp_is_input);
    assert_eq!(imu.temp_path.as_deref(), Some("/d/in_temp_raw"));
}
