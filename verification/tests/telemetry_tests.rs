use forza_rich_presence::telemetry::{
    TelemetryData, TelemetryServer, CAR_CLASS_OFFSET, CAR_ORDINAL_OFFSET, CAR_PI_OFFSET,
    DASH_PACKET_MIN_LEN, DEFAULT_TELEMETRY_PORT, RECEIVE_BUFFER_LEN, SPEED_OFFSET,
};

fn put_i32(buf: &mut [u8], offset: usize, v: i32) {
    buf[offset..offset + 4].copy_from_slice(&v.to_le_bytes());
}

fn sample_buffer() -> Vec<u8> {
    let mut buf = vec![0u8; RECEIVE_BUFFER_LEN];
    put_i32(&mut buf, 0, 1);
    put_i32(&mut buf, CAR_ORDINAL_OFFSET, 3462);
    put_i32(&mut buf, CAR_CLASS_OFFSET, 5);
    put_i32(&mut buf, CAR_PI_OFFSET, 900);
    buf[SPEED_OFFSET..SPEED_OFFSET + 4].copy_from_slice(&27.5f32.to_le_bytes());
    buf
}

#[test]
fn parse_packet_reads_fields_at_their_offsets() {
    let buf = sample_buffer();
    let d = TelemetryServer::parse_packet(&buf);
    assert_eq!(d.is_race_on, 1);
    assert_eq!(d.car_ordinal, 3462);
    assert_eq!(d.car_class, 5);
    assert_eq!(d.car_pi, 900);
    assert_eq!(f32::from_bits(d.speed_bits), 27.5);
}

#[test]
fn parse_packet_reads_negative_values() {
    let mut buf = vec![0u8; RECEIVE_BUFFER_LEN];
    put_i32(&mut buf, CAR_ORDINAL_OFFSET, -1);
    put_i32(&mut buf, CAR_PI_OFFSET, i32::MIN);
    put_i32(&mut buf, CAR_CLASS_OFFSET, i32::MAX);
    let d = TelemetryServer::parse_packet(&buf);
    assert_eq!(d.car_ordinal, -1);
    assert_eq!(d.car_pi, i32::MIN);
    assert_eq!(d.car_class, i32::MAX);
}

#[test]
fn parse_packet_reads_missing_fields_as_zero() {
    let mut buf = vec![0u8; 218];
    put_i32(&mut buf, 0, 7);
    put_i32(&mut buf, CAR_ORDINAL_OFFSET, 42);
    buf[216] = 9;
    buf[217] = 9;
    let d = TelemetryServer::parse_packet(&buf);
    assert_eq!(d.is_race_on, 7);
    assert_eq!(d.car_ordinal, 42);
    assert_eq!(d.car_class, 0);
    assert_eq!(d.car_pi, 0);
    assert_eq!(d.speed_bits, 0);
    assert_eq!(TelemetryServer::parse_packet(&[1, 2, 3]), TelemetryData::default());
}

#[test]
fn handle_datagram_takes_only_dash_sized_packets() {
    let buf = sample_buffer();
    assert_eq!(TelemetryServer::handle_datagram(&buf, DASH_PACKET_MIN_LEN - 1), None);
    assert_eq!(TelemetryServer::handle_datagram(&buf, 0), None);
    let d = TelemetryServer::handle_datagram(&buf, DASH_PACKET_MIN_LEN).unwrap();
    assert_eq!(d.car_ordinal, 3462);
    // The whole buffer is read, also past the datagram's own length.
    let d = TelemetryServer::handle_datagram(&buf, 311).unwrap();
    assert_eq!(f32::from_bits(d.speed_bits), 27.5);
    assert!(TelemetryServer::handle_datagram(&buf, 324).is_some());
}

#[test]
fn server_lifecycle_starts_once_until_stopped() {
    let mut server = TelemetryServer::new();
    assert!(!server.is_running());
    assert!(server.claim_start());
    assert!(server.is_running());
    assert!(!server.claim_start());
    assert!(server.is_running());
    server.stop();
    assert!(!server.is_running());
    assert!(server.claim_start());
    server.worker_failed();
    assert!(!server.is_running());
    assert!(server.claim_start());
}

#[test]
fn telemetry_constants() {
    assert_eq!(DEFAULT_TELEMETRY_PORT, 9909);
    assert_eq!(DASH_PACKET_MIN_LEN, 311);
    assert_eq!(RECEIVE_BUFFER_LEN, 512);
}
