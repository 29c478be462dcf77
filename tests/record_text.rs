use telemetry_ingest::frame::TelemetryFrame;
use telemetry_ingest::record::encode_record;

fn reading(lat: i32, lon: i32, battery: u8) -> TelemetryFrame {
    TelemetryFrame {
        timestamp: "2024-05-01T12:00:00.5Z".to_string(),
        latitude_microdeg: lat,
        longitude_microdeg: lon,
        battery_level: battery,
    }
}

fn text(f: &TelemetryFrame) -> String {
    String::from_utf8(encode_record(f)).unwrap()
}

#[test]
fn record_of_whole_degrees() {
    assert_eq!(
        text(&reading(-34_000_000, -58_000_000, 87)),
        "telemetry lat=-34.000000,lon=-58.000000,battery=87 timestamp=2024-05-01T12:00:00.5Z\n"
    );
}

#[test]
fn record_pads_fractions() {
    assert_eq!(
        text(&reading(-999, 1_000_001, 0)),
        "telemetry lat=-0.000999,lon=1.000001,battery=0 timestamp=2024-05-01T12:00:00.5Z\n"
    );
}

#[test]
fn record_of_extremes() {
    assert_eq!(
        text(&reading(i32::MIN, i32::MAX, 255)),
        "telemetry lat=-2147.483648,lon=2147.483647,battery=255 timestamp=2024-05-01T12:00:00.5Z\n"
    );
}

#[test]
fn record_of_zero() {
    assert_eq!(
        text(&reading(0, 123_456_789, 100)),
        "telemetry lat=0.000000,lon=123.456789,battery=100 timestamp=2024-05-01T12:00:00.5Z\n"
    );
}
