use stream_session::directory::{debug_streams_report, DiscoveredStream};
use stream_session::numfmt::{u64_to_string, usize_to_string};
use stream_session::xml::parse_xml;

fn stream(xml: Option<&str>, source_id: &str, hostname: &str, channels: u32, rate: &str) -> DiscoveredStream {
    DiscoveredStream {
        metadata: xml.and_then(parse_xml),
        source_id: source_id.to_string(),
        hostname: hostname.to_string(),
        channel_count: channels,
        srate_text: rate.to_string(),
    }
}

#[test]
fn zero_streams_gives_the_literal_report() {
    assert_eq!(debug_streams_report(&Vec::new()), "No streams found.");
}

#[test]
fn first_line_states_the_count() {
    let streams = vec![
        stream(Some("<s><name>A</name></s>"), "id-a", "host1", 8, "256"),
        stream(Some("<s><name>B</name><type>EEG</type></s>"), "id-b", "host2", 4, "512"),
    ];
    let report = debug_streams_report(&streams);
    let first_line = report.lines().next().unwrap();
    assert_eq!(first_line, "Found 2 streams:");
}

#[test]
fn report_lists_every_stream_in_order() {
    let streams = vec![
        stream(Some("<s><name>A</name><type>EEG</type></s>"), "id-a", "host1", 8, "256"),
        stream(None, "id-b", "host2", 4, "512.5"),
    ];
    let report = debug_streams_report(&streams);
    let expected = "Found 2 streams:\n\
        - Name: A\n  Host: host1\n  Source ID: id-a\n  Type: EEG\n  Rate: 256 Hz\n  Channels: 8\n\
        - Name: unnamed\n  Host: host2\n  Source ID: id-b\n  Type: unknown\n  Rate: 512.5 Hz\n  Channels: 4\n";
    assert_eq!(report, expected);
}

#[test]
fn unnamed_and_unknown_stand_in_for_missing_metadata() {
    let streams = vec![stream(Some("<s></s>"), "id", "h", 1, "0")];
    let report = debug_streams_report(&streams);
    assert!(report.contains("- Name: unnamed\n"));
    assert!(report.contains("  Type: unknown\n"));
}

#[test]
fn decimal_rendering_is_exact() {
    assert_eq!(u64_to_string(0), "0");
    assert_eq!(u64_to_string(10), "10");
    assert_eq!(u64_to_string(207), "207");
    assert_eq!(u64_to_string(u64::MAX), "18446744073709551615");
    assert_eq!(usize_to_string(25), "25");
}
