use scanproto::Capabilities;
use scanproto::ChunkEvent;
use scanproto::ChunkResult;
use scanproto::Constraint;
use scanproto::FrameFormat;
use scanproto::ImageSink;
use scanproto::OptionCatalog;
use scanproto::OptionDescriptor;
use scanproto::OptionRequest;
use scanproto::OptionValue;
use scanproto::PumpStatus;
use scanproto::ScanError;
use scanproto::ScanParameters;
use scanproto::Session;
use scanproto::SessionState;
use scanproto::Unit;
use scanproto::ValueKind;
use scanproto::pump;
use scanproto::run_scan;

fn descriptor(name: &str, kind: ValueKind) -> OptionDescriptor {
    OptionDescriptor {
        name: name.to_string(),
        title: name.to_string(),
        kind,
        unit: Unit::NoUnit,
        constraint: Constraint::Unconstrained,
        caps: Capabilities {
            readable: true,
            soft_settable: true,
            hard_settable: false,
            automatic: false,
        },
    }
}

fn device_catalog() -> OptionCatalog {
    let mut cat = OptionCatalog::new();
    cat.push(descriptor("resolution", ValueKind::Int)).unwrap();
    cat.push(descriptor("depth", ValueKind::Int)).unwrap();
    cat.push(descriptor("tl-x", ValueKind::Fixed)).unwrap();
    cat.push(descriptor("br-x", ValueKind::Fixed)).unwrap();
    cat.push(descriptor("redlamp-off", ValueKind::Int)).unwrap();
    cat
}

fn geometry_requests() -> Vec<OptionRequest> {
    vec![
        OptionRequest { name: "resolution".to_string(), value: OptionValue::Int(1) },
        OptionRequest { name: "depth".to_string(), value: OptionValue::Int(16) },
        OptionRequest { name: "tl-x".to_string(), value: OptionValue::Fixed(0) },
        OptionRequest { name: "br-x".to_string(), value: OptionValue::Fixed(14090240) },
        OptionRequest { name: "redlamp-off".to_string(), value: OptionValue::Int(0) },
    ]
}

fn hundred_by_fifty() -> ScanParameters {
    // Geometry the device derives from the applied options: 100 pixels per
    // line over 50 lines of 16-bit RGB samples, with no padding.
    ScanParameters {
        format: FrameFormat::Rgb,
        pixels_per_line: 100,
        bytes_per_line: 600,
        lines: 50,
        depth: 16,
    }
}

#[test]
fn run_writes_the_negotiated_header() {
    let mut s = Session::new();
    s.open(Ok(device_catalog())).unwrap();
    let events = vec![ChunkEvent::Data(vec![7; 600]), ChunkEvent::EndOfData];
    let out = run_scan(&mut s, &geometry_requests(), Ok(hundred_by_fifty()), &events).unwrap();
    assert_eq!(out.applied, 5);
    assert_eq!(out.sink.header(), &b"P6\n100 50\n65535\n".to_vec());
    assert_eq!(out.report.status, PumpStatus::Finished);
    assert_eq!(out.report.total, 600);
    assert_eq!(s.current_state(), SessionState::Draining);
}

#[test]
fn run_skips_options_the_device_lacks() {
    // This device exposes no depth option; applying depth=16 is skipped
    // without error and the run completes.
    let mut cat = OptionCatalog::new();
    cat.push(descriptor("resolution", ValueKind::Int)).unwrap();
    let mut s = Session::new();
    s.open(Ok(cat)).unwrap();
    let requests = vec![
        OptionRequest { name: "resolution".to_string(), value: OptionValue::Int(1) },
        OptionRequest { name: "depth".to_string(), value: OptionValue::Int(16) },
    ];
    let params = ScanParameters {
        format: FrameFormat::Gray,
        pixels_per_line: 4,
        bytes_per_line: 4,
        lines: 1,
        depth: 8,
    };
    let events = vec![ChunkEvent::Data(vec![1, 2, 3, 4]), ChunkEvent::EndOfData];
    let out = run_scan(&mut s, &requests, Ok(params), &events).unwrap();
    assert_eq!(out.applied, 1);
    assert_eq!(out.report.status, PumpStatus::Finished);
    assert_eq!(out.sink.samples(), &vec![1, 2, 3, 4]);
}

#[test]
fn mid_scan_failure_reports_partial_count_and_poisons_session() {
    let mut s = Session::new();
    s.open(Ok(device_catalog())).unwrap();
    let events = vec![
        ChunkEvent::Data(vec![1, 2, 3]),
        ChunkEvent::Data(vec![4, 5]),
        ChunkEvent::Failure(ScanError::IOError),
        ChunkEvent::Data(vec![6, 7, 8, 9]),
    ];
    let params = ScanParameters {
        format: FrameFormat::Gray,
        pixels_per_line: 9,
        bytes_per_line: 9,
        lines: 1,
        depth: 8,
    };
    let out = run_scan(&mut s, &geometry_requests(), Ok(params), &events).unwrap();
    assert_eq!(out.report.status, PumpStatus::Failed(ScanError::IOError));
    // The partial byte count survives the failure; the event after the
    // failure was never consumed.
    assert_eq!(out.report.total, 5);
    assert_eq!(out.sink.samples(), &vec![1, 2, 3, 4, 5]);
    assert_eq!(s.current_state(), SessionState::Error);
    // Without close and reopen, further reads fail.
    assert_eq!(s.read(ChunkResult::Data(1)).unwrap_err(), ScanError::NotOpen);
    // After an explicit close they fail Closed.
    s.close();
    assert_eq!(s.read(ChunkResult::Data(1)).unwrap_err(), ScanError::Closed);
}

#[test]
fn pump_counts_every_byte_it_hands_to_the_sink() {
    let mut s = Session::new();
    s.open(Ok(device_catalog())).unwrap();
    let params = ScanParameters {
        format: FrameFormat::Gray,
        pixels_per_line: 4,
        bytes_per_line: 6,
        lines: 3,
        depth: 8,
    };
    s.start(Ok(params)).unwrap();
    let mut sink = ImageSink::new(&params);
    sink.write_header();
    let events = vec![
        ChunkEvent::Data(vec![1, 2, 3, 4, 90, 91, 5]),
        ChunkEvent::Data(vec![]),
        ChunkEvent::Data(vec![6, 7, 8, 92, 93]),
        ChunkEvent::EndOfData,
    ];
    let report = pump(&mut s, &mut sink, &events);
    // The sum of the data counts equals the bytes handed to the sink and
    // the bytes the session accounted for; the zero-length chunk did not
    // end the loop.
    assert_eq!(report.total, 12);
    assert_eq!(report.status, PumpStatus::Finished);
    assert_eq!(sink.received(), 12);
    assert_eq!(s.total_scan_bytes(), 12);
    assert_eq!(sink.samples(), &vec![1, 2, 3, 4, 5, 6, 7, 8]);
}

#[test]
fn pump_reports_need_more_when_events_run_out() {
    let mut s = Session::new();
    s.open(Ok(device_catalog())).unwrap();
    let params = ScanParameters {
        format: FrameFormat::Gray,
        pixels_per_line: 4,
        bytes_per_line: 4,
        lines: 4,
        depth: 8,
    };
    s.start(Ok(params)).unwrap();
    let mut sink = ImageSink::new(&params);
    sink.write_header();
    let first = vec![ChunkEvent::Data(vec![1, 2]), ChunkEvent::Data(vec![3])];
    let report = pump(&mut s, &mut sink, &first);
    assert_eq!(report.status, PumpStatus::NeedMore);
    assert_eq!(report.total, 3);
    assert_eq!(s.current_state(), SessionState::Scanning);
    // The loop picks up where it left off.
    let second = vec![ChunkEvent::Data(vec![4, 5]), ChunkEvent::EndOfData];
    let report = pump(&mut s, &mut sink, &second);
    assert_eq!(report.status, PumpStatus::Finished);
    assert_eq!(report.total, 2);
    assert_eq!(s.total_scan_bytes(), 5);
    assert_eq!(sink.samples(), &vec![1, 2, 3, 4, 5]);
}

#[test]
fn failed_start_is_fatal_to_the_run() {
    let mut s = Session::new();
    s.open(Ok(device_catalog())).unwrap();
    let events: Vec<ChunkEvent> = vec![];
    let r = run_scan(&mut s, &geometry_requests(), Err(ScanError::IOError), &events);
    assert_eq!(r.unwrap_err(), ScanError::IOError);
    assert_eq!(s.current_state(), SessionState::Error);
}

#[test]
fn failing_present_option_is_fatal_to_the_run() {
    let mut s = Session::new();
    s.open(Ok(device_catalog())).unwrap();
    let requests =
        vec![OptionRequest { name: "depth".to_string(), value: OptionValue::Text("x".to_string()) }];
    let events: Vec<ChunkEvent> = vec![];
    let r = run_scan(&mut s, &requests, Ok(hundred_by_fifty()), &events);
    assert_eq!(r.unwrap_err(), ScanError::TypeMismatch);
    assert_eq!(s.current_state(), SessionState::Opened);
}
