use scanproto::Capabilities;
use scanproto::ChunkOutcome;
use scanproto::ChunkResult;
use scanproto::Constraint;
use scanproto::FrameFormat;
use scanproto::OptionCatalog;
use scanproto::OptionDescriptor;
use scanproto::OptionRequest;
use scanproto::OptionValue;
use scanproto::ReloadSignal;
use scanproto::ScanError;
use scanproto::ScanParameters;
use scanproto::Session;
use scanproto::SessionState;
use scanproto::Unit;
use scanproto::ValueKind;

fn descriptor(name: &str, kind: ValueKind, constraint: Constraint) -> OptionDescriptor {
    OptionDescriptor {
        name: name.to_string(),
        title: name.to_string(),
        kind,
        unit: Unit::NoUnit,
        constraint,
        caps: Capabilities {
            readable: true,
            soft_settable: true,
            hard_settable: false,
            automatic: false,
        },
    }
}

fn small_catalog() -> OptionCatalog {
    let mut cat = OptionCatalog::new();
    cat.push(descriptor("resolution", ValueKind::Int, Constraint::Unconstrained)).unwrap();
    cat.push(descriptor("depth", ValueKind::Int, Constraint::Unconstrained)).unwrap();
    cat
}

fn rgb_params() -> ScanParameters {
    ScanParameters {
        format: FrameFormat::Rgb,
        pixels_per_line: 4,
        bytes_per_line: 16,
        lines: 2,
        depth: 8,
    }
}

fn open_session() -> Session {
    let mut s = Session::new();
    s.open(Ok(small_catalog())).unwrap();
    s
}

#[test]
fn open_adopts_catalog_and_fails_when_repeated() {
    let mut s = Session::new();
    assert_eq!(s.current_state(), SessionState::Idle);
    s.open(Ok(small_catalog())).unwrap();
    assert_eq!(s.current_state(), SessionState::Opened);
    assert_eq!(s.catalog().len(), 2);
    assert_eq!(s.open(Ok(small_catalog())).unwrap_err(), ScanError::AlreadyOpen);
}

#[test]
fn open_reports_busy_transport() {
    let mut s = Session::new();
    assert_eq!(s.open(Err(ScanError::DeviceBusy)).unwrap_err(), ScanError::DeviceBusy);
    assert_eq!(s.current_state(), SessionState::Idle);
    // The session is untouched; a later open still succeeds.
    s.open(Ok(small_catalog())).unwrap();
    assert_eq!(s.current_state(), SessionState::Opened);
}

#[test]
fn set_option_stores_applied_value() {
    let mut s = open_session();
    let r = s.set_option(1, OptionValue::Int(16), ReloadSignal::none());
    assert!(r.is_ok());
    assert!(matches!(s.stored_value(1), Some(OptionValue::Int(16))));
}

#[test]
fn set_option_rejects_bad_index() {
    let mut s = open_session();
    let r = s.set_option(9, OptionValue::Int(1), ReloadSignal::none());
    assert_eq!(r.unwrap_err(), ScanError::InvalidOption);
}

#[test]
fn type_mismatch_leaves_stored_value_unchanged() {
    let mut s = open_session();
    s.set_option(1, OptionValue::Int(8), ReloadSignal::none()).unwrap();
    let r = s.set_option(1, OptionValue::Fixed(16), ReloadSignal::none());
    assert_eq!(r.unwrap_err(), ScanError::TypeMismatch);
    assert!(matches!(s.stored_value(1), Some(OptionValue::Int(8))));
    assert_eq!(s.current_state(), SessionState::Opened);
}

#[test]
fn reload_signal_discards_derived_parameters() {
    let mut s = open_session();
    s.get_parameters(Ok(rgb_params())).unwrap();
    assert_eq!(s.current_state(), SessionState::ParametersKnown);
    let reload = ReloadSignal { options: false, parameters: true };
    let r = s.set_option(0, OptionValue::Int(300), reload).unwrap();
    assert_eq!(r, reload);
    assert_eq!(s.current_state(), SessionState::Opened);
    assert_eq!(s.parameters(), None);
}

#[test]
fn absent_option_is_skipped_without_error() {
    let mut s = open_session();
    let req = OptionRequest { name: "preview".to_string(), value: OptionValue::Int(0) };
    let before = s.current_state();
    let r = s.apply_request(&req).unwrap();
    assert!(matches!(r, scanproto::ApplyOutcome::Skipped));
    assert_eq!(s.current_state(), before);
    assert!(matches!(s.stored_value(0), None));
    assert!(matches!(s.stored_value(1), None));
}

#[test]
fn apply_all_skips_absent_and_counts_applied() {
    let mut s = open_session();
    let requests = vec![
        OptionRequest { name: "resolution".to_string(), value: OptionValue::Int(300) },
        OptionRequest { name: "preview".to_string(), value: OptionValue::Int(0) },
        OptionRequest { name: "depth".to_string(), value: OptionValue::Int(16) },
    ];
    let applied = s.apply_all(&requests).unwrap();
    assert_eq!(applied, 2);
    assert!(matches!(s.stored_value(0), Some(OptionValue::Int(300))));
    assert!(matches!(s.stored_value(1), Some(OptionValue::Int(16))));
}

#[test]
fn apply_all_stops_at_first_failing_present_option() {
    let mut s = open_session();
    let requests = vec![
        OptionRequest { name: "resolution".to_string(), value: OptionValue::Int(300) },
        OptionRequest { name: "depth".to_string(), value: OptionValue::Fixed(16) },
        OptionRequest { name: "resolution".to_string(), value: OptionValue::Int(600) },
    ];
    let r = s.apply_all(&requests);
    assert_eq!(r.unwrap_err(), ScanError::TypeMismatch);
    // The first request was applied, the failing one changed nothing, the
    // third was never reached.
    assert!(matches!(s.stored_value(0), Some(OptionValue::Int(300))));
    assert!(matches!(s.stored_value(1), None));
}

#[test]
fn start_before_open_fails_not_open() {
    let mut s = Session::new();
    assert_eq!(s.start(Ok(rgb_params())).unwrap_err(), ScanError::NotOpen);
    assert_eq!(s.current_state(), SessionState::Idle);
}

#[test]
fn read_before_start_fails_not_ready() {
    let mut s = open_session();
    assert_eq!(s.read(ChunkResult::Data(4)).unwrap_err(), ScanError::NotReady);
    assert_eq!(s.current_state(), SessionState::Opened);
}

#[test]
fn start_while_scanning_fails_not_ready() {
    let mut s = open_session();
    s.start(Ok(rgb_params())).unwrap();
    assert_eq!(s.start(Ok(rgb_params())).unwrap_err(), ScanError::NotReady);
}

#[test]
fn end_of_data_is_idempotent_until_new_start() {
    let mut s = open_session();
    s.start(Ok(rgb_params())).unwrap();
    assert_eq!(s.read(ChunkResult::Data(5)).unwrap(), ChunkOutcome::Data(5));
    assert_eq!(s.read(ChunkResult::EndOfData).unwrap(), ChunkOutcome::EndOfData);
    assert_eq!(s.current_state(), SessionState::Draining);
    // Whatever the transport would have said, the drained scan keeps
    // reporting end-of-data.
    assert_eq!(s.read(ChunkResult::Data(7)).unwrap(), ChunkOutcome::EndOfData);
    assert_eq!(s.read(ChunkResult::EndOfData).unwrap(), ChunkOutcome::EndOfData);
    assert_eq!(s.total_scan_bytes(), 5);
    // A new start is legal from the drained state.
    s.start(Ok(rgb_params())).unwrap();
    assert_eq!(s.current_state(), SessionState::Scanning);
    assert_eq!(s.total_scan_bytes(), 0);
}

#[test]
fn zero_length_read_does_not_end_the_loop() {
    let mut s = open_session();
    s.start(Ok(rgb_params())).unwrap();
    assert_eq!(s.read(ChunkResult::Data(0)).unwrap(), ChunkOutcome::Data(0));
    assert_eq!(s.current_state(), SessionState::Scanning);
    // The subsequent call is still eligible to return data or end-of-data.
    assert_eq!(s.read(ChunkResult::Data(3)).unwrap(), ChunkOutcome::Data(3));
    assert_eq!(s.read(ChunkResult::EndOfData).unwrap(), ChunkOutcome::EndOfData);
    assert_eq!(s.total_scan_bytes(), 3);
}

#[test]
fn transport_failure_is_terminal_for_the_session() {
    let mut s = open_session();
    s.start(Ok(rgb_params())).unwrap();
    assert_eq!(s.read(ChunkResult::Failure(ScanError::IOError)).unwrap_err(), ScanError::IOError);
    assert_eq!(s.current_state(), SessionState::Error);
    assert_eq!(s.read(ChunkResult::Data(4)).unwrap_err(), ScanError::NotOpen);
    assert_eq!(s.start(Ok(rgb_params())).unwrap_err(), ScanError::NotOpen);
}

#[test]
fn failure_kinds_pass_through_read() {
    let mut s = open_session();
    s.start(Ok(rgb_params())).unwrap();
    assert_eq!(
        s.read(ChunkResult::Failure(ScanError::Cancelled)).unwrap_err(),
        ScanError::Cancelled
    );
    let mut s = open_session();
    s.start(Ok(rgb_params())).unwrap();
    assert_eq!(s.read(ChunkResult::Failure(ScanError::NoMemory)).unwrap_err(), ScanError::NoMemory);
}

#[test]
fn cancel_returns_to_opened_and_never_fails() {
    let mut s = open_session();
    s.start(Ok(rgb_params())).unwrap();
    s.read(ChunkResult::Data(9)).unwrap();
    s.cancel();
    assert_eq!(s.current_state(), SessionState::Opened);
    assert_eq!(s.total_scan_bytes(), 0);
    // Cancel from the error state also winds back to a clean open state.
    s.start(Ok(rgb_params())).unwrap();
    let _ = s.read(ChunkResult::Failure(ScanError::IOError));
    s.cancel();
    assert_eq!(s.current_state(), SessionState::Opened);
    // Cancel before open is a harmless no-op.
    let mut fresh = Session::new();
    fresh.cancel();
    assert_eq!(fresh.current_state(), SessionState::Idle);
}

#[test]
fn close_is_idempotent_and_poisons_the_session() {
    let mut s = open_session();
    s.close();
    assert_eq!(s.current_state(), SessionState::Closed);
    s.close();
    assert_eq!(s.current_state(), SessionState::Closed);
    assert_eq!(s.open(Ok(small_catalog())).unwrap_err(), ScanError::Closed);
    assert_eq!(s.start(Ok(rgb_params())).unwrap_err(), ScanError::Closed);
    assert_eq!(s.read(ChunkResult::Data(1)).unwrap_err(), ScanError::Closed);
    assert_eq!(
        s.set_option(0, OptionValue::Int(1), ReloadSignal::none()).unwrap_err(),
        ScanError::Closed
    );
}

#[test]
fn set_option_is_illegal_mid_scan() {
    let mut s = open_session();
    s.start(Ok(rgb_params())).unwrap();
    let r = s.set_option(0, OptionValue::Int(300), ReloadSignal::none());
    assert_eq!(r.unwrap_err(), ScanError::NotReady);
    assert_eq!(s.current_state(), SessionState::Scanning);
}

#[test]
fn failed_parameter_query_absorbs_the_session() {
    let mut s = open_session();
    assert_eq!(s.get_parameters(Err(ScanError::IOError)).unwrap_err(), ScanError::IOError);
    assert_eq!(s.current_state(), SessionState::Error);
    assert_eq!(s.get_parameters(Ok(rgb_params())).unwrap_err(), ScanError::NotOpen);
}

#[test]
fn get_parameters_is_advisory_before_start() {
    let mut s = Session::new();
    assert_eq!(s.get_parameters(Ok(rgb_params())).unwrap_err(), ScanError::NotOpen);
    s.open(Ok(small_catalog())).unwrap();
    let p = s.get_parameters(Ok(rgb_params())).unwrap();
    assert_eq!(p, rgb_params());
    assert_eq!(s.current_state(), SessionState::ParametersKnown);
    // The authoritative parameters arrive with start and may differ.
    let mut authoritative = rgb_params();
    authoritative.bytes_per_line = 14;
    let p = s.start(Ok(authoritative)).unwrap();
    assert_eq!(p.bytes_per_line, 14);
    assert_eq!(s.parameters(), Some(authoritative));
}
