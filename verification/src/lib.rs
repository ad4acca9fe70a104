//! Client-side control logic for an imaging device: a typed, constrained
//! option catalog, the open/configure/scan/read session state machine, the
//! three-way chunked-read protocol, and a minimal raster container writer.
mod catalog;
mod errors;
mod params;
mod pump;
mod session;
mod sink;
mod value;

pub use catalog::Capabilities;
pub use catalog::Constraint;
pub use catalog::OptionCatalog;
pub use catalog::OptionDescriptor;
pub use catalog::Unit;
pub use errors::ScanError;
pub use params::FrameFormat;
pub use params::ScanParameters;
pub use params::channels_spec;
pub use pump::ChunkEvent;
pub use pump::PumpReport;
pub use pump::PumpStatus;
pub use pump::data_concat;
pub use pump::data_total;
pub use pump::lemma_data_total_nonneg;
pub use pump::lemma_kept_bytes_concat;
pub use pump::RunOutput;
pub use pump::pump;
pub use pump::run_scan;
pub use pump::status_state;
pub use pump::stream_status;
pub use session::ApplyOutcome;
pub use session::ChunkOutcome;
pub use session::ChunkResult;
pub use session::OptionRequest;
pub use session::ReloadSignal;
pub use session::Session;
pub use session::SessionState;
pub use session::SessionView;
pub use session::catalog_find;
pub use session::catalog_find_from;
pub use session::catalog_seq_has;
pub use session::catalog_seq_wf;
pub use session::gate_error;
pub use session::initial_view;
pub use session::lemma_absent_option_noop;
pub use session::lemma_absent_option_run_unchanged;
pub use session::lemma_apply_all_concat;
pub use session::lemma_catalog_find;
pub use session::lemma_catalog_find_from;
pub use session::lemma_end_of_data_idempotent;
pub use session::lemma_present_tag_mismatch_rejected;
pub use session::lemma_read_before_start_fails;
pub use session::lemma_start_before_open_fails;
pub use session::lemma_type_mismatch_rejected;
pub use session::lemma_zero_length_read_not_terminal;
pub use session::spec_apply;
pub use session::spec_apply_all;
pub use session::spec_cancel;
pub use session::spec_close;
pub use session::spec_get_parameters;
pub use session::spec_open;
pub use session::spec_read;
pub use session::spec_set;
pub use session::spec_start;
pub use sink::ImageSink;
pub use sink::advance_pos;
pub use sink::decimal_digits;
pub use sink::header_bytes;
pub use sink::kept_bytes;
pub use sink::max_sample_spec;
pub use sink::next_pos;
pub use value::OptionValue;
pub use value::ValueKind;
