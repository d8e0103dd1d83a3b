use std::sync::Arc;
use std::sync::atomic::{AtomicUsize, Ordering};

use aftermath::callbacks::{DEFAULT_APPLICATION_NAME, DEFAULT_APPLICATION_VERSION};
use aftermath::description::{
    DESCRIPTION_KEY_APPLICATION_NAME, DESCRIPTION_KEY_APPLICATION_VERSION,
    DESCRIPTION_KEY_CUSTOM_BASE,
};
use aftermath::handle::{trampoline_drop, trampoline_dumped, AftermathCallbackFunctions};
use aftermath::status::status_from_raw;
use aftermath::status::status_to_raw;
use aftermath::{
    Aftermath, AftermathCallbacks, DefaultAftermathCallbacks, DescriptionBuilder, OutputKind,
    ScriptedStatusSource, Status,
};

/// A bundle that counts what reaches it, and how often it is released.
struct CountingCallbacks {
    dumped: usize,
    shader_debug_info: usize,
    descriptions: usize,
    releases: Arc<AtomicUsize>,
}

impl CountingCallbacks {
    fn new(releases: Arc<AtomicUsize>) -> Self {
        CountingCallbacks { dumped: 0, shader_debug_info: 0, descriptions: 0, releases }
    }
}

impl AftermathCallbacks for CountingCallbacks {
    fn dumped(&mut self, _dump_data: &Vec<u8>) {
        self.dumped += 1;
    }

    fn shader_debug_info(&mut self, _data: &Vec<u8>) {
        self.shader_debug_info += 1;
    }

    fn description(&mut self, _describe: &mut DescriptionBuilder) {
        self.descriptions += 1;
    }
}

impl Drop for CountingCallbacks {
    fn drop(&mut self) {
        self.releases.fetch_add(1, Ordering::SeqCst);
    }
}

#[test]
fn test_usage() {
    let aftermath = Aftermath::new(DefaultAftermathCallbacks::new());
    drop(aftermath);
}

#[test]
fn test_status_from_raw_known_range() {
    assert_eq!(status_from_raw(0), Status::NotStarted);
    assert_eq!(status_from_raw(1), Status::CollectingData);
    assert_eq!(status_from_raw(2), Status::CollectingDataFailed);
    assert_eq!(status_from_raw(3), Status::InvokingCallback);
    assert_eq!(status_from_raw(4), Status::Finished);
}

#[test]
fn test_status_from_raw_out_of_range_is_unknown() {
    assert_eq!(status_from_raw(5), Status::Unknown);
    assert_eq!(status_from_raw(6), Status::Unknown);
    assert_eq!(status_from_raw(255), Status::Unknown);
    assert_eq!(status_from_raw(u32::MAX), Status::Unknown);
}

#[test]
fn test_status_raw_round_trip() {
    for raw in 0u32..=4u32 {
        assert_eq!(status_to_raw(&status_from_raw(raw)), raw);
    }
}

#[test]
fn test_teardown_releases_exactly_once() {
    let releases = Arc::new(AtomicUsize::new(0));
    let handle = Aftermath::new(CountingCallbacks::new(releases.clone()));
    let bundle = handle.teardown();
    assert_eq!(releases.load(Ordering::SeqCst), 0);
    drop(bundle);
    assert_eq!(releases.load(Ordering::SeqCst), 1);
}

#[test]
fn test_teardown_invokes_no_event_operation() {
    let releases = Arc::new(AtomicUsize::new(0));
    let mut handle = Aftermath::new(CountingCallbacks::new(releases.clone()));
    handle.dispatch_dumped(&vec![1u8, 2, 3]);
    handle.dispatch_shader_debug_info(&vec![4u8]);
    let mut builder = DescriptionBuilder::new();
    handle.dispatch_description(&mut builder);
    let bundle = handle.teardown();
    assert_eq!(bundle.dumped, 1);
    assert_eq!(bundle.shader_debug_info, 1);
    assert_eq!(bundle.descriptions, 1);
    drop(bundle);
    assert_eq!(releases.load(Ordering::SeqCst), 1);
}

#[test]
fn test_trampolines_keep_the_bundle() {
    let releases = Arc::new(AtomicUsize::new(0));
    let mut functions = AftermathCallbackFunctions::new(CountingCallbacks::new(releases.clone()));
    trampoline_dumped(&mut functions, &vec![9u8]);
    trampoline_dumped(&mut functions, &vec![9u8]);
    assert_eq!(releases.load(Ordering::SeqCst), 0);
    let bundle = trampoline_drop(&mut functions);
    assert_eq!(bundle.dumped, 2);
}

#[test]
fn test_wait_with_zero_timeout_returns_first_observation() {
    let mut source = ScriptedStatusSource::new(vec![3u32, 0, 0]);
    let status = Status::wait_for_status(&mut source, Some(0));
    assert_eq!(status, Status::InvokingCallback);
    // exactly one poll happened: the wait returned without resting
    assert_eq!(source.remaining_len(), 2);
}

#[test]
fn test_wait_without_timeout_runs_to_finished() {
    let mut source = ScriptedStatusSource::new(vec![0u32, 1, 1, 3, 4]);
    let status = Status::wait_for_status(&mut source, None);
    assert_eq!(status, Status::Finished);
    assert_eq!(source.remaining_len(), 0);
}

#[test]
fn test_wait_without_timeout_stops_at_failure() {
    let mut source = ScriptedStatusSource::new(vec![1u32, 2, 4]);
    let status = Status::wait_for_status(&mut source, None);
    assert_eq!(status, Status::CollectingDataFailed);
    // the poll after the failure never happens
    assert_eq!(source.remaining_len(), 1);
}

#[test]
fn test_wait_timeout_returns_last_observed_status() {
    let mut source = ScriptedStatusSource::new(vec![0u32, 0, 0, 0, 0]);
    let status = Status::wait_for_status(&mut source, Some(100));
    // polls at 0ms, 50ms and 100ms of simulated time, then the timeout ends the wait
    assert_eq!(status, Status::NotStarted);
    assert_eq!(source.remaining_len(), 2);
}

#[test]
fn test_wait_on_exhausted_source_reports_finished() {
    let mut source = ScriptedStatusSource::new(Vec::new());
    let status = Status::wait_for_status(&mut source, None);
    assert_eq!(status, Status::Finished);
}

#[test]
fn test_default_bundle_keeps_dump_bytes_exactly() {
    let mut bundle = DefaultAftermathCallbacks::new();
    bundle.dumped(&vec![0xDEu8, 0xAD, 0xBE, 0xEF]);
    let pending = bundle.take_pending();
    assert_eq!(pending.len(), 1);
    assert_eq!(pending[0].call_num, 0);
    assert_eq!(pending[0].kind, OutputKind::CrashDump);
    assert_eq!(pending[0].contents, vec![0xDEu8, 0xAD, 0xBE, 0xEF]);
}

#[test]
fn test_default_bundle_numbers_records_strictly_increasing() {
    let mut bundle = DefaultAftermathCallbacks::new();
    bundle.dumped(&vec![1u8]);
    bundle.shader_debug_info(&vec![2u8]);
    bundle.dumped(&vec![3u8]);
    let pending = bundle.take_pending();
    assert_eq!(pending.len(), 3);
    assert_eq!(pending[0].call_num, 0);
    assert_eq!(pending[1].call_num, 1);
    assert_eq!(pending[2].call_num, 2);
    assert_eq!(pending[1].kind, OutputKind::ShaderDebugInfo);
    // the counter survives a drain, so later records keep fresh numbers
    bundle.dumped(&vec![4u8]);
    let later = bundle.take_pending();
    assert_eq!(later[0].call_num, 3);
}

#[test]
fn test_select_dump_dir_index_takes_first_vacant_for_a_new_run() {
    // no directory exists yet: the run starts at index zero
    assert_eq!(aftermath::select_dump_dir_index(0, &vec![false]), 0);
    // two runs already on disk: a new run's first output opens index two
    assert_eq!(aftermath::select_dump_dir_index(0, &vec![true, true, false]), 2);
}

#[test]
fn test_select_dump_dir_index_reuses_run_directory_for_later_outputs() {
    // a later output of the same run stays in the directory before the vacancy
    assert_eq!(aftermath::select_dump_dir_index(1, &vec![true, true, false]), 1);
    assert_eq!(aftermath::select_dump_dir_index(7, &vec![true, false]), 0);
    // when even index zero is vacant, every output uses it
    assert_eq!(aftermath::select_dump_dir_index(5, &vec![false]), 0);
}

#[test]
fn test_description_pair_recorded_in_order_and_exactly() {
    let mut builder = DescriptionBuilder::new();
    builder.set_application_name("MyApp");
    builder.set_application_version("1.2.3");
    let entries = builder.entries();
    assert_eq!(entries.len(), 2);
    assert_eq!(entries[0].key, DESCRIPTION_KEY_APPLICATION_NAME);
    assert_eq!(entries[0].value, "MyApp");
    assert_eq!(entries[1].key, DESCRIPTION_KEY_APPLICATION_VERSION);
    assert_eq!(entries[1].value, "1.2.3");
}

#[test]
fn test_custom_description_field_key_is_base_plus_index() {
    let mut builder = DescriptionBuilder::new();
    builder.set(5, "custom");
    builder.set(0, "first");
    let entries = builder.entries();
    assert_eq!(entries[0].key, DESCRIPTION_KEY_CUSTOM_BASE + 5);
    assert_eq!(entries[0].key, 0x10005);
    assert_eq!(entries[0].value, "custom");
    assert_eq!(entries[1].key, 0x10000);
}

#[test]
fn test_default_bundle_describes_itself() {
    let mut bundle = DefaultAftermathCallbacks::new();
    let mut builder = DescriptionBuilder::new();
    bundle.description(&mut builder);
    let entries = builder.entries();
    assert_eq!(entries.len(), 2);
    assert_eq!(entries[0].key, DESCRIPTION_KEY_APPLICATION_NAME);
    assert_eq!(entries[0].value, DEFAULT_APPLICATION_NAME);
    assert_eq!(entries[1].key, DESCRIPTION_KEY_APPLICATION_VERSION);
    assert_eq!(entries[1].value, DEFAULT_APPLICATION_VERSION);
}

#[test]
fn test_default_handle_carries_a_fresh_bundle() {
    let handle: Aftermath<DefaultAftermathCallbacks> = Aftermath::default();
    let bundle = handle.teardown();
    assert_eq!(bundle.call_num, 0);
    assert!(bundle.pending.is_empty());
}
