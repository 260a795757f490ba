use gpu_temp::mig::{is_mig_partition, mig_check_applies, push_mig_suffix};
use gpu_temp::snapshot::{sample_tick, GpuTempApp, SharedSnapshot, SnapshotLock, TempStats};

#[test]
fn snapshot_reads_zero_before_any_write() {
    let snapshot = SharedSnapshot::new();
    assert_eq!(snapshot.read(), TempStats { gpu: 0, cpu: 0 });
}

#[test]
fn write_replaces_the_whole_sample() {
    let mut snapshot = SharedSnapshot::new();
    snapshot.write(TempStats { gpu: 61, cpu: 48 });
    assert_eq!(snapshot.read(), TempStats { gpu: 61, cpu: 48 });
    snapshot.write(TempStats { gpu: 0, cpu: 99 });
    assert_eq!(snapshot.read(), TempStats { gpu: 0, cpu: 99 });
    assert_eq!(snapshot.read(), TempStats { gpu: 0, cpu: 99 });
}

#[test]
fn locked_snapshot_reads_zero_before_any_write() {
    let shared = SnapshotLock::new();
    assert_eq!(shared.read_snapshot(), TempStats { gpu: 0, cpu: 0 });
    assert!(!shared.publish(None, Some(50)));
    assert_eq!(shared.read_snapshot(), TempStats { gpu: 0, cpu: 0 });
}

#[test]
fn reads_through_the_lock_see_whole_samples() {
    let shared = SnapshotLock::new();
    for k in 0u32..200 {
        assert!(shared.publish(Some(k + 1000), Some(k)));
        for _ in 0..3 {
            let seen = shared.read_snapshot();
            assert_eq!(seen.cpu, seen.gpu + 1000);
            assert_eq!(seen.gpu, k);
        }
        assert!(!shared.publish(Some(7), None));
        assert_eq!(shared.read_snapshot(), TempStats { gpu: k, cpu: k + 1000 });
    }
}

#[test]
fn tick_publishes_when_both_readings_succeed() {
    let mut snapshot = SharedSnapshot::new();
    assert!(sample_tick(&mut snapshot, Some(40), Some(55)));
    assert_eq!(snapshot.read(), TempStats { gpu: 55, cpu: 40 });
}

#[test]
fn tick_keeps_the_last_sample_when_a_reading_fails() {
    let mut snapshot = SharedSnapshot::new();
    assert!(sample_tick(&mut snapshot, Some(40), Some(55)));
    assert!(!sample_tick(&mut snapshot, None, Some(70)));
    assert_eq!(snapshot.read(), TempStats { gpu: 55, cpu: 40 });
    assert!(!sample_tick(&mut snapshot, Some(41), None));
    assert_eq!(snapshot.read(), TempStats { gpu: 55, cpu: 40 });
    assert!(!sample_tick(&mut snapshot, None, None));
    assert_eq!(snapshot.read(), TempStats { gpu: 55, cpu: 40 });
    assert!(sample_tick(&mut snapshot, Some(42), Some(56)));
    assert_eq!(snapshot.read(), TempStats { gpu: 56, cpu: 42 });
}

#[test]
fn labels_show_title_and_degrees() {
    let app = GpuTempApp;
    assert_eq!(app.temperature_label("GPU", 67), "GPU Temperature: 67°C");
    assert_eq!(app.temperature_label("CPU", 0), "CPU Temperature: 0°C");
}

#[test]
fn partitions_are_asked_about_from_version_eleven() {
    assert!(mig_check_applies(11000));
    assert!(mig_check_applies(12020));
    assert!(!mig_check_applies(10999));
    assert!(!mig_check_applies(0));
    assert!(!mig_check_applies(-12000));
    assert!(mig_check_applies(i32::MAX));
    assert!(!mig_check_applies(i32::MIN));
}

#[test]
fn partition_needs_a_successful_query_and_the_flag() {
    assert!(is_mig_partition(true, 1));
    assert!(!is_mig_partition(true, 0));
    assert!(!is_mig_partition(true, 2));
    assert!(!is_mig_partition(false, 1));
}

#[test]
fn partition_count_is_appended() {
    let mut line = String::from("[0]: A100 | ");
    push_mig_suffix(&mut line, 7);
    assert_eq!(line, "[0]: A100 |  | max MiG count: 7");
}

fn line_after_probe(probe: Option<gpu_temp::mig::MigProbe>) -> String {
    let mut line = String::from("[0]: A100 | ");
    gpu_temp::mig::push_mig_report(&mut line, probe);
    line
}

#[test]
fn probe_that_could_not_be_made_leaves_the_line() {
    assert_eq!(line_after_probe(None), "[0]: A100 | ");
}

#[test]
fn partitioned_device_on_a_new_driver_shows_the_count() {
    let probe = gpu_temp::mig::MigProbe {
        cuda_driver_version: 11040,
        query_succeeded: true,
        flag: 1,
        max_mig_device_count: 7,
    };
    assert_eq!(line_after_probe(Some(probe)), "[0]: A100 |  | max MiG count: 7");
}

#[test]
fn probe_without_a_partition_leaves_the_line() {
    let probe = gpu_temp::mig::MigProbe {
        cuda_driver_version: 11040,
        query_succeeded: true,
        flag: 1,
        max_mig_device_count: 7,
    };
    let old_driver = gpu_temp::mig::MigProbe { cuda_driver_version: 10020, ..probe };
    assert_eq!(line_after_probe(Some(old_driver)), "[0]: A100 | ");
    let failed_query = gpu_temp::mig::MigProbe { query_succeeded: false, ..probe };
    assert_eq!(line_after_probe(Some(failed_query)), "[0]: A100 | ");
    let no_flag = gpu_temp::mig::MigProbe { flag: 0, ..probe };
    assert_eq!(line_after_probe(Some(no_flag)), "[0]: A100 | ");
}

#[test]
fn each_temperature_stands_under_its_own_title() {
    let app = GpuTempApp;
    let (gpu, cpu) = app.labels(TempStats { gpu: 67, cpu: 41 });
    assert_eq!(gpu, "GPU Temperature: 67°C");
    assert_eq!(cpu, "CPU Temperature: 41°C");
}
