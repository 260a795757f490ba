use gpu_temp::scan::ScanReport;
use nvml_wrapper::error::NvmlError;

#[test]
fn scan_of_no_device_has_no_line_and_no_error() {
    let report = ScanReport::new();
    assert_eq!(report.lines.len(), 0);
    assert!(report.failure.is_none());
    assert!(report.succeeded());
}

#[test]
fn lines_are_kept_in_order() {
    let mut report = ScanReport::new();
    assert!(report.record(Ok(String::from("first"))));
    assert!(report.record(Ok(String::from("second"))));
    assert!(report.record(Ok(String::from("third"))));
    assert_eq!(report.lines, vec!["first", "second", "third"]);
    assert!(report.succeeded());
}

#[test]
fn scan_stops_at_the_device_that_fails() {
    let mut report = ScanReport::new();
    assert!(report.record(Ok(String::from("device 0"))));
    assert!(!report.record(Err(NvmlError::GpuLost)));
    assert!(!report.record(Ok(String::from("device 2"))));
    assert_eq!(report.lines, vec!["device 0"]);
    assert!(matches!(report.failure, Some(NvmlError::GpuLost)));
    assert!(!report.succeeded());
}

#[test]
fn first_error_is_the_one_that_is_kept() {
    let mut report = ScanReport::new();
    assert!(!report.record(Err(NvmlError::DriverNotLoaded)));
    assert!(!report.record(Err(NvmlError::NoPermission)));
    assert_eq!(report.lines.len(), 0);
    assert!(matches!(report.failure, Some(NvmlError::DriverNotLoaded)));
}

#[test]
fn scan_of_this_machine_is_whole_or_ends_with_an_error() {
    if let Ok(nvml) = nvml_wrapper::Nvml::init() {
        let report = gpu_temp::scan::dump_all_gpu_stats(&nvml);
        if let Ok(count) = nvml.device_count() {
            if report.succeeded() {
                assert_eq!(report.lines.len(), count as usize);
            } else {
                assert!(report.lines.len() < count as usize);
            }
        }
        for line in report.lines.iter() {
            assert!(!line.is_empty());
        }
    }
}

#[test]
fn indices_run_upwards_from_zero() {
    let mut report = ScanReport::new();
    assert_eq!(gpu_temp::scan::next_index(&report, 3), Some(0));
    report.record(Ok(String::from("device 0")));
    assert_eq!(gpu_temp::scan::next_index(&report, 3), Some(1));
    report.record(Ok(String::from("device 1")));
    assert_eq!(gpu_temp::scan::next_index(&report, 3), Some(2));
    report.record(Ok(String::from("device 2")));
    assert_eq!(gpu_temp::scan::next_index(&report, 3), None);
}

#[test]
fn no_index_for_no_device() {
    let report = ScanReport::new();
    assert_eq!(gpu_temp::scan::next_index(&report, 0), None);
}

#[test]
fn no_index_after_an_error() {
    let mut report = ScanReport::new();
    report.record(Ok(String::from("device 0")));
    report.record(Err(NvmlError::InvalidArg));
    assert_eq!(gpu_temp::scan::next_index(&report, 3), None);
    assert_eq!(gpu_temp::scan::next_index(&report, u32::MAX), None);
}

#[test]
fn largest_count_still_gives_the_next_index() {
    let mut report = ScanReport::new();
    report.record(Ok(String::from("device 0")));
    assert_eq!(gpu_temp::scan::next_index(&report, u32::MAX), Some(1));
}

#[test]
fn failed_count_gives_the_error_and_no_line() {
    if let Ok(nvml) = nvml_wrapper::Nvml::init() {
        let report = gpu_temp::scan::scan_counted(&nvml, Err(NvmlError::DriverNotLoaded));
        assert_eq!(report.lines.len(), 0);
        assert!(matches!(report.failure, Some(NvmlError::DriverNotLoaded)));
        let none = gpu_temp::scan::scan_counted(&nvml, Ok(0));
        assert_eq!(none.lines.len(), 0);
        assert!(none.succeeded());
    }
}
