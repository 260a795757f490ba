//! The scan over all devices: one report line for each, in ascending order
//! of the index, until the first device whose handle cannot be had.

use crate::device::{dump_gpu_stat, is_report_line, query_device_by_index, query_device_count};
use nvml_wrapper::error::NvmlError;
use nvml_wrapper::Nvml;
use vstd::prelude::*;

verus! {

/// What a scan has produced: the lines of the devices that were reported, in
/// order, and the error that ended the scan, if one did.
pub struct ScanReport {
    pub lines: Vec<String>,
    pub failure: Option<NvmlError>,
}

/// A scan report as plain values.
pub struct ScanView {
    pub lines: Seq<Seq<char>>,
    pub failure: Option<NvmlError>,
}

impl ScanView {
    /// The report of a scan that has not met a device yet.
    pub open spec fn start() -> ScanView {
        ScanView { lines: Seq::empty(), failure: None }
    }

    /// The report after one more outcome. A line joins the lines; an error
    /// ends the scan; after an error nothing changes any more.
    pub open spec fn recorded(self, outcome: Result<Seq<char>, NvmlError>) -> ScanView {
        if self.failure is Some {
            self
        } else {
            match outcome {
                Ok(line) => ScanView { lines: self.lines.push(line), failure: None },
                Err(e) => ScanView { lines: self.lines, failure: Some(e) },
            }
        }
    }

    /// The index that a scan over `count` devices asks for next: that of
    /// the first device without a line, as long as no error ended the scan
    /// and not every device has its line.
    pub open spec fn next_index(self, count: u32) -> Option<u32> {
        if self.failure is None && self.lines.len() < count {
            Some(self.lines.len() as u32)
        } else {
            None
        }
    }

    /// The report of a scan that met `outcomes`, one after the other.
    pub open spec fn of(outcomes: Seq<Result<Seq<char>, NvmlError>>) -> ScanView
        decreases outcomes.len(),
    {
        if outcomes.len() == 0 {
            ScanView::start()
        } else {
            ScanView::of(outcomes.drop_last()).recorded(outcomes.last())
        }
    }
}

/// An outcome with its line as plain characters.
pub open spec fn outcome_view(outcome: Result<String, NvmlError>) -> Result<Seq<char>, NvmlError> {
    match outcome {
        Ok(line) => Ok(line@),
        Err(e) => Err(e),
    }
}

impl View for ScanReport {
    type V = ScanView;

    open spec fn view(&self) -> ScanView {
        ScanView {
            lines: Seq::new(self.lines@.len(), |i: int| self.lines@[i]@),
            failure: self.failure,
        }
    }
}

impl ScanReport {
    /// A report with no line and no error.
    pub fn new() -> (report: ScanReport)
        ensures
            report@ == ScanView::start(),
    {
        let report = ScanReport { lines: Vec::new(), failure: None };
        assert(report@.lines =~= Seq::empty());
        report
    }

    /// Whether the scan came to its end without an error.
    pub fn succeeded(&self) -> (ok: bool)
        ensures
            ok == (self@.failure is None),
    {
        self.failure.is_none()
    }

    /// Takes the outcome of one device into the report and says whether the
    /// scan goes on: it does after a line, and it does not after an error or
    /// once an error was recorded.
    pub fn record(&mut self, outcome: Result<String, NvmlError>) -> (goes_on: bool)
        ensures
            final(self)@ == old(self)@.recorded(outcome_view(outcome)),
            goes_on == (final(self)@.failure is None),
    {
        if self.failure.is_some() {
            return false;
        }
        match outcome {
            Ok(line) => {
                self.lines.push(line);
                assert(final(self)@.lines =~= old(self)@.lines.push(line@));
                true
            },
            Err(e) => {
                self.failure = Some(e);
                assert(final(self)@.lines =~= old(self)@.lines);
                false
            },
        }
    }
}

/// A scan that meets no device gives no line and no error.
pub proof fn lemma_scan_of_nothing()
    ensures
        ScanView::of(Seq::empty()) == ScanView::start(),
        ScanView::of(Seq::empty()).lines.len() == 0,
        ScanView::of(Seq::empty()).failure is None,
{
}

/// A scan in which every device gave a line holds those lines, in order, and
/// no error.
pub proof fn lemma_scan_of_lines(outcomes: Seq<Result<Seq<char>, NvmlError>>)
    requires
        forall|j: int| 0 <= j < outcomes.len() ==> outcomes[j] is Ok,
    ensures
        ScanView::of(outcomes).failure is None,
        ScanView::of(outcomes).lines.len() == outcomes.len(),
        forall|j: int|
            0 <= j < outcomes.len() ==> ScanView::of(outcomes).lines[j] == outcomes[j]->Ok_0,
    decreases outcomes.len(),
{
    if outcomes.len() > 0 {
        lemma_scan_of_lines(outcomes.drop_last());
    }
}

/// A scan stops at the first device that fails: where the outcome at `k` is
/// the first error, the report holds the lines of the `k` devices before it,
/// in order, and that error, whatever the outcomes after it are.
pub proof fn lemma_scan_stops_at_first_failure(
    outcomes: Seq<Result<Seq<char>, NvmlError>>,
    k: int,
)
    requires
        0 <= k < outcomes.len(),
        outcomes[k] is Err,
        forall|j: int| 0 <= j < k ==> outcomes[j] is Ok,
    ensures
        ScanView::of(outcomes).failure == Some(outcomes[k]->Err_0),
        ScanView::of(outcomes).lines.len() == k,
        forall|j: int| 0 <= j < k ==> ScanView::of(outcomes).lines[j] == outcomes[j]->Ok_0,
    decreases outcomes.len(),
{
    if outcomes.len() - 1 == k {
        lemma_scan_of_lines(outcomes.drop_last());
    } else {
        lemma_scan_stops_at_first_failure(outcomes.drop_last(), k);
    }
}

/// Whether a run of outcomes is one that a scan can meet: after an error the
/// scan asks for no further device, so only the last outcome can be one.
pub open spec fn ends_at_first_failure(outcomes: Seq<Result<Seq<char>, NvmlError>>) -> bool {
    forall|j: int| 0 <= j < outcomes.len() - 1 ==> (#[trigger] outcomes[j]) is Ok
}

/// The index of the device whose handle the scan asks for next, or `None`
/// where the scan is over: the indices run from zero upwards, one for each
/// line that the report holds already, and end before `count` or at the
/// first error.
pub fn next_index(report: &ScanReport, count: u32) -> (next: Option<u32>)
    ensures
        next == report@.next_index(count),
{
    if report.failure.is_some() {
        return None;
    }
    let done: usize = report.lines.len();
    if done < count as usize {
        Some(done as u32)
    } else {
        None
    }
}

/// Scans the devices with the indices below `count`, in ascending order. The
/// scan ends at the first index whose handle the driver refuses: the lines of
/// the devices before it stay in the report, with the driver's error.
/// Without such an error the report holds one line for each index, and for no
/// index at all it is the empty report. Each line is the report line of what
/// was read from its device.
pub fn scan_devices(nvml: &Nvml, count: u32) -> (report: ScanReport)
    ensures
        count == 0 ==> report@ == ScanView::start(),
        report@.failure is None ==> report@.lines.len() == count,
        report@.failure is Some ==> report@.lines.len() < count,
        forall|j: int| 0 <= j < report@.lines.len() ==> is_report_line(#[trigger] report@.lines[j]),
        exists|outcomes: Seq<Result<Seq<char>, NvmlError>>|
            outcomes.len() <= count && report@ == #[trigger] ScanView::of(outcomes)
                && ends_at_first_failure(outcomes),
{
    let mut report = ScanReport::new();
    let ghost mut outcomes: Seq<Result<Seq<char>, NvmlError>> = Seq::empty();
    let mut next = next_index(&report, count);
    while next.is_some()
        invariant
            next == report@.next_index(count),
            outcomes.len() <= count,
            report@.failure is None ==> outcomes.len() == report@.lines.len(),
            report@ == ScanView::of(outcomes),
            ends_at_first_failure(outcomes),
            report@.failure is None ==> forall|j: int|
                0 <= j < outcomes.len() ==> (#[trigger] outcomes[j]) is Ok,
            report@.failure is None ==> report@.lines.len() <= count,
            report@.failure is Some ==> report@.lines.len() < count,
            count == 0 ==> report@ == ScanView::start(),
            forall|j: int|
                0 <= j < report@.lines.len() ==> is_report_line(#[trigger] report@.lines[j]),
        decreases
                (if report@.failure is None {
                    count - report@.lines.len() + 1
                } else {
                    0
                }),
    {
        let index: u32 = next.unwrap();
        let outcome = match query_device_by_index(nvml, index) {
            Ok(device) => Ok(dump_gpu_stat(device)),
            Err(e) => Err(e),
        };
        proof {
            let met = outcomes.push(outcome_view(outcome));
            assert(met.drop_last() =~= outcomes);
            outcomes = met;
        }
        report.record(outcome);
        next = next_index(&report, count);
    }
    report
}

/// The scan, given what the driver answered when it was asked for the number
/// of devices. Where it gave no number, the report holds no line and the
/// driver's error, and no device is asked for. Where it gave one, the devices
/// below it are scanned as `scan_devices` does.
pub fn scan_counted(nvml: &Nvml, counted: Result<u32, NvmlError>) -> (report: ScanReport)
    ensures
        counted is Err ==> report@ == (ScanView {
            lines: Seq::empty(),
            failure: Some(counted->Err_0),
        }),
        counted is Ok && counted->Ok_0 == 0 ==> report@ == ScanView::start(),
        counted is Ok && report@.failure is None ==> report@.lines.len() == counted->Ok_0,
        counted is Ok && report@.failure is Some ==> report@.lines.len() < counted->Ok_0,
        forall|j: int| 0 <= j < report@.lines.len() ==> is_report_line(#[trigger] report@.lines[j]),
        counted is Err ==> report@ == ScanView::of(seq![Err(counted->Err_0)]),
        counted is Ok ==> exists|outcomes: Seq<Result<Seq<char>, NvmlError>>|
            outcomes.len() <= counted->Ok_0 && report@ == #[trigger] ScanView::of(outcomes)
                && ends_at_first_failure(outcomes),
{
    match counted {
        Ok(count) => scan_devices(nvml, count),
        Err(e) => {
            let mut report = ScanReport::new();
            report.record(Err(e));
            proof {
                let met: Seq<Result<Seq<char>, NvmlError>> = seq![Err(e)];
                assert(met.drop_last() =~= Seq::empty());
                assert(ScanView::of(met.drop_last()) == ScanView::start());
                assert(report@ == ScanView::of(met));
            }
            report
        },
    }
}

/// Asks the driver for the number of devices and scans them all, as
/// `scan_counted` does with the driver's answer. The caller may print the
/// lines, one for each device.
pub fn dump_all_gpu_stats(nvml: &Nvml) -> (report: ScanReport)
    ensures
        forall|j: int| 0 <= j < report@.lines.len() ==> is_report_line(#[trigger] report@.lines[j]),
        exists|outcomes: Seq<Result<Seq<char>, NvmlError>>|
            report@ == #[trigger] ScanView::of(outcomes) && ends_at_first_failure(outcomes),
{
    scan_counted(nvml, query_device_count(nvml))
}

} // verus!
