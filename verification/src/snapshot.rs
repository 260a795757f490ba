//! The latest pair of temperatures, published by the sampling loop and read
//! by the display.

use crate::text::{decimal, push_decimal};
use parking_lot::lock_api;
use parking_lot::{Mutex, RawMutex};
use vstd::prelude::*;
use vstd::string::*;

verus! {

/// One sample: the temperature of the GPU and of the CPU, in whole degrees
/// Celsius.
#[derive(Debug, Copy, Clone, PartialEq, Eq, Structural)]
pub struct TempStats {
    pub gpu: u32,
    pub cpu: u32,
}

/// The holder of the latest sample. It keeps no history, and a write replaces
/// the whole sample. Writing takes the holder exclusively, so no reader sees
/// a sample of which only one half was written; `SnapshotLock` shares one
/// holder between threads.
#[derive(Clone, Copy)]
pub struct SharedSnapshot {
    stats: TempStats,
}

impl View for SharedSnapshot {
    type V = TempStats;

    closed spec fn view(&self) -> TempStats {
        self.stats
    }
}

impl SharedSnapshot {
    /// The holder before any write: both temperatures are zero.
    pub fn new() -> (snapshot: SharedSnapshot)
        ensures
            snapshot@ == (TempStats { gpu: 0, cpu: 0 }),
    {
        SharedSnapshot { stats: TempStats { gpu: 0, cpu: 0 } }
    }

    /// A copy of the sample that was written last.
    pub fn read(&self) -> (stats: TempStats)
        ensures
            stats == self@,
    {
        self.stats
    }

    /// Replaces the sample as a whole.
    pub fn write(&mut self, stats: TempStats)
        ensures
            final(self)@ == stats,
    {
        self.stats = stats;
    }
}

/// The sample that a tick publishes: both readings together, or none where
/// either of them failed.
pub open spec fn tick_sample(cpu: Option<u32>, gpu: Option<u32>) -> Option<TempStats> {
    match (cpu, gpu) {
        (Some(c), Some(g)) => Some(TempStats { gpu: g, cpu: c }),
        _ => None,
    }
}

/// One tick of the sampling loop, after the two sensors were read. Where both
/// readings succeeded, the snapshot is overwritten with them and the result is
/// `true`. Where either failed, the snapshot keeps the sample of the last
/// tick on which both succeeded and the result is `false`; what becomes of
/// the loop then is the caller's decision.
pub fn sample_tick(snapshot: &mut SharedSnapshot, cpu: Option<u32>, gpu: Option<u32>) -> (published:
    bool)
    ensures
        published == (tick_sample(cpu, gpu) is Some),
        published ==> final(snapshot)@ == tick_sample(cpu, gpu)->Some_0,
        !published ==> final(snapshot)@ == old(snapshot)@,
{
    match (cpu, gpu) {
        (Some(c), Some(g)) => {
            snapshot.write(TempStats { gpu: g, cpu: c });
            true
        },
        _ => false,
    }
}

/// `RawMutex` of parking_lot: the lock without its data, carried through
/// unopened.
#[verifier::external_type_specification]
#[verifier::external_body]
pub struct ExRawMutex(RawMutex);

/// The mutex of parking_lot, by the generic type that it is an alias of,
/// carried through unopened.
#[verifier::external_type_specification]
#[verifier::external_body]
#[verifier::reject_recursive_types(R)]
#[verifier::reject_recursive_types(T)]
pub struct ExMutex<R, T: ?Sized>(lock_api::Mutex<R, T>);

/// `Mutex::new` of parking_lot: a lock around `holder`.
#[verifier::external_body]
fn lock_around(holder: SharedSnapshot) -> (cell: Mutex<SharedSnapshot>) {
    Mutex::new(holder)
}

/// `Mutex::lock` of parking_lot, held while the holder is copied out. The
/// copy is what the thread that had the lock last left behind it; which
/// thread that was is not stated.
#[verifier::external_body]
fn load(cell: &Mutex<SharedSnapshot>) -> (holder: SharedSnapshot) {
    *cell.lock()
}

/// `Mutex::lock` of parking_lot, held while `holder` is copied in.
#[verifier::external_body]
fn store(cell: &Mutex<SharedSnapshot>, holder: SharedSnapshot) {
    *cell.lock() = holder;
}

/// A snapshot behind a lock, for one sampling thread that writes and any
/// number of threads that read. The lock is held only while a sample is
/// copied in or out, and a sample goes in or out as a whole.
pub struct SnapshotLock {
    cell: Mutex<SharedSnapshot>,
}

impl SnapshotLock {
    /// A lock around a snapshot on which nothing was written yet.
    pub fn new() -> (lock: SnapshotLock) {
        SnapshotLock { cell: lock_around(SharedSnapshot::new()) }
    }

    /// A copy of the sample that some thread published last, or of the
    /// initial one. Which write was the last is decided by the threads'
    /// timing, so nothing is stated of the sample.
    pub fn read_snapshot(&self) -> (stats: TempStats) {
        load(&self.cell).read()
    }

    /// One tick of the sampling loop on the shared snapshot: publishes the
    /// sample where both readings succeeded, leaves the snapshot alone where
    /// one failed, and says which it was.
    pub fn publish(&self, cpu: Option<u32>, gpu: Option<u32>) -> (published: bool)
        ensures
            published == (tick_sample(cpu, gpu) is Some),
    {
        let mut holder = SharedSnapshot::new();
        let published = sample_tick(&mut holder, cpu, gpu);
        if published {
            store(&self.cell, holder);
        }
        published
    }
}

/// The display of the two temperatures.
pub struct GpuTempApp;

/// The text of a temperature label: the title, ` Temperature: `, the degrees
/// and `°C`.
pub open spec fn label_text(title: Seq<char>, celsius: u32) -> Seq<char> {
    title + " Temperature: "@ + decimal(celsius as nat) + "°C"@
}

impl GpuTempApp {
    /// The two labels of a sample: the GPU's temperature under the GPU's
    /// title, then the CPU's under the CPU's.
    pub fn labels(&self, stats: TempStats) -> (labels: (String, String))
        ensures
            labels.0@ == label_text("GPU"@, stats.gpu),
            labels.1@ == label_text("CPU"@, stats.cpu),
    {
        (self.temperature_label("GPU", stats.gpu), self.temperature_label("CPU", stats.cpu))
    }

    /// The label that shows `celsius` under `title`.
    pub fn temperature_label(&self, title: &str, celsius: u32) -> (label: String)
        ensures
            label@ == label_text(title@, celsius),
    {
        let mut label = String::from_str(title);
        label.append(" Temperature: ");
        push_decimal(&mut label, celsius as u64);
        label.append("°C");
        label
    }
}

} // verus!
