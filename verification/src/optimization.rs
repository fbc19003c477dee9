//! Hints for transports: packet batching, scan intervals and battery modes.

use vstd::prelude::*;
use crate::transport::{Packet, PacketView};

verus! {

/// `std::time::Instant`: a reading of the monotonic clock.
#[verifier::external_type_specification]
#[verifier::external_body]
pub struct ExInstant(std::time::Instant);

/// Calls `Instant::now`. Nothing is known of the time.
#[verifier::external_body]
fn instant_now() -> std::time::Instant {
    std::time::Instant::now()
}

/// Calls `Instant::elapsed` and returns its whole seconds. Nothing is known
/// of the time that has passed.
#[verifier::external_body]
fn elapsed_secs(since: &std::time::Instant) -> u64 {
    since.elapsed().as_secs()
}

/// Whether a batch that has waited `elapsed_secs` whole seconds has reached
/// the age at which it is to be flushed.
pub fn age_reached(elapsed_secs: u64, max_age_secs: u64) -> (reached: bool)
    ensures
        reached == (elapsed_secs >= max_age_secs),
{
    elapsed_secs >= max_age_secs
}

/// Collects packets so that a transport can send them together.
pub struct PacketBatcher {
    batch: Vec<Packet>,
    max_batch_size: usize,
    max_batch_age_secs: u64,
    last_flush: std::time::Instant,
}

impl PacketBatcher {
    /// The packets that wait in the batch, oldest first.
    pub closed spec fn batch(&self) -> Seq<PacketView> {
        self.batch@.map_values(|p: Packet| p@)
    }

    /// The number of packets at which the batch is full.
    pub closed spec fn size_limit(&self) -> usize {
        self.max_batch_size
    }

    /// The age in seconds at which the batch is to be flushed.
    pub closed spec fn age_limit(&self) -> u64 {
        self.max_batch_age_secs
    }

    /// An empty batcher with the given limits, whose batch starts to age now.
    pub fn new(max_batch_size: usize, max_batch_age_secs: u64) -> (batcher: Self)
        ensures
            batcher.batch() == Seq::<PacketView>::empty(),
            batcher.size_limit() == max_batch_size,
            batcher.age_limit() == max_batch_age_secs,
    {
        let batcher = PacketBatcher {
            batch: Vec::new(),
            max_batch_size,
            max_batch_age_secs,
            last_flush: instant_now(),
        };
        batcher
    }

    /// Adds a packet to the batch; says whether the batch is now full and
    /// should be flushed at once.
    pub fn add(&mut self, packet: Packet) -> (full: bool)
        ensures
            final(self).batch() == old(self).batch().push(packet@),
            final(self).size_limit() == old(self).size_limit(),
            final(self).age_limit() == old(self).age_limit(),
            full == (final(self).batch().len() >= old(self).size_limit()),
    {
        self.batch.push(packet);
        self.batch.len() >= self.max_batch_size
    }

    /// Whether the batch has reached the age at which it is to be flushed.
    /// With an age limit of zero that is always so.
    pub fn should_flush(&self) -> (due: bool)
        ensures
            self.age_limit() == 0 ==> due,
    {
        age_reached(elapsed_secs(&self.last_flush), self.max_batch_age_secs)
    }

    /// Takes all packets out of the batch, oldest first; the empty batch
    /// starts to age anew.
    pub fn take_batch(&mut self) -> (packets: Vec<Packet>)
        ensures
            packets@.map_values(|p: Packet| p@) == old(self).batch(),
            final(self).batch() == Seq::<PacketView>::empty(),
            final(self).size_limit() == old(self).size_limit(),
            final(self).age_limit() == old(self).age_limit(),
    {
        let mut packets: Vec<Packet> = Vec::new();
        core::mem::swap(&mut self.batch, &mut packets);
        self.last_flush = instant_now();
        packets
    }

    /// The number of packets in the batch.
    pub fn len(&self) -> (len: usize)
        ensures
            len == self.batch().len(),
    {
        self.batch.len()
    }
}

/// How often a radio scans for peers.
#[derive(Clone, Copy, Debug, PartialEq, Eq, Structural)]
pub enum ScanInterval {
    /// Fast discovery at high power: every 100 ms.
    Aggressive,
    /// A balance of the two: every second.
    Normal,
    /// Slow discovery at low power: every five seconds.
    PowerSaving,
    /// An interval of the caller's choice, in milliseconds.
    Custom(u64),
}

impl ScanInterval {
    /// The interval in milliseconds.
    pub open spec fn millis(self) -> u64 {
        match self {
            ScanInterval::Aggressive => 100,
            ScanInterval::Normal => 1000,
            ScanInterval::PowerSaving => 5000,
            ScanInterval::Custom(ms) => ms,
        }
    }

    /// The interval in milliseconds.
    pub fn as_millis(&self) -> (ms: u64)
        ensures
            ms == self.millis(),
    {
        match self {
            ScanInterval::Aggressive => 100,
            ScanInterval::Normal => 1000,
            ScanInterval::PowerSaving => 5000,
            ScanInterval::Custom(ms) => *ms,
        }
    }

    /// The scan window in milliseconds: half the interval, rounded down.
    pub fn scan_window_ms(&self) -> (ms: u64)
        ensures
            ms == self.millis() / 2,
    {
        self.as_millis() / 2
    }
}

/// How the device trades battery for speed.
#[derive(Clone, Copy, Debug, PartialEq, Eq, Structural)]
pub enum BatteryMode {
    /// A faster mesh at higher power.
    Performance,
    /// The default.
    Balanced,
    /// A slower mesh at lower power.
    PowerSaving,
}

impl BatteryMode {
    /// The scan interval that the mode recommends.
    pub open spec fn scan_interval(self) -> ScanInterval {
        match self {
            BatteryMode::Performance => ScanInterval::Aggressive,
            BatteryMode::Balanced => ScanInterval::Normal,
            BatteryMode::PowerSaving => ScanInterval::PowerSaving,
        }
    }

    /// The batch size that the mode recommends.
    pub open spec fn batch_size(self) -> usize {
        match self {
            BatteryMode::Performance => 5,
            BatteryMode::Balanced => 10,
            BatteryMode::PowerSaving => 20,
        }
    }

    /// The batch age in seconds that the mode recommends.
    pub open spec fn batch_age_secs(self) -> u64 {
        match self {
            BatteryMode::Performance => 1,
            BatteryMode::Balanced => 2,
            BatteryMode::PowerSaving => 5,
        }
    }

    /// The scan interval that the mode recommends.
    pub fn recommended_scan_interval(&self) -> (interval: ScanInterval)
        ensures
            interval == self.scan_interval(),
    {
        match self {
            BatteryMode::Performance => ScanInterval::Aggressive,
            BatteryMode::Balanced => ScanInterval::Normal,
            BatteryMode::PowerSaving => ScanInterval::PowerSaving,
        }
    }

    /// The batch size that the mode recommends: small batches deliver
    /// sooner, large ones send less often.
    pub fn recommended_batch_size(&self) -> (size: usize)
        ensures
            size == self.batch_size(),
    {
        match self {
            BatteryMode::Performance => 5,
            BatteryMode::Balanced => 10,
            BatteryMode::PowerSaving => 20,
        }
    }

    /// The batch age in seconds that the mode recommends.
    pub fn recommended_batch_age_secs(&self) -> (secs: u64)
        ensures
            secs == self.batch_age_secs(),
    {
        match self {
            BatteryMode::Performance => 1,
            BatteryMode::Balanced => 2,
            BatteryMode::PowerSaving => 5,
        }
    }
}

/// The settings that a battery mode recommends.
#[derive(Clone, Copy, Debug, PartialEq, Eq, Structural)]
pub struct OptimizationConfig {
    pub battery_mode: BatteryMode,
    pub scan_interval: ScanInterval,
    pub batch_size: usize,
    pub batch_age_secs: u64,
}

impl OptimizationConfig {
    /// The settings that a battery mode recommends.
    pub open spec fn recommended(mode: BatteryMode) -> OptimizationConfig {
        OptimizationConfig {
            battery_mode: mode,
            scan_interval: mode.scan_interval(),
            batch_size: mode.batch_size(),
            batch_age_secs: mode.batch_age_secs(),
        }
    }

    /// The settings that a battery mode recommends.
    pub fn from_battery_mode(mode: BatteryMode) -> (config: Self)
        ensures
            config == Self::recommended(mode),
    {
        OptimizationConfig {
            battery_mode: mode,
            scan_interval: mode.recommended_scan_interval(),
            batch_size: mode.recommended_batch_size(),
            batch_age_secs: mode.recommended_batch_age_secs(),
        }
    }

    /// The settings of the balanced mode.
    pub fn default() -> (config: Self)
        ensures
            config == Self::recommended(BatteryMode::Balanced),
    {
        Self::from_battery_mode(BatteryMode::Balanced)
    }
}

} // verus!
