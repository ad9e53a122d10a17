//! The two fixed-cadence ticks: collecting a snapshot from raw readings, and
//! rendering the latest snapshot into a frame for the device.

use crate::average::{progress_of, ratio_progress, window_sum, Averaged, ConfigError};
use crate::clock::ClockTime;
use crate::driver::DeviceCommand;
use crate::queue::{pushed, CommandQueue};
use crate::render::{create_frame, rendered, Context};
use crate::state::{staleness, DisplayState, Staleness};
use vstd::prelude::*;

verus! {

/// The scale of the graphics load, a percentage.
pub const GPU_SCALE: u64 = 100;

/// The network throughput, in bytes per tick, that fills a progress row.
pub const MAX_NETWORK: u64 = 200_000;

/// The raw readings of one collection tick.
#[derive(Clone, Copy, Debug)]
pub struct Readings {
    /// Processor load, in units of which `cpu_scale` make full load.
    pub cpu: u64,
    pub cpu_scale: u64,
    /// Memory in use and in all, in bytes.
    pub mem_used: u64,
    pub mem_total: u64,
    /// Graphics load in percent.
    pub gpu_busy: u64,
    /// Graphics memory in use and in all, in bytes.
    pub vram_used: u64,
    pub vram_total: u64,
    /// Audio volume in device units, with the units of a muted and of a
    /// normal volume.
    pub volume: u64,
    pub volume_muted: u64,
    pub volume_normal: u64,
    /// Bytes sent and received since the last tick.
    pub net_up: u64,
    pub net_down: u64,
}

/// The moving averages kept between collection ticks.
pub struct Smoothers {
    pub gpu: Averaged<25>,
    pub net_up: Averaged<10>,
    pub net_down: Averaged<10>,
}

impl Readings {
    /// Every scale the readings are measured against is above zero.
    pub open spec fn measurable(self) -> bool {
        &&& self.cpu_scale > 0
        &&& self.mem_total > 0
        &&& self.vram_total > 0
        &&& self.volume_normal > self.volume_muted
    }

    /// The volume above the muted level, zero below it.
    pub open spec fn volume_above_muted(self) -> int {
        if self.volume >= self.volume_muted {
            self.volume - self.volume_muted
        } else {
            0
        }
    }
}

impl Smoothers {
    /// Averages whose windows are filled with zeros.
    pub fn new() -> (smoothers: Smoothers)
        ensures
            smoothers.gpu@ == Seq::new(25, |i: int| 0u64),
            smoothers.net_up@ == Seq::new(10, |i: int| 0u64),
            smoothers.net_down@ == Seq::new(10, |i: int| 0u64),
    {
        Smoothers { gpu: Averaged::new(0), net_up: Averaged::new(0), net_down: Averaged::new(0) }
    }
}

/// The snapshot of a tick, given its readings and the windows of the moving
/// averages once they hold the tick's readings.
pub open spec fn snapshot_of(
    readings: Readings,
    gpu: Seq<u64>,
    net_up: Seq<u64>,
    net_down: Seq<u64>,
    time: ClockTime,
) -> Context {
    Context {
        cpu: progress_of(readings.cpu as int, 1, readings.cpu_scale as int) as u8,
        mem: progress_of(readings.mem_used as int, 1, readings.mem_total as int) as u8,
        gpu: progress_of(window_sum(gpu), 25, GPU_SCALE as int) as u8,
        gpu_mem: progress_of(readings.vram_used as int, 1, readings.vram_total as int) as u8,
        vol: progress_of(
            readings.volume_above_muted(),
            1,
            readings.volume_normal - readings.volume_muted,
        ) as u8,
        net_up: progress_of(window_sum(net_up), 10, MAX_NETWORK as int) as u8,
        net_down: progress_of(window_sum(net_down), 10, MAX_NETWORK as int) as u8,
        time,
    }
}

/// Every progress value of the snapshot is at most 45.
pub open spec fn in_range(ctx: Context) -> bool {
    &&& ctx.cpu <= 45
    &&& ctx.mem <= 45
    &&& ctx.gpu <= 45
    &&& ctx.gpu_mem <= 45
    &&& ctx.vol <= 45
    &&& ctx.net_up <= 45
    &&& ctx.net_down <= 45
}

/// One collection tick: turns the readings into a snapshot taken at `time`.
///
/// Graphics load and network throughput go through their moving averages;
/// the other metrics are taken as they are. Readings with a scale of zero,
/// or with a normal volume that is not above the muted one, are refused, and
/// the averages are then left as they were.
pub fn collect(readings: &Readings, smoothers: &mut Smoothers, time: ClockTime) -> (snapshot:
    Result<Context, ConfigError>)
    ensures
        snapshot is Ok <==> readings.measurable(),
        snapshot matches Err(error) ==> {
            &&& error == ConfigError::ZeroScale
            &&& final(smoothers).gpu@ == old(smoothers).gpu@
            &&& final(smoothers).net_up@ == old(smoothers).net_up@
            &&& final(smoothers).net_down@ == old(smoothers).net_down@
        },
        snapshot matches Ok(ctx) ==> {
            &&& final(smoothers).gpu@ == old(smoothers).gpu@.drop_first().push(readings.gpu_busy)
            &&& final(smoothers).net_up@ == old(smoothers).net_up@.drop_first().push(
                readings.net_up,
            )
            &&& final(smoothers).net_down@ == old(smoothers).net_down@.drop_first().push(
                readings.net_down,
            )
            &&& ctx == snapshot_of(
                *readings,
                final(smoothers).gpu@,
                final(smoothers).net_up@,
                final(smoothers).net_down@,
                time,
            )
            &&& in_range(ctx)
        },
{
    if readings.volume_normal <= readings.volume_muted {
        return Err(ConfigError::ZeroScale);
    }
    let above_muted: u64 = if readings.volume >= readings.volume_muted {
        readings.volume - readings.volume_muted
    } else {
        0
    };
    let cpu = match ratio_progress(readings.cpu, readings.cpu_scale) {
        Ok(progress) => progress,
        Err(error) => {
            return Err(error);
        },
    };
    let mem = match ratio_progress(readings.mem_used, readings.mem_total) {
        Ok(progress) => progress,
        Err(error) => {
            return Err(error);
        },
    };
    let gpu_mem = match ratio_progress(readings.vram_used, readings.vram_total) {
        Ok(progress) => progress,
        Err(error) => {
            return Err(error);
        },
    };
    let vol = match ratio_progress(above_muted, readings.volume_normal - readings.volume_muted) {
        Ok(progress) => progress,
        Err(error) => {
            return Err(error);
        },
    };
    let gpu = match smoothers.gpu.next(readings.gpu_busy, GPU_SCALE) {
        Ok(progress) => progress,
        Err(error) => {
            return Err(error);
        },
    };
    let net_up = match smoothers.net_up.next(readings.net_up, MAX_NETWORK) {
        Ok(progress) => progress,
        Err(error) => {
            return Err(error);
        },
    };
    let net_down = match smoothers.net_down.next(readings.net_down, MAX_NETWORK) {
        Ok(progress) => progress,
        Err(error) => {
            return Err(error);
        },
    };
    Ok(Context { cpu, mem, gpu, gpu_mem, vol, net_up, net_down, time })
}

/// The snapshot held once the updates that arrived since the last tick are
/// taken in: the last of them, or the one held before if none arrived. An
/// update of `None` is a reset.
pub open spec fn latest(state: Option<Context>, updates: Seq<Option<Context>>) -> Option<Context> {
    if updates.len() == 0 {
        state
    } else {
        updates.last()
    }
}

/// The time of the last update once the updates of this tick are taken in.
pub open spec fn latest_update(last_update: u64, updates: Seq<Option<Context>>, now: u64) -> u64 {
    if updates.len() == 0 {
        last_update
    } else {
        now
    }
}

/// One render tick at `now`: takes in the updates that arrived, drops a
/// snapshot that went without an update for too long, renders what is left
/// and puts the frame into the mailbox. `wall` is the wall-clock time, shown
/// while there is no snapshot.
pub fn render_tick(
    display: &mut DisplayState,
    queue: &mut CommandQueue,
    updates: &Vec<Option<Context>>,
    now: u64,
    wall: ClockTime,
) -> (found: Staleness)
    ensures
        found == staleness(
            latest(old(display).state_spec(), updates@),
            latest_update(old(display).last_update_spec(), updates@, now),
            now,
        ),
        final(display).state_spec() == found.state,
        final(display).last_update_spec() == latest_update(
            old(display).last_update_spec(),
            updates@,
            now,
        ),
        final(queue)@ matches Some(DeviceCommand::Frame(frame)) && frame@ == rendered(
            found.state,
            wall,
        ),
{
    let mut i: usize = 0;
    while i < updates.len()
        invariant
            i <= updates@.len(),
            display.state_spec() == latest(old(display).state_spec(), updates@.take(i as int)),
            display.last_update_spec() == latest_update(
                old(display).last_update_spec(),
                updates@.take(i as int),
                now,
            ),
        decreases updates@.len() - i,
    {
        match updates[i] {
            Some(ctx) => display.set_state(ctx, now),
            None => display.reset_state(now),
        }
        i += 1;
    }
    let found = display.tick(now);
    let frame = create_frame(found.state, wall, found.degraded);
    queue.push(DeviceCommand::Frame(frame));
    found
}

} // verus!
