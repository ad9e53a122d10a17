use pixootop::average::ConfigError;
use pixootop::clock::ClockTime;
use pixootop::driver::DeviceCommand;
use pixootop::pipeline::{collect, render_tick, Readings, Smoothers, GPU_SCALE, MAX_NETWORK};
use pixootop::queue::CommandQueue;
use pixootop::render::{create_frame, Context};
use pixootop::state::DisplayState;

fn readings() -> Readings {
    Readings {
        cpu: 6_667,
        cpu_scale: 10_000,
        mem_used: 4_000_000_000,
        mem_total: 12_000_000_000,
        gpu_busy: 100,
        vram_used: 0,
        vram_total: 8_000_000_000,
        volume: 0x10000,
        volume_muted: 0,
        volume_normal: 0x10000,
        net_up: 200_000,
        net_down: 0,
    }
}

fn noon() -> ClockTime {
    ClockTime::new(12, 0, 0).unwrap()
}

fn snapshot(cpu: u8, time: ClockTime) -> Context {
    Context { cpu, mem: 15, gpu: 0, gpu_mem: 0, vol: 45, net_up: 0, net_down: 0, time }
}

fn pending_bytes(queue: &mut CommandQueue) -> Vec<u8> {
    match queue.pop() {
        Some(DeviceCommand::Frame(frame)) => frame.to_rgb_bytes(),
        _ => panic!("no frame in the mailbox"),
    }
}

#[test]
fn scales() {
    assert_eq!(GPU_SCALE, 100);
    assert_eq!(MAX_NETWORK, 200_000);
}

#[test]
fn collect_quantizes_every_metric() {
    let mut smoothers = Smoothers::new();
    let time = ClockTime::new(8, 9, 10).unwrap();
    let ctx = collect(&readings(), &mut smoothers, time).unwrap();
    assert_eq!(ctx.cpu, 30);
    assert_eq!(ctx.mem, 15);
    assert_eq!(ctx.gpu, 2);
    assert_eq!(ctx.gpu_mem, 0);
    assert_eq!(ctx.vol, 45);
    assert_eq!(ctx.net_up, 5);
    assert_eq!(ctx.net_down, 0);
    assert_eq!(ctx.time.hour(), 8);
    assert_eq!(ctx.time.minute(), 9);
    assert_eq!(ctx.time.second(), 10);
}

#[test]
fn collect_smooths_load_and_throughput_over_ticks() {
    let mut smoothers = Smoothers::new();
    let mut gpu = Vec::new();
    let mut net_up = Vec::new();
    for _ in 0..26 {
        let ctx = collect(&readings(), &mut smoothers, noon()).unwrap();
        gpu.push(ctx.gpu);
        net_up.push(ctx.net_up);
    }
    assert_eq!(gpu[0..5], [2, 4, 5, 7, 9]);
    assert_eq!(gpu[23..26], [43, 45, 45]);
    assert_eq!(net_up[0..10], [5, 9, 14, 18, 23, 27, 32, 36, 41, 45]);
    assert_eq!(net_up[10], 45);
    let quiet = Readings { gpu_busy: 0, net_up: 0, ..readings() };
    let ctx = collect(&quiet, &mut smoothers, noon()).unwrap();
    assert_eq!(ctx.gpu, 43);
    assert_eq!(ctx.net_up, 41);
}

#[test]
fn collect_measures_volume_from_the_muted_level() {
    let mut smoothers = Smoothers::new();
    let volume = |volume: u64| Readings { volume, volume_muted: 100, volume_normal: 1_000, ..readings() };
    assert_eq!(collect(&volume(100), &mut smoothers, noon()).unwrap().vol, 0);
    assert_eq!(collect(&volume(50), &mut smoothers, noon()).unwrap().vol, 0);
    assert_eq!(collect(&volume(550), &mut smoothers, noon()).unwrap().vol, 23);
    assert_eq!(collect(&volume(1_000), &mut smoothers, noon()).unwrap().vol, 45);
    assert_eq!(collect(&volume(5_000), &mut smoothers, noon()).unwrap().vol, 45);
}

#[test]
fn collect_keeps_every_value_in_range() {
    let mut smoothers = Smoothers::new();
    let loud = Readings {
        cpu: u64::MAX,
        mem_used: u64::MAX,
        gpu_busy: u64::MAX,
        vram_used: u64::MAX,
        volume: u64::MAX,
        net_up: u64::MAX,
        net_down: u64::MAX,
        ..readings()
    };
    for _ in 0..30 {
        let ctx = collect(&loud, &mut smoothers, noon()).unwrap();
        for value in [ctx.cpu, ctx.mem, ctx.gpu, ctx.gpu_mem, ctx.vol, ctx.net_up, ctx.net_down] {
            assert_eq!(value, 45);
        }
    }
}

#[test]
fn collect_refuses_a_zero_scale_and_keeps_the_averages() {
    let broken = [
        Readings { cpu_scale: 0, ..readings() },
        Readings { mem_total: 0, ..readings() },
        Readings { vram_total: 0, ..readings() },
        Readings { volume_muted: 7, volume_normal: 7, ..readings() },
        Readings { volume_muted: 8, volume_normal: 7, ..readings() },
    ];
    let mut smoothers = Smoothers::new();
    for readings in broken {
        assert_eq!(collect(&readings, &mut smoothers, noon()).err(), Some(ConfigError::ZeroScale));
    }
    // None of the refused ticks reached the averages.
    let ctx = collect(&readings(), &mut smoothers, noon()).unwrap();
    assert_eq!(ctx.gpu, 2);
    assert_eq!(ctx.net_up, 5);
}

#[test]
fn render_tick_draws_the_latest_update() {
    let mut display = DisplayState::new(0);
    let mut queue = CommandQueue::new();
    let taken = ClockTime::new(12, 34, 5).unwrap();
    let updates = vec![Some(snapshot(1, taken)), None, Some(snapshot(30, taken))];
    let found = render_tick(&mut display, &mut queue, &updates, 1_000, noon());
    assert_eq!(found.state.unwrap().cpu, 30);
    assert!(!found.degraded);
    assert!(!found.disconnected);
    assert_eq!(display.last_update(), 1_000);
    assert_eq!(display.state().unwrap().cpu, 30);
    let expected = create_frame(Some(snapshot(30, taken)), noon(), false).to_rgb_bytes();
    assert_eq!(pending_bytes(&mut queue), expected);
    assert!(queue.pop().is_none());
}

#[test]
fn render_tick_without_updates_keeps_the_snapshot() {
    let mut display = DisplayState::new(0);
    let mut queue = CommandQueue::new();
    let taken = ClockTime::new(1, 2, 3).unwrap();
    render_tick(&mut display, &mut queue, &vec![Some(snapshot(9, taken))], 500, noon());
    let found = render_tick(&mut display, &mut queue, &vec![], 2_600, noon());
    assert_eq!(found.state.unwrap().cpu, 9);
    assert!(found.degraded);
    assert_eq!(display.last_update(), 500);
    // The second frame replaced the first in the mailbox.
    let expected = create_frame(Some(snapshot(9, taken)), noon(), true).to_rgb_bytes();
    assert_eq!(pending_bytes(&mut queue), expected);
    assert!(queue.pop().is_none());
}

#[test]
fn render_tick_falls_back_to_the_wall_clock_after_a_minute() {
    let mut display = DisplayState::new(0);
    let mut queue = CommandQueue::new();
    let taken = ClockTime::new(1, 2, 3).unwrap();
    render_tick(&mut display, &mut queue, &vec![Some(snapshot(9, taken))], 500, noon());
    let found = render_tick(&mut display, &mut queue, &vec![], 60_499, noon());
    assert!(found.state.is_some());
    let found = render_tick(&mut display, &mut queue, &vec![], 60_500, noon());
    assert!(found.state.is_none());
    assert!(found.disconnected);
    assert!(found.degraded);
    assert_eq!(pending_bytes(&mut queue), create_frame(None, noon(), true).to_rgb_bytes());
    let found = render_tick(&mut display, &mut queue, &vec![], 60_600, noon());
    assert!(!found.disconnected);
}

#[test]
fn render_tick_takes_a_reset() {
    let mut display = DisplayState::new(0);
    let mut queue = CommandQueue::new();
    let taken = ClockTime::new(1, 2, 3).unwrap();
    let found = render_tick(&mut display, &mut queue, &vec![Some(snapshot(9, taken)), None], 700, noon());
    assert!(found.state.is_none());
    assert!(!found.disconnected);
    assert_eq!(display.last_update(), 700);
    assert_eq!(pending_bytes(&mut queue), create_frame(None, noon(), false).to_rgb_bytes());
}

#[test]
fn end_to_end_snapshot_reaches_the_device_as_drawn() {
    let mut display = DisplayState::new(0);
    let mut queue = CommandQueue::new();
    let taken = ClockTime::new(12, 34, 5).unwrap();
    let ctx = Context { cpu: 30, mem: 15, gpu: 0, gpu_mem: 0, vol: 45, net_up: 0, net_down: 0, time: taken };
    render_tick(&mut display, &mut queue, &vec![Some(ctx)], 100, noon());
    let bytes = pending_bytes(&mut queue);
    let pixel = |x: usize, y: usize| (bytes[(y * 16 + x) * 3], bytes[(y * 16 + x) * 3 + 1], bytes[(y * 16 + x) * 3 + 2]);
    for x in 0..15 {
        assert_eq!(pixel(x, 0), (0xff, 0xaa, 0x00));
    }
    assert_eq!(pixel(15, 0), (0, 0, 0));
    for y in 3..7 {
        for x in 0..16 {
            assert_eq!(pixel(x, y), (0, 0, 0));
        }
    }
}
