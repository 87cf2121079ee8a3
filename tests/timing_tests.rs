use cube::pacing::{period_us, sleep_ms_for, FrameDecision, FramePacer, MAX_RENDER_RATE_HZ, TICK_RATE_HZ};
use cube::snapshot::{newest_snapshot, SnapshotSlot};
use cube::ticker::TickClock;

#[test]
fn periods_from_rates() {
    assert_eq!(period_us(TICK_RATE_HZ), 40_000);
    assert_eq!(period_us(MAX_RENDER_RATE_HZ), 16_666);
    assert_eq!(period_us(1), 1_000_000);
}

#[test]
fn one_second_at_25_hz_is_25_ticks() {
    let tick = period_us(25);
    let mut clock = TickClock::new(0, tick);
    let mut run = 0;
    // Passes at irregular moments, as a scheduler would give them.
    for now in [1_000u64, 39_999, 40_000, 95_000, 310_000, 310_001, 999_999, 1_000_000] {
        while clock.take_due_tick(now) {
            run += 1;
        }
    }
    assert_eq!(run, 25);
    assert_eq!(clock.ticks(), 25);
    assert_eq!(clock.last_tick(), 1_000_000);
}

#[test]
fn advance_catches_up_every_tick() {
    let mut clock = TickClock::new(500, 40_000);
    assert_eq!(clock.advance(400), 0);
    assert_eq!(clock.advance(40_499), 0);
    assert_eq!(clock.advance(40_500), 1);
    // Fell far behind: every pending tick still runs.
    assert_eq!(clock.advance(400_600), 9);
    assert_eq!(clock.last_tick(), 400_500);
    assert_eq!(clock.ticks(), 10);
}

#[test]
fn tick_count_does_not_depend_on_pass_timing() {
    let mut once = TickClock::new(0, 40_000);
    let mut many = TickClock::new(0, 40_000);
    let n = once.advance(1_234_567);
    let mut m = 0;
    for now in [3_000u64, 80_001, 80_002, 555_555, 1_234_567] {
        m += many.advance(now);
    }
    assert_eq!(n, 30);
    assert_eq!(m, n);
    assert_eq!(once.last_tick(), many.last_tick());
}

#[test]
fn idle_sleep_leaves_headroom() {
    let clock = TickClock::new(0, 40_000);
    assert_eq!(clock.idle_sleep_ms(0), 39);
    assert_eq!(clock.idle_sleep_ms(38_400), 0);
    assert_eq!(clock.idle_sleep_ms(38_000), 1);
    assert_eq!(clock.idle_sleep_ms(50_000), 0);
    assert_eq!(sleep_ms_for(0, 0, 1_500), 0);
    assert_eq!(sleep_ms_for(0, 0, 1_501), 0);
    assert_eq!(sleep_ms_for(0, 0, 2_000), 1);
    assert_eq!(sleep_ms_for(0, u64::MAX, u64::MAX), 36_893_488_147_419_102);
}

#[test]
fn pacer_caps_frame_rate() {
    let mut p = FramePacer::new(0, 16_666);
    assert_eq!(p.poll(1_000), FrameDecision::Wait { sleep_ms: 14 });
    assert_eq!(p.poll(15_500), FrameDecision::Wait { sleep_ms: 0 });
    assert_eq!(p.poll(16_666), FrameDecision::Render);
    assert_eq!(p.last_frame(), 16_666);
    assert_eq!(p.poll(20_000), FrameDecision::Wait { sleep_ms: 12 });
    assert_eq!(p.poll(60_000), FrameDecision::Render);
    assert_eq!(p.last_frame(), 60_000);
}

#[test]
fn latest_published_snapshot_wins() {
    let mut slot = SnapshotSlot::new();
    assert_eq!(slot.try_take(), None);
    slot.publish(1);
    slot.publish(2);
    assert!(slot.has_pending());
    assert_eq!(slot.try_take(), Some(2));
    assert_eq!(slot.try_take(), None);
    assert!(!slot.has_pending());
}

#[test]
fn render_at_60_uses_newest_of_25_hz_snapshots() {
    let tick = period_us(TICK_RATE_HZ);
    let frame = period_us(MAX_RENDER_RATE_HZ);
    let mut clock = TickClock::new(0, tick);
    let mut pacer = FramePacer::new(0, frame);
    let mut slot = SnapshotSlot::new();
    let mut held: Option<u64> = None;
    let mut frames = 0;
    let mut now = 0u64;
    while now <= 1_000_000 {
        // Simulation pass.
        clock.advance(now);
        slot.publish(clock.ticks());
        // Render pass: never waits for a snapshot.
        held = newest_snapshot(held, slot.try_take());
        assert_eq!(held, Some(clock.ticks()));
        if pacer.poll(now) == FrameDecision::Render {
            frames += 1;
        }
        now += 1_000;
    }
    assert_eq!(clock.ticks(), 25);
    // Passes come every millisecond, so frames go out every 17 ms.
    assert_eq!(frames, 58);
    // With nothing new published the render pass keeps its snapshot.
    assert_eq!(newest_snapshot(held, slot.try_take()), Some(25));
}
