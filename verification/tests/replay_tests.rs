use std::collections::VecDeque;

use chaz::{Positions, RepeatTimer, ReplayStep, WorldVec, SAMPLE_INTERVAL_MS};

fn at(x: i64, y: i64) -> WorldVec {
    WorldVec { x, y, z: 1_500 }
}

fn replay_log(points: &[WorldVec]) -> Positions {
    let mut values = VecDeque::new();
    for p in points {
        values.push_back(*p);
    }
    Positions {
        values,
        timer: RepeatTimer { interval_ms: SAMPLE_INTERVAL_MS, elapsed_ms: 0 },
    }
}

#[test]
fn timer_fires_after_two_half_interval_ticks() {
    // Interval 0.1 s, ticks of 0.05 s: the first tick does not fire, the
    // second does, and one position is pushed while recording.
    let mut log = Positions::default();
    assert_eq!(log.timer.interval_ms, 100);
    let fired = log.record_tick(&at(1_000, 2_000), 50);
    assert!(!fired);
    assert_eq!(log.values.len(), 0);
    let fired = log.record_tick(&at(3_000, 4_000), 50);
    assert!(fired);
    assert_eq!(log.values.len(), 1);
    assert_eq!(log.values[0], at(3_000, 4_000));
}

#[test]
fn half_interval_tick_interpolates_halfway() {
    // After 0.05 s of a 0.1 s interval the proportion is one half: the rival
    // stands exactly halfway between its current position and the front of
    // the queue.
    let mut log = replay_log(&[at(1_000, 0)]);
    let current = at(0, 0);
    let step = log.replay_tick(&current, 50);
    assert_eq!(step, ReplayStep::Interpolated(WorldVec { x: 500, y: 0, z: 1_500 }));
    assert_eq!(log.values.len(), 1);
}

#[test]
fn fire_pops_the_front_position() {
    let mut log = replay_log(&[at(1_000, 0), at(2_000, 0)]);
    let current = at(0, 0);
    let step = log.replay_tick(&current, 50);
    assert!(matches!(step, ReplayStep::Interpolated(_)));
    let step = log.replay_tick(&current, 50);
    assert_eq!(step, ReplayStep::Snap(at(1_000, 0)));
    assert_eq!(log.values.len(), 1);
}

#[test]
fn recording_then_replaying_round_trips_in_order() {
    // Record a run over three timer fires, replay it as a rival: exactly
    // three snap positions come out, in the recorded order, and the queue is
    // empty after the third.
    let samples = [at(10_000, 0), at(20_000, 5_000), at(30_000, 1_000)];
    let mut recording = Positions::default();
    for p in &samples {
        let fired = recording.record_tick(p, 100);
        assert!(fired);
    }
    assert_eq!(recording.values.len(), 3);

    let mut rival = Positions {
        values: recording.values,
        timer: RepeatTimer { interval_ms: SAMPLE_INTERVAL_MS, elapsed_ms: 0 },
    };
    let mut snaps = Vec::new();
    let mut current = at(0, 0);
    for _ in 0..3 {
        match rival.replay_tick(&current, 100) {
            ReplayStep::Snap(p) => {
                current = p;
                snaps.push(p);
            },
            other => panic!("expected a snap, got {:?}", other),
        }
    }
    assert_eq!(snaps, samples.to_vec());
    assert_eq!(rival.values.len(), 0);
    assert_eq!(rival.replay_tick(&current, 100), ReplayStep::Exhausted);
}

#[test]
fn interpolation_is_continuous_at_a_fire_boundary() {
    // At the start of an interval the interpolated position is the pre-pop
    // current position; approaching the end of the interval it approaches the
    // queued position, which the fire then snaps to exactly.
    let target = at(1_000, 2_000);
    let current = WorldVec { x: 0, y: 0, z: 1_500 };

    let mut log = replay_log(&[target]);
    let step = log.replay_tick(&current, 0);
    assert_eq!(step, ReplayStep::Interpolated(current));

    let mut log = replay_log(&[target]);
    let step = log.replay_tick(&current, 99);
    assert_eq!(step, ReplayStep::Interpolated(WorldVec { x: 990, y: 1_980, z: 1_500 }));

    let mut log = replay_log(&[target]);
    let step = log.replay_tick(&current, 100);
    assert_eq!(step, ReplayStep::Snap(target));
}

#[test]
fn exhausted_path_is_reported_before_anything_advances() {
    // A rival whose log starts empty loses the race for the player on the
    // very first tick: no pop and no timer advance is attempted.
    let mut log = Positions::default();
    let step = log.replay_tick(&at(0, 0), 50);
    assert_eq!(step, ReplayStep::Exhausted);
    assert_eq!(log.timer.elapsed_ms, 0);
    assert_eq!(log.values.len(), 0);
}

#[test]
fn one_fire_per_tick_even_for_long_frames() {
    // A frame spanning several intervals still pops only one position.
    let mut log = replay_log(&[at(1_000, 0), at(2_000, 0), at(3_000, 0)]);
    let step = log.replay_tick(&at(0, 0), 350);
    assert_eq!(step, ReplayStep::Snap(at(1_000, 0)));
    assert_eq!(log.values.len(), 2);
    assert_eq!(log.timer.elapsed_ms, 50);
}

#[test]
fn stolen_path_drops_one_draw_layer_and_resets_the_timer() {
    let mut recording = Positions::default();
    recording.record_tick(&WorldVec { x: 7_000, y: 8_000, z: 2_000 }, 100);
    recording.record_tick(&WorldVec { x: 9_000, y: 10_000, z: 2_000 }, 100);
    recording.timer.elapsed_ms = 42;
    let path = chaz::stolen_path(&recording);
    assert_eq!(path.values.len(), 2);
    assert_eq!(path.values[0], WorldVec { x: 7_000, y: 8_000, z: 1_000 });
    assert_eq!(path.values[1], WorldVec { x: 9_000, y: 10_000, z: 1_000 });
    assert_eq!(path.timer, RepeatTimer { interval_ms: 100, elapsed_ms: 0 });
}
