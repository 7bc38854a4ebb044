use blub::error::SimError;
use blub::scheduler::{ResumeMode, Scheduler, SchedulerStatus};

const DT: u64 = 16_666_667;

fn running(mode: ResumeMode, cap: u64) -> Scheduler {
    let mut s = Scheduler::new(DT, cap).unwrap();
    s.resume(mode);
    s
}

#[test]
fn zero_timestep_is_refused() {
    assert!(matches!(Scheduler::new(0, 4), Err(SimError::InvalidConfiguration)));
}

#[test]
fn new_scheduler_is_paused_with_fresh_clock() {
    let s = Scheduler::new(DT, 4).unwrap();
    assert_eq!(s.status(), SchedulerStatus::Paused);
    assert_eq!(s.fixed_dt_ns(), DT);
    assert_eq!(s.max_steps_per_tick(), 4);
    assert_eq!(s.carry_ns(), 0);
    let c = s.clock();
    assert_eq!(c.simulated_time_ns, 0);
    assert_eq!(c.wall_time_ns, 0);
    assert_eq!(c.steps_total, 0);
    assert_eq!(c.steps_this_tick, 0);
    assert_eq!(c.frames_rendered, 0);
}

#[test]
fn paused_performs_no_steps() {
    let mut s = Scheduler::new(DT, 4).unwrap();
    assert_eq!(s.tick(1_000_000_000), 0);
    assert_eq!(s.clock().steps_total, 0);
    assert_eq!(s.clock().simulated_time_ns, 0);
    assert_eq!(s.clock().wall_time_ns, 1_000_000_000);
    assert_eq!(s.carry_ns(), 0);
}

#[test]
fn realtime_converts_elapsed_time_to_whole_steps() {
    let mut s = running(ResumeMode::Realtime, 10);
    assert_eq!(s.tick(50_000_000), 2);
    assert_eq!(s.carry_ns(), 50_000_000 - 2 * DT);
    assert_eq!(s.clock().steps_this_tick, 2);
    assert_eq!(s.clock().simulated_time_ns, (2 * DT) as u128);
    // the carried time counts towards the next tick
    assert_eq!(s.tick(1), 1);
    assert_eq!(s.carry_ns(), 50_000_001 - 3 * DT);
    assert_eq!(s.clock().steps_total, 3);
}

#[test]
fn realtime_caps_a_ten_second_gap() {
    let mut s = running(ResumeMode::Realtime, 4);
    let steps = s.tick(10_000_000_000);
    assert_eq!(steps, 4);
    assert!(steps <= s.max_steps_per_tick());
    // time beyond the cap is thrown away
    assert_eq!(s.carry_ns(), 0);
    let c = s.clock();
    assert_eq!(c.simulated_time_ns, (4 * DT) as u128);
    assert_eq!(c.wall_time_ns, 10_000_000_000);
    assert!(c.wall_time_ns >= c.simulated_time_ns);
    assert_eq!(s.lag_ns(), 10_000_000_000 - (4 * DT) as u128);
}

#[test]
fn realtime_lag_stays_non_negative_over_many_ticks() {
    let mut s = running(ResumeMode::Realtime, 3);
    let deltas = [1u64, 16_666_666, 40_000_000, 0, 10_000_000_000, 16_666_667, 5];
    for d in deltas {
        let steps = s.tick(d);
        assert!(steps <= 3);
        let c = s.clock();
        assert!(c.wall_time_ns >= c.simulated_time_ns + s.carry_ns() as u128);
    }
}

#[test]
fn simulate_and_render_always_catches_up() {
    let mut s = running(ResumeMode::SimulateAndRender, 4);
    assert_eq!(s.tick(1_000_000_000), 59);
    assert_eq!(s.carry_ns(), 1_000_000_000 - 59 * DT);
    let c = s.clock();
    assert_eq!(c.simulated_time_ns + s.carry_ns() as u128, c.wall_time_ns);
}

#[test]
fn record_steps_are_one_rounded_frame_per_tick() {
    assert_eq!(Scheduler::steps_per_recorded_frame(DT, 30), 2);
    assert_eq!(Scheduler::steps_per_recorded_frame(DT, 60), 1);
    assert_eq!(Scheduler::steps_per_recorded_frame(DT, 24), 2);
    assert_eq!(Scheduler::steps_per_recorded_frame(DT, 20), 3);
    assert_eq!(Scheduler::steps_per_recorded_frame(DT, 40), 1);
    assert_eq!(Scheduler::steps_per_recorded_frame(DT, 39), 2);
    assert_eq!(Scheduler::steps_per_recorded_frame(DT, 1000), 0);
    assert_eq!(Scheduler::steps_per_recorded_frame(1, 1), 1_000_000_000);
}

#[test]
fn recording_ignores_how_ticks_arrive() {
    let mut regular = Scheduler::new(DT, 1).unwrap();
    regular.start_recording(30).unwrap();
    let mut ragged = Scheduler::new(DT, 1).unwrap();
    ragged.start_recording(30).unwrap();
    let gaps = [0u64, 10_000_000_000, 3, 999, 33_333_333, 1, 0, 70_000_000, 5, 12];
    let mut total_regular = 0u64;
    let mut total_ragged = 0u64;
    for g in gaps {
        total_regular += regular.tick(33_333_333);
        total_ragged += ragged.tick(g);
    }
    assert_eq!(total_regular, 20);
    assert_eq!(total_ragged, 20);
    assert_eq!(regular.clock().simulated_time_ns, ragged.clock().simulated_time_ns);
    // ten frames at 30 per second are a third of a second
    assert_eq!(ragged.clock().simulated_time_ns, 20 * DT as u128);
    assert_eq!(ragged.clock().steps_total, 20);
}

#[test]
fn recording_at_zero_fps_is_refused_and_changes_nothing() {
    let mut s = running(ResumeMode::Realtime, 4);
    s.tick(40_000_000);
    let clock = s.clock();
    let carry = s.carry_ns();
    assert_eq!(s.start_recording(0), Err(SimError::InvalidConfiguration));
    assert_eq!(s.status(), SchedulerStatus::Realtime);
    assert_eq!(s.clock(), clock);
    assert_eq!(s.carry_ns(), carry);
}

#[test]
fn recording_starts_on_a_fresh_clock_and_stops_in_paused() {
    let mut s = running(ResumeMode::Realtime, 4);
    s.tick(40_000_000);
    s.on_frame_submitted();
    assert_eq!(s.start_recording(30), Ok(()));
    assert_eq!(s.status(), SchedulerStatus::Record { target_fps: 30 });
    assert_eq!(s.clock().steps_total, 0);
    assert_eq!(s.clock().frames_rendered, 0);
    assert_eq!(s.carry_ns(), 0);
    s.stop_recording();
    assert_eq!(s.status(), SchedulerStatus::Paused);
}

#[test]
fn stop_recording_leaves_other_statuses_alone() {
    let mut s = running(ResumeMode::SimulateAndRender, 4);
    s.stop_recording();
    assert_eq!(s.status(), SchedulerStatus::SimulateAndRender);
}

#[test]
fn pause_and_resume_change_only_the_status() {
    let mut s = running(ResumeMode::Realtime, 4);
    s.tick(20_000_000);
    let clock = s.clock();
    s.pause();
    assert_eq!(s.status(), SchedulerStatus::Paused);
    assert_eq!(s.clock(), clock);
    s.resume(ResumeMode::SimulateAndRender);
    assert_eq!(s.status(), SchedulerStatus::SimulateAndRender);
    // a resume outside of a pause does nothing
    s.resume(ResumeMode::Realtime);
    assert_eq!(s.status(), SchedulerStatus::SimulateAndRender);
    let mut r = Scheduler::new(DT, 4).unwrap();
    r.start_recording(25).unwrap();
    r.resume(ResumeMode::Realtime);
    assert_eq!(r.status(), SchedulerStatus::Record { target_fps: 25 });
}

#[test]
fn fast_forward_rounds_the_duration_to_steps() {
    let mut s = Scheduler::new(DT, 4).unwrap();
    assert_eq!(s.fast_forward(1_000_000_000), 60);
    assert_eq!(s.clock().steps_total, 60);
    assert_eq!(s.clock().simulated_time_ns, 60 * DT as u128);
    assert_eq!(s.clock().steps_this_tick, 0);
    assert_eq!(s.clock().wall_time_ns, 0);
    assert_eq!(s.fast_forward(8_333_333), 0);
    assert_eq!(s.fast_forward(8_333_334), 1);
    assert_eq!(s.status(), SchedulerStatus::Paused);
}

#[test]
fn frames_are_counted() {
    let mut s = Scheduler::new(DT, 4).unwrap();
    s.on_frame_submitted();
    s.on_frame_submitted();
    assert_eq!(s.clock().frames_rendered, 2);
    s.reset();
    assert_eq!(s.clock().frames_rendered, 0);
}

#[test]
fn retime_restarts_the_clock() {
    let mut s = running(ResumeMode::Realtime, 4);
    s.tick(40_000_000);
    assert_eq!(s.retime(0), Err(SimError::InvalidConfiguration));
    assert_eq!(s.fixed_dt_ns(), DT);
    assert_eq!(s.clock().steps_total, 2);
    assert_eq!(s.retime(1_000_000), Ok(()));
    assert_eq!(s.fixed_dt_ns(), 1_000_000);
    assert_eq!(s.clock().steps_total, 0);
    assert_eq!(s.carry_ns(), 0);
    assert_eq!(s.status(), SchedulerStatus::Realtime);
}

#[test]
fn longest_timestep_and_gap_are_handled() {
    let mut s = Scheduler::new(u64::MAX, 4).unwrap();
    s.resume(ResumeMode::SimulateAndRender);
    for _ in 0..3 {
        s.tick(u64::MAX);
    }
    assert_eq!(s.clock().steps_total, 3);
    assert_eq!(s.clock().simulated_time_ns, 3 * u64::MAX as u128);
    assert_eq!(s.clock().wall_time_ns, 3 * u64::MAX as u128);
    assert_eq!(s.lag_ns(), 0);
}
