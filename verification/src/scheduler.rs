//! The simulation stepping scheduler: a logical clock and the rule that turns
//! each external tick into a number of fixed-size solver steps.
//!
//! All times are whole nanoseconds.

use vstd::prelude::*;
use vstd::arithmetic::div_mod::*;
use crate::error::SimError;

verus! {

/// Nanoseconds in one second.
pub const NANOS_PER_SECOND: u64 = 1_000_000_000;

/// How the scheduler turns ticks into steps. Exactly one status is active.
#[derive(Clone, Copy, Debug, PartialEq, Eq, Structural)]
pub enum SchedulerStatus {
    /// Follow the wall clock, with a bounded number of steps per tick.
    Realtime,
    /// Follow the wall clock and always catch up in full.
    SimulateAndRender,
    /// Perform no steps.
    Paused,
    /// Ignore the wall clock: every tick is one frame of `1 / target_fps` seconds.
    Record { target_fps: u32 },
}

/// The two statuses that a resume command can ask for.
#[derive(Clone, Copy, Debug, PartialEq, Eq, Structural)]
pub enum ResumeMode {
    Realtime,
    SimulateAndRender,
}

/// Counters of the logical clock. Each total stops at its type's maximum.
#[derive(Clone, Copy, Debug, PartialEq, Eq, Structural)]
pub struct SimulationClock {
    /// Simulated time since the last reset.
    pub simulated_time_ns: u128,
    /// Wall-clock time handed to `tick` since the last reset.
    pub wall_time_ns: u128,
    /// Steps performed since the last reset.
    pub steps_total: u128,
    /// Steps that the most recent tick asked for.
    pub steps_this_tick: u64,
    /// Frames submitted since the last reset.
    pub frames_rendered: u64,
}

/// Sum of two counters, stopping at the maximum.
pub open spec fn sat_add(a: u128, b: int) -> u128 {
    if a + b > u128::MAX {
        u128::MAX
    } else {
        (a + b) as u128
    }
}

/// A clock on which nothing has happened yet.
pub open spec fn zero_clock() -> SimulationClock {
    SimulationClock {
        simulated_time_ns: 0,
        wall_time_ns: 0,
        steps_total: 0,
        steps_this_tick: 0,
        frames_rendered: 0,
    }
}

/// `a / b` rounded to the nearest whole number, halves upwards.
pub open spec fn round_div(a: int, b: int) -> int
    recommends
        a >= 0,
        b > 0,
{
    (2 * a + b) / (2 * b)
}

/// Steps in one recorded frame: the frame length `1 / fps` seconds over the
/// fixed timestep, rounded.
pub open spec fn record_steps_per_frame(dt_ns: int, fps: int) -> int
    recommends
        dt_ns > 0,
        fps > 0,
{
    round_div(NANOS_PER_SECOND as int, fps * dt_ns)
}

/// Steps of a fast-forward over `duration_ns`.
pub open spec fn fast_forward_step_count(duration_ns: int, dt_ns: int) -> int
    recommends
        dt_ns > 0,
{
    round_div(duration_ns, dt_ns)
}

/// Steps that one tick performs.
pub open spec fn tick_steps(
    status: SchedulerStatus,
    dt_ns: int,
    cap: int,
    carry_ns: int,
    wall_delta_ns: int,
) -> int
    recommends
        dt_ns > 0,
{
    let due = (carry_ns + wall_delta_ns) / dt_ns;
    match status {
        SchedulerStatus::Paused => 0,
        SchedulerStatus::Realtime => if due <= cap {
            due
        } else {
            cap
        },
        SchedulerStatus::SimulateAndRender => due,
        SchedulerStatus::Record { target_fps } => record_steps_per_frame(dt_ns, target_fps as int),
    }
}

/// Wall-clock time that one tick leaves for the next one. Time beyond the
/// cap is thrown away; a pause or a recording keeps what was there.
pub open spec fn tick_carry(
    status: SchedulerStatus,
    dt_ns: int,
    cap: int,
    carry_ns: int,
    wall_delta_ns: int,
) -> int
    recommends
        dt_ns > 0,
{
    let total = carry_ns + wall_delta_ns;
    match status {
        SchedulerStatus::Paused => carry_ns,
        SchedulerStatus::Realtime => if total / dt_ns <= cap {
            total % dt_ns
        } else {
            0
        },
        SchedulerStatus::SimulateAndRender => total % dt_ns,
        SchedulerStatus::Record { .. } => carry_ns,
    }
}

/// Steps performed over a whole sequence of ticks, the status unchanged throughout.
pub open spec fn run_steps(
    status: SchedulerStatus,
    dt_ns: int,
    cap: int,
    carry_ns: int,
    deltas: Seq<u64>,
) -> int
    decreases deltas.len(),
{
    if deltas.len() == 0 {
        0
    } else {
        tick_steps(status, dt_ns, cap, carry_ns, deltas[0] as int) + run_steps(
            status,
            dt_ns,
            cap,
            tick_carry(status, dt_ns, cap, carry_ns, deltas[0] as int),
            deltas.subrange(1, deltas.len() as int),
        )
    }
}

/// Carried time after a whole sequence of ticks.
pub open spec fn run_carry(
    status: SchedulerStatus,
    dt_ns: int,
    cap: int,
    carry_ns: int,
    deltas: Seq<u64>,
) -> int
    decreases deltas.len(),
{
    if deltas.len() == 0 {
        carry_ns
    } else {
        run_carry(
            status,
            dt_ns,
            cap,
            tick_carry(status, dt_ns, cap, carry_ns, deltas[0] as int),
            deltas.subrange(1, deltas.len() as int),
        )
    }
}

/// Wall-clock time that a sequence of ticks delivers.
pub open spec fn total_wall_time(deltas: Seq<u64>) -> int
    decreases deltas.len(),
{
    if deltas.len() == 0 {
        0
    } else {
        deltas[0] as int + total_wall_time(deltas.subrange(1, deltas.len() as int))
    }
}

/// Owner of the clock and of the status.
pub struct Scheduler {
    status: SchedulerStatus,
    clock: SimulationClock,
    fixed_dt_ns: u64,
    max_steps_per_tick: u64,
    carry_ns: u64,
}

impl Scheduler {
    /// The fixed timestep is positive and the carried time is less than one step.
    pub open spec fn wf(&self) -> bool {
        &&& self.spec_fixed_dt_ns() > 0
        &&& self.spec_carry_ns() < self.spec_fixed_dt_ns()
        &&& match self.spec_status() {
            SchedulerStatus::Record { target_fps } => target_fps > 0,
            _ => true,
        }
    }

    pub closed spec fn spec_status(&self) -> SchedulerStatus {
        self.status
    }

    pub closed spec fn spec_clock(&self) -> SimulationClock {
        self.clock
    }

    pub closed spec fn spec_fixed_dt_ns(&self) -> u64 {
        self.fixed_dt_ns
    }

    pub closed spec fn spec_max_steps_per_tick(&self) -> u64 {
        self.max_steps_per_tick
    }

    pub closed spec fn spec_carry_ns(&self) -> u64 {
        self.carry_ns
    }

    /// A paused scheduler with a fresh clock. A zero timestep is refused.
    pub fn new(fixed_dt_ns: u64, max_steps_per_tick: u64) -> (r: Result<Scheduler, SimError>)
        ensures
            fixed_dt_ns == 0 <==> r == Err::<Scheduler, SimError>(SimError::InvalidConfiguration),
            fixed_dt_ns > 0 <==> r is Ok,
            r is Ok ==> {
                let s = r->Ok_0;
                &&& s.wf()
                &&& s.spec_status() == SchedulerStatus::Paused
                &&& s.spec_clock() == zero_clock()
                &&& s.spec_fixed_dt_ns() == fixed_dt_ns
                &&& s.spec_max_steps_per_tick() == max_steps_per_tick
                &&& s.spec_carry_ns() == 0
            },
    {
        if fixed_dt_ns == 0 {
            return Err(SimError::InvalidConfiguration);
        }
        Ok(
            Scheduler {
                status: SchedulerStatus::Paused,
                clock: SimulationClock {
                    simulated_time_ns: 0,
                    wall_time_ns: 0,
                    steps_total: 0,
                    steps_this_tick: 0,
                    frames_rendered: 0,
                },
                fixed_dt_ns,
                max_steps_per_tick,
                carry_ns: 0,
            },
        )
    }

    pub fn status(&self) -> (r: SchedulerStatus)
        ensures
            r == self.spec_status(),
    {
        self.status
    }

    pub fn clock(&self) -> (r: SimulationClock)
        ensures
            r == self.spec_clock(),
    {
        self.clock
    }

    pub fn fixed_dt_ns(&self) -> (r: u64)
        ensures
            r == self.spec_fixed_dt_ns(),
    {
        self.fixed_dt_ns
    }

    pub fn max_steps_per_tick(&self) -> (r: u64)
        ensures
            r == self.spec_max_steps_per_tick(),
    {
        self.max_steps_per_tick
    }

    pub fn carry_ns(&self) -> (r: u64)
        ensures
            r == self.spec_carry_ns(),
    {
        self.carry_ns
    }

    /// Wall-clock time that was handed in and has not been simulated.
    pub fn lag_ns(&self) -> (r: u128)
        ensures
            r == if self.spec_clock().wall_time_ns >= self.spec_clock().simulated_time_ns {
                self.spec_clock().wall_time_ns - self.spec_clock().simulated_time_ns
            } else {
                0
            },
    {
        if self.clock.wall_time_ns >= self.clock.simulated_time_ns {
            self.clock.wall_time_ns - self.clock.simulated_time_ns
        } else {
            0
        }
    }

    /// Any status becomes `Paused`; nothing else changes.
    pub fn pause(&mut self)
        ensures
            final(self).spec_status() == SchedulerStatus::Paused,
            final(self).spec_clock() == old(self).spec_clock(),
            final(self).spec_fixed_dt_ns() == old(self).spec_fixed_dt_ns(),
            final(self).spec_max_steps_per_tick() == old(self).spec_max_steps_per_tick(),
            final(self).spec_carry_ns() == old(self).spec_carry_ns(),
    {
        self.status = SchedulerStatus::Paused;
    }

    /// `Paused` becomes the mode asked for; any other status stays.
    pub fn resume(&mut self, mode: ResumeMode)
        ensures
            final(self).spec_status() == if old(self).spec_status() == SchedulerStatus::Paused {
                match mode {
                    ResumeMode::Realtime => SchedulerStatus::Realtime,
                    ResumeMode::SimulateAndRender => SchedulerStatus::SimulateAndRender,
                }
            } else {
                old(self).spec_status()
            },
            final(self).spec_clock() == old(self).spec_clock(),
            final(self).spec_fixed_dt_ns() == old(self).spec_fixed_dt_ns(),
            final(self).spec_max_steps_per_tick() == old(self).spec_max_steps_per_tick(),
            final(self).spec_carry_ns() == old(self).spec_carry_ns(),
    {
        match self.status {
            SchedulerStatus::Paused => {
                self.status = match mode {
                    ResumeMode::Realtime => SchedulerStatus::Realtime,
                    ResumeMode::SimulateAndRender => SchedulerStatus::SimulateAndRender,
                };
            },
            _ => {},
        }
    }

    /// Clock and carried time start over; the status stays.
    pub fn reset(&mut self)
        ensures
            final(self).spec_status() == old(self).spec_status(),
            final(self).spec_clock() == zero_clock(),
            final(self).spec_fixed_dt_ns() == old(self).spec_fixed_dt_ns(),
            final(self).spec_max_steps_per_tick() == old(self).spec_max_steps_per_tick(),
            final(self).spec_carry_ns() == 0,
    {
        self.clock = SimulationClock {
            simulated_time_ns: 0,
            wall_time_ns: 0,
            steps_total: 0,
            steps_this_tick: 0,
            frames_rendered: 0,
        };
        self.carry_ns = 0;
    }

    /// Starts a recording at `target_fps` frames per second on a fresh clock.
    /// A frame rate of zero is refused and changes nothing.
    pub fn start_recording(&mut self, target_fps: u32) -> (r: Result<(), SimError>)
        ensures
            target_fps == 0 <==> r == Err::<(), SimError>(SimError::InvalidConfiguration),
            target_fps > 0 <==> r is Ok,
            r is Err ==> *final(self) == *old(self),
            r is Ok ==> {
                &&& final(self).spec_status() == (SchedulerStatus::Record { target_fps })
                &&& final(self).spec_clock() == zero_clock()
                &&& final(self).spec_carry_ns() == 0
            },
            final(self).spec_fixed_dt_ns() == old(self).spec_fixed_dt_ns(),
            final(self).spec_max_steps_per_tick() == old(self).spec_max_steps_per_tick(),
    {
        if target_fps == 0 {
            return Err(SimError::InvalidConfiguration);
        }
        self.reset();
        self.status = SchedulerStatus::Record { target_fps };
        Ok(())
    }

    /// A recording becomes `Paused`; any other status stays.
    pub fn stop_recording(&mut self)
        ensures
            final(self).spec_status() == if old(self).spec_status() is Record {
                SchedulerStatus::Paused
            } else {
                old(self).spec_status()
            },
            final(self).spec_clock() == old(self).spec_clock(),
            final(self).spec_fixed_dt_ns() == old(self).spec_fixed_dt_ns(),
            final(self).spec_max_steps_per_tick() == old(self).spec_max_steps_per_tick(),
            final(self).spec_carry_ns() == old(self).spec_carry_ns(),
    {
        match self.status {
            SchedulerStatus::Record { .. } => {
                self.status = SchedulerStatus::Paused;
            },
            _ => {},
        }
    }

    /// Gives the scheduler another fixed timestep and starts clock and
    /// carried time over; the status stays. A zero timestep is refused and
    /// changes nothing.
    pub fn retime(&mut self, fixed_dt_ns: u64) -> (r: Result<(), SimError>)
        ensures
            fixed_dt_ns == 0 <==> r == Err::<(), SimError>(SimError::InvalidConfiguration),
            fixed_dt_ns > 0 <==> r is Ok,
            r is Err ==> *final(self) == *old(self),
            r is Ok ==> {
                &&& final(self).spec_fixed_dt_ns() == fixed_dt_ns
                &&& final(self).spec_clock() == zero_clock()
                &&& final(self).spec_carry_ns() == 0
            },
            final(self).spec_status() == old(self).spec_status(),
            final(self).spec_max_steps_per_tick() == old(self).spec_max_steps_per_tick(),
    {
        if fixed_dt_ns == 0 {
            return Err(SimError::InvalidConfiguration);
        }
        self.reset();
        self.fixed_dt_ns = fixed_dt_ns;
        Ok(())
    }

    /// Counts one frame as handed to the display.
    pub fn on_frame_submitted(&mut self)
        ensures
            final(self).spec_clock() == (SimulationClock {
                frames_rendered: if old(self).spec_clock().frames_rendered == u64::MAX {
                    u64::MAX
                } else {
                    (old(self).spec_clock().frames_rendered + 1) as u64
                },
                ..old(self).spec_clock()
            }),
            final(self).spec_status() == old(self).spec_status(),
            final(self).spec_fixed_dt_ns() == old(self).spec_fixed_dt_ns(),
            final(self).spec_max_steps_per_tick() == old(self).spec_max_steps_per_tick(),
            final(self).spec_carry_ns() == old(self).spec_carry_ns(),
    {
        self.clock.frames_rendered = self.clock.frames_rendered.saturating_add(1);
    }

    /// Steps in one recorded frame at `fps` frames per second.
    pub fn steps_per_recorded_frame(dt_ns: u64, fps: u32) -> (r: u64)
        requires
            dt_ns > 0,
            fps > 0,
        ensures
            r == record_steps_per_frame(dt_ns as int, fps as int),
            r <= NANOS_PER_SECOND,
    {
        assert(fps as int * dt_ns as int <= 0xffff_ffff * 0xffff_ffff_ffff_ffff) by (nonlinear_arith)
            requires
                0 <= fps <= 0xffff_ffff,
                0 <= dt_ns <= 0xffff_ffff_ffff_ffff,
        ;
        let frame: u128 = (fps as u128) * (dt_ns as u128);
        assert(frame > 0) by (nonlinear_arith)
            requires
                frame == fps * dt_ns,
                fps > 0,
                dt_ns > 0,
        ;
        let num: u128 = 2 * (NANOS_PER_SECOND as u128) + frame;
        let den: u128 = 2 * frame;
        let q: u128 = num / den;
        proof {
            lemma_round_div_bound(NANOS_PER_SECOND as int, frame as int);
        }
        q as u64
    }

    /// Decides how many steps this tick performs and books them on the clock.
    /// The caller then runs that many solver steps.
    pub fn tick(&mut self, wall_delta_ns: u64) -> (steps: u64)
        requires
            old(self).wf(),
        ensures
            final(self).wf(),
            tick_effect(old(self), final(self), wall_delta_ns, steps),
    {
        let dt: u64 = self.fixed_dt_ns;
        let total: u128 = self.carry_ns as u128 + wall_delta_ns as u128;
        let due128: u128 = total / (dt as u128);
        let rest128: u128 = total % (dt as u128);
        proof {
            lemma_due_fits(self.carry_ns as int, wall_delta_ns as int, dt as int);
            lemma_fundamental_div_mod(total as int, dt as int);
            lemma_mod_bound(total as int, dt as int);
        }
        let due: u64 = due128 as u64;
        let rest: u64 = rest128 as u64;
        assert(due * dt <= total) by (nonlinear_arith)
            requires
                total == dt * due + rest,
                rest >= 0,
        ;
        let steps: u64 = match self.status {
            SchedulerStatus::Paused => 0,
            SchedulerStatus::Realtime => {
                if due <= self.max_steps_per_tick {
                    self.carry_ns = rest;
                    due
                } else {
                    self.carry_ns = 0;
                    proof {
                        lemma_cap_below_due(
                            self.max_steps_per_tick as int,
                            due as int,
                            dt as int,
                        );
                    }
                    self.max_steps_per_tick
                }
            },
            SchedulerStatus::SimulateAndRender => {
                self.carry_ns = rest;
                due
            },
            SchedulerStatus::Record { target_fps } => Self::steps_per_recorded_frame(dt, target_fps),
        };
        assert(steps as int * dt as int <= u128::MAX) by (nonlinear_arith)
            requires
                steps <= u64::MAX,
                dt <= u64::MAX,
        ;
        let advanced: u128 = (steps as u128) * (dt as u128);
        self.clock.simulated_time_ns = self.clock.simulated_time_ns.saturating_add(advanced);
        self.clock.wall_time_ns = self.clock.wall_time_ns.saturating_add(wall_delta_ns as u128);
        self.clock.steps_total = self.clock.steps_total.saturating_add(steps as u128);
        self.clock.steps_this_tick = steps;
        steps
    }

    /// Books a jump of `duration_ns` of simulated time, outside the cadence of
    /// the ticks, and says how many steps it takes.
    pub fn fast_forward(&mut self, duration_ns: u64) -> (steps: u64)
        requires
            old(self).wf(),
        ensures
            final(self).wf(),
            fast_forward_effect(old(self), final(self), duration_ns, steps),
    {
        let dt: u64 = self.fixed_dt_ns;
        let num: u128 = 2 * (duration_ns as u128) + dt as u128;
        let den: u128 = 2 * (dt as u128);
        let q: u128 = num / den;
        proof {
            lemma_round_div_bound(duration_ns as int, dt as int);
        }
        let steps: u64 = q as u64;
        assert(steps as int * dt as int <= u128::MAX) by (nonlinear_arith)
            requires
                steps <= u64::MAX,
                dt <= u64::MAX,
        ;
        let advanced: u128 = (steps as u128) * (dt as u128);
        self.clock.simulated_time_ns = self.clock.simulated_time_ns.saturating_add(advanced);
        self.clock.steps_total = self.clock.steps_total.saturating_add(steps as u128);
        steps
    }
}

/// What a tick that reports `wall_delta_ns` does to a scheduler, and how
/// many steps it asks for. The status, the timestep and the cap stay. In
/// `Realtime` the steps never exceed the cap, nor simulate more time than
/// the wall clock has delivered.
pub open spec fn tick_effect(
    before: &Scheduler,
    after: &Scheduler,
    wall_delta_ns: u64,
    steps: u64,
) -> bool {
    &&& steps == tick_steps(
        before.spec_status(),
        before.spec_fixed_dt_ns() as int,
        before.spec_max_steps_per_tick() as int,
        before.spec_carry_ns() as int,
        wall_delta_ns as int,
    )
    &&& after.spec_carry_ns() == tick_carry(
        before.spec_status(),
        before.spec_fixed_dt_ns() as int,
        before.spec_max_steps_per_tick() as int,
        before.spec_carry_ns() as int,
        wall_delta_ns as int,
    )
    &&& before.spec_status() == SchedulerStatus::Realtime ==> {
        &&& steps <= before.spec_max_steps_per_tick()
        &&& steps * before.spec_fixed_dt_ns() <= before.spec_carry_ns() + wall_delta_ns
    }
    &&& after.spec_clock() == (SimulationClock {
        simulated_time_ns: sat_add(
            before.spec_clock().simulated_time_ns,
            steps * before.spec_fixed_dt_ns(),
        ),
        wall_time_ns: sat_add(before.spec_clock().wall_time_ns, wall_delta_ns as int),
        steps_total: sat_add(before.spec_clock().steps_total, steps as int),
        steps_this_tick: steps,
        frames_rendered: before.spec_clock().frames_rendered,
    })
    &&& after.spec_status() == before.spec_status()
    &&& after.spec_fixed_dt_ns() == before.spec_fixed_dt_ns()
    &&& after.spec_max_steps_per_tick() == before.spec_max_steps_per_tick()
}

/// What a fast-forward over `duration_ns` does to a scheduler, and how many
/// steps it asks for: simulated time and the step total advance, all else
/// stays.
pub open spec fn fast_forward_effect(
    before: &Scheduler,
    after: &Scheduler,
    duration_ns: u64,
    steps: u64,
) -> bool {
    &&& steps == fast_forward_step_count(duration_ns as int, before.spec_fixed_dt_ns() as int)
    &&& after.spec_clock() == (SimulationClock {
        simulated_time_ns: sat_add(
            before.spec_clock().simulated_time_ns,
            steps * before.spec_fixed_dt_ns(),
        ),
        steps_total: sat_add(before.spec_clock().steps_total, steps as int),
        ..before.spec_clock()
    })
    &&& after.spec_status() == before.spec_status()
    &&& after.spec_fixed_dt_ns() == before.spec_fixed_dt_ns()
    &&& after.spec_max_steps_per_tick() == before.spec_max_steps_per_tick()
    &&& after.spec_carry_ns() == before.spec_carry_ns()
}

/// A rounded quotient is no larger than its dividend.
pub proof fn lemma_round_div_bound(a: int, b: int)
    requires
        a >= 0,
        b > 0,
    ensures
        0 <= round_div(a, b) <= a,
{
    assert(0 <= (2 * a + b) / (2 * b) <= a) by (nonlinear_arith)
        requires
            a >= 0,
            b > 0,
    ;
}

proof fn lemma_due_fits(carry: int, delta: int, dt: int)
    requires
        0 <= carry < dt,
        0 <= delta <= u64::MAX,
        dt <= u64::MAX,
    ensures
        0 <= (carry + delta) / dt <= u64::MAX,
{
    assert(0 <= (carry + delta) / dt <= delta) by (nonlinear_arith)
        requires
            0 <= carry < dt,
            0 <= delta,
    ;
}

proof fn lemma_cap_below_due(cap: int, due: int, dt: int)
    requires
        0 <= cap < due,
        dt > 0,
    ensures
        cap * dt <= due * dt,
{
    assert(cap * dt <= due * dt) by (nonlinear_arith)
        requires
            0 <= cap < due,
            dt > 0,
    ;
}

/// While recording, the number of steps depends on how many ticks arrive and
/// on nothing else: neither on the wall-clock time each tick reports nor on
/// the time carried over from before. Any two runs of equally many ticks
/// perform the same steps, one rounded frame length per tick.
pub proof fn lemma_record_steps_ignore_wall_clock(
    dt_ns: int,
    cap: int,
    fps: u32,
    carry_ns: int,
    deltas: Seq<u64>,
)
    requires
        dt_ns > 0,
        fps > 0,
    ensures
        run_steps(SchedulerStatus::Record { target_fps: fps }, dt_ns, cap, carry_ns, deltas)
            == deltas.len() * record_steps_per_frame(dt_ns, fps as int),
        run_carry(SchedulerStatus::Record { target_fps: fps }, dt_ns, cap, carry_ns, deltas)
            == carry_ns,
    decreases deltas.len(),
{
    if deltas.len() > 0 {
        let rest = deltas.subrange(1, deltas.len() as int);
        lemma_record_steps_ignore_wall_clock(dt_ns, cap, fps, carry_ns, rest);
        let k = record_steps_per_frame(dt_ns, fps as int);
        assert(k + rest.len() * k == deltas.len() * k) by (nonlinear_arith)
            requires
                rest.len() + 1 == deltas.len(),
        ;
    }
}

/// Two recordings of equally many ticks perform equally many steps, however
/// unevenly the ticks of either arrive.
pub proof fn lemma_record_runs_agree(
    dt_ns: int,
    cap: int,
    fps: u32,
    carry_a: int,
    deltas_a: Seq<u64>,
    carry_b: int,
    deltas_b: Seq<u64>,
)
    requires
        dt_ns > 0,
        fps > 0,
        deltas_a.len() == deltas_b.len(),
    ensures
        run_steps(SchedulerStatus::Record { target_fps: fps }, dt_ns, cap, carry_a, deltas_a)
            == run_steps(
            SchedulerStatus::Record { target_fps: fps },
            dt_ns,
            cap,
            carry_b,
            deltas_b,
        ),
{
    lemma_record_steps_ignore_wall_clock(dt_ns, cap, fps, carry_a, deltas_a);
    lemma_record_steps_ignore_wall_clock(dt_ns, cap, fps, carry_b, deltas_b);
}

/// In `Realtime` no tick performs more than the cap, however long the gap
/// it reports, and the steps it performs never simulate more time than the
/// wall clock has delivered.
pub proof fn lemma_realtime_tick_capped(dt_ns: int, cap: int, carry_ns: int, wall_delta_ns: int)
    requires
        dt_ns > 0,
        cap >= 0,
        0 <= carry_ns < dt_ns,
        wall_delta_ns >= 0,
    ensures
        0 <= tick_steps(SchedulerStatus::Realtime, dt_ns, cap, carry_ns, wall_delta_ns) <= cap,
        0 <= tick_carry(SchedulerStatus::Realtime, dt_ns, cap, carry_ns, wall_delta_ns) < dt_ns,
        tick_steps(SchedulerStatus::Realtime, dt_ns, cap, carry_ns, wall_delta_ns) * dt_ns
            + tick_carry(SchedulerStatus::Realtime, dt_ns, cap, carry_ns, wall_delta_ns)
            <= carry_ns + wall_delta_ns,
{
    let total = carry_ns + wall_delta_ns;
    lemma_fundamental_div_mod(total, dt_ns);
    lemma_mod_bound(total, dt_ns);
    let due = total / dt_ns;
    let rest = total % dt_ns;
    assert(due >= 0 && due * dt_ns + rest == total) by (nonlinear_arith)
        requires
            total == dt_ns * due + rest,
            0 <= rest < dt_ns,
            total >= 0,
            dt_ns > 0,
    ;
    if due > cap {
        lemma_cap_below_due(cap, due, dt_ns);
        assert(tick_steps(SchedulerStatus::Realtime, dt_ns, cap, carry_ns, wall_delta_ns) == cap);
        assert(tick_carry(SchedulerStatus::Realtime, dt_ns, cap, carry_ns, wall_delta_ns) == 0);
    } else {
        assert(tick_steps(SchedulerStatus::Realtime, dt_ns, cap, carry_ns, wall_delta_ns) == due);
        assert(tick_carry(SchedulerStatus::Realtime, dt_ns, cap, carry_ns, wall_delta_ns) == rest);
    }
}

/// Over any run of ticks that follow the wall clock (`Realtime`, capped, or
/// `SimulateAndRender`, uncapped) or stand still (`Paused`), the simulated
/// time plus the time still carried never exceeds the wall-clock time that
/// was delivered: the lag is never negative. Uncapped, nothing is lost: the
/// two are equal.
pub proof fn lemma_lag_never_negative(
    status: SchedulerStatus,
    dt_ns: int,
    cap: int,
    carry_ns: int,
    deltas: Seq<u64>,
)
    requires
        !(status is Record),
        dt_ns > 0,
        cap >= 0,
        0 <= carry_ns < dt_ns,
    ensures
        0 <= run_steps(status, dt_ns, cap, carry_ns, deltas),
        0 <= run_carry(status, dt_ns, cap, carry_ns, deltas) < dt_ns,
        run_steps(status, dt_ns, cap, carry_ns, deltas) * dt_ns + run_carry(
            status,
            dt_ns,
            cap,
            carry_ns,
            deltas,
        ) <= carry_ns + total_wall_time(deltas),
        status == SchedulerStatus::SimulateAndRender ==> run_steps(
            status,
            dt_ns,
            cap,
            carry_ns,
            deltas,
        ) * dt_ns + run_carry(status, dt_ns, cap, carry_ns, deltas) == carry_ns + total_wall_time(
            deltas,
        ),
        status == SchedulerStatus::Realtime ==> run_steps(status, dt_ns, cap, carry_ns, deltas)
            <= deltas.len() * cap,
    decreases deltas.len(),
{
    if deltas.len() > 0 {
        let d = deltas[0] as int;
        let rest = deltas.subrange(1, deltas.len() as int);
        let total = carry_ns + d;
        lemma_fundamental_div_mod(total, dt_ns);
        lemma_mod_bound(total, dt_ns);
        lemma_realtime_tick_capped(dt_ns, cap, carry_ns, d);
        let s0 = tick_steps(status, dt_ns, cap, carry_ns, d);
        let c0 = tick_carry(status, dt_ns, cap, carry_ns, d);
        assert(total / dt_ns >= 0 && (total / dt_ns) * dt_ns + total % dt_ns == total)
            by (nonlinear_arith)
            requires
                total == dt_ns * (total / dt_ns) + total % dt_ns,
                0 <= total % dt_ns < dt_ns,
                total >= 0,
                dt_ns > 0,
        ;
        assert(0 <= s0 && 0 <= c0 < dt_ns && s0 * dt_ns + c0 <= total);
        lemma_lag_never_negative(status, dt_ns, cap, c0, rest);
        let s1 = run_steps(status, dt_ns, cap, c0, rest);
        assert((s0 + s1) * dt_ns == s0 * dt_ns + s1 * dt_ns) by (nonlinear_arith);
        assert(cap + rest.len() * cap == deltas.len() * cap) by (nonlinear_arith)
            requires
                rest.len() + 1 == deltas.len(),
        ;
    }
}

/// A tick outside of a recording never lets the clock run ahead of the wall:
/// if simulated and carried time together were within the wall-clock time
/// before the tick, they are after it. The wall-clock total must not have
/// reached its maximum.
pub proof fn lemma_tick_keeps_clock_behind_wall(
    before: &Scheduler,
    after: &Scheduler,
    wall_delta_ns: u64,
    steps: u64,
)
    requires
        before.wf(),
        !(before.spec_status() is Record),
        tick_effect(before, after, wall_delta_ns, steps),
        before.spec_clock().simulated_time_ns + before.spec_carry_ns()
            <= before.spec_clock().wall_time_ns,
        before.spec_clock().wall_time_ns + wall_delta_ns <= u128::MAX,
    ensures
        after.spec_clock().simulated_time_ns + after.spec_carry_ns()
            <= after.spec_clock().wall_time_ns,
        before.spec_status() == SchedulerStatus::Realtime ==> steps
            <= before.spec_max_steps_per_tick(),
{
    let dt = before.spec_fixed_dt_ns() as int;
    let cap = before.spec_max_steps_per_tick() as int;
    let carry = before.spec_carry_ns() as int;
    let total = carry + wall_delta_ns;
    lemma_fundamental_div_mod(total, dt);
    lemma_mod_bound(total, dt);
    lemma_realtime_tick_capped(dt, cap, carry, wall_delta_ns as int);
    let due = total / dt;
    assert(due * dt + total % dt == total) by (nonlinear_arith)
        requires
            total == dt * due + total % dt,
    ;
    assert(0 * dt == 0) by (nonlinear_arith);
}

} // verus!
