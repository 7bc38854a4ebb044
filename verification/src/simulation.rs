//! The running simulation: a scene under the control of a scheduler. The
//! commands of the user interface arrive here, and so does every tick.

use vstd::prelude::*;
use crate::error::SimError;
use crate::fixed::Vec3;
use crate::scene::{config_fits, config_valid, grid_gravity, loaded_state, Scene, SceneConfig};
use crate::scheduler::{
    fast_forward_effect, tick_effect, zero_clock, ResumeMode, Scheduler, SchedulerStatus,
    SimulationClock,
};
use crate::solver::{state_after, FluidState, HybridFluid};

verus! {

/// What the user interface can ask of the running simulation beyond
/// pausing and resuming.
pub enum ApplicationEvent {
    /// Replace the scene by the one described.
    LoadScene(SceneConfig),
    /// Put the scene back to its first state.
    ResetScene,
    /// Jump ahead by a simulated duration, in nanoseconds.
    FastForwardSimulation(u64),
    /// Reset the scene and record it at a fixed frame rate. To stop
    /// recording, pause.
    ResetAndStartRecording { recording_fps: u32 },
}

/// A scene and the scheduler that steps it.
pub struct Simulation {
    scene: Scene,
    scheduler: Scheduler,
}

impl Simulation {
    pub closed spec fn spec_scene(&self) -> Scene {
        self.scene
    }

    pub closed spec fn spec_scheduler(&self) -> Scheduler {
        self.scheduler
    }

    /// The state of the fluid.
    pub open spec fn fluid_state(&self) -> FluidState {
        self.spec_scene().spec_fluid()@
    }

    /// Scene and scheduler are well formed and step by the same timestep.
    pub open spec fn wf(&self) -> bool {
        &&& self.spec_scene().wf()
        &&& self.spec_scheduler().wf()
        &&& self.spec_scheduler().spec_fixed_dt_ns() == self.spec_scene().spec_config().fixed_dt_ns
    }

    /// Loads a scene and pauses on a fresh clock. A description that is
    /// invalid or does not fit is refused before anything exists.
    pub fn new(config: SceneConfig, max_steps_per_tick: u64) -> (r: Result<Simulation, SimError>)
        ensures
            !config_valid(&config) <==> r == Err::<Simulation, SimError>(
                SimError::InvalidConfiguration,
            ),
            config_valid(&config) && !config_fits(&config) <==> r == Err::<Simulation, SimError>(
                SimError::CapacityExceeded,
            ),
            r is Ok ==> {
                let s = r->Ok_0;
                &&& s.wf()
                &&& s.spec_scene().spec_config() == config
                &&& s.fluid_state() == loaded_state(&config)
                &&& s.spec_scheduler().spec_status() == SchedulerStatus::Paused
                &&& s.spec_scheduler().spec_clock() == zero_clock()
                &&& s.spec_scheduler().spec_carry_ns() == 0
                &&& s.spec_scheduler().spec_max_steps_per_tick() == max_steps_per_tick
            },
    {
        let dt: u64 = config.fixed_dt_ns;
        let scene = match Scene::new(config) {
            Ok(s) => s,
            Err(e) => {
                return Err(e);
            },
        };
        match Scheduler::new(dt, max_steps_per_tick) {
            Ok(scheduler) => Ok(Simulation { scene, scheduler }),
            Err(e) => Err(e),
        }
    }

    /// The scene, for reading until the next step.
    pub fn scene(&self) -> (r: &Scene)
        ensures
            *r == self.spec_scene(),
    {
        &self.scene
    }

    /// The solver, for reading until the next step.
    pub fn fluid(&self) -> (r: &HybridFluid)
        ensures
            *r == self.spec_scene().spec_fluid(),
    {
        self.scene.fluid()
    }

    pub fn status(&self) -> (r: SchedulerStatus)
        ensures
            r == self.spec_scheduler().spec_status(),
    {
        self.scheduler.status()
    }

    /// The counters of the clock.
    pub fn clock(&self) -> (r: SimulationClock)
        ensures
            r == self.spec_scheduler().spec_clock(),
    {
        self.scheduler.clock()
    }

    /// The scheduler, for reading.
    pub fn scheduler(&self) -> (r: &Scheduler)
        ensures
            *r == self.spec_scheduler(),
    {
        &self.scheduler
    }

    /// Stops stepping. The fluid stays as the last finished step left it.
    pub fn pause(&mut self)
        requires
            old(self).wf(),
        ensures
            final(self).wf(),
            final(self).spec_scene() == old(self).spec_scene(),
            final(self).spec_scheduler().spec_status() == SchedulerStatus::Paused,
            final(self).spec_scheduler().spec_clock() == old(self).spec_scheduler().spec_clock(),
            final(self).spec_scheduler().spec_carry_ns() == old(
                self,
            ).spec_scheduler().spec_carry_ns(),
            final(self).spec_scheduler().spec_max_steps_per_tick() == old(
                self,
            ).spec_scheduler().spec_max_steps_per_tick(),
    {
        self.scheduler.pause();
    }

    /// Leaves `Paused` for the mode asked for; does nothing in any other status.
    pub fn resume(&mut self, mode: ResumeMode)
        requires
            old(self).wf(),
        ensures
            final(self).wf(),
            final(self).spec_scene() == old(self).spec_scene(),
            final(self).spec_scheduler().spec_status() == if old(
                self,
            ).spec_scheduler().spec_status() == SchedulerStatus::Paused {
                match mode {
                    ResumeMode::Realtime => SchedulerStatus::Realtime,
                    ResumeMode::SimulateAndRender => SchedulerStatus::SimulateAndRender,
                }
            } else {
                old(self).spec_scheduler().spec_status()
            },
            final(self).spec_scheduler().spec_clock() == old(self).spec_scheduler().spec_clock(),
            final(self).spec_scheduler().spec_carry_ns() == old(
                self,
            ).spec_scheduler().spec_carry_ns(),
            final(self).spec_scheduler().spec_max_steps_per_tick() == old(
                self,
            ).spec_scheduler().spec_max_steps_per_tick(),
    {
        self.scheduler.resume(mode);
    }

    /// Puts the fluid back to what the scene loads to and starts the clock
    /// over. The status stays.
    pub fn reset(&mut self)
        requires
            old(self).wf(),
        ensures
            final(self).wf(),
            final(self).is_reset_of(old(self)),
    {
        self.scene.reset();
        self.scheduler.reset();
    }

    /// Resets fluid and clock and starts recording at `target_fps` frames
    /// per second. A frame rate of zero is refused and changes nothing.
    pub fn start_recording(&mut self, target_fps: u32) -> (r: Result<(), SimError>)
        requires
            old(self).wf(),
        ensures
            final(self).wf(),
            target_fps == 0 <==> r == Err::<(), SimError>(SimError::InvalidConfiguration),
            target_fps > 0 <==> r is Ok,
            r is Err ==> *final(self) == *old(self),
            r is Ok ==> final(self).is_recording_of(old(self), target_fps),
    {
        if target_fps == 0 {
            return Err(SimError::InvalidConfiguration);
        }
        self.scene.reset();
        match self.scheduler.start_recording(target_fps) {
            Ok(()) => Ok(()),
            Err(e) => Err(e),
        }
    }

    /// Ends a recording in `Paused`; does nothing in any other status.
    pub fn stop_recording(&mut self)
        requires
            old(self).wf(),
        ensures
            final(self).wf(),
            final(self).spec_scene() == old(self).spec_scene(),
            final(self).spec_scheduler().spec_status() == if old(
                self,
            ).spec_scheduler().spec_status() is Record {
                SchedulerStatus::Paused
            } else {
                old(self).spec_scheduler().spec_status()
            },
            final(self).spec_scheduler().spec_clock() == old(self).spec_scheduler().spec_clock(),
            final(self).spec_scheduler().spec_carry_ns() == old(
                self,
            ).spec_scheduler().spec_carry_ns(),
            final(self).spec_scheduler().spec_max_steps_per_tick() == old(
                self,
            ).spec_scheduler().spec_max_steps_per_tick(),
    {
        self.scheduler.stop_recording();
    }

    /// Changes the gravity, given in world space, for every later step.
    pub fn set_gravity(&mut self, gravity: Vec3)
        requires
            old(self).wf(),
        ensures
            final(self).wf(),
            final(self).spec_scheduler() == old(self).spec_scheduler(),
            final(self).spec_scene().spec_config().gravity == gravity,
            final(self).spec_scene().spec_config().fluid == old(
                self,
            ).spec_scene().spec_config().fluid,
            final(self).spec_scene().spec_config().fills == old(
                self,
            ).spec_scene().spec_config().fills,
            final(self).fluid_state() == (FluidState {
                gravity: grid_gravity(
                    gravity,
                    old(self).spec_scene().spec_config().fluid.grid_to_world_scale,
                ),
                ..old(self).fluid_state()
            }),
    {
        self.scene.set_gravity(gravity);
    }

    /// Replaces the scene and starts the clock over at the new timestep;
    /// the status stays. A description that cannot be loaded is refused,
    /// and the scene that was running stays as it was.
    pub fn load_scene(&mut self, config: SceneConfig) -> (r: Result<(), SimError>)
        requires
            old(self).wf(),
        ensures
            final(self).wf(),
            !config_valid(&config) <==> r == Err::<(), SimError>(SimError::InvalidConfiguration),
            config_valid(&config) && !config_fits(&config) <==> r == Err::<(), SimError>(
                SimError::CapacityExceeded,
            ),
            r is Err ==> *final(self) == *old(self),
            r is Ok ==> final(self).is_loaded_from(old(self), &config),
    {
        let dt: u64 = config.fixed_dt_ns;
        match Scene::new(config) {
            Ok(scene) => {
                self.scene = scene;
                match self.scheduler.retime(dt) {
                    Ok(()) => Ok(()),
                    Err(e) => Err(e),
                }
            },
            Err(e) => Err(e),
        }
    }

    /// What a reset leaves: the fluid as the scene loads it, a fresh clock,
    /// and the status, the cap and the description as they were.
    pub open spec fn is_reset_of(&self, before: &Simulation) -> bool {
        &&& self.spec_scene().spec_config() == before.spec_scene().spec_config()
        &&& self.fluid_state() == loaded_state(&before.spec_scene().spec_config())
        &&& self.spec_scheduler().spec_status() == before.spec_scheduler().spec_status()
        &&& self.spec_scheduler().spec_clock() == zero_clock()
        &&& self.spec_scheduler().spec_carry_ns() == 0
        &&& self.spec_scheduler().spec_max_steps_per_tick()
            == before.spec_scheduler().spec_max_steps_per_tick()
    }

    /// What a started recording leaves: as a reset, but in `Record`.
    pub open spec fn is_recording_of(&self, before: &Simulation, target_fps: u32) -> bool {
        &&& self.spec_scene().spec_config() == before.spec_scene().spec_config()
        &&& self.fluid_state() == loaded_state(&before.spec_scene().spec_config())
        &&& self.spec_scheduler().spec_status() == (SchedulerStatus::Record { target_fps })
        &&& self.spec_scheduler().spec_clock() == zero_clock()
        &&& self.spec_scheduler().spec_carry_ns() == 0
        &&& self.spec_scheduler().spec_max_steps_per_tick()
            == before.spec_scheduler().spec_max_steps_per_tick()
    }

    /// What a loaded scene leaves: the new description and its fluid, a
    /// fresh clock, and the status and the cap as they were.
    pub open spec fn is_loaded_from(&self, before: &Simulation, config: &SceneConfig) -> bool {
        &&& self.spec_scene().spec_config() == *config
        &&& self.fluid_state() == loaded_state(config)
        &&& self.spec_scheduler().spec_status() == before.spec_scheduler().spec_status()
        &&& self.spec_scheduler().spec_clock() == zero_clock()
        &&& self.spec_scheduler().spec_carry_ns() == 0
        &&& self.spec_scheduler().spec_max_steps_per_tick()
            == before.spec_scheduler().spec_max_steps_per_tick()
    }

    /// Pauses a simulation that runs or records, and resumes a paused one
    /// in `Realtime`.
    pub fn pause_or_resume(&mut self)
        requires
            old(self).wf(),
        ensures
            final(self).wf(),
            final(self).spec_scene() == old(self).spec_scene(),
            final(self).spec_scheduler().spec_status() == if old(
                self,
            ).spec_scheduler().spec_status() == SchedulerStatus::Paused {
                SchedulerStatus::Realtime
            } else {
                SchedulerStatus::Paused
            },
            final(self).spec_scheduler().spec_clock() == old(self).spec_scheduler().spec_clock(),
            final(self).spec_scheduler().spec_carry_ns() == old(
                self,
            ).spec_scheduler().spec_carry_ns(),
            final(self).spec_scheduler().spec_max_steps_per_tick() == old(
                self,
            ).spec_scheduler().spec_max_steps_per_tick(),
    {
        match self.scheduler.status() {
            SchedulerStatus::Paused => self.scheduler.resume(ResumeMode::Realtime),
            _ => self.scheduler.pause(),
        }
    }

    /// Carries out one event of the user interface and says how many steps
    /// it made. An event that is refused changes nothing.
    pub fn handle_event(&mut self, event: ApplicationEvent) -> (r: Result<u64, SimError>)
        requires
            old(self).wf(),
        ensures
            final(self).wf(),
            r is Err ==> *final(self) == *old(self),
            match event {
                ApplicationEvent::LoadScene(config) => {
                    &&& !config_valid(&config) <==> r == Err::<u64, SimError>(
                        SimError::InvalidConfiguration,
                    )
                    &&& config_valid(&config) && !config_fits(&config) <==> r == Err::<
                        u64,
                        SimError,
                    >(SimError::CapacityExceeded)
                    &&& r is Ok ==> r == Ok::<u64, SimError>(0) && final(self).is_loaded_from(
                        old(self),
                        &config,
                    )
                },
                ApplicationEvent::ResetScene => r == Ok::<u64, SimError>(0) && final(self).is_reset_of(old(self)),
                ApplicationEvent::FastForwardSimulation(duration_ns) => {
                    &&& r is Ok
                    &&& fast_forward_effect(
                        &old(self).spec_scheduler(),
                        &final(self).spec_scheduler(),
                        duration_ns,
                        r->Ok_0,
                    )
                    &&& final(self).spec_scene().spec_config() == old(
                        self,
                    ).spec_scene().spec_config()
                    &&& final(self).fluid_state() == state_after(
                        old(self).fluid_state(),
                        r->Ok_0 as nat,
                    )
                },
                ApplicationEvent::ResetAndStartRecording { recording_fps } => {
                    &&& recording_fps == 0 <==> r == Err::<u64, SimError>(
                        SimError::InvalidConfiguration,
                    )
                    &&& recording_fps > 0 <==> r == Ok::<u64, SimError>(0)
                    &&& r is Ok ==> final(self).is_recording_of(old(self), recording_fps)
                },
            },
    {
        match event {
            ApplicationEvent::LoadScene(config) => match self.load_scene(config) {
                Ok(()) => Ok(0),
                Err(e) => Err(e),
            },
            ApplicationEvent::ResetScene => {
                self.reset();
                Ok(0)
            },
            ApplicationEvent::FastForwardSimulation(duration_ns) => Ok(
                self.fast_forward(duration_ns),
            ),
            ApplicationEvent::ResetAndStartRecording { recording_fps } => match self.start_recording(
                recording_fps,
            ) {
                Ok(()) => Ok(0),
                Err(e) => Err(e),
            },
        }
    }

    fn run_steps(&mut self, steps: u64)
        requires
            old(self).wf(),
        ensures
            final(self).wf(),
            final(self).spec_scheduler() == old(self).spec_scheduler(),
            final(self).spec_scene().spec_config() == old(self).spec_scene().spec_config(),
            final(self).fluid_state() == state_after(old(self).fluid_state(), steps as nat),
    {
        let mut done: u64 = 0;
        while done < steps
            invariant
                done <= steps,
                self.wf(),
                self.scheduler == old(self).scheduler,
                self.spec_scene().spec_config() == old(self).spec_scene().spec_config(),
                self.fluid_state() == state_after(old(self).fluid_state(), done as nat),
            decreases steps - done,
        {
            self.scene.step();
            done += 1;
        }
    }

    /// One external tick: the scheduler decides from the wall-clock time
    /// since the last tick how many steps are due, and the solver makes
    /// exactly that many, one after the other.
    pub fn tick(&mut self, wall_delta_ns: u64) -> (steps: u64)
        requires
            old(self).wf(),
        ensures
            final(self).wf(),
            tick_effect(
                &old(self).spec_scheduler(),
                &final(self).spec_scheduler(),
                wall_delta_ns,
                steps,
            ),
            final(self).spec_scene().spec_config() == old(self).spec_scene().spec_config(),
            final(self).fluid_state() == state_after(old(self).fluid_state(), steps as nat),
    {
        let steps: u64 = self.scheduler.tick(wall_delta_ns);
        self.run_steps(steps);
        steps
    }

    /// Jumps ahead by `duration_ns` of simulated time at once, outside the
    /// cadence of the ticks.
    pub fn fast_forward(&mut self, duration_ns: u64) -> (steps: u64)
        requires
            old(self).wf(),
        ensures
            final(self).wf(),
            fast_forward_effect(
                &old(self).spec_scheduler(),
                &final(self).spec_scheduler(),
                duration_ns,
                steps,
            ),
            final(self).spec_scene().spec_config() == old(self).spec_scene().spec_config(),
            final(self).fluid_state() == state_after(old(self).fluid_state(), steps as nat),
    {
        let steps: u64 = self.scheduler.fast_forward(duration_ns);
        self.run_steps(steps);
        steps
    }

    /// Counts one frame as handed to the display.
    pub fn on_frame_submitted(&mut self)
        requires
            old(self).wf(),
        ensures
            final(self).wf(),
            final(self).spec_scene() == old(self).spec_scene(),
            final(self).spec_scheduler().spec_clock() == (SimulationClock {
                frames_rendered: if old(self).spec_scheduler().spec_clock().frames_rendered
                    == u64::MAX {
                    u64::MAX
                } else {
                    (old(self).spec_scheduler().spec_clock().frames_rendered + 1) as u64
                },
                ..old(self).spec_scheduler().spec_clock()
            }),
            final(self).spec_scheduler().spec_status() == old(self).spec_scheduler().spec_status(),
            final(self).spec_scheduler().spec_carry_ns() == old(
                self,
            ).spec_scheduler().spec_carry_ns(),
            final(self).spec_scheduler().spec_max_steps_per_tick() == old(
                self,
            ).spec_scheduler().spec_max_steps_per_tick(),
    {
        self.scheduler.on_frame_submitted();
    }
}

} // verus!
