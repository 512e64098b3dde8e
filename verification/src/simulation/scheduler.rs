//! The fixed-step scheduler: one tick is the geometry stage and then the
//! thermal stage, on one timestep, and only while there is a state.
//!
//! The scheduler decides; the caller computes. Each call of
//! [`FixedStepScheduler::step`] takes what happened outside (the timestep
//! elapsed, a computation came back) and answers with what to do next.

use vstd::prelude::*;
use crate::scalar::Scalar;
use crate::simulation::geometry::TankGeometry;
use crate::simulation::geometry::after_geometry;
use crate::simulation::geometry::spec_tank_geometry;
use crate::simulation::geometry::tank_geometry;
use crate::simulation::geometry::update_tank_geometry;
use crate::simulation::simulation_config::SimulationConfig;
use crate::simulation::thermal::ThermalInputs;
use crate::simulation::thermal::after_thermal;
use crate::simulation::thermal::has_thermal_mass;
use crate::simulation::thermal::run_simulation;
use crate::simulation::thermal::spec_has_thermal_mass;
use crate::simulation::thermal::spec_thermal_inputs;
use crate::simulation::thermal::thermal_inputs;

verus! {

/// The default length of a timestep, in seconds: the bit pattern of 0.5.
pub const FIXED_TIMESTEP_SECS: u32 = 0x3f00_0000;

/// How far the current tick has come.
#[derive(Clone, Copy, Debug, PartialEq, Eq, Structural)]
pub enum TickPhase {
    /// No tick is under way.
    Idle,
    /// The geometry stage waits for the mass of a full tank.
    AwaitingCapacity,
    /// The thermal stage waits for the result of the heat balance.
    AwaitingTemperature,
}

/// What happened outside the scheduler.
#[derive(Clone, Copy, Debug, PartialEq, Eq, Structural)]
pub enum TickEvent {
    /// The timestep elapsed: a tick is due.
    Elapsed,
    /// The mass of a full tank was computed from the geometry handed out.
    Capacity(Scalar),
    /// The heat balance was evaluated on the inputs handed out.
    Temperature(Scalar),
}

/// What the caller does next.
#[derive(Clone, Copy, Debug, PartialEq, Eq, Structural)]
pub enum TickAction {
    /// Compute the mass of a full tank and report it as
    /// [`TickEvent::Capacity`].
    ComputeCapacity(TankGeometry),
    /// Evaluate the heat balance and report it as
    /// [`TickEvent::Temperature`].
    ComputeTemperature(ThermalInputs),
    /// The tick is complete.
    Finished,
    /// The event was not acted on: there is no state to tick, or the event
    /// is not the one that the current phase waits for.
    Skipped,
}

/// The owner of the simulation state between and during ticks.
#[derive(Clone, Copy, Debug, PartialEq, Eq, Structural)]
pub struct FixedStepScheduler {
    /// Length of every timestep, in seconds; set once at startup.
    pub dt: Scalar,
    /// The state, once it has been constructed.
    pub state: Option<SimulationConfig>,
    pub phase: TickPhase,
}

impl FixedStepScheduler {
    /// The scheduler after `event`, and the action it answers with.
    ///
    /// A tick starts on [`TickEvent::Elapsed`], and only from
    /// [`TickPhase::Idle`] with a state present. The geometry stage runs on
    /// the capacity reported next; the thermal stage follows at once for a
    /// tank without water, and on the temperature reported next otherwise.
    /// Any other event leaves the scheduler as it is.
    pub open spec fn next(self, event: TickEvent) -> (FixedStepScheduler, TickAction) {
        match (self.state, self.phase, event) {
            (Some(cfg), TickPhase::Idle, TickEvent::Elapsed) => (
                FixedStepScheduler { phase: TickPhase::AwaitingCapacity, ..self },
                TickAction::ComputeCapacity(spec_tank_geometry(&cfg)),
            ),
            (Some(cfg), TickPhase::AwaitingCapacity, TickEvent::Capacity(mass_if_full)) => {
                let shaped = after_geometry(cfg, mass_if_full);
                if spec_has_thermal_mass(&shaped) {
                    (
                        FixedStepScheduler {
                            state: Some(shaped),
                            phase: TickPhase::AwaitingTemperature,
                            ..self
                        },
                        TickAction::ComputeTemperature(spec_thermal_inputs(&shaped, self.dt)),
                    )
                } else {
                    (
                        FixedStepScheduler {
                            state: Some(after_thermal(shaped, shaped.tank_average_temp.value)),
                            phase: TickPhase::Idle,
                            ..self
                        },
                        TickAction::Finished,
                    )
                }
            },
            (Some(cfg), TickPhase::AwaitingTemperature, TickEvent::Temperature(integrated)) => (
                FixedStepScheduler {
                    state: Some(after_thermal(cfg, integrated)),
                    phase: TickPhase::Idle,
                    ..self
                },
                TickAction::Finished,
            ),
            _ => (self, TickAction::Skipped),
        }
    }

    /// A scheduler with the given timestep and no state yet.
    pub fn new(dt: Scalar) -> (scheduler: Self)
        ensures
            scheduler == (FixedStepScheduler { dt, state: None, phase: TickPhase::Idle }),
    {
        FixedStepScheduler { dt, state: None, phase: TickPhase::Idle }
    }

    /// Hands the scheduler its state. A tick that is under way is given up.
    pub fn insert_state(&mut self, cfg: SimulationConfig)
        ensures
            *final(self) == (FixedStepScheduler {
                dt: old(self).dt,
                state: Some(cfg),
                phase: TickPhase::Idle,
            }),
    {
        self.state = Some(cfg);
        self.phase = TickPhase::Idle;
    }

    /// Takes `event` and answers with the next action.
    pub fn step(&mut self, event: TickEvent) -> (action: TickAction)
        ensures
            (*final(self), action) == old(self).next(event),
    {
        match (self.state, self.phase, event) {
            (Some(cfg), TickPhase::Idle, TickEvent::Elapsed) => {
                self.phase = TickPhase::AwaitingCapacity;
                TickAction::ComputeCapacity(tank_geometry(&cfg))
            },
            (Some(cfg), TickPhase::AwaitingCapacity, TickEvent::Capacity(mass_if_full)) => {
                let mut cfg = cfg;
                update_tank_geometry(&mut cfg, mass_if_full);
                if has_thermal_mass(&cfg) {
                    self.state = Some(cfg);
                    self.phase = TickPhase::AwaitingTemperature;
                    TickAction::ComputeTemperature(thermal_inputs(&cfg, self.dt))
                } else {
                    let held = cfg.tank_average_temp.value();
                    run_simulation(&mut cfg, held);
                    self.state = Some(cfg);
                    self.phase = TickPhase::Idle;
                    TickAction::Finished
                }
            },
            (Some(cfg), TickPhase::AwaitingTemperature, TickEvent::Temperature(integrated)) => {
                let mut cfg = cfg;
                run_simulation(&mut cfg, integrated);
                self.state = Some(cfg);
                self.phase = TickPhase::Idle;
                TickAction::Finished
            },
            _ => TickAction::Skipped,
        }
    }
}

impl Default for FixedStepScheduler {
    /// A scheduler with the default timestep and no state yet.
    fn default() -> (scheduler: Self)
        ensures
            scheduler == (FixedStepScheduler {
                dt: Scalar { bits: FIXED_TIMESTEP_SECS },
                state: None,
                phase: TickPhase::Idle,
            }),
    {
        FixedStepScheduler::new(Scalar::from_bits(FIXED_TIMESTEP_SECS))
    }
}

/// Without a state no tick runs: whatever the event, the scheduler stays as
/// it is.
pub proof fn lemma_no_state_no_tick(scheduler: FixedStepScheduler, event: TickEvent)
    requires
        scheduler.state is None,
    ensures
        scheduler.next(event) == (scheduler, TickAction::Skipped),
{
}

/// Ticks do not overlap: while a tick is under way, an elapsed timestep
/// starts no other and changes nothing.
pub proof fn lemma_tick_not_reentrant(scheduler: FixedStepScheduler)
    requires
        scheduler.phase != TickPhase::Idle,
    ensures
        scheduler.next(TickEvent::Elapsed) == (scheduler, TickAction::Skipped),
{
}

/// A tick is the geometry stage and then the thermal stage. From idle, with
/// a state, the scheduler asks for the capacity of the tank as it is;
/// given the capacity, it asks for the heat balance on the state that the
/// geometry stage left, with the scheduler's own timestep; given that, it
/// ends idle on the state that the thermal stage leaves.
pub proof fn lemma_tick_runs_both_stages_in_order(
    scheduler: FixedStepScheduler,
    cfg: SimulationConfig,
    mass_if_full: Scalar,
    integrated: Scalar,
)
    requires
        scheduler.state == Some(cfg),
        scheduler.phase == TickPhase::Idle,
        spec_has_thermal_mass(&after_geometry(cfg, mass_if_full)),
    ensures
        scheduler.next(TickEvent::Elapsed).1 == TickAction::ComputeCapacity(
            spec_tank_geometry(&cfg),
        ),
        scheduler.next(TickEvent::Elapsed).0.next(TickEvent::Capacity(mass_if_full)).1
            == TickAction::ComputeTemperature(
            spec_thermal_inputs(&after_geometry(cfg, mass_if_full), scheduler.dt),
        ),
        scheduler.next(TickEvent::Elapsed).0.next(TickEvent::Capacity(mass_if_full)).0.next(
            TickEvent::Temperature(integrated),
        ) == (
            FixedStepScheduler {
                state: Some(after_thermal(after_geometry(cfg, mass_if_full), integrated)),
                ..scheduler
            },
            TickAction::Finished,
        ),
{
}

/// A tick on a tank that the geometry stage leaves without water ends with
/// that stage's report: the thermal stage runs at once and keeps the tank
/// temperature.
pub proof fn lemma_tick_without_water(
    scheduler: FixedStepScheduler,
    cfg: SimulationConfig,
    mass_if_full: Scalar,
)
    requires
        scheduler.state == Some(cfg),
        scheduler.phase == TickPhase::Idle,
        !spec_has_thermal_mass(&after_geometry(cfg, mass_if_full)),
    ensures
        scheduler.next(TickEvent::Elapsed).0.next(TickEvent::Capacity(mass_if_full)).1
            == TickAction::Finished,
        scheduler.next(TickEvent::Elapsed).0.next(TickEvent::Capacity(mass_if_full)).0.phase
            == TickPhase::Idle,
        scheduler.next(TickEvent::Elapsed).0.next(TickEvent::Capacity(mass_if_full)).0.state
            matches Some(after) && after.tank_average_temp == cfg.tank_average_temp
            && after.water_temp_in.value == cfg.tank_average_temp.value
            && after.tank_water_mass == after_geometry(cfg, mass_if_full).tank_water_mass,
{
}

} // verus!
