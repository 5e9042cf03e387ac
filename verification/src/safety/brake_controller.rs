use std::marker::PhantomData;
use std::rc::Rc;
use vstd::prelude::*;

verus! {

/// Every legal operational state of the brake actuator.
#[derive(Debug, Clone, Copy, PartialEq, Eq, Structural)]
pub enum BrakeState {
    /// Normal operation: the actuator follows the pedal.
    Active,
    /// Emergency braking: maximum force, commands are refused.
    EmergencyStop,
    /// No pedal input, or actuator depowered.
    Inactive,
    /// A sensor reading left its calibrated range: commands are refused.
    FaultDetected,
}


/// What the comparisons of one brake command's sensor readings found.
///
/// The readings themselves are physical quantities; a command is decided by
/// where they stand against the calibrated pressure range and the fixed
/// ABS thresholds (20 km/h, 50 kPa, and 0 kPa for "pedal pressed").
#[derive(Debug, Clone, Copy, PartialEq, Eq, Structural)]
pub struct CommandReadings {
    /// The pressure reading is at least the calibrated minimum.
    pub pressure_at_least_min: bool,
    /// The pressure reading is at most the calibrated maximum.
    pub pressure_at_most_max: bool,
    /// The vehicle speed is above the ABS engagement speed.
    pub speed_above_abs_threshold: bool,
    /// The pressure is above the ABS engagement pressure.
    pub pressure_above_abs_threshold: bool,
    /// The pressure is above zero: the pedal is pressed.
    pub pedal_pressed: bool,
}

/// What the actuator is told to do. `P` is the caller's pressure quantity,
/// carried through and never inspected.
#[derive(Debug, PartialEq)]
pub enum BrakeAction<P> {
    /// Engage ABS with the given pressure.
    EngageAbs {
        /// Brake pressure applied during ABS engagement.
        pressure: P,
    },
    /// Brake without ABS modulation with the given pressure.
    NormalBrake {
        /// Brake pressure applied during normal braking.
        pressure: P,
    },
    /// Release brake pressure: no pedal input.
    Release,
}

/// Why a brake command was refused.
#[derive(Debug, PartialEq)]
#[non_exhaustive]
pub enum BrakeError<P> {
    /// The pressure reading lies outside the calibrated range.
    InvalidSensor {
        /// The out-of-range reading.
        reading: P,
        /// The calibrated minimum.
        min: P,
        /// The calibrated maximum.
        max: P,
    },
    /// The controller is locked; only a hardware reset clears it.
    ActuatorFault {
        /// The state the controller was in when the command was refused.
        current_state: BrakeState,
    },
}

/// A state from which only a hardware reset leads out.
pub open spec fn is_locked(state: BrakeState) -> bool {
    state == BrakeState::FaultDetected || state == BrakeState::EmergencyStop
}

/// The pressure reading lies within the calibrated range.
pub open spec fn readings_valid(r: CommandReadings) -> bool {
    r.pressure_at_least_min && r.pressure_at_most_max
}

impl CommandReadings {
    /// Whether the pressure reading lies within the calibrated range: at
    /// least the minimum and at most the maximum, bounds included.
    pub fn pressure_in_range(&self) -> (b: bool)
        ensures
            b == readings_valid(*self),
    {
        self.pressure_at_least_min && self.pressure_at_most_max
    }
}

/// Both ABS conditions hold.
pub open spec fn abs_conditions_met(r: CommandReadings) -> bool {
    r.speed_above_abs_threshold && r.pressure_above_abs_threshold
}

/// The state after one brake command.
pub open spec fn command_next_state(state: BrakeState, r: CommandReadings) -> BrakeState {
    if is_locked(state) {
        state
    } else if !readings_valid(r) {
        BrakeState::FaultDetected
    } else if abs_conditions_met(r) || r.pedal_pressed {
        BrakeState::Active
    } else {
        BrakeState::Inactive
    }
}

/// What one brake command answers, for a controller calibrated to
/// `min ..= max` that receives `pressure`.
pub open spec fn command_answer<P>(
    state: BrakeState,
    max: P,
    min: P,
    pressure: P,
    r: CommandReadings,
) -> Result<BrakeAction<P>, BrakeError<P>> {
    if is_locked(state) {
        Err(BrakeError::ActuatorFault { current_state: state })
    } else if !readings_valid(r) {
        Err(BrakeError::InvalidSensor { reading: pressure, min, max })
    } else if abs_conditions_met(r) {
        Ok(BrakeAction::EngageAbs { pressure })
    } else if r.pedal_pressed {
        Ok(BrakeAction::NormalBrake { pressure })
    } else {
        Ok(BrakeAction::Release)
    }
}

/// The state after a sequence of commands, in order.
pub open spec fn run_commands(state: BrakeState, cmds: Seq<CommandReadings>) -> BrakeState
    decreases cmds.len(),
{
    if cmds.len() == 0 {
        state
    } else {
        run_commands(command_next_state(state, cmds[0]), cmds.drop_first())
    }
}

/// The abstract state of a [`BrakeController`].
pub struct BrakeControllerView<P> {
    /// The actuator state.
    pub state: BrakeState,
    /// The calibrated maximum pressure.
    pub max_pressure: P,
    /// The calibrated minimum pressure.
    pub min_pressure: P,
}

/// The brake actuator controller: its calibration, which state it is in,
/// and how commands, emergency stops and hardware resets move it.
pub struct BrakeController<P> {
    current_state: BrakeState,
    max_pressure: P,
    min_pressure: P,
    // Neither `Send` nor `Sync`: one brake task owns the controller.
    _thread_lock: PhantomData<Rc<()>>,
}

impl<P> View for BrakeController<P> {
    type V = BrakeControllerView<P>;

    closed spec fn view(&self) -> BrakeControllerView<P> {
        BrakeControllerView {
            state: self.current_state,
            max_pressure: self.max_pressure,
            min_pressure: self.min_pressure,
        }
    }
}

impl<P: Copy> BrakeController<P> {
    /// A freshly powered controller with the given calibration, `Inactive`.
    /// That the minimum lies below the maximum is the caller's to check.
    pub fn new(max_pressure: P, min_pressure: P) -> (c: Self)
        ensures
            c@.state == BrakeState::Inactive,
            c@.max_pressure == max_pressure,
            c@.min_pressure == min_pressure,
    {
        BrakeController {
            current_state: BrakeState::Inactive,
            max_pressure,
            min_pressure,
            _thread_lock: PhantomData,
        }
    }

    /// The current actuator state.
    pub fn state(&self) -> (s: BrakeState)
        ensures
            s == self@.state,
    {
        self.current_state
    }

    /// The calibrated maximum pressure.
    pub fn max_pressure(&self) -> (p: P)
        ensures
            p == self@.max_pressure,
    {
        self.max_pressure
    }

    /// The calibrated minimum pressure.
    pub fn min_pressure(&self) -> (p: P)
        ensures
            p == self@.min_pressure,
    {
        self.min_pressure
    }

    /// Processes one brake command with pressure reading `pressure`, whose
    /// comparisons against the calibration and the ABS thresholds are
    /// `readings`.
    ///
    /// A locked controller (`FaultDetected` or `EmergencyStop`) refuses the
    /// command with `ActuatorFault` and stays as it is. Otherwise a reading
    /// outside the calibrated range latches `FaultDetected` and is answered
    /// `InvalidSensor`; a valid reading engages ABS when both ABS conditions
    /// hold, brakes normally when the pedal is pressed, and releases the
    /// brake otherwise.
    #[must_use]
    pub fn brake_command(&mut self, pressure: P, readings: CommandReadings) -> (r: Result<
        BrakeAction<P>,
        BrakeError<P>,
    >)
        ensures
            final(self)@.state == command_next_state(old(self)@.state, readings),
            final(self)@.max_pressure == old(self)@.max_pressure,
            final(self)@.min_pressure == old(self)@.min_pressure,
            r == command_answer(
                old(self)@.state,
                old(self)@.max_pressure,
                old(self)@.min_pressure,
                pressure,
                readings,
            ),
            !is_locked(old(self)@.state) && readings.pressure_at_least_min
                && readings.pressure_at_most_max && readings.pedal_pressed && !(
            readings.speed_above_abs_threshold && readings.pressure_above_abs_threshold) ==> {
                &&& r == Ok::<BrakeAction<P>, BrakeError<P>>(BrakeAction::NormalBrake { pressure })
                &&& final(self)@.state == BrakeState::Active
            },
            r == Ok::<BrakeAction<P>, BrakeError<P>>(BrakeAction::Release) ==> !readings.pedal_pressed,
    {
        let state = self.current_state;
        if state == BrakeState::FaultDetected || state == BrakeState::EmergencyStop {
            return Err(BrakeError::ActuatorFault { current_state: state });
        }
        if !readings.pressure_in_range() {
            self.current_state = BrakeState::FaultDetected;
            return Err(
                BrakeError::InvalidSensor {
                    reading: pressure,
                    min: self.min_pressure,
                    max: self.max_pressure,
                },
            );
        }
        if readings.speed_above_abs_threshold && readings.pressure_above_abs_threshold {
            self.current_state = BrakeState::Active;
            Ok(BrakeAction::EngageAbs { pressure })
        } else if readings.pedal_pressed {
            self.current_state = BrakeState::Active;
            Ok(BrakeAction::NormalBrake { pressure })
        } else {
            self.current_state = BrakeState::Inactive;
            Ok(BrakeAction::Release)
        }
    }

    /// Triggers the emergency stop from any state: the controller locks in
    /// `EmergencyStop` and the actuator is driven with ABS at the calibrated
    /// maximum pressure.
    pub fn emergency_stop(&mut self) -> (a: BrakeAction<P>)
        ensures
            final(self)@.state == BrakeState::EmergencyStop,
            final(self)@.max_pressure == old(self)@.max_pressure,
            final(self)@.min_pressure == old(self)@.min_pressure,
            a == (BrakeAction::EngageAbs { pressure: old(self)@.max_pressure }),
    {
        self.current_state = BrakeState::EmergencyStop;
        BrakeAction::EngageAbs { pressure: self.max_pressure }
    }

    /// Clears any state after a hardware-confirmed fault clearance.
    pub fn hardware_reset(&mut self)
        ensures
            final(self)@.state == BrakeState::Inactive,
            final(self)@.max_pressure == old(self)@.max_pressure,
            final(self)@.min_pressure == old(self)@.min_pressure,
    {
        self.current_state = BrakeState::Inactive;
    }
}

/// A locked controller (fault or emergency stop) stays exactly as it is
/// whatever commands follow: only a hardware reset clears it.
pub proof fn lemma_locked_state_survives_commands(state: BrakeState, cmds: Seq<CommandReadings>)
    requires
        is_locked(state),
    ensures
        run_commands(state, cmds) == state,
    decreases cmds.len(),
{
    if cmds.len() > 0 {
        lemma_locked_state_survives_commands(state, cmds.drop_first());
    }
}

/// Starting anywhere but an emergency stop, a sequence of commands ends in
/// `FaultDetected` exactly when the controller started there or some command
/// carried a pressure reading outside the calibrated range; and commands
/// alone never lead into `EmergencyStop`.
pub proof fn lemma_fault_latched_by_invalid_reading(state: BrakeState, cmds: Seq<CommandReadings>)
    requires
        state != BrakeState::EmergencyStop,
    ensures
        run_commands(state, cmds) == BrakeState::FaultDetected <==> (state
            == BrakeState::FaultDetected || exists|i: int|
            0 <= i < cmds.len() && !readings_valid(#[trigger] cmds[i])),
        run_commands(state, cmds) != BrakeState::EmergencyStop,
    decreases cmds.len(),
{
    if cmds.len() == 0 {
    } else if state == BrakeState::FaultDetected {
        lemma_locked_state_survives_commands(state, cmds);
    } else {
        let next = command_next_state(state, cmds[0]);
        let rest = cmds.drop_first();
        lemma_fault_latched_by_invalid_reading(next, rest);
        if exists|i: int| 0 <= i < rest.len() && !readings_valid(#[trigger] rest[i]) {
            let i = choose|i: int| 0 <= i < rest.len() && !readings_valid(#[trigger] rest[i]);
            assert(cmds[i + 1] == rest[i]);
        }
        if exists|i: int| 0 <= i < cmds.len() && !readings_valid(#[trigger] cmds[i]) {
            let i = choose|i: int| 0 <= i < cmds.len() && !readings_valid(#[trigger] cmds[i]);
            if i > 0 {
                assert(rest[i - 1] == cmds[i]);
            }
        }
    }
}

/// After a hardware reset every command with a valid pressure reading is
/// accepted.
pub proof fn lemma_reset_restores_service<P>(max: P, min: P, pressure: P, r: CommandReadings)
    requires
        readings_valid(r),
    ensures
        command_answer(BrakeState::Inactive, max, min, pressure, r) is Ok,
{
}

/// An accepted command leaves the actuator `Active` exactly when it brakes,
/// and `Inactive` exactly when it releases.
pub proof fn lemma_accepted_command_state_matches_action<P>(
    state: BrakeState,
    max: P,
    min: P,
    pressure: P,
    r: CommandReadings,
)
    requires
        command_answer(state, max, min, pressure, r) is Ok,
    ensures
        command_next_state(state, r) == BrakeState::Inactive <==> command_answer(
            state,
            max,
            min,
            pressure,
            r,
        ) == Ok::<BrakeAction<P>, BrakeError<P>>(BrakeAction::Release),
        command_next_state(state, r) == BrakeState::Active || command_next_state(state, r)
            == BrakeState::Inactive,
{
}

/// A refused command leaves the actuator locked: the refusal is either the
/// lock itself or the fault it has just latched.
pub proof fn lemma_refused_command_leaves_controller_locked<P>(
    state: BrakeState,
    max: P,
    min: P,
    pressure: P,
    r: CommandReadings,
)
    requires
        command_answer(state, max, min, pressure, r) is Err,
    ensures
        is_locked(command_next_state(state, r)),
{
}

/// For an unlocked controller and a pressure reading within range, the
/// answer is fixed by the pedal and the two ABS conditions alone: ABS when
/// both ABS conditions hold, normal braking with the commanded pressure when
/// the pedal is pressed but the ABS conditions are not both met, and release
/// only when the pedal is not pressed (and ABS is not engaged). The actuator
/// is `Active` after braking and `Inactive` after a release.
pub proof fn lemma_valid_command_follows_pedal<P>(
    state: BrakeState,
    max: P,
    min: P,
    pressure: P,
    r: CommandReadings,
)
    requires
        state != BrakeState::FaultDetected,
        state != BrakeState::EmergencyStop,
        r.pressure_at_least_min,
        r.pressure_at_most_max,
    ensures
        r.speed_above_abs_threshold && r.pressure_above_abs_threshold ==> {
            &&& command_answer(state, max, min, pressure, r) == Ok::<
                BrakeAction<P>,
                BrakeError<P>,
            >(BrakeAction::EngageAbs { pressure })
            &&& command_next_state(state, r) == BrakeState::Active
        },
        !(r.speed_above_abs_threshold && r.pressure_above_abs_threshold) && r.pedal_pressed ==> {
            &&& command_answer(state, max, min, pressure, r) == Ok::<
                BrakeAction<P>,
                BrakeError<P>,
            >(BrakeAction::NormalBrake { pressure })
            &&& command_next_state(state, r) == BrakeState::Active
        },
        !(r.speed_above_abs_threshold && r.pressure_above_abs_threshold) && !r.pedal_pressed ==> {
            &&& command_answer(state, max, min, pressure, r) == Ok::<
                BrakeAction<P>,
                BrakeError<P>,
            >(BrakeAction::Release)
            &&& command_next_state(state, r) == BrakeState::Inactive
        },
        command_answer(state, max, min, pressure, r) == Ok::<BrakeAction<P>, BrakeError<P>>(
            BrakeAction::Release,
        ) ==> !r.pedal_pressed,
{
}

/// Below the ABS pressure, the vehicle speed does not matter: two commands
/// whose readings differ only in the speed comparison get the same answer
/// and lead to the same state.
pub proof fn lemma_speed_irrelevant_below_abs_pressure<P>(
    state: BrakeState,
    max: P,
    min: P,
    pressure: P,
    r1: CommandReadings,
    r2: CommandReadings,
)
    requires
        r1.pressure_at_least_min == r2.pressure_at_least_min,
        r1.pressure_at_most_max == r2.pressure_at_most_max,
        r1.pedal_pressed == r2.pedal_pressed,
        !r1.pressure_above_abs_threshold,
        !r2.pressure_above_abs_threshold,
    ensures
        command_answer(state, max, min, pressure, r1) == command_answer(
            state,
            max,
            min,
            pressure,
            r2,
        ),
        command_next_state(state, r1) == command_next_state(state, r2),
{
}

/// At low speed the pressure does not matter beyond the pedal: two commands
/// whose readings differ only in the ABS pressure comparison get the same
/// answer and lead to the same state.
pub proof fn lemma_abs_pressure_irrelevant_at_low_speed<P>(
    state: BrakeState,
    max: P,
    min: P,
    pressure: P,
    r1: CommandReadings,
    r2: CommandReadings,
)
    requires
        r1.pressure_at_least_min == r2.pressure_at_least_min,
        r1.pressure_at_most_max == r2.pressure_at_most_max,
        r1.pedal_pressed == r2.pedal_pressed,
        !r1.speed_above_abs_threshold,
        !r2.speed_above_abs_threshold,
    ensures
        command_answer(state, max, min, pressure, r1) == command_answer(
            state,
            max,
            min,
            pressure,
            r2,
        ),
        command_next_state(state, r1) == command_next_state(state, r2),
{
}

/// What a refusal says: a controller in `FaultDetected` or `EmergencyStop`
/// answers `ActuatorFault` naming that state and stays in it, whatever the
/// readings; any other controller given a pressure below the minimum or above
/// the maximum answers `InvalidSensor` with the reading and the calibrated
/// minimum and maximum, and moves to `FaultDetected`.
pub proof fn lemma_refusals<P>(
    state: BrakeState,
    max: P,
    min: P,
    pressure: P,
    r: CommandReadings,
)
    ensures
        state == BrakeState::FaultDetected || state == BrakeState::EmergencyStop ==> {
            &&& command_answer(state, max, min, pressure, r) == Err::<
                BrakeAction<P>,
                BrakeError<P>,
            >(BrakeError::ActuatorFault { current_state: state })
            &&& command_next_state(state, r) == state
        },
        state != BrakeState::FaultDetected && state != BrakeState::EmergencyStop && (
        !r.pressure_at_least_min || !r.pressure_at_most_max) ==> {
            &&& command_answer(state, max, min, pressure, r) == Err::<
                BrakeAction<P>,
                BrakeError<P>,
            >(BrakeError::InvalidSensor { reading: pressure, min, max })
            &&& command_next_state(state, r) == BrakeState::FaultDetected
        },
        state != BrakeState::FaultDetected && state != BrakeState::EmergencyStop
            && r.pressure_at_least_min && r.pressure_at_most_max ==> command_answer(
            state,
            max,
            min,
            pressure,
            r,
        ) is Ok,
{
}

} // verus!
