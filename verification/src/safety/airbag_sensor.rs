use std::marker::PhantomData;
use std::rc::Rc;
use vstd::prelude::*;

verus! {

/// Time since impact onset, in milliseconds.
#[derive(Debug, Clone, Copy, PartialEq, Eq, Structural, PartialOrd)]
pub struct TimeMs(pub u32);

/// The binary deployment vote of a single accelerometer.
#[derive(Debug, Clone, Copy, PartialEq, Eq, Structural)]
pub enum SensorVote {
    /// The sensor saw an impact above its threshold.
    Deploy,
    /// The sensor reading stayed below its threshold.
    Hold,
}

/// 1 for a `Deploy` vote, 0 for a `Hold` vote.
pub open spec fn deploy_weight(v: SensorVote) -> nat {
    match v {
        SensorVote::Deploy => 1,
        SensorVote::Hold => 0,
    }
}

/// How many of the three votes are `Deploy`.
pub open spec fn deploy_count(s1: SensorVote, s2: SensorVote, s3: SensorVote) -> nat {
    deploy_weight(s1) + deploy_weight(s2) + deploy_weight(s3)
}

/// The 2-of-3 majority of three votes.
pub open spec fn spec_majority(s1: SensorVote, s2: SensorVote, s3: SensorVote) -> SensorVote {
    if deploy_count(s1, s2, s3) >= 2 {
        SensorVote::Deploy
    } else {
        SensorVote::Hold
    }
}

impl SensorVote {
    /// Combines three independent votes: `Deploy` when at least two of them
    /// are `Deploy`, `Hold` otherwise.
    pub fn majority_vote(s1: SensorVote, s2: SensorVote, s3: SensorVote) -> (r: SensorVote)
        ensures
            r == spec_majority(s1, s2, s3),
    {
        let votes: [SensorVote; 3] = [s1, s2, s3];
        let mut deploy_count_so_far: usize = 0;
        let mut i: usize = 0;
        while i < 3
            invariant
                0 <= i <= 3,
                votes@ == seq![s1, s2, s3],
                deploy_count_so_far <= i,
                deploy_count_so_far == (if i >= 1 { deploy_weight(s1) } else { 0 })
                    + (if i >= 2 { deploy_weight(s2) } else { 0 })
                    + (if i >= 3 { deploy_weight(s3) } else { 0 }),
            decreases 3 - i,
        {
            match votes[i] {
                SensorVote::Deploy => {
                    deploy_count_so_far = deploy_count_so_far + 1;
                },
                SensorVote::Hold => {},
            }
            i = i + 1;
        }
        if deploy_count_so_far >= 2 {
            SensorVote::Deploy
        } else {
            SensorVote::Hold
        }
    }
}


/// What the comparisons of one impact's peak acceleration found, against
/// the calibrated deployment threshold.
#[derive(Debug, Clone, Copy, PartialEq, Eq, Structural)]
pub struct AccelerationReadings {
    /// The peak is below a tenth of the threshold: physically negligible.
    pub below_fault_floor: bool,
    /// The peak is at least the threshold.
    pub meets_threshold: bool,
}

/// The deployment decision for one impact, with its audit trail. `A` is the
/// caller's acceleration quantity, carried through and never inspected.
#[derive(Debug, PartialEq)]
pub enum DeploymentDecision<A> {
    /// Fire the squib.
    FireAirbag {
        /// Peak deceleration measured at impact.
        peak_acceleration: A,
        /// Time from impact onset to the fire command.
        time_to_decision: TimeMs,
    },
    /// Conditions not met: no action.
    Hold,
    /// The votes contradict the measured acceleration: enter diagnostics.
    SensorFault {
        /// What is inconsistent.
        reason: &'static str,
    },
}

/// The kind of a deployment decision, without its payload.
#[derive(Debug, Clone, Copy, PartialEq, Eq, Structural)]
pub enum DecisionKind {
    /// The squib fires.
    Fire,
    /// No action.
    Hold,
    /// Sensor inconsistency.
    SensorFault,
}

/// The kind of a decision.
pub open spec fn decision_kind<A>(d: DeploymentDecision<A>) -> DecisionKind {
    match d {
        DeploymentDecision::FireAirbag { .. } => DecisionKind::Fire,
        DeploymentDecision::Hold => DecisionKind::Hold,
        DeploymentDecision::SensorFault { .. } => DecisionKind::SensorFault,
    }
}

/// Which decision an armed or disarmed unit with the given timing budget
/// takes for one impact.
pub open spec fn deployment_kind(
    armed: bool,
    max_decision_time_ms: u32,
    s1: SensorVote,
    s2: SensorVote,
    s3: SensorVote,
    accel: AccelerationReadings,
    time_to_decision: TimeMs,
) -> DecisionKind {
    let consensus = spec_majority(s1, s2, s3);
    if !armed {
        DecisionKind::Hold
    } else if deploy_count(s1, s2, s3) == 3 && accel.below_fault_floor {
        DecisionKind::SensorFault
    } else if consensus == SensorVote::Deploy && accel.meets_threshold
        && time_to_decision.0 <= max_decision_time_ms {
        DecisionKind::Fire
    } else {
        DecisionKind::Hold
    }
}

/// The abstract state of an [`AirbagController`].
pub struct AirbagControllerView<A> {
    /// Minimum deceleration that triggers deployment.
    pub deploy_threshold_g: A,
    /// Latest time after impact onset at which firing is still allowed.
    pub max_decision_time_ms: u32,
    /// Whether deployment is armed.
    pub armed: bool,
}

/// An airbag unit: its deployment threshold, its timing budget, whether it
/// is armed, and the decision it takes for an impact.
pub struct AirbagController<A> {
    deploy_threshold_g: A,
    max_decision_time_ms: u32,
    deployment_armed: bool,
    // Neither `Send` nor `Sync`: the safety task owns the unit.
    _thread_lock: PhantomData<Rc<()>>,
}

impl<A> View for AirbagController<A> {
    type V = AirbagControllerView<A>;

    closed spec fn view(&self) -> AirbagControllerView<A> {
        AirbagControllerView {
            deploy_threshold_g: self.deploy_threshold_g,
            max_decision_time_ms: self.max_decision_time_ms,
            armed: self.deployment_armed,
        }
    }
}

impl<A: Copy> AirbagController<A> {
    /// A unit with the given threshold and timing budget, armed as at ECU
    /// power-on.
    pub fn new(deploy_threshold_g: A, max_decision_time_ms: u32) -> (c: Self)
        ensures
            c@.deploy_threshold_g == deploy_threshold_g,
            c@.max_decision_time_ms == max_decision_time_ms,
            c@.armed,
    {
        AirbagController {
            deploy_threshold_g,
            max_decision_time_ms,
            deployment_armed: true,
            _thread_lock: PhantomData,
        }
    }

    /// Arms or disarms deployment (manufacturing and service mode).
    pub fn set_armed(&mut self, armed: bool)
        ensures
            final(self)@.armed == armed,
            final(self)@.deploy_threshold_g == old(self)@.deploy_threshold_g,
            final(self)@.max_decision_time_ms == old(self)@.max_decision_time_ms,
    {
        self.deployment_armed = armed;
    }

    /// Whether deployment is armed.
    pub fn is_armed(&self) -> (b: bool)
        ensures
            b == self@.armed,
    {
        self.deployment_armed
    }

    /// The deployment threshold.
    pub fn deploy_threshold_g(&self) -> (a: A)
        ensures
            a == self@.deploy_threshold_g,
    {
        self.deploy_threshold_g
    }

    /// The latest time after impact onset at which firing is allowed.
    pub fn max_decision_time_ms(&self) -> (t: u32)
        ensures
            t == self@.max_decision_time_ms,
    {
        self.max_decision_time_ms
    }

    /// Decides whether to fire for an impact with peak `peak_acceleration`,
    /// whose comparisons against the threshold are `accel`.
    ///
    /// A disarmed unit holds whatever the inputs. An armed unit reports a
    /// sensor fault when all three sensors vote deploy but the acceleration is
    /// negligible, fires when the majority votes deploy, the acceleration
    /// meets the threshold and the decision is within the timing budget,
    /// and holds otherwise. A fire command carries the peak and the time.
    pub fn evaluate_deployment(
        &self,
        sensor_1: SensorVote,
        sensor_2: SensorVote,
        sensor_3: SensorVote,
        peak_acceleration: A,
        time_to_decision: TimeMs,
        accel: AccelerationReadings,
    ) -> (d: DeploymentDecision<A>)
        ensures
            decision_kind(d) == deployment_kind(
                self@.armed,
                self@.max_decision_time_ms,
                sensor_1,
                sensor_2,
                sensor_3,
                accel,
                time_to_decision,
            ),
            d is FireAirbag ==> d == (DeploymentDecision::FireAirbag {
                peak_acceleration,
                time_to_decision,
            }),
            d is SensorFault ==> d->reason@ == sensor_fault_reason(),
            d is SensorFault ==> deploy_count(sensor_1, sensor_2, sensor_3) == 3
                && accel.below_fault_floor,
            self@.armed && deploy_count(sensor_1, sensor_2, sensor_3) >= 2 && accel.meets_threshold
                && time_to_decision.0 <= self@.max_decision_time_ms && !(deploy_count(
                sensor_1,
                sensor_2,
                sensor_3,
            ) == 3 && accel.below_fault_floor) ==> d == (DeploymentDecision::FireAirbag {
                peak_acceleration,
                time_to_decision,
            }),
            self@.armed && deploy_count(sensor_1, sensor_2, sensor_3) >= 2 && accel.meets_threshold
                && !(deploy_count(sensor_1, sensor_2, sensor_3) == 3 && accel.below_fault_floor)
                && time_to_decision.0 > self@.max_decision_time_ms ==> d is Hold,
            !self@.armed ==> d is Hold,
            d is FireAirbag ==> {
                &&& self@.armed
                &&& spec_majority(sensor_1, sensor_2, sensor_3) == SensorVote::Deploy
                &&& accel.meets_threshold
                &&& !(deploy_count(sensor_1, sensor_2, sensor_3) == 3 && accel.below_fault_floor)
                &&& time_to_decision.0 <= self@.max_decision_time_ms
            },
    {
        if !self.deployment_armed {
            return DeploymentDecision::Hold;
        }
        let all_deploy = sensor_1 == SensorVote::Deploy && sensor_2 == SensorVote::Deploy
            && sensor_3 == SensorVote::Deploy;
        if all_deploy && accel.below_fault_floor {
            let reason = "All sensors vote deploy but acceleration is near-zero. Possible sensor bus fault or short circuit.";
            proof {
                assert(reason@ == sensor_fault_reason());
            }
            return DeploymentDecision::SensorFault { reason };
        }
        let consensus = SensorVote::majority_vote(sensor_1, sensor_2, sensor_3);
        let should_fire = consensus == SensorVote::Deploy && accel.meets_threshold
            && time_to_decision.0 <= self.max_decision_time_ms;
        if should_fire {
            DeploymentDecision::FireAirbag { peak_acceleration, time_to_decision }
        } else {
            DeploymentDecision::Hold
        }
    }
}

/// The text a sensor-fault decision carries.
pub open spec fn sensor_fault_reason() -> Seq<char> {
    "All sensors vote deploy but acceleration is near-zero. Possible sensor bus fault or short circuit."@
}

/// The majority does not depend on which sensor cast which vote.
pub proof fn lemma_majority_ignores_sensor_order(s1: SensorVote, s2: SensorVote, s3: SensorVote)
    ensures
        spec_majority(s1, s2, s3) == spec_majority(s2, s1, s3),
        spec_majority(s1, s2, s3) == spec_majority(s1, s3, s2),
        spec_majority(s1, s2, s3) == spec_majority(s3, s2, s1),
{
}

/// Two sensors that agree decide the vote: a single faulty sensor can neither
/// force a deployment nor prevent one.
pub proof fn lemma_two_agreeing_sensors_decide(s1: SensorVote, s2: SensorVote, s3: SensorVote)
    ensures
        s1 == s2 ==> spec_majority(s1, s2, s3) == s1,
        s1 == s3 ==> spec_majority(s1, s2, s3) == s1,
        s2 == s3 ==> spec_majority(s1, s2, s3) == s2,
{
}

/// Turning one `Hold` vote into `Deploy` never turns a deployment into a hold.
pub proof fn lemma_majority_monotone(s1: SensorVote, s2: SensorVote, s3: SensorVote)
    requires
        spec_majority(s1, s2, s3) == SensorVote::Deploy,
    ensures
        spec_majority(SensorVote::Deploy, s2, s3) == SensorVote::Deploy,
        spec_majority(s1, SensorVote::Deploy, s3) == SensorVote::Deploy,
        spec_majority(s1, s2, SensorVote::Deploy) == SensorVote::Deploy,
{
}

/// The decision does not depend on which sensor cast which vote: swapping
/// any two sensors gives the same decision.
pub proof fn lemma_decision_ignores_sensor_order(
    armed: bool,
    max_decision_time_ms: u32,
    s1: SensorVote,
    s2: SensorVote,
    s3: SensorVote,
    accel: AccelerationReadings,
    time_to_decision: TimeMs,
)
    ensures
        deployment_kind(armed, max_decision_time_ms, s1, s2, s3, accel, time_to_decision)
            == deployment_kind(armed, max_decision_time_ms, s2, s1, s3, accel, time_to_decision),
        deployment_kind(armed, max_decision_time_ms, s1, s2, s3, accel, time_to_decision)
            == deployment_kind(armed, max_decision_time_ms, s1, s3, s2, accel, time_to_decision),
        deployment_kind(armed, max_decision_time_ms, s1, s2, s3, accel, time_to_decision)
            == deployment_kind(armed, max_decision_time_ms, s3, s2, s1, accel, time_to_decision),
{
}

/// An armed unit fires whenever at least two sensors vote deploy, the peak
/// meets the threshold, the decision is within the configured budget and it
/// is not the fault case of three deploy votes with a negligible peak.
pub proof fn lemma_armed_unit_fires_on_majority(
    max_decision_time_ms: u32,
    s1: SensorVote,
    s2: SensorVote,
    s3: SensorVote,
    accel: AccelerationReadings,
    time_to_decision: TimeMs,
)
    requires
        deploy_count(s1, s2, s3) >= 2,
        accel.meets_threshold,
        time_to_decision.0 <= max_decision_time_ms,
        !(deploy_count(s1, s2, s3) == 3 && accel.below_fault_floor),
    ensures
        deployment_kind(true, max_decision_time_ms, s1, s2, s3, accel, time_to_decision)
            == DecisionKind::Fire,
{
}

/// With the other fire conditions met, an armed unit fires exactly when the
/// decision time is within the configured budget, whatever the budget; when
/// it is not, the unit holds.
pub proof fn lemma_fire_time_bound_is_the_budget(
    max_decision_time_ms: u32,
    s1: SensorVote,
    s2: SensorVote,
    s3: SensorVote,
    accel: AccelerationReadings,
    time_to_decision: TimeMs,
)
    requires
        deploy_count(s1, s2, s3) >= 2,
        accel.meets_threshold,
        !(deploy_count(s1, s2, s3) == 3 && accel.below_fault_floor),
    ensures
        deployment_kind(true, max_decision_time_ms, s1, s2, s3, accel, time_to_decision)
            == DecisionKind::Fire <==> time_to_decision.0 <= max_decision_time_ms,
        time_to_decision.0 > max_decision_time_ms ==> deployment_kind(
            true,
            max_decision_time_ms,
            s1,
            s2,
            s3,
            accel,
            time_to_decision,
        ) == DecisionKind::Hold,
{
}

/// An armed unit never fires on fewer than two deploy votes, below the
/// threshold, or past the budget.
pub proof fn lemma_fire_needs_every_condition(
    armed: bool,
    max_decision_time_ms: u32,
    s1: SensorVote,
    s2: SensorVote,
    s3: SensorVote,
    accel: AccelerationReadings,
    time_to_decision: TimeMs,
)
    requires
        deployment_kind(armed, max_decision_time_ms, s1, s2, s3, accel, time_to_decision)
            == DecisionKind::Fire,
    ensures
        armed,
        deploy_count(s1, s2, s3) >= 2,
        accel.meets_threshold,
        time_to_decision.0 <= max_decision_time_ms,
{
}

/// A disarmed unit holds whatever the inputs; an armed unit reports a sensor
/// fault exactly when all three sensors vote deploy and the peak is
/// negligible, and holds when fewer than two sensors vote deploy.
pub proof fn lemma_fault_and_disarm_cases(
    armed: bool,
    max_decision_time_ms: u32,
    s1: SensorVote,
    s2: SensorVote,
    s3: SensorVote,
    accel: AccelerationReadings,
    time_to_decision: TimeMs,
)
    ensures
        !armed ==> deployment_kind(armed, max_decision_time_ms, s1, s2, s3, accel, time_to_decision)
            == DecisionKind::Hold,
        armed ==> (deployment_kind(armed, max_decision_time_ms, s1, s2, s3, accel, time_to_decision)
            == DecisionKind::SensorFault <==> (s1 == SensorVote::Deploy && s2 == SensorVote::Deploy
            && s3 == SensorVote::Deploy && accel.below_fault_floor)),
        armed && deploy_count(s1, s2, s3) < 2 ==> deployment_kind(
            armed,
            max_decision_time_ms,
            s1,
            s2,
            s3,
            accel,
            time_to_decision,
        ) == DecisionKind::Hold,
{
}

} // verus!
