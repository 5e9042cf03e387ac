use ferrocene_poc::safety::brake_controller::{
    BrakeAction, BrakeController, BrakeError, BrakeState, CommandReadings,
};

// Pressures in kPa, speeds in km/h. `readings` makes the comparisons of a
// command against the calibration and the 20 km/h / 50 kPa ABS thresholds.

fn readings(c: &BrakeController<f32>, speed: f32, pressure: f32) -> CommandReadings {
    CommandReadings {
        pressure_at_least_min: pressure >= c.min_pressure(),
        pressure_at_most_max: pressure <= c.max_pressure(),
        speed_above_abs_threshold: speed > 20.0,
        pressure_above_abs_threshold: pressure > 50.0,
        pedal_pressed: pressure > 0.0,
    }
}

fn pressure_is_valid(c: &BrakeController<f32>, pressure: f32) -> bool {
    readings(c, 0.0, pressure).pressure_in_range()
}

fn command(
    c: &mut BrakeController<f32>,
    speed: f32,
    pressure: f32,
) -> Result<BrakeAction<f32>, BrakeError<f32>> {
    let r = readings(c, speed, pressure);
    c.brake_command(pressure, r)
}

// pressure range: 2-condition MC/DC set

#[test]
fn test_pressure_valid_mcdc_t1_both_conditions_true() {
    let ctrl = BrakeController::new(400.0f32, 1.0f32);
    assert!(
        pressure_is_valid(&ctrl, 200.0),
        "T1 FAILED: 200 kPa should be valid (between 1 and 400)"
    );
}

#[test]
fn test_pressure_valid_mcdc_t2_condition_a_false() {
    let ctrl = BrakeController::new(400.0f32, 10.0f32);
    assert!(
        !pressure_is_valid(&ctrl, 5.0),
        "T2 FAILED: 5 kPa should be INVALID (below min=10)"
    );
}

#[test]
fn test_pressure_valid_mcdc_t3_condition_b_false() {
    let ctrl = BrakeController::new(400.0f32, 1.0f32);
    assert!(
        !pressure_is_valid(&ctrl, 999.0),
        "T3 FAILED: 999 kPa should be INVALID (above max=400)"
    );
}

#[test]
fn test_pressure_valid_exact_boundary_min() {
    let ctrl = BrakeController::new(400.0f32, 1.0f32);
    assert!(pressure_is_valid(&ctrl, 1.0), "Exactly at min should be VALID");
    assert!(!pressure_is_valid(&ctrl, 0.9), "Just below min should be INVALID");
}

#[test]
fn test_pressure_valid_exact_boundary_max() {
    let ctrl = BrakeController::new(400.0f32, 1.0f32);
    assert!(pressure_is_valid(&ctrl, 400.0), "Exactly at max should be VALID");
    assert!(!pressure_is_valid(&ctrl, 400.1), "Just above max should be INVALID");
}

#[test]
fn test_pressure_in_range_needs_both_bounds() {
    for (lo, hi) in [(false, false), (false, true), (true, false), (true, true)] {
        let r = CommandReadings {
            pressure_at_least_min: lo,
            pressure_at_most_max: hi,
            speed_above_abs_threshold: true,
            pressure_above_abs_threshold: true,
            pedal_pressed: true,
        };
        assert_eq!(r.pressure_in_range(), lo && hi);
    }
}

// brake_command: 2-condition MC/DC set

#[test]
fn test_brake_command_mcdc_t1_abs_engaged() {
    let mut ctrl = BrakeController::new(400.0f32, 1.0f32);
    let result = command(&mut ctrl, 100.0, 200.0);
    assert!(result.is_ok(), "T1: brake_command should succeed");
    match result.unwrap() {
        BrakeAction::EngageAbs { .. } => {}
        other => panic!("T1 FAILED: Expected EngageAbs, got {:?}", other),
    }
}

#[test]
fn test_brake_command_mcdc_t2_low_speed_no_abs() {
    let mut ctrl = BrakeController::new(400.0f32, 1.0f32);
    let result = command(&mut ctrl, 10.0, 200.0);
    assert!(result.is_ok(), "T2: brake_command should succeed");
    match result.unwrap() {
        BrakeAction::NormalBrake { .. } => {}
        other => panic!("T2 FAILED: Expected NormalBrake, got {:?}", other),
    }
}

#[test]
fn test_brake_command_mcdc_t3_low_pressure_no_abs() {
    let mut ctrl = BrakeController::new(400.0f32, 1.0f32);
    let result = command(&mut ctrl, 100.0, 30.0);
    assert!(result.is_ok(), "T3: brake_command should succeed");
    match result.unwrap() {
        BrakeAction::NormalBrake { .. } => {}
        other => panic!("T3 FAILED: Expected NormalBrake, got {:?}", other),
    }
}

#[test]
fn test_brake_command_no_pedal_input_releases() {
    let mut ctrl = BrakeController::new(400.0f32, 0.0f32);
    let result = command(&mut ctrl, 80.0, 0.0);
    assert!(result.is_ok(), "No-pedal command should succeed with min=0.0");
    match result.unwrap() {
        BrakeAction::Release => {}
        other => panic!("Expected Release, got {:?}", other),
    }
}

#[test]
fn test_brake_command_answers_carry_pressure() {
    let mut ctrl = BrakeController::new(400.0f32, 1.0f32);
    assert_eq!(command(&mut ctrl, 100.0, 200.0), Ok(BrakeAction::EngageAbs { pressure: 200.0 }));
    assert_eq!(ctrl.state(), BrakeState::Active);
    assert_eq!(command(&mut ctrl, 10.0, 200.0), Ok(BrakeAction::NormalBrake { pressure: 200.0 }));
    assert_eq!(ctrl.state(), BrakeState::Active);
    assert_eq!(command(&mut ctrl, 100.0, 30.0), Ok(BrakeAction::NormalBrake { pressure: 30.0 }));
    assert_eq!(ctrl.state(), BrakeState::Active);
}

#[test]
fn test_release_returns_to_inactive() {
    let mut ctrl = BrakeController::new(400.0f32, 0.0f32);
    command(&mut ctrl, 100.0, 200.0).unwrap();
    assert_eq!(ctrl.state(), BrakeState::Active);
    assert_eq!(command(&mut ctrl, 80.0, 0.0), Ok(BrakeAction::Release));
    assert_eq!(ctrl.state(), BrakeState::Inactive);
}

// Fault state transitions

#[test]
fn test_invalid_sensor_triggers_fault_state() {
    let mut ctrl = BrakeController::new(400.0f32, 1.0f32);
    assert_eq!(ctrl.state(), BrakeState::Inactive);

    let result = command(&mut ctrl, 60.0, 999.0);
    assert!(result.is_err(), "Invalid sensor should return error");
    assert_eq!(ctrl.state(), BrakeState::FaultDetected, "State must be FaultDetected");

    let result2 = command(&mut ctrl, 60.0, 100.0);
    assert!(result2.is_err(), "Fault state must block further commands");
    match result2.unwrap_err() {
        BrakeError::ActuatorFault { .. } => {}
        other => panic!("Expected ActuatorFault, got {:?}", other),
    }
}

#[test]
fn test_invalid_sensor_error_carries_reading_and_calibration() {
    let mut ctrl = BrakeController::new(400.0f32, 10.0f32);
    assert_eq!(
        command(&mut ctrl, 60.0, 5.0),
        Err(BrakeError::InvalidSensor { reading: 5.0, min: 10.0, max: 400.0 })
    );
    assert_eq!(
        command(&mut ctrl, 60.0, 100.0),
        Err(BrakeError::ActuatorFault { current_state: BrakeState::FaultDetected })
    );
}

#[test]
fn test_fault_survives_many_commands() {
    let mut ctrl = BrakeController::new(400.0f32, 1.0f32);
    command(&mut ctrl, 60.0, 999.0).unwrap_err();
    for (speed, pressure) in [(100.0, 200.0), (0.0, 0.0), (50.0, 0.5), (100.0, 30.0)] {
        assert_eq!(
            command(&mut ctrl, speed, pressure),
            Err(BrakeError::ActuatorFault { current_state: BrakeState::FaultDetected })
        );
        assert_eq!(ctrl.state(), BrakeState::FaultDetected);
    }
}

#[test]
fn test_hardware_reset_clears_fault() {
    let mut ctrl = BrakeController::new(400.0f32, 1.0f32);
    let _ = command(&mut ctrl, 60.0, 999.0);
    assert_eq!(ctrl.state(), BrakeState::FaultDetected);

    ctrl.hardware_reset();
    assert_eq!(ctrl.state(), BrakeState::Inactive, "After reset state should be Inactive");

    let result = command(&mut ctrl, 80.0, 100.0);
    assert!(result.is_ok(), "Command should succeed after hardware reset");
}

#[test]
fn test_emergency_stop_transitions_state() {
    let mut ctrl = BrakeController::new(400.0f32, 1.0f32);
    let action = ctrl.emergency_stop();
    match action {
        BrakeAction::EngageAbs { .. } => {}
        other => panic!("Emergency stop must EngageAbs, got {:?}", other),
    }
    assert_eq!(ctrl.state(), BrakeState::EmergencyStop);
}

#[test]
fn test_emergency_stop_uses_max_pressure_and_locks() {
    let mut ctrl = BrakeController::new(400.0f32, 1.0f32);
    command(&mut ctrl, 100.0, 200.0).unwrap();
    assert_eq!(ctrl.emergency_stop(), BrakeAction::EngageAbs { pressure: 400.0 });
    assert_eq!(
        command(&mut ctrl, 80.0, 0.0),
        Err(BrakeError::ActuatorFault { current_state: BrakeState::EmergencyStop })
    );
    assert_eq!(
        command(&mut ctrl, 80.0, 999.0),
        Err(BrakeError::ActuatorFault { current_state: BrakeState::EmergencyStop })
    );
    assert_eq!(ctrl.state(), BrakeState::EmergencyStop);
    ctrl.hardware_reset();
    assert_eq!(ctrl.state(), BrakeState::Inactive);
    assert_eq!(ctrl.max_pressure(), 400.0);
    assert_eq!(ctrl.min_pressure(), 1.0);
}

#[test]
fn test_emergency_stop_from_fault() {
    let mut ctrl = BrakeController::new(400.0f32, 1.0f32);
    command(&mut ctrl, 60.0, 999.0).unwrap_err();
    assert_eq!(ctrl.emergency_stop(), BrakeAction::EngageAbs { pressure: 400.0 });
    assert_eq!(ctrl.state(), BrakeState::EmergencyStop);
}

#[test]
fn test_controller_initial_state_is_inactive() {
    let ctrl = BrakeController::new(400.0f32, 1.0f32);
    assert_eq!(ctrl.state(), BrakeState::Inactive);
}
