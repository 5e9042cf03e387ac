/// Brake actuator state machine.
pub mod brake_controller;

/// Airbag sensor fusion and deployment decision.
pub mod airbag_sensor;
