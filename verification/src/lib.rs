//! Safety logic of an automotive brake-by-wire controller and an airbag
//! deployment unit, with every decision proved against its contract.
//!
//! - [`safety::brake_controller`]: the brake actuator state machine.
//! - [`safety::airbag_sensor`]: 2-of-3 sensor voting and the deployment decision.
pub mod safety;
