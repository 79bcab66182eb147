use lil_hoppa::math::Vec3;
use lil_hoppa::motor_state::MotorState;
use lil_hoppa::thrust_motor::ThrustMotor;

#[test]
fn motor_state_default_is_at_rest() {
    let m = MotorState::default();
    assert_eq!(m.input, 0);
    assert_eq!(m.current, 0);
}

#[test]
fn thrust_motor_default_values() {
    let t = ThrustMotor::default();
    assert_eq!(t.thrust, 100);
    assert_eq!(t.torque, 10);
    assert_eq!(t.offset, Vec3 { x: 0, y: 0, z: 0 });
}

#[test]
fn vec3_default_is_zero_vector() {
    let v = Vec3::default();
    assert_eq!(v, Vec3 { x: 0, y: 0, z: 0 });
}
