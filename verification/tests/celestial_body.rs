use gravity::SimError;
use gravity::celestial_body::CelestialBody;
use gravity::vec2::Vec2;
use nalgebra::Vector2;

const G: f64 = 6.67e-11;
const DT: f64 = 1e-1;

fn bits(v: Vector2<f64>) -> Vec2 {
    Vec2 { x: v.x.to_bits(), y: v.y.to_bits() }
}

#[test]
fn has_mass() {
    let position = bits(Vector2::new(0_f64, 0_f64));
    let planet = CelestialBody::new("Sun", 10, position).unwrap();

    assert_eq!(planet.mass, 10);
}

#[test]
fn has_position() {
    let position = bits(Vector2::new(1_f64, 1_f64));
    let planet = CelestialBody::new("Sun", 10, position).unwrap();

    assert_eq!(planet.position, position);
}

#[test]
fn has_acceleration() {
    let position = bits(Vector2::new(1_f64, 1_f64));
    let planet = CelestialBody::new("Sun", 10, position).unwrap();

    assert_eq!(planet.acceleration, bits(Vector2::new(0_f64, 0_f64)));
}

#[test]
fn with_velocity_moves() {
    let initial_velocity = Vector2::new(1_f64, 2_f64);
    let mut planet = CelestialBody {
        name: String::new(),
        mass: 10,
        position: bits(Vector2::new(0_f64, 0_f64)),
        velocity: bits(initial_velocity),
        acceleration: bits(Vector2::new(0_f64, 0_f64)),
    };

    planet.update(bits(Vector2::new(0_f64, 0_f64)), DT.to_bits());

    assert_eq!(planet.position, bits(initial_velocity * DT));
}

#[test]
fn with_acceleration_changes_velocity() {
    let initial_acceleration = Vector2::new(1_f64, 2_f64);
    let mut planet = CelestialBody {
        name: String::new(),
        mass: 10,
        position: bits(Vector2::new(0_f64, 0_f64)),
        velocity: bits(Vector2::new(0_f64, 0_f64)),
        acceleration: bits(initial_acceleration),
    };

    planet.update(bits(Vector2::new(0_f64, 0_f64)), DT.to_bits());

    assert_eq!(planet.velocity, bits(0.5 * initial_acceleration * DT));
}

#[test]
fn with_new_acceleration_changes_velocity() {
    let mut planet = CelestialBody {
        name: String::new(),
        mass: 10,
        position: bits(Vector2::new(0_f64, 0_f64)),
        velocity: bits(Vector2::new(0_f64, 0_f64)),
        acceleration: bits(Vector2::new(0_f64, 0_f64)),
    };
    let new_acceleration = Vector2::new(1_f64, 2_f64);

    planet.update(bits(new_acceleration), DT.to_bits());

    assert_eq!(planet.velocity, bits(0.5 * Vector2::new(1_f64, 2_f64) * DT));
}

#[test]
fn with_acceleration_changes_position() {
    let initial_acceleration = Vector2::new(1_f64, 2_f64);
    let mut planet = CelestialBody {
        name: String::new(),
        mass: 10,
        position: bits(Vector2::new(0_f64, 0_f64)),
        velocity: bits(Vector2::new(0_f64, 0_f64)),
        acceleration: bits(initial_acceleration),
    };

    planet.update(bits(Vector2::new(0_f64, 0_f64)), DT.to_bits());

    assert_eq!(planet.position, bits(0.5 * initial_acceleration * DT * DT));
}

#[test]
fn produces_acceleration() {
    let mass = 1;
    let sun = CelestialBody::new("Sun", mass, bits(Vector2::new(0_f64, 0_f64))).unwrap();
    let position = Vector2::new(10_f64, 0_f64);
    let expected = (-G * (mass as f64) / (10_f64 * 10_f64)) * position.normalize();

    assert_eq!(sun.field_at(&bits(position), G.to_bits()).unwrap(), bits(expected));
}

#[test]
fn equals_another_with_the_same_name() {
    let sun = CelestialBody::new("Sun", 1, bits(Vector2::new(0_f64, 0_f64))).unwrap();
    let another_sun = CelestialBody::new("Sun", 10, bits(Vector2::new(0_f64, 0_f64))).unwrap();

    assert_eq!(sun, another_sun);
}

#[test]
fn does_not_equal_another_with_different_name() {
    let sun = CelestialBody::new("Sun", 1, bits(Vector2::new(0_f64, 0_f64))).unwrap();
    let sirius = CelestialBody::new("Sirius", 10, bits(Vector2::new(0_f64, 0_f64))).unwrap();

    assert_ne!(sun, sirius);
}

#[test]
fn zero_mass_is_rejected() {
    let position = bits(Vector2::new(0_f64, 0_f64));

    assert_eq!(CelestialBody::new("Ghost", 0, position), Err(SimError::InvalidMass));
    assert!(CelestialBody::new("Ghost", 1, position).is_ok());
}

#[test]
fn field_at_own_position_is_degenerate() {
    let position = bits(Vector2::new(3_f64, 4_f64));
    let sun = CelestialBody::new("Sun", 10, position).unwrap();

    assert_eq!(sun.field_at(&position, G.to_bits()), Err(SimError::DegenerateDistance));
}

#[test]
fn field_read_is_idempotent() {
    let sun = CelestialBody::new("Sun", 42, bits(Vector2::new(-3_f64, 7_f64))).unwrap();
    let point = bits(Vector2::new(1_f64, 2_f64));

    let first = sun.field_at(&point, G.to_bits()).unwrap();
    let second = sun.field_at(&point, G.to_bits()).unwrap();

    assert_eq!(first, second);
}

#[test]
fn field_follows_the_inverse_square_law() {
    let sun = CelestialBody::new("Sun", 1000, bits(Vector2::new(0_f64, 0_f64))).unwrap();
    let point = Vector2::new(0_f64, 2_f64);

    let field = sun.field_at(&bits(point), G.to_bits()).unwrap();

    let magnitude = G * 1000_f64 / 4_f64;
    assert_eq!(f64::from_bits(field.y), -magnitude);
    assert_eq!(f64::from_bits(field.x), 0_f64);
}
