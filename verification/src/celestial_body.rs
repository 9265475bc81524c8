//! A celestial body: a named point mass with position, velocity and
//! acceleration, the per-body gravitational field it induces, and one
//! velocity-Verlet integration step.

use vstd::prelude::*;

use crate::SimError;
use crate::vec2::{
    Vec2, zero_vec2, is_zero_double, flip_sign, vadd, vsub, vdot, vnormalize, vscale, vscale_r,
    vdiv, fmul, double_of_u64, vec2_add, vec2_sub, vec2_dot, vec2_normalize, vec2_scale,
    vec2_scale_r, vec2_div, f64_mul, u64_to_double, ZERO_BITS, SIGN_BIT, ONE_HALF_BITS,
};

verus! {

/// A point mass. The name is the body's identity and its sole equality
/// key; the mass is a positive integer; position, velocity and
/// acceleration hold double-precision bit patterns.
#[derive(Clone, Debug)]
pub struct CelestialBody {
    pub name: String,
    pub mass: u64,
    pub position: Vec2,
    pub velocity: Vec2,
    pub acceleration: Vec2,
}

/// The squared distance, as a double, between a body's position and a
/// query point: the dot product of their difference with itself.
pub open spec fn distance_squared(body_pos: Vec2, point: Vec2) -> u64 {
    vdot(vsub(point, body_pos), vsub(point, body_pos))
}

/// Whether a field query is degenerate: the squared distance between the
/// query point and the body's position is (double-precision) zero.
pub open spec fn degenerate_at(body_pos: Vec2, point: Vec2) -> bool {
    is_zero_double(distance_squared(body_pos, point))
}

/// The gravitational field a body of the given mass at `body_pos` induces
/// at `point`, for gravitational constant `g`: magnitude `g * mass / r^2`,
/// directed from the point toward the body, computed as
/// `-g * mass * normalize(point - body_pos) / r^2`.
pub open spec fn field_value(g: u64, mass: u64, body_pos: Vec2, point: Vec2) -> Vec2 {
    let direction = vsub(point, body_pos);
    let magnitude_squared = vdot(direction, direction);
    vdiv(vscale(fmul(flip_sign(g), double_of_u64(mass)), vnormalize(direction)), magnitude_squared)
}

/// The state of a body after one velocity-Verlet step of length `dt`
/// under the freshly computed acceleration `next_acc`:
/// `position + velocity * dt + 0.5 * acceleration * dt * dt`,
/// `velocity + 0.5 * (acceleration + next_acc) * dt`, and `next_acc`,
/// each right-hand side read from the pre-step state.
pub open spec fn advanced(b: CelestialBody, next_acc: Vec2, dt: u64) -> CelestialBody {
    CelestialBody {
        position: vadd(
            vadd(b.position, vscale_r(b.velocity, dt)),
            vscale_r(vscale_r(vscale(ONE_HALF_BITS, b.acceleration), dt), dt),
        ),
        velocity: vadd(b.velocity, vscale_r(vscale(ONE_HALF_BITS, vadd(b.acceleration, next_acc)), dt)),
        acceleration: next_acc,
        ..b
    }
}

impl CelestialBody {
    /// Constructs a body at rest: zero velocity and zero acceleration.
    /// Fails with `InvalidMass` if and only if the mass is not positive.
    pub fn new(name: &str, mass: u64, position: Vec2) -> (r: Result<CelestialBody, SimError>)
        ensures
            r is Ok <==> mass > 0,
            r is Err ==> r == Result::<CelestialBody, SimError>::Err(SimError::InvalidMass),
            r is Ok ==> ({
                let b = r->Ok_0;
                &&& b.name@ == name@
                &&& b.mass == mass
                &&& b.position == position
                &&& b.velocity == zero_vec2()
                &&& b.acceleration == zero_vec2()
            }),
    {
        if mass == 0 {
            return Err(SimError::InvalidMass);
        }
        Ok(
            CelestialBody {
                name: name.to_string(),
                mass,
                position,
                velocity: Vec2 { x: ZERO_BITS, y: ZERO_BITS },
                acceleration: Vec2 { x: ZERO_BITS, y: ZERO_BITS },
            },
        )
    }

    /// One velocity-Verlet step of length `dt` (a double bit pattern):
    /// the new position and velocity are computed from the stored
    /// pre-step state together with `acceleration`, then committed at
    /// once, and `acceleration` is stored for the next step.
    pub fn update(&mut self, acceleration: Vec2, dt: u64)
        ensures
            *final(self) == advanced(*old(self), acceleration, dt),
    {
        let half_acc = vec2_scale(ONE_HALF_BITS, self.acceleration);
        let new_position = vec2_add(
            vec2_add(self.position, vec2_scale_r(self.velocity, dt)),
            vec2_scale_r(vec2_scale_r(half_acc, dt), dt),
        );
        let mean_acc = vec2_scale(ONE_HALF_BITS, vec2_add(self.acceleration, acceleration));
        let new_velocity = vec2_add(self.velocity, vec2_scale_r(mean_acc, dt));
        self.position = new_position;
        self.velocity = new_velocity;
        self.acceleration = acceleration;
    }

    /// The gravitational field this body induces at `position`, for
    /// gravitational constant `g` (a double bit pattern). Fails with
    /// `DegenerateDistance` if and only if the squared distance to the
    /// query point is zero.
    pub fn field_at(&self, position: &Vec2, g: u64) -> (r: Result<Vec2, SimError>)
        ensures
            r is Ok <==> !degenerate_at(self.position, *position),
            r is Ok ==> r->Ok_0 == field_value(g, self.mass, self.position, *position),
            r is Err ==> r == Result::<Vec2, SimError>::Err(SimError::DegenerateDistance),
    {
        let direction = vec2_sub(*position, self.position);
        let magnitude_squared = vec2_dot(direction, direction);
        if magnitude_squared == ZERO_BITS || magnitude_squared == SIGN_BIT {
            return Err(SimError::DegenerateDistance);
        }
        let unit = vec2_normalize(direction);
        let coefficient = f64_mul(g ^ SIGN_BIT, u64_to_double(self.mass));
        Ok(vec2_div(vec2_scale(coefficient, unit), magnitude_squared))
    }
}

/// Reading the field is idempotent: two queries with identical body state,
/// identical query point and identical gravitational constant are equally
/// degenerate and, when defined, yield the identical vector.
pub proof fn lemma_field_read_idempotent(
    a: CelestialBody,
    b: CelestialBody,
    p: Vec2,
    q: Vec2,
    g1: u64,
    g2: u64,
)
    requires
        a.mass == b.mass,
        a.position == b.position,
        p == q,
        g1 == g2,
    ensures
        degenerate_at(a.position, p) == degenerate_at(b.position, q),
        field_value(g1, a.mass, a.position, p) == field_value(g2, b.mass, b.position, q),
{
}

impl PartialEq for CelestialBody {
    /// Two bodies are the same body if and only if their names match,
    /// independent of mass or kinematic state.
    fn eq(&self, other: &CelestialBody) -> (r: bool) {
        self.name == other.name
    }
}

impl vstd::std_specs::cmp::PartialEqSpecImpl for CelestialBody {
    open spec fn obeys_eq_spec() -> bool {
        true
    }

    open spec fn eq_spec(&self, other: &CelestialBody) -> bool {
        self.name@ == other.name@
    }
}

} // verus!
