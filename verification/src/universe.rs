//! A universe: an ordered collection of celestial bodies, the pairwise
//! net-field aggregation, and the two-phase fixed-step advance.

use vstd::prelude::*;

use crate::SimError;
use crate::celestial_body::{CelestialBody, advanced, degenerate_at, field_value};
use crate::vec2::{Vec2, zero_vec2, vadd, vec2_add, ZERO_BITS};

verus! {

/// An ordered collection of bodies together with the simulation
/// configuration: the gravitational constant `g` and the time step `dt`,
/// both double-precision bit patterns, and a count of the steps executed.
pub struct Universe {
    pub entities: Vec<CelestialBody>,
    pub counter: u64,
    pub g: u64,
    pub dt: u64,
}

/// The net gravitational field the listed bodies induce at `target`'s
/// position: the left-to-right vector sum, starting from the zero vector,
/// of the contribution of every body whose name differs from `target`'s.
/// A body never contributes to the field at its own identity.
pub open spec fn net_field(entities: Seq<CelestialBody>, target: CelestialBody, g: u64) -> Vec2
    decreases entities.len(),
{
    if entities.len() == 0 {
        zero_vec2()
    } else {
        let prior = net_field(entities.drop_last(), target, g);
        let other = entities.last();
        if other.name@ == target.name@ {
            prior
        } else {
            vadd(prior, field_value(g, other.mass, other.position, target.position))
        }
    }
}

/// Whether the net field at `target`'s position is defined: no body other
/// than `target` itself sits at zero squared distance from it.
pub open spec fn net_field_defined(entities: Seq<CelestialBody>, target: CelestialBody) -> bool {
    forall|i: int|
        0 <= i < entities.len() && (#[trigger] entities[i]).name@ != target.name@
            ==> !degenerate_at(entities[i].position, target.position)
}

/// Whether one whole step is defined: the net field is defined at every
/// body in the collection.
pub open spec fn step_defined(entities: Seq<CelestialBody>) -> bool {
    forall|i: int|
        0 <= i < entities.len() ==> net_field_defined(entities, #[trigger] entities[i])
}

impl Universe {
    /// Constructs an empty universe with the given gravitational constant
    /// and time step (double-precision bit patterns) and step count zero.
    pub fn new(g: u64, dt: u64) -> (r: Universe)
        ensures
            r.entities@ == Seq::<CelestialBody>::empty(),
            r.counter == 0,
            r.g == g,
            r.dt == dt,
    {
        Universe { entities: Vec::new(), counter: 0, g, dt }
    }

    /// Appends a body to the collection. Fails with `DuplicateIdentity`,
    /// leaving the universe unchanged, if and only if a body with the
    /// same name is already present.
    pub fn add(&mut self, body: CelestialBody) -> (r: Result<(), SimError>)
        ensures
            r is Ok <==> (forall|i: int|
                0 <= i < old(self).entities@.len()
                    ==> (#[trigger] old(self).entities@[i]).name@ != body.name@),
            r is Ok ==> final(self).entities@ == old(self).entities@.push(body),
            r is Err ==> *final(self) == *old(self) && r == Result::<(), SimError>::Err(
                SimError::DuplicateIdentity,
            ),
            final(self).counter == old(self).counter,
            final(self).g == old(self).g,
            final(self).dt == old(self).dt,
    {
        let n = self.entities.len();
        let mut i: usize = 0;
        while i < n
            invariant
                0 <= i <= n,
                n == self.entities@.len(),
                forall|j: int|
                    0 <= j < i ==> (#[trigger] self.entities@[j]).name@ != body.name@,
            decreases n - i,
        {
            if self.entities[i].name == body.name {
                return Err(SimError::DuplicateIdentity);
            }
            i += 1;
        }
        self.entities.push(body);
        Ok(())
    }

    /// The net gravitational field at `entity`'s position induced by
    /// every body in the collection other than `entity` itself. Fails
    /// with `DegenerateDistance` if and only if some body other than
    /// `entity` sits exactly at `entity`'s position.
    pub fn field_at(&self, entity: &CelestialBody) -> (r: Result<Vec2, SimError>)
        ensures
            r is Ok <==> net_field_defined(self.entities@, *entity),
            r is Ok ==> r->Ok_0 == net_field(self.entities@, *entity, self.g),
            r is Err ==> r == Result::<Vec2, SimError>::Err(SimError::DegenerateDistance),
    {
        let mut field = Vec2 { x: ZERO_BITS, y: ZERO_BITS };
        let n = self.entities.len();
        let mut i: usize = 0;
        while i < n
            invariant
                0 <= i <= n,
                n == self.entities@.len(),
                field == net_field(self.entities@.take(i as int), *entity, self.g),
                forall|j: int|
                    0 <= j < i && (#[trigger] self.entities@[j]).name@ != entity.name@
                        ==> !degenerate_at(self.entities@[j].position, entity.position),
            decreases n - i,
        {
            let e = &self.entities[i];
            if e.name != entity.name {
                match e.field_at(&entity.position, self.g) {
                    Ok(contribution) => {
                        field = vec2_add(field, contribution);
                    },
                    Err(err) => {
                        return Err(err);
                    },
                }
            }
            proof {
                let s = self.entities@;
                assert(s.take(i + 1 as int).drop_last() =~= s.take(i as int));
                assert(s.take(i + 1 as int).last() == s[i as int]);
            }
            i += 1;
        }
        proof {
            assert(self.entities@.take(n as int) =~= self.entities@);
        }
        Ok(field)
    }

    /// One fixed-size time advance, in two phases that never interleave:
    /// first the net field at every body is computed from the pre-step
    /// snapshot of all positions, then every body is advanced with its
    /// computed acceleration, and the step count grows by one (saturating
    /// at its maximum). If any field computation fails, the step reports
    /// `DegenerateDistance` and the universe is left exactly as it was.
    pub fn update(&mut self) -> (r: Result<(), SimError>)
        ensures
            r is Ok <==> step_defined(old(self).entities@),
            r is Err ==> *final(self) == *old(self) && r == Result::<(), SimError>::Err(
                SimError::DegenerateDistance,
            ),
            r is Ok ==> ({
                &&& final(self).entities@.len() == old(self).entities@.len()
                &&& forall|i: int|
                    0 <= i < old(self).entities@.len()
                        ==> final(self).entities@[i] == advanced(
                        #[trigger] old(self).entities@[i],
                        net_field(old(self).entities@, old(self).entities@[i], old(self).g),
                        old(self).dt,
                    )
                &&& final(self).counter == if old(self).counter == u64::MAX {
                    u64::MAX
                } else {
                    (old(self).counter + 1) as u64
                }
                &&& final(self).g == old(self).g
                &&& final(self).dt == old(self).dt
            }),
    {
        let n = self.entities.len();
        let mut accelerations: Vec<Vec2> = Vec::new();
        let mut i: usize = 0;
        while i < n
            invariant
                0 <= i <= n,
                *self == *old(self),
                n == self.entities@.len(),
                accelerations@.len() == i,
                forall|j: int|
                    0 <= j < i ==> net_field_defined(
                        old(self).entities@,
                        #[trigger] old(self).entities@[j],
                    ) && accelerations@[j] == net_field(
                        old(self).entities@,
                        old(self).entities@[j],
                        old(self).g,
                    ),
            decreases n - i,
        {
            let target = &self.entities[i];
            match self.field_at(target) {
                Ok(acc) => {
                    accelerations.push(acc);
                },
                Err(err) => {
                    return Err(err);
                },
            }
            i += 1;
        }
        let dt = self.dt;
        let mut i: usize = 0;
        while i < n
            invariant
                0 <= i <= n,
                n == old(self).entities@.len(),
                self.entities@.len() == n,
                accelerations@.len() == n,
                dt == old(self).dt,
                self.counter == old(self).counter,
                self.g == old(self).g,
                self.dt == old(self).dt,
                step_defined(old(self).entities@),
                forall|j: int|
                    0 <= j < n ==> accelerations@[j] == net_field(
                        old(self).entities@,
                        #[trigger] old(self).entities@[j],
                        old(self).g,
                    ),
                forall|j: int| i <= j < n ==> self.entities@[j] == old(self).entities@[j],
                forall|j: int|
                    0 <= j < i ==> self.entities@[j] == advanced(
                        #[trigger] old(self).entities@[j],
                        accelerations@[j],
                        dt,
                    ),
            decreases n - i,
        {
            let acc = accelerations[i];
            self.entities[i].update(acc, dt);
            i += 1;
        }
        if self.counter < u64::MAX {
            self.counter = self.counter + 1;
        }
        Ok(())
    }
}

/// The net field at a body never includes that body's own contribution:
/// removing from the collection any body whose name matches the target's
/// leaves the net field, and whether it is defined, unchanged.
pub proof fn lemma_net_field_excludes_self(
    entities: Seq<CelestialBody>,
    target: CelestialBody,
    g: u64,
    i: int,
)
    requires
        0 <= i < entities.len(),
        entities[i].name@ == target.name@,
    ensures
        net_field(entities.remove(i), target, g) == net_field(entities, target, g),
        net_field_defined(entities.remove(i), target) == net_field_defined(entities, target),
    decreases entities.len(),
{
    let removed = entities.remove(i);
    if i == entities.len() - 1 {
        assert(removed =~= entities.drop_last());
    } else {
        lemma_net_field_excludes_self(entities.drop_last(), target, g, i);
        assert(removed.drop_last() =~= entities.drop_last().remove(i));
        assert(removed.last() == entities.last());
    }
    if net_field_defined(entities, target) {
        assert forall|k: int|
            0 <= k < removed.len() && (#[trigger] removed[k]).name@ != target.name@ implies !degenerate_at(
            removed[k].position,
            target.position,
        ) by {
            if k < i {
                assert(removed[k] == entities[k]);
            } else {
                assert(removed[k] == entities[k + 1]);
            }
        }
    }
    if net_field_defined(removed, target) {
        assert forall|k: int|
            0 <= k < entities.len() && (#[trigger] entities[k]).name@ != target.name@ implies !degenerate_at(
            entities[k].position,
            target.position,
        ) by {
            if k < i {
                assert(entities[k] == removed[k]);
            } else if k > i {
                assert(entities[k] == removed[k - 1]);
            }
        }
    }
}

} // verus!
