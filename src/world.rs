//! The composition of the initial world: how many bodies of each mass class
//! are created. Sampling positions and masses within each class's range is
//! left to the caller.

use vstd::prelude::*;

verus! {

/// Number of massive bodies in the default world.
pub const DEFAULT_MASSIVE_BODIES: usize = 3;

/// The mass band a body's mass is sampled from.
#[derive(Clone, Copy, Debug, PartialEq, Eq, Structural)]
pub enum BodyClass {
    /// Star-like mass band.
    Massive,
    /// Planet-like mass band.
    Light,
}

/// Construction-time parameters of the world.
#[derive(Clone, Copy, Debug, PartialEq, Eq, Structural)]
pub struct WorldConfig {
    pub massive_bodies: usize,
}

/// The classes of the bodies of a world with `massive` massive bodies, in
/// creation order: the massive bodies first, then one light body.
pub open spec fn classes_of(massive: nat) -> Seq<BodyClass> {
    Seq::new(massive + 1, |k: int| if k < massive { BodyClass::Massive } else { BodyClass::Light })
}

impl WorldConfig {
    /// The default world: three massive bodies and one light body.
    pub fn new() -> (r: WorldConfig)
        ensures
            r.massive_bodies == DEFAULT_MASSIVE_BODIES,
    {
        WorldConfig { massive_bodies: DEFAULT_MASSIVE_BODIES }
    }

    /// The class of each body to create, in creation order.
    pub fn body_classes(&self) -> (r: Vec<BodyClass>)
        requires
            self.massive_bodies < usize::MAX,
        ensures
            r@ == classes_of(self.massive_bodies as nat),
    {
        let mut r: Vec<BodyClass> = Vec::new();
        let mut k: usize = 0;
        while k < self.massive_bodies
            invariant
                k <= self.massive_bodies,
                r@ == classes_of(k as nat).take(k as int),
            decreases self.massive_bodies - k,
        {
            r.push(BodyClass::Massive);
            k = k + 1;
            assert(r@ =~= classes_of(k as nat).take(k as int));
        }
        r.push(BodyClass::Light);
        assert(r@ =~= classes_of(self.massive_bodies as nat));
        r
    }
}

} // verus!
