//! The scene: spheres and point lights, each kept in the order of insertion.
//! It only grows while it is set up, and is read while rendering.
use vstd::prelude::*;

verus! {

pub struct Scene<S, L> {
    spheres: Vec<S>,
    lights: Vec<L>,
}

impl<S, L> Scene<S, L> {
    /// The spheres, in the order in which they were added.
    pub closed spec fn spec_spheres(&self) -> Seq<S> {
        self.spheres@
    }

    /// The lights, in the order in which they were added.
    pub closed spec fn spec_lights(&self) -> Seq<L> {
        self.lights@
    }

    /// A scene with no sphere and no light.
    pub fn new() -> (r: Self)
        ensures
            r.spec_spheres() == Seq::<S>::empty(),
            r.spec_lights() == Seq::<L>::empty(),
    {
        Scene { spheres: Vec::new(), lights: Vec::new() }
    }

    /// Appends a sphere; the lights are unchanged.
    pub fn add_sphere(&mut self, sphere: S)
        ensures
            final(self).spec_spheres() == old(self).spec_spheres().push(sphere),
            final(self).spec_lights() == old(self).spec_lights(),
    {
        self.spheres.push(sphere);
    }

    /// Appends a light; the spheres are unchanged.
    pub fn add_light(&mut self, light: L)
        ensures
            final(self).spec_lights() == old(self).spec_lights().push(light),
            final(self).spec_spheres() == old(self).spec_spheres(),
    {
        self.lights.push(light);
    }

    pub fn spheres(&self) -> (r: &Vec<S>)
        ensures
            r@ == self.spec_spheres(),
    {
        &self.spheres
    }

    pub fn lights(&self) -> (r: &Vec<L>)
        ensures
            r@ == self.spec_lights(),
    {
        &self.lights
    }
}

} // verus!
