//! The multisample resolver's target cache: one pair of offscreen targets,
//! kept while the requested size stays the same and rebuilt when it changes.
use vstd::prelude::*;

verus! {

/// Number of vertices of the full-screen quad that composites the resolved
/// image onto the target: two triangles.
pub const COMPOSITE_VERTICES: u32 = 6;

/// How many samples per pixel the antialiased pipeline renders.
#[derive(Clone, Copy, Debug, PartialEq, Eq, Structural)]
pub enum Antialiasing {
    MSAAx2,
    MSAAx4,
    MSAAx8,
    MSAAx16,
}

/// The number of samples of each antialiasing level.
pub open spec fn samples_of(a: Antialiasing) -> u32 {
    match a {
        Antialiasing::MSAAx2 => 2,
        Antialiasing::MSAAx4 => 4,
        Antialiasing::MSAAx8 => 8,
        Antialiasing::MSAAx16 => 16,
    }
}

impl Antialiasing {
    /// The number of samples per pixel.
    pub fn sample_count(&self) -> (r: u32)
        ensures
            r == samples_of(*self),
    {
        match self {
            Antialiasing::MSAAx2 => 2,
            Antialiasing::MSAAx4 => 4,
            Antialiasing::MSAAx8 => 8,
            Antialiasing::MSAAx16 => 16,
        }
    }
}

/// The sample count of the triangle pipeline: one without antialiasing.
pub fn pipeline_sample_count(antialiasing: Option<Antialiasing>) -> (r: u32)
    ensures
        r == match antialiasing {
            Some(a) => samples_of(a),
            None => 1,
        },
{
    match antialiasing {
        Some(a) => a.sample_count(),
        None => 1,
    }
}

/// A pair of offscreen targets of one size: the multisampled attachment, the
/// single-sampled resolve target and the bind group that samples it, held
/// together as `R`.
pub struct Targets<R> {
    pub resources: R,
    pub width: u32,
    pub height: u32,
}

impl<R> Targets<R> {
    /// Creates the targets of `width` by `height` through `create`, which is
    /// handed the sample count and the size.
    pub fn new<F: FnOnce(u32, u32, u32) -> R>(
        create: F,
        sample_count: u32,
        width: u32,
        height: u32,
    ) -> (r: Targets<R>)
        requires
            call_requires(create, (sample_count, width, height)),
        ensures
            r.width == width,
            r.height == height,
            call_ensures(create, (sample_count, width, height), r.resources),
    {
        let resources = create(sample_count, width, height);
        Targets { resources, width, height }
    }
}

/// Whether targets of `width` by `height` must be created: there are none
/// yet, or those there are have another size.
pub open spec fn needs_targets<R>(targets: Option<Targets<R>>, width: u32, height: u32) -> bool {
    match targets {
        None => true,
        Some(t) => t.width != width || t.height != height,
    }
}


/// Once targets were made for a size, asking for that size again makes none,
/// and asking for any other size replaces them.
pub proof fn lemma_targets_keyed_by_size<R>(
    targets: Option<Targets<R>>,
    width: u32,
    height: u32,
    other_width: u32,
    other_height: u32,
)
    requires
        targets matches Some(t) && t.width == width && t.height == height,
    ensures
        !needs_targets(targets, width, height),
        (other_width != width || other_height != height) ==> needs_targets(
            targets,
            other_width,
            other_height,
        ),
{
}

/// The resolver's state: its sample count and the targets of the last size
/// asked for, once there has been a request.
pub struct Blit<R> {
    sample_count: u32,
    targets: Option<Targets<R>>,
}

impl<R> Blit<R> {
    /// The number of samples of the multisampled attachment.
    pub closed spec fn samples(&self) -> u32 {
        self.sample_count
    }

    /// The current targets, if any were created.
    pub closed spec fn current(&self) -> Option<Targets<R>> {
        self.targets
    }

    /// A resolver for the given antialiasing level, with no targets yet.
    pub fn new(antialiasing: Antialiasing) -> (r: Blit<R>)
        ensures
            r.samples() == samples_of(antialiasing),
            r.current() is None,
    {
        Blit { sample_count: antialiasing.sample_count(), targets: None }
    }

    /// The number of samples of the multisampled attachment.
    pub fn sample_count(&self) -> (r: u32)
        ensures
            r == self.samples(),
    {
        self.sample_count
    }

    /// The targets for a frame of `width` by `height`. Those of the previous
    /// request are kept when it had the same size; otherwise new ones are made
    /// through `create` and the old ones are dropped.
    pub fn targets<F: FnOnce(u32, u32, u32) -> R>(&mut self, create: F, width: u32, height: u32) -> (r: &R)
        requires
            needs_targets(old(self).current(), width, height) ==> call_requires(
                create,
                (old(self).samples(), width, height),
            ),
        ensures
            final(self).samples() == old(self).samples(),
            final(self).current() matches Some(t) && t.width == width && t.height == height
                && *r == t.resources,
            !needs_targets(old(self).current(), width, height) ==> *final(self) == *old(self),
            needs_targets(old(self).current(), width, height) ==> call_ensures(
                create,
                (old(self).samples(), width, height),
                *r,
            ),
    {
        let stale = match &self.targets {
            None => true,
            Some(t) => t.width != width || t.height != height,
        };
        if stale {
            self.targets = Some(Targets::new(create, self.sample_count, width, height));
        }
        &self.targets.as_ref().unwrap().resources
    }

    /// Records the pass that composites the resolved image onto the target:
    /// `record` is handed the current targets and the number of vertices of
    /// the full-screen quad. Returns whether it was recorded, which it is
    /// exactly when there are targets to composite.
    pub fn draw<F: FnOnce(&R, u32)>(&self, record: F) -> (r: bool)
        requires
            self.current() matches Some(t) ==> call_requires(
                record,
                (&t.resources, COMPOSITE_VERTICES),
            ),
        ensures
            r == self.current() is Some,
            self.current() matches Some(t) ==> call_ensures(
                record,
                (&t.resources, COMPOSITE_VERTICES),
                (),
            ),
    {
        match &self.targets {
            Some(t) => {
                record(&t.resources, COMPOSITE_VERTICES);
                true
            },
            None => false,
        }
    }
}

} // verus!
