//! The scene: an arena of materials, the spheres that refer to them, and the
//! reduction that finds the closest hit among all spheres.
use vstd::prelude::*;
use crate::error::ConfigError;
use crate::material::Material;
use crate::scalar::Scalar;
use crate::sphere::{inside, Roots, Sphere};
use crate::vec3::Vec3;

verus! {

/// The spheres of a scene, in insertion order, with the materials they share.
#[derive(Debug)]
pub struct HittableList {
    pub materials: Vec<Material>,
    pub objects: Vec<Sphere>,
}

/// A sphere together with the material it refers to.
#[derive(Clone, Copy, Debug)]
pub struct Entry {
    pub center: Vec3,
    pub radius: Scalar,
    pub material: Material,
}

/// The closest hit of a ray: which sphere, and at which ray parameter.
#[derive(Clone, Copy, Debug)]
pub struct Closest {
    pub index: usize,
    pub t: Scalar,
}

/// The closest hit among the first spheres of a scene, found as the scan
/// finds it: each sphere is tested within `(t_min, bound)`, where `bound` is
/// the closest parameter found so far, or `t_max` while there is none.
pub open spec fn spec_closest(roots: Seq<Roots>, t_min: Scalar, t_max: Scalar) -> Option<
    (int, Scalar),
>
    decreases roots.len(),
{
    if roots.len() == 0 {
        None
    } else {
        let before = spec_closest(roots.drop_last(), t_min, t_max);
        let bound = match before {
            Some((_, t)) => t,
            None => t_max,
        };
        match roots.last().spec_select(t_min, bound) {
            Some(t) => Some((roots.len() - 1, t)),
            None => before,
        }
    }
}

/// The order key of the closest hit's parameter, if there is a hit.
pub open spec fn spec_closest_key(roots: Seq<Roots>, t_min: Scalar, t_max: Scalar) -> Option<int> {
    match spec_closest(roots, t_min, t_max) {
        Some((_, t)) => Some(t.key()),
        None => None,
    }
}

/// Every set of roots is ordered.
pub open spec fn all_ordered(roots: Seq<Roots>) -> bool {
    forall|i: int| 0 <= i < roots.len() ==> (#[trigger] roots[i]).ordered()
}

impl HittableList {
    /// Every sphere refers to a material that the scene holds.
    pub open spec fn wf(&self) -> bool {
        forall|i: int|
            0 <= i < self.objects@.len() ==> (#[trigger] self.objects@[i]).material
                < self.materials@.len()
    }

    /// The spheres in insertion order, each with its material resolved.
    pub open spec fn entries(&self) -> Seq<Entry> {
        Seq::new(
            self.objects@.len(),
            |i: int|
                Entry {
                    center: self.objects@[i].center,
                    radius: self.objects@[i].radius,
                    material: self.materials@[self.objects@[i].material as int],
                },
        )
    }

    /// The empty scene.
    pub fn new() -> (world: HittableList)
        ensures
            world.wf(),
            world.materials@.len() == 0,
            world.objects@.len() == 0,
    {
        HittableList { materials: Vec::new(), objects: Vec::new() }
    }

    /// Stores a material and returns the index by which spheres refer to it.
    pub fn add_material(&mut self, material: Material) -> (id: usize)
        ensures
            old(self).wf() ==> final(self).wf(),
            id == old(self).materials@.len(),
            final(self).materials@ == old(self).materials@.push(material),
            final(self).objects@ == old(self).objects@,
    {
        let id = self.materials.len();
        self.materials.push(material);
        id
    }

    /// Appends a sphere; one that names a material the scene does not hold is
    /// refused and leaves the scene as it was.
    pub fn add(&mut self, object: Sphere) -> (r: Result<(), ConfigError>)
        ensures
            old(self).wf() ==> final(self).wf(),
            final(self).materials@ == old(self).materials@,
            object.material < old(self).materials@.len() ==> r.is_ok() && final(self).objects@
                == old(self).objects@.push(object),
            object.material >= old(self).materials@.len() ==> r == Err::<(), ConfigError>(
                ConfigError::UnknownMaterial,
            ) && final(self).objects@ == old(self).objects@,
    {
        if object.material < self.materials.len() {
            self.objects.push(object);
            Ok(())
        } else {
            Err(ConfigError::UnknownMaterial)
        }
    }

    /// Appends a sphere with a material of its own. A radius that is not
    /// strictly positive is refused and leaves the scene as it was.
    pub fn add_sphere(&mut self, center: Vec3, radius: Scalar, material: Material) -> (r: Result<
        (),
        ConfigError,
    >)
        ensures
            old(self).wf() ==> final(self).wf(),
            radius.spec_gt(Scalar { bits: 0 }) ==> r.is_ok() && final(self).materials@ == old(
                self,
            ).materials@.push(material) && final(self).objects@ == old(self).objects@.push(
                Sphere { center, radius, material: old(self).materials@.len() as usize },
            ),
            radius.spec_gt(Scalar { bits: 0 }) && old(self).wf() ==> final(self).entries() == old(
                self,
            ).entries().push(Entry { center, radius, material }),
            !radius.spec_gt(Scalar { bits: 0 }) ==> r == Err::<(), ConfigError>(
                ConfigError::NonPositiveRadius,
            ) && final(self).materials@ == old(self).materials@ && final(self).objects@ == old(
                self,
            ).objects@,
    {
        let id = self.materials.len();
        match Sphere::new(center, radius, id) {
            Ok(sphere) => {
                self.materials.push(material);
                self.objects.push(sphere);
                proof {
                    if old(self).wf() {
                        assert(final(self).entries() =~= old(self).entries().push(
                            Entry { center, radius, material },
                        ));
                    }
                }
                Ok(())
            },
            Err(e) => Err(e),
        }
    }

    /// The number of spheres.
    pub fn len(&self) -> (n: usize)
        ensures
            n == self.objects@.len(),
    {
        self.objects.len()
    }

    /// The sphere at `index`, if there is one.
    pub fn get(&self, index: usize) -> (s: Option<Sphere>)
        ensures
            index < self.objects@.len() ==> s == Some(self.objects@[index as int]),
            index >= self.objects@.len() ==> s.is_none(),
    {
        if index < self.objects.len() {
            Some(self.objects[index])
        } else {
            None
        }
    }

    /// The material at `id`, if the scene holds one there.
    pub fn material(&self, id: usize) -> (m: Option<Material>)
        ensures
            id < self.materials@.len() ==> m == Some(self.materials@[id as int]),
            id >= self.materials@.len() ==> m.is_none(),
    {
        if id < self.materials.len() {
            Some(self.materials[id])
        } else {
            None
        }
    }
}

/// Finds the closest hit of one ray among all spheres. `roots[i]` holds the
/// roots of the ray against the sphere at index `i`. The upper bound shrinks
/// to each hit found, so that a later sphere can only report a closer one.
pub fn closest_hit(roots: &Vec<Roots>, t_min: Scalar, t_max: Scalar) -> (hit: Option<Closest>)
    ensures
        match hit {
            Some(c) => spec_closest(roots@, t_min, t_max) == Some((c.index as int, c.t)),
            None => spec_closest(roots@, t_min, t_max).is_none(),
        },
        hit matches Some(c) ==> c.index < roots@.len() && inside(c.t, t_min, t_max),
        all_ordered(roots@) ==> match hit {
            Some(c) => is_closest(roots@, t_min, t_max, c.index as int, c.t),
            None => none_hit(roots@, t_min, t_max),
        },
{
    let mut best: Option<Closest> = None;
    let mut bound = t_max;
    let mut i: usize = 0;
    while i < roots.len()
        invariant
            i <= roots@.len(),
            match best {
                Some(c) => spec_closest(roots@.take(i as int), t_min, t_max) == Some(
                    (c.index as int, c.t),
                ) && bound == c.t && c.index < i && inside(c.t, t_min, t_max),
                None => spec_closest(roots@.take(i as int), t_min, t_max).is_none() && bound
                    == t_max,
            },
        decreases roots@.len() - i,
    {
        let found = roots[i].select(t_min, bound);
        proof {
            assert(roots@.take(i as int + 1).drop_last() =~= roots@.take(i as int));
            assert(roots@.take(i as int + 1).last() == roots@[i as int]);
        }
        match found {
            Some(t) => {
                best = Some(Closest { index: i, t });
                bound = t;
            },
            None => {},
        }
        i += 1;
    }
    proof {
        assert(roots@.take(i as int) =~= roots@);
        if all_ordered(roots@) {
            lemma_closest_is_minimal(roots@, t_min, t_max);
        }
    }
    best
}

/// The hit at `index` with parameter `t` is the closest one: it is the
/// selection of its own sphere within the whole interval, every earlier
/// sphere's selection lies strictly after it and no later one lies before
/// it. Among equally close spheres the first one inserted is hit.
pub open spec fn is_closest(
    roots: Seq<Roots>,
    t_min: Scalar,
    t_max: Scalar,
    index: int,
    t: Scalar,
) -> bool {
    &&& 0 <= index < roots.len()
    &&& inside(t, t_min, t_max)
    &&& roots[index].spec_select(t_min, t_max) == Some(t)
    &&& forall|j: int|
        0 <= j < roots.len() ==> ((#[trigger] roots[j]).spec_select(t_min, t_max) matches Some(r)
            ==> t.key() <= r.key() && (j < index ==> t.key() < r.key()))
}

/// No sphere has a root inside the interval.
pub open spec fn none_hit(roots: Seq<Roots>, t_min: Scalar, t_max: Scalar) -> bool {
    forall|j: int|
        0 <= j < roots.len() ==> (#[trigger] roots[j]).spec_select(t_min, t_max).is_none()
}

/// What the scan returns, said without the scan: the closest hit if any
/// sphere is hit, and nothing exactly when none is.
pub proof fn lemma_closest_is_minimal(roots: Seq<Roots>, t_min: Scalar, t_max: Scalar)
    requires
        all_ordered(roots),
    ensures
        match spec_closest(roots, t_min, t_max) {
            Some((i, t)) => is_closest(roots, t_min, t_max, i, t),
            None => none_hit(roots, t_min, t_max),
        },
    decreases roots.len(),
{
    if roots.len() > 0 {
        let init = roots.drop_last();
        assert forall|j: int| 0 <= j < init.len() implies (#[trigger] init[j]).ordered() by {
            assert(init[j] == roots[j]);
        }
        lemma_closest_is_minimal(init, t_min, t_max);
        let last = roots.last();
        assert(last == roots[roots.len() - 1]);
        assert(last.ordered());
        assert(forall|j: int| 0 <= j < init.len() ==> init[j] == roots[j]);
    }
}

/// The closest hit's parameter does not depend on the order in which the
/// spheres were inserted: two scans over the same sets of roots, in any
/// order, agree on whether there is a hit and on how far it is.
pub proof fn lemma_closest_permutation_invariant(
    first: Seq<Roots>,
    second: Seq<Roots>,
    t_min: Scalar,
    t_max: Scalar,
)
    requires
        all_ordered(first),
        first.to_multiset() =~= second.to_multiset(),
    ensures
        spec_closest_key(first, t_min, t_max) == spec_closest_key(second, t_min, t_max),
{
    first.to_multiset_ensures();
    second.to_multiset_ensures();
    assert forall|j: int| 0 <= j < second.len() implies (#[trigger] second[j]).ordered() by {
        assert(second.contains(second[j]));
        assert(first.to_multiset().count(second[j]) > 0);
        assert(first.contains(second[j]));
    }
    lemma_closest_is_minimal(first, t_min, t_max);
    lemma_closest_is_minimal(second, t_min, t_max);
    match spec_closest(first, t_min, t_max) {
        Some((i, t)) => {
            assert(first.contains(first[i]));
            assert(second.to_multiset().count(first[i]) > 0);
            assert(second.contains(first[i]));
            let j = choose|j: int| 0 <= j < second.len() && second[j] == first[i];
            assert(second[j].spec_select(t_min, t_max) == Some(t));
            let (i2, t2) = spec_closest(second, t_min, t_max).unwrap();
            assert(second.contains(second[i2]));
            assert(first.to_multiset().count(second[i2]) > 0);
            assert(first.contains(second[i2]));
            let j2 = choose|j2: int| 0 <= j2 < first.len() && first[j2] == second[i2];
            assert(first[j2].spec_select(t_min, t_max) == Some(t2));
        },
        None => {
            if let Some((i2, t2)) = spec_closest(second, t_min, t_max) {
                assert(second.contains(second[i2]));
                assert(first.to_multiset().count(second[i2]) > 0);
                assert(first.contains(second[i2]));
                let j2 = choose|j2: int| 0 <= j2 < first.len() && first[j2] == second[i2];
                assert(first[j2].spec_select(t_min, t_max) == Some(t2));
            }
        },
    }
}

} // verus!
