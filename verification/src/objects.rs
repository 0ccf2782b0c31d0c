//! What a scene is made of: surfaces, spheres, lights, and the scene that
//! owns them, with the rule that picks the sphere a ray meets first.
//!
//! Lengths, coefficients and distances are scalars of a type `T` that the
//! caller chooses. The rules compare scalars through `T`'s own ordering; what
//! they return is known exactly for every `T` whose ordering follows its
//! specification.

use crate::ppm::RGB;
use crate::vector::Vec3;
use vstd::prelude::*;
use vstd::std_specs::cmp::{PartialOrdIs, PartialOrdSpec};
use vstd::std_specs::convert::FromSpec;

verus! {

/// Whether comparing two scalars of type `T` follows the specification of
/// `T`'s ordering.
pub open spec fn ordered<T: PartialOrd>() -> bool {
    T::obeys_partial_cmp_spec()
}

/// Whether turning a small integer into a scalar of type `T` follows the
/// specification of that conversion.
pub open spec fn counted<T: From<u8>>() -> bool {
    T::obeys_from_spec()
}

/// Whether both comparing scalars of type `T` and making them from small
/// integers follow their specifications.
pub open spec fn lawful<T: PartialOrd + From<u8>>() -> bool {
    ordered::<T>() && counted::<T>()
}

/// Whether `r` is greater than zero.
pub open spec fn positive<T: PartialOrd + From<u8>>(r: T) -> bool {
    r.is_gt(&T::from_spec(0u8))
}

/// Whether `r` is greater than zero.
pub fn is_positive<T: PartialOrd + From<u8>>(r: &T) -> (b: bool)
    ensures
        lawful::<T>() ==> b == positive(*r),
{
    let zero = T::from(0u8);
    *r > zero
}

/// How a surface treats light.
#[derive(Clone, Copy, Debug)]
pub enum SurfaceType<T> {
    /// An opaque surface of the given colour.
    Solid(RGB),
    /// A perfect mirror.
    Mirror,
    /// A transparent body; the scalar is the ratio of the refractive indices.
    Transparent(T),
}

/// What a ray has met, as far as the transport of light cares.
#[derive(Clone, Copy, Debug, PartialEq, Eq, Structural)]
pub enum Seen {
    Nothing,
    Solid(RGB),
    Mirror,
    Transparent,
}

impl<T> SurfaceType<T> {
    /// What a ray that meets this surface has seen.
    pub open spec fn shows(self) -> Seen {
        match self {
            SurfaceType::Solid(c) => Seen::Solid(c),
            SurfaceType::Mirror => Seen::Mirror,
            SurfaceType::Transparent(_) => Seen::Transparent,
        }
    }

    /// What a ray that meets this surface has seen.
    pub fn seen(&self) -> (s: Seen)
        ensures
            s == self.shows(),
    {
        match self {
            SurfaceType::Solid(c) => Seen::Solid(*c),
            SurfaceType::Mirror => Seen::Mirror,
            SurfaceType::Transparent(_) => Seen::Transparent,
        }
    }

    /// Whether light that falls on the surface is scattered: only an opaque
    /// surface scatters light.
    pub fn scatters(&self) -> (b: bool)
        ensures
            b == (self is Solid),
    {
        match self {
            SurfaceType::Solid(_) => true,
            _ => false,
        }
    }

    /// The ratio of refractive indices, which only a transparent surface has.
    pub fn index_ratio(&self) -> (ratio: Option<&T>)
        ensures
            match *self {
                SurfaceType::Transparent(k) => ratio == Some(&k),
                _ => ratio.is_none(),
            },
    {
        match self {
            SurfaceType::Transparent(k) => Some(k),
            _ => None,
        }
    }
}

/// The reflectance of a surface.
#[derive(Clone, Copy, Debug)]
pub struct SurfaceOptions<T> {
    pub spec_ref: T,
    pub diff_ref: T,
    pub amb_ref: T,
    pub shininess: T,
    pub surface_type: SurfaceType<T>,
}

impl<T> SurfaceOptions<T> {
    /// The coefficients are taken in the order specular, diffuse, ambient,
    /// shininess.
    pub fn new(sp: T, df: T, amb: T, sh: T, so: SurfaceType<T>) -> (o: SurfaceOptions<T>)
        ensures
            o == (SurfaceOptions {
                spec_ref: sp,
                diff_ref: df,
                amb_ref: amb,
                shininess: sh,
                surface_type: so,
            }),
    {
        SurfaceOptions { spec_ref: sp, diff_ref: df, amb_ref: amb, shininess: sh, surface_type: so }
    }
}

/// The intensities of a light.
#[derive(Clone, Copy, Debug)]
pub struct LightOptions<T> {
    pub spec_ref: T,
    pub diff_ref: T,
    pub amb_ref: T,
}

impl<T> LightOptions<T> {
    /// The intensities are taken in the order specular, diffuse, ambient.
    pub fn new(sp: T, df: T, amb: T) -> (o: LightOptions<T>)
        ensures
            o == (LightOptions { spec_ref: sp, diff_ref: df, amb_ref: amb }),
    {
        LightOptions { spec_ref: sp, diff_ref: df, amb_ref: amb }
    }
}

/// A point light.
#[derive(Clone, Copy, Debug)]
pub struct Light<T> {
    pub center: Vec3<T>,
    pub opt: LightOptions<T>,
}

impl<T> Light<T> {
    pub fn new(c: Vec3<T>, o: LightOptions<T>) -> (l: Light<T>)
        ensures
            l == (Light { center: c, opt: o }),
    {
        Light { center: c, opt: o }
    }
}

/// A sphere. Its radius is greater than zero.
#[derive(Debug)]
pub struct Sphere<T: PartialOrd + From<u8>> {
    center: Vec3<T>,
    radius: T,
    opt: SurfaceOptions<T>,
}

/// What a sphere holds.
pub struct SphereView<T> {
    pub center: Vec3<T>,
    pub radius: T,
    pub opt: SurfaceOptions<T>,
}

impl<T: PartialOrd + From<u8> + Copy> Clone for Sphere<T> {
    fn clone(&self) -> (s: Self)
        ensures
            s == *self,
    {
        *self
    }
}

impl<T: PartialOrd + From<u8> + Copy> Copy for Sphere<T> {

}

impl<T: PartialOrd + From<u8>> View for Sphere<T> {
    type V = SphereView<T>;

    closed spec fn view(&self) -> SphereView<T> {
        SphereView { center: self.center, radius: self.radius, opt: self.opt }
    }
}

impl<T: PartialOrd + From<u8>> Sphere<T> {
    #[verifier::type_invariant]
    spec fn has_positive_radius(&self) -> bool {
        lawful::<T>() ==> positive(self.radius)
    }

    /// A sphere with the given centre, radius and surface, or nothing if the
    /// radius is not greater than zero.
    pub fn new(c: Vec3<T>, r: T, o: SurfaceOptions<T>) -> (made: Option<Sphere<T>>)
        ensures
            lawful::<T>() ==> (made.is_some() <==> positive(r)),
            made matches Some(s) ==> s@ == (SphereView { center: c, radius: r, opt: o }),
    {
        if is_positive(&r) {
            Some(Sphere { center: c, radius: r, opt: o })
        } else {
            None
        }
    }

    pub fn center(&self) -> (c: &Vec3<T>)
        ensures
            *c == self@.center,
    {
        &self.center
    }

    /// The radius. It is greater than zero.
    pub fn radius(&self) -> (r: &T)
        ensures
            *r == self@.radius,
            lawful::<T>() ==> positive(*r),
    {
        proof {
            use_type_invariant(self);
        }
        &self.radius
    }

    pub fn opt(&self) -> (o: &SurfaceOptions<T>)
        ensures
            *o == self@.opt,
    {
        &self.opt
    }
}

/// Whether distance `a` is smaller than distance `b`.
pub open spec fn nearer<T: PartialOrd>(a: T, b: T) -> bool {
    a.is_lt(&b)
}

/// Among the first `n` of `hits`, the place of the distance that a scan from
/// the front keeps: the first distance it finds, replaced whenever a later one
/// is smaller than the one kept. An entry of `None` is a sphere that the ray
/// misses.
pub open spec fn nearest<T: PartialOrd>(hits: Seq<Option<T>>, n: int) -> Option<int>
    decreases n,
{
    if n <= 0 {
        None
    } else {
        let kept = nearest(hits, n - 1);
        match (hits[n - 1], kept) {
            (None, _) => kept,
            (Some(_), None) => Some(n - 1),
            (Some(d), Some(k)) => if nearer(d, hits[k]->0) {
                Some(n - 1)
            } else {
                kept
            },
        }
    }
}

/// Whether `T`'s ordering ranks scalars the way distances are ranked: no
/// scalar is before itself or before one that is before it, and whatever is
/// before another is before, or the other is after, any third.
pub open spec fn ranked<T: PartialOrd>() -> bool {
    &&& forall|a: T, b: T| #[trigger] nearer(a, b) ==> !nearer(b, a)
    &&& forall|a: T, b: T, c: T|
        #![trigger nearer(a, b), nearer(a, c)]
        #![trigger nearer(a, b), nearer(c, b)]
        nearer(a, b) ==> nearer(a, c) || nearer(c, b)
}

/// The orderings of machine integers rank them, and comparing and making
/// them follows the specifications.
pub proof fn integers_are_ranked()
    ensures
        ranked::<u32>(),
        lawful::<u32>(),
        ranked::<u64>(),
        lawful::<u64>(),
{
}

/// The scan keeps a sphere exactly when the ray meets one, and the sphere it
/// keeps is one that the ray meets.
pub proof fn nearest_is_met<T: PartialOrd>(hits: Seq<Option<T>>, n: int)
    requires
        0 <= n <= hits.len(),
    ensures
        nearest(hits, n) matches Some(m) ==> 0 <= m < n && hits[m].is_some(),
        nearest(hits, n).is_none() <==> forall|j: int| 0 <= j < n ==> hits[j].is_none(),
    decreases n,
{
    if n > 0 {
        nearest_is_met(hits, n - 1);
    }
}

/// Of two spheres that a ray meets, the scan keeps the second only if it is
/// nearer than the first: at equal distance the first one stays.
pub proof fn nearest_of_two<T: PartialOrd>(first: T, second: T)
    ensures
        nearest(seq![Some(first), Some(second)], 2) == Some(
            if nearer(second, first) {
                1int
            } else {
                0int
            },
        ),
{
    let hits = seq![Some(first), Some(second)];
    assert(nearest(hits, 0) == None::<int>);
    assert(nearest(hits, 1) == Some(0int));
}

/// Where distances are ranked, the sphere that the scan keeps is the first
/// among the nearest: no sphere is nearer, and every sphere that comes before
/// it in the scene is farther.
pub proof fn nearest_is_first_among_closest<T: PartialOrd>(hits: Seq<Option<T>>, n: int)
    requires
        ranked::<T>(),
        0 <= n <= hits.len(),
    ensures
        nearest(hits, n) matches Some(m) ==> {
            &&& forall|j: int| 0 <= j < n && hits[j].is_some() ==> !nearer(hits[j]->0, hits[m]->0)
            &&& forall|j: int| 0 <= j < m && hits[j].is_some() ==> nearer(hits[m]->0, hits[j]->0)
        },
    decreases n,
{
    if n > 0 {
        nearest_is_first_among_closest(hits, n - 1);
        nearest_is_met(hits, n - 1);
        nearest_is_met(hits, n);
        match (hits[n - 1], nearest(hits, n - 1)) {
            (None, _) => {},
            (Some(d), None) => {
                assert(nearer(d, d) ==> !nearer(d, d));
            },
            (Some(d), Some(k)) => {
                let dk = hits[k]->0;
                if nearer(d, dk) {
                    assert(nearer(d, d) ==> !nearer(d, d));
                    assert(!nearer(dk, d));
                    assert forall|j: int| 0 <= j < n && hits[j].is_some() implies !nearer(
                        hits[j]->0,
                        d,
                    ) by {
                        let dj = hits[j]->0;
                        if j < n - 1 && nearer(dj, d) {
                            assert(nearer(dj, dk) || nearer(dk, d));
                        }
                    }
                    assert forall|j: int| 0 <= j < n - 1 && hits[j].is_some() implies nearer(
                        d,
                        hits[j]->0,
                    ) by {
                        let dj = hits[j]->0;
                        assert(nearer(d, dj) || nearer(dj, dk));
                    }
                }
            },
        }
    }
}

/// A scene: spheres and lights, each kept in the order in which they were
/// added.
pub struct Scene<T: PartialOrd + From<u8>> {
    obj: Vec<Sphere<T>>,
    lights: Vec<Light<T>>,
}

impl<T: PartialOrd + From<u8>> Scene<T> {
    /// The spheres, in the order in which they were added.
    pub closed spec fn spheres(&self) -> Seq<Sphere<T>> {
        self.obj@
    }

    /// The lights, in the order in which they were added.
    pub closed spec fn lamps(&self) -> Seq<Light<T>> {
        self.lights@
    }

    /// What a ray has seen whose nearest sphere is `hit`.
    pub open spec fn shows(&self, hit: Option<usize>) -> Seen {
        match hit {
            Some(i) if i < self.spheres().len() => self.spheres()[i as int]@.opt.surface_type.shows(),
            _ => Seen::Nothing,
        }
    }

    /// A scene without spheres and without lights.
    pub fn new() -> (scene: Scene<T>)
        ensures
            scene.spheres() == Seq::<Sphere<T>>::empty(),
            scene.lamps() == Seq::<Light<T>>::empty(),
    {
        Scene { obj: Vec::new(), lights: Vec::new() }
    }

    /// Adds a sphere after those that the scene holds.
    pub fn add_obj(&mut self, s: Sphere<T>)
        ensures
            final(self).spheres() == old(self).spheres().push(s),
            final(self).lamps() == old(self).lamps(),
    {
        self.obj.push(s);
    }

    /// Adds a light after those that the scene holds.
    pub fn add_light(&mut self, l: Light<T>)
        ensures
            final(self).lamps() == old(self).lamps().push(l),
            final(self).spheres() == old(self).spheres(),
    {
        self.lights.push(l);
    }

    /// The spheres, in the order in which they were added.
    pub fn objects(&self) -> (all: &Vec<Sphere<T>>)
        ensures
            all@ == self.spheres(),
    {
        &self.obj
    }

    /// The lights, in the order in which they were added.
    pub fn lights(&self) -> (all: &Vec<Light<T>>)
        ensures
            all@ == self.lamps(),
    {
        &self.lights
    }

    /// How many of `hits` belong to a sphere of the scene.
    pub open spec fn scanned(&self, hits: Seq<Option<T>>) -> int {
        if hits.len() <= self.spheres().len() {
            hits.len() as int
        } else {
            self.spheres().len() as int
        }
    }

    /// The sphere that a ray meets first. `hits[i]` is the distance at which
    /// the ray meets the `i`-th sphere, or `None` if it misses that sphere; a
    /// sphere without an entry counts as missed, and an entry without a sphere
    /// is left out. The result is `None` exactly when the ray meets no sphere.
    /// Of two spheres at the same distance the one added first is returned.
    pub fn ind_viewing(&self, hits: &Vec<Option<T>>) -> (found: Option<usize>)
        ensures
            found.is_none() <==> forall|j: int|
                0 <= j < self.scanned(hits@) ==> hits@[j].is_none(),
            found matches Some(i) ==> i < self.scanned(hits@) && hits@[i as int].is_some(),
            ordered::<T>() ==> match found {
                Some(i) => nearest(hits@, self.scanned(hits@)) == Some(i as int),
                None => nearest(hits@, self.scanned(hits@)).is_none(),
            },
            ordered::<T>() && ranked::<T>() ==> (found matches Some(i) ==> {
                &&& forall|j: int|
                    0 <= j < self.scanned(hits@) && hits@[j].is_some() ==> !nearer(
                        hits@[j]->0,
                        hits@[i as int]->0,
                    )
                &&& forall|j: int|
                    0 <= j < i && hits@[j].is_some() ==> nearer(hits@[i as int]->0, hits@[j]->0)
            }),
    {
        let n = if hits.len() <= self.obj.len() {
            hits.len()
        } else {
            self.obj.len()
        };
        let mut best: Option<usize> = None;
        let mut i: usize = 0;
        while i < n
            invariant
                i <= n <= hits.len(),
                best.is_none() <==> forall|j: int| 0 <= j < i ==> hits@[j].is_none(),
                best matches Some(b) ==> b < i && hits@[b as int].is_some(),
                ordered::<T>() ==> match best {
                    Some(b) => nearest(hits@, i as int) == Some(b as int),
                    None => nearest(hits@, i as int).is_none(),
                },
            decreases n - i,
        {
            if let Some(d) = &hits[i] {
                match best {
                    None => {
                        best = Some(i);
                    },
                    Some(b) => {
                        if let Some(kept) = &hits[b] {
                            if *d < *kept {
                                best = Some(i);
                            }
                        }
                    },
                }
            }
            i += 1;
        }
        proof {
            if ordered::<T>() && ranked::<T>() {
                nearest_is_first_among_closest(hits@, n as int);
            }
        }
        best
    }

    /// What a ray has seen whose nearest sphere is `hit`: the surface of that
    /// sphere, or nothing if there is no such sphere.
    pub fn seen(&self, hit: Option<usize>) -> (s: Seen)
        ensures
            s == self.shows(hit),
    {
        match hit {
            Some(i) => {
                if i < self.obj.len() {
                    self.obj[i].opt().surface_type.seen()
                } else {
                    Seen::Nothing
                }
            },
            None => Seen::Nothing,
        }
    }
}

} // verus!
