//! Rays, spheres, and the intersections of the one with the other.

use vstd::prelude::*;
use vstd::std_specs::cmp::PartialEqSpecImpl;
use crate::geo::Geo;
use crate::material::Material;
use crate::matrix::{Matrix, MatrixView};
use crate::scalar::Scalar;

verus! {

/// A ray: the points `orig + t * dir`.
#[derive(Clone, Copy, Debug)]
pub struct Ray {
    pub orig: Geo,
    pub dir: Geo,
}

impl Ray {
    /// The ray from `origin` along `direction`.
    pub fn new(origin: Geo, direction: Geo) -> (r: Ray)
        ensures
            r == (Ray { orig: origin, dir: direction }),
    {
        Ray { orig: origin, dir: direction }
    }
}

/// Hands out the identities of shapes, counting up from zero.
#[derive(Debug)]
pub struct ShapeIds {
    next: i32,
}

/// The identity that follows `id`. After the largest one the count starts
/// again at the smallest.
pub open spec fn following_id(id: i32) -> i32 {
    if id == i32::MAX {
        i32::MIN
    } else {
        (id + 1) as i32
    }
}

impl ShapeIds {
    /// The identity that the next shape will get.
    pub closed spec fn upcoming(&self) -> i32 {
        self.next
    }

    /// A source of identities that starts at zero.
    pub fn new() -> (r: ShapeIds)
        ensures
            r.upcoming() == 0,
    {
        ShapeIds { next: 0 }
    }

    /// Takes the upcoming identity.
    pub fn fresh(&mut self) -> (id: i32)
        ensures
            id == old(self).upcoming(),
            final(self).upcoming() == following_id(id),
    {
        let id: i32 = self.next;
        self.next = if id == i32::MAX {
            i32::MIN
        } else {
            id + 1
        };
        id
    }
}

/// What a sphere is: its identity, the center and radius it has in its own
/// space, the transform that places it in the world, and its material.
pub struct SphereView {
    pub id: i32,
    pub orig: Geo,
    pub radius: Scalar,
    pub transform: MatrixView,
    pub material: Material,
}

/// A unit sphere about the origin of its own space, placed in the world by
/// its transform.
#[derive(Debug)]
pub struct Sphere {
    id: i32,
    orig: Geo,
    radius: Scalar,
    transform: Matrix,
    material: Material,
}

impl View for Sphere {
    type V = SphereView;

    closed spec fn view(&self) -> SphereView {
        SphereView {
            id: self.id,
            orig: self.orig,
            radius: self.radius,
            transform: self.transform@,
            material: self.material,
        }
    }
}

impl Clone for Sphere {
    fn clone(&self) -> (r: Self)
        ensures
            r@ == self@,
    {
        Sphere {
            id: self.id,
            orig: self.orig,
            radius: self.radius,
            transform: self.transform.clone(),
            material: self.material,
        }
    }
}

impl Sphere {
    /// A unit sphere with the upcoming identity of `ids`, the identity matrix
    /// as its transform and the default material.
    pub fn unit(ids: &mut ShapeIds) -> (r: Sphere)
        ensures
            r@ == (SphereView {
                id: old(ids).upcoming(),
                orig: Geo {
                    x: Scalar::zero(),
                    y: Scalar::zero(),
                    z: Scalar::zero(),
                    w: Scalar::one(),
                },
                radius: Scalar::one(),
                transform: MatrixView::identity(),
                material: Material::default(),
            }),
            final(ids).upcoming() == following_id(old(ids).upcoming()),
    {
        let id: i32 = ids.fresh();
        Sphere {
            id,
            orig: Geo::point(Scalar::zero(), Scalar::zero(), Scalar::zero()),
            radius: Scalar::one(),
            transform: Matrix::identity(),
            material: Material::default(),
        }
    }

    /// The identity of the sphere.
    pub fn id(&self) -> (r: i32)
        ensures
            r == self@.id,
    {
        self.id
    }

    /// The center of the sphere in its own space.
    pub fn orig(&self) -> (r: Geo)
        ensures
            r == self@.orig,
    {
        self.orig
    }

    /// The radius of the sphere in its own space.
    pub fn radius(&self) -> (r: Scalar)
        ensures
            r == self@.radius,
    {
        self.radius
    }

    /// The transform from the sphere's own space to the world.
    pub fn transform(&self) -> (r: &Matrix)
        ensures
            r@ == self@.transform,
    {
        &self.transform
    }

    /// The material.
    pub fn material(&self) -> (r: Material)
        ensures
            r == self@.material,
    {
        self.material
    }

    /// Replaces the transform and leaves the rest as it is.
    pub fn set_transform(&mut self, m: Matrix)
        ensures
            final(self)@ == (SphereView { transform: m@, ..old(self)@ }),
    {
        self.transform = m;
    }

    /// Replaces the material and leaves the rest as it is.
    pub fn set_material(&mut self, material: Material)
        ensures
            final(self)@ == (SphereView { material, ..old(self)@ }),
    {
        self.material = material;
    }
}

impl PartialEq for Sphere {
    /// Two spheres are equal when they have the same identity.
    fn eq(&self, other: &Self) -> (r: bool) {
        self.id == other.id
    }
}

impl PartialEqSpecImpl for Sphere {
    open spec fn obeys_eq_spec() -> bool {
        true
    }

    open spec fn eq_spec(&self, other: &Sphere) -> bool {
        self@.id == other@.id
    }
}

/// One intersection of a ray with a shape: the ray parameter `t`, and the
/// identity of the shape.
#[derive(Clone, Copy, Debug)]
pub struct Isect {
    pub t: Scalar,
    pub id: i32,
}

impl PartialEq for Isect {
    /// Two intersections are equal when their parameters have the same value
    /// and they belong to the same shape.
    fn eq(&self, other: &Self) -> (r: bool) {
        self.t.same_value(other.t) && self.id == other.id
    }
}

impl PartialEqSpecImpl for Isect {
    open spec fn obeys_eq_spec() -> bool {
        true
    }

    open spec fn eq_spec(&self, other: &Isect) -> bool {
        self.t.spec_same_value(other.t) && self.id == other.id
    }
}

/// Whether the intersection lies ahead of the ray's origin: `t` is a number
/// above zero.
pub open spec fn ahead(i: Isect) -> bool {
    Scalar::zero().spec_lt(i.t)
}

/// What stands for "no hit": `t` zero and the identity -1, which no shape
/// counted up from zero has.
pub open spec fn no_hit() -> Isect {
    Isect { t: Scalar::zero(), id: -1i32 }
}

/// Whether `s[k]` is the hit among the first `n` intersections of `s`: it
/// lies ahead, none of those that lie ahead has a smaller `t`, and those that
/// follow it have a larger one.
pub open spec fn is_hit_among(s: Seq<Isect>, n: int, k: int) -> bool {
    &&& 0 <= k < n <= s.len()
    &&& ahead(s[k])
    &&& forall|j: int| 0 <= j < n && ahead(#[trigger] s[j]) ==> s[k].t.rank() <= s[j].t.rank()
    &&& forall|j: int| k < j < n && ahead(#[trigger] s[j]) ==> s[k].t.rank() < s[j].t.rank()
}

/// Whether `s[k]` is the hit of `s`.
pub open spec fn is_hit(s: Seq<Isect>, k: int) -> bool {
    is_hit_among(s, s.len() as int, k)
}

/// Whether none of the intersections lies ahead.
pub open spec fn none_ahead(s: Seq<Isect>) -> bool {
    forall|j: int| 0 <= j < s.len() ==> !ahead(#[trigger] s[j])
}

/// What the intersection routine reports for a quadratic with the given
/// discriminant and roots: nothing where the discriminant is below zero,
/// else both roots, `near` first, for the shape `id`.
pub open spec fn roots_reported(discriminant: Scalar, near: Scalar, far: Scalar, id: i32) -> Seq<
    Isect,
> {
    if discriminant.spec_lt(Scalar::zero()) {
        Seq::empty()
    } else {
        seq![Isect { t: near, id }, Isect { t: far, id }]
    }
}

impl Isect {
    /// The intersection at parameter `t` with the shape `id`.
    pub fn isect(t: Scalar, id: i32) -> (r: Isect)
        ensures
            r == (Isect { t, id }),
    {
        Isect { t, id }
    }

    /// The intersections of a ray with the shape `id`, given the discriminant
    /// of the quadratic in the ray parameter and its two roots.
    ///
    /// A discriminant below zero is a miss. Otherwise there are two
    /// intersections, also where the roots coincide or lie behind the origin.
    pub fn from_roots(discriminant: Scalar, near: Scalar, far: Scalar, id: i32) -> (r: Vec<Isect>)
        ensures
            r@ == roots_reported(discriminant, near, far, id),
    {
        if discriminant.lt(Scalar::zero()) {
            let r: Vec<Isect> = Vec::new();
            assert(r@ =~= roots_reported(discriminant, near, far, id));
            r
        } else {
            let r = vec![Isect::isect(near, id), Isect::isect(far, id)];
            assert(r@ =~= roots_reported(discriminant, near, far, id));
            r
        }
    }

    /// The hit: of the intersections that lie ahead of the origin (`t` above
    /// zero), the one with the smallest `t`; of several such, the last.
    /// Where none lies ahead the result is [`no_hit`].
    pub fn hit(isects: Vec<Isect>) -> (r: Isect)
        ensures
            none_ahead(isects@) ==> r == no_hit(),
            !none_ahead(isects@) ==> exists|k: int| is_hit(isects@, k) && r == isects@[k],
    {
        let mut found: bool = false;
        let mut best: usize = 0;
        let mut k: usize = 0;
        while k < isects.len()
            invariant
                k <= isects.len(),
                !found ==> forall|j: int| 0 <= j < k ==> !ahead(#[trigger] isects@[j]),
                found ==> is_hit_among(isects@, k as int, best as int),
            decreases isects.len() - k,
        {
            let x: Isect = isects[k];
            if Scalar::zero().lt(x.t) {
                if !(found && isects[best].t.lt(x.t)) {
                    best = k;
                }
                found = true;
            }
            k += 1;
        }
        if found {
            assert(is_hit(isects@, best as int));
            assert(ahead(isects@[best as int]));
            isects[best]
        } else {
            Isect::isect(Scalar::zero(), -1)
        }
    }
}

/// At most one intersection is the hit.
pub proof fn lemma_hit_is_unique(s: Seq<Isect>, k1: int, k2: int)
    requires
        is_hit(s, k1),
        is_hit(s, k2),
    ensures
        k1 == k2,
{
    if k1 < k2 {
        assert(ahead(s[k2]));
        assert(s[k1].t.rank() < s[k2].t.rank());
        assert(ahead(s[k1]));
        assert(s[k2].t.rank() <= s[k1].t.rank());
    } else if k2 < k1 {
        assert(ahead(s[k1]));
        assert(s[k2].t.rank() < s[k1].t.rank());
        assert(ahead(s[k2]));
        assert(s[k1].t.rank() <= s[k2].t.rank());
    }
}

/// The hit lies ahead of the origin, and no intersection that lies ahead is
/// nearer.
pub proof fn lemma_hit_is_nearest(s: Seq<Isect>, k: int, j: int)
    requires
        is_hit(s, k),
        0 <= j < s.len(),
        ahead(s[j]),
    ensures
        ahead(s[k]),
        !s[j].t.spec_lt(s[k].t),
{
}

/// What the hit of two reported roots is, where `near` is not above `far`:
/// the near one where both lie ahead, the far one where it alone does, and
/// none where neither does.
pub proof fn lemma_hit_of_roots(discriminant: Scalar, near: Scalar, far: Scalar, id: i32)
    requires
        !discriminant.spec_lt(Scalar::zero()),
        near.spec_le(far),
    ensures
        Scalar::zero().spec_lt(near) ==> exists|k: int|
            is_hit(roots_reported(discriminant, near, far, id), k) && #[trigger] roots_reported(
                discriminant,
                near,
                far,
                id,
            )[k].t.spec_same_value(near),
        !Scalar::zero().spec_lt(near) && Scalar::zero().spec_lt(far) ==> is_hit(
            roots_reported(discriminant, near, far, id),
            1,
        ),
        !Scalar::zero().spec_lt(far) ==> none_ahead(roots_reported(discriminant, near, far, id)),
{
    let s = roots_reported(discriminant, near, far, id);
    assert(s.len() == 2);
    assert(s[0] == Isect { t: near, id });
    assert(s[1] == Isect { t: far, id });
    if Scalar::zero().spec_lt(near) {
        if near.spec_lt(far) {
            assert(is_hit(s, 0));
            assert(s[0].t.spec_same_value(near));
        } else {
            assert(is_hit(s, 1));
            assert(s[1].t.spec_same_value(near));
        }
    }
}

/// Successive identities differ, and grow as long as the largest one has not
/// been handed out.
pub proof fn lemma_following_id_is_new(id: i32)
    ensures
        following_id(id) != id,
        id < i32::MAX ==> following_id(id) > id,
{
}

} // verus!
