//! Vectors of three components over any scalar type, and rays.
//!
//! The scalar type is a parameter. What an operation returns is stated through
//! the specifications that the scalar's own operators come with, so it is known
//! exactly for every scalar type whose operators follow their specifications.

use std::ops::{Add, Mul, Sub};
use vstd::prelude::*;
use vstd::std_specs::ops::{AddSpec, AddSpecImpl, MulSpec, MulSpecImpl, SubSpec, SubSpecImpl};

verus! {

/// A vector of three components.
#[derive(Clone, Copy, Debug)]
pub struct Vec3<T> {
    pub x: T,
    pub y: T,
    pub z: T,
}

/// A ray: the point it starts from and the direction it travels in. The
/// direction need not have length one.
#[derive(Clone, Copy, Debug)]
pub struct Ray<T> {
    pub root: Vec3<T>,
    pub dir: Vec3<T>,
}

/// Whether any two values of `T` can be added.
pub open spec fn adds_freely<T: Add<Output = T>>() -> bool {
    forall|p: T, q: T| #[trigger] p.add_req(q)
}

/// Whether any two values of `T` can be subtracted.
pub open spec fn subtracts_freely<T: Sub<Output = T>>() -> bool {
    forall|p: T, q: T| #[trigger] p.sub_req(q)
}

/// The sums of the components of `a` and `b`.
pub open spec fn sum<T: Add<Output = T>>(a: Vec3<T>, b: Vec3<T>) -> Vec3<T> {
    Vec3 { x: a.x.add_spec(b.x), y: a.y.add_spec(b.y), z: a.z.add_spec(b.z) }
}

/// The differences of the components of `a` and `b`.
pub open spec fn difference<T: Sub<Output = T>>(a: Vec3<T>, b: Vec3<T>) -> Vec3<T> {
    Vec3 { x: a.x.sub_spec(b.x), y: a.y.sub_spec(b.y), z: a.z.sub_spec(b.z) }
}

/// The sum of the products of the components of `a` and `b`.
pub open spec fn dot<T: Add<Output = T> + Mul<Output = T>>(a: Vec3<T>, b: Vec3<T>) -> T {
    a.x.mul_spec(b.x).add_spec(a.y.mul_spec(b.y)).add_spec(a.z.mul_spec(b.z))
}

/// The vector product of `a` and `b`.
pub open spec fn cross<T: Sub<Output = T> + Mul<Output = T>>(a: Vec3<T>, b: Vec3<T>) -> Vec3<T> {
    Vec3 {
        x: a.y.mul_spec(b.z).sub_spec(a.z.mul_spec(b.y)),
        y: a.z.mul_spec(b.x).sub_spec(a.x.mul_spec(b.z)),
        z: a.x.mul_spec(b.y).sub_spec(a.y.mul_spec(b.x)),
    }
}

/// Whether the six products that make up the vector product of `a` and `b`
/// can be formed.
pub open spec fn cross_products_allowed<T: Mul<Output = T>>(a: Vec3<T>, b: Vec3<T>) -> bool {
    &&& a.y.mul_req(b.z)
    &&& a.z.mul_req(b.y)
    &&& a.z.mul_req(b.x)
    &&& a.x.mul_req(b.z)
    &&& a.x.mul_req(b.y)
    &&& a.y.mul_req(b.x)
}

/// Whether the three differences that make up the vector product of `a` and
/// `b` can be formed from the six products.
pub open spec fn cross_differences_allowed<T: Sub<Output = T> + Mul<Output = T>>(
    a: Vec3<T>,
    b: Vec3<T>,
) -> bool {
    ||| subtracts_freely::<T>()
    ||| {
        &&& T::obeys_mul_spec()
        &&& a.y.mul_spec(b.z).sub_req(a.z.mul_spec(b.y))
        &&& a.z.mul_spec(b.x).sub_req(a.x.mul_spec(b.z))
        &&& a.x.mul_spec(b.y).sub_req(a.y.mul_spec(b.x))
    }
}

impl<T> Vec3<T> {
    pub fn new(a: T, b: T, c: T) -> (v: Vec3<T>)
        ensures
            v == (Vec3 { x: a, y: b, z: c }),
    {
        Vec3::<T> { x: a, y: b, z: c }
    }
}

impl<T: Add<Output = T>> AddSpecImpl for Vec3<T> {
    open spec fn obeys_add_spec() -> bool {
        T::obeys_add_spec()
    }

    open spec fn add_req(self, other: Self) -> bool {
        self.x.add_req(other.x) && self.y.add_req(other.y) && self.z.add_req(other.z)
    }

    open spec fn add_spec(self, other: Self) -> Self {
        sum(self, other)
    }
}

/// Component by component.
impl<T: Add<Output = T>> Add for Vec3<T> {
    type Output = Self;

    fn add(self, other: Self) -> (r: Self)
        ensures
            T::obeys_add_spec() ==> r == sum(self, other),
    {
        Self { x: self.x + other.x, y: self.y + other.y, z: self.z + other.z }
    }
}

impl<T: Sub<Output = T>> SubSpecImpl for Vec3<T> {
    open spec fn obeys_sub_spec() -> bool {
        T::obeys_sub_spec()
    }

    open spec fn sub_req(self, other: Self) -> bool {
        self.x.sub_req(other.x) && self.y.sub_req(other.y) && self.z.sub_req(other.z)
    }

    open spec fn sub_spec(self, other: Self) -> Self {
        difference(self, other)
    }
}

/// Component by component.
impl<T: Sub<Output = T>> Sub for Vec3<T> {
    type Output = Self;

    fn sub(self, other: Self) -> (r: Self)
        ensures
            T::obeys_sub_spec() ==> r == difference(self, other),
    {
        Self { x: self.x - other.x, y: self.y - other.y, z: self.z - other.z }
    }
}

impl<T: Add<Output = T> + Mul<Output = T>> MulSpecImpl for Vec3<T> {
    open spec fn obeys_mul_spec() -> bool {
        T::obeys_add_spec() && T::obeys_mul_spec()
    }

    open spec fn mul_req(self, rhs: Self) -> bool {
        &&& self.x.mul_req(rhs.x)
        &&& self.y.mul_req(rhs.y)
        &&& self.z.mul_req(rhs.z)
        &&& adds_freely::<T>() || {
            &&& T::obeys_add_spec()
            &&& T::obeys_mul_spec()
            &&& self.x.mul_spec(rhs.x).add_req(self.y.mul_spec(rhs.y))
            &&& self.x.mul_spec(rhs.x).add_spec(self.y.mul_spec(rhs.y)).add_req(
                self.z.mul_spec(rhs.z),
            )
        }
    }

    open spec fn mul_spec(self, rhs: Self) -> T {
        dot(self, rhs)
    }
}

/// The scalar product.
impl<T: Add<Output = T> + Mul<Output = T>> Mul for Vec3<T> {
    type Output = T;

    fn mul(self, rhs: Self) -> (r: T)
        ensures
            T::obeys_add_spec() && T::obeys_mul_spec() ==> r == dot(self, rhs),
    {
        self.x * rhs.x + self.y * rhs.y + self.z * rhs.z
    }
}

impl<T: Copy + Sub<Output = T> + Mul<Output = T>> Vec3<T> {
    /// The vector product of `a` and `b`.
    pub fn prod(a: Vec3<T>, b: Vec3<T>) -> (r: Vec3<T>)
        requires
            cross_products_allowed(a, b),
            cross_differences_allowed(a, b),
        ensures
            T::obeys_mul_spec() && T::obeys_sub_spec() ==> r == cross(a, b),
    {
        Vec3::<T> {
            x: a.y * b.z - a.z * b.y,
            y: a.z * b.x - a.x * b.z,
            z: a.x * b.y - a.y * b.x,
        }
    }
}

impl<T: Copy + Mul<Output = T>> Vec3<T> {
    /// Every component multiplied by `rhs`.
    pub fn scale(self, rhs: T) -> (r: Self)
        requires
            self.x.mul_req(rhs),
            self.y.mul_req(rhs),
            self.z.mul_req(rhs),
        ensures
            T::obeys_mul_spec() ==> r == (Vec3 {
                x: self.x.mul_spec(rhs),
                y: self.y.mul_spec(rhs),
                z: self.z.mul_spec(rhs),
            }),
    {
        Vec3::<T> { x: self.x * rhs, y: self.y * rhs, z: self.z * rhs }
    }
}

/// On machine integers the vector product is the one of the textbook, as long
/// as no product or difference leaves the integer range.
pub proof fn cross_of_integers(a: Vec3<i64>, b: Vec3<i64>)
    requires
        cross_products_allowed(a, b),
        cross_differences_allowed(a, b),
    ensures
        cross(a, b).x == a.y * b.z - a.z * b.y,
        cross(a, b).y == a.z * b.x - a.x * b.z,
        cross(a, b).z == a.x * b.y - a.y * b.x,
{
    let low: i64 = i64::MIN;
    assert(!SubSpec::sub_req(low, 1i64));
}

} // verus!
