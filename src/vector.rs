use vstd::prelude::*;
use vstd::std_specs::ops::AddSpec;
use vstd::std_specs::ops::DivSpec;
use vstd::std_specs::ops::MulSpec;
use vstd::std_specs::ops::SubSpec;

verus! {

/// Marks the element types a `Vec3` may hold: the types that implement
/// vstd's `FloatBitsProperties`. vstd implements it for the two IEEE widths
/// only; since that trait is public, another crate could still add a type of
/// its own.
pub trait FloatBound: vstd::float::FloatBitsProperties + Copy {}

impl<T: vstd::float::FloatBitsProperties + Copy> FloatBound for T {}

/// A point or displacement in 3-space; all three components share one
/// element type.
///
/// The arithmetic below works component by component. Each contract ties
/// every result component, through `call_ensures`, to what the element type's
/// own operator returns on the matching inputs; for the IEEE widths that is
/// the IEEE result. A second clause restates this over vstd's spec functions
/// (`add_spec` and the like) for element types whose operators follow them
/// (`obeys_add_spec` and the like).
///
/// For the two IEEE widths vstd establishes neither `obeys_*_spec` nor the
/// operators' preconditions (`add_req` and the like), since Rust does not
/// promise deterministic float results: there the second clause gives
/// nothing, and the preconditions cannot be met from verified code.
#[derive(PartialEq, Eq, Debug, Clone)]
pub struct Vec3<T> where T: FloatBound {
    pub x: T,
    pub y: T,
    pub z: T,
}

impl<T> Vec3<T> where T: FloatBound {
    /// Builds a vector from its three components, stored as given (NaN and
    /// infinities included).
    pub fn new(x: T, y: T, z: T) -> (r: Vec3<T>)
        ensures
            r.x == x,
            r.y == y,
            r.z == z,
    {
        Vec3 { x: x, y: y, z: z }
    }
}

impl<T> Default for Vec3<T> where T: FloatBound + Default {
    /// The zero vector: each component is the element type's default, its
    /// zero.
    fn default() -> (r: Vec3<T>)
        ensures
            call_ensures(T::default, (), r.x),
            r.y == r.x,
            r.z == r.x,
    {
        let zero = T::default();
        Vec3 { x: zero, y: zero, z: zero }
    }
}

// Addition
impl<T> std::ops::Add for Vec3<T> where T: std::ops::Add<Output = T> + FloatBound {
    type Output = Vec3<T>;

    /// Component-wise sum.
    fn add(self, rhs: Vec3<T>) -> (r: Vec3<T>)
        ensures
            call_ensures(<T as std::ops::Add>::add, (self.x, rhs.x), r.x),
            call_ensures(<T as std::ops::Add>::add, (self.y, rhs.y), r.y),
            call_ensures(<T as std::ops::Add>::add, (self.z, rhs.z), r.z),
            T::obeys_add_spec() ==> r.x == self.x.add_spec(rhs.x) && r.y == self.y.add_spec(rhs.y)
                && r.z == self.z.add_spec(rhs.z),
    {
        Vec3 { x: self.x + rhs.x, y: self.y + rhs.y, z: self.z + rhs.z }
    }
}

impl<T> vstd::std_specs::ops::AddSpecImpl for Vec3<T> where T: std::ops::Add<Output = T> + FloatBound {
    open spec fn obeys_add_spec() -> bool {
        T::obeys_add_spec()
    }

    open spec fn add_req(self, rhs: Vec3<T>) -> bool {
        self.x.add_req(rhs.x) && self.y.add_req(rhs.y) && self.z.add_req(rhs.z)
    }

    open spec fn add_spec(self, rhs: Vec3<T>) -> Vec3<T> {
        Vec3 { x: self.x.add_spec(rhs.x), y: self.y.add_spec(rhs.y), z: self.z.add_spec(rhs.z) }
    }
}

impl<T> std::ops::AddAssign for Vec3<T> where T: std::ops::Add<Output = T> + FloatBound {
    /// Replaces each component by its sum with the matching one of `rhs`.
    fn add_assign(&mut self, rhs: Vec3<T>)
        requires
            old(self).x.add_req(rhs.x),
            old(self).y.add_req(rhs.y),
            old(self).z.add_req(rhs.z),
        ensures
            call_ensures(<T as std::ops::Add>::add, (old(self).x, rhs.x), final(self).x),
            call_ensures(<T as std::ops::Add>::add, (old(self).y, rhs.y), final(self).y),
            call_ensures(<T as std::ops::Add>::add, (old(self).z, rhs.z), final(self).z),
            T::obeys_add_spec() ==> final(self).x == old(self).x.add_spec(rhs.x)
                && final(self).y == old(self).y.add_spec(rhs.y)
                && final(self).z == old(self).z.add_spec(rhs.z),
    {
        *self = Vec3 { x: self.x + rhs.x, y: self.y + rhs.y, z: self.z + rhs.z };
    }
}

// Subtraction
impl<T> std::ops::Sub for Vec3<T> where T: std::ops::Sub<Output = T> + FloatBound {
    type Output = Vec3<T>;

    /// Component-wise difference.
    fn sub(self, rhs: Vec3<T>) -> (r: Vec3<T>)
        ensures
            call_ensures(<T as std::ops::Sub>::sub, (self.x, rhs.x), r.x),
            call_ensures(<T as std::ops::Sub>::sub, (self.y, rhs.y), r.y),
            call_ensures(<T as std::ops::Sub>::sub, (self.z, rhs.z), r.z),
            T::obeys_sub_spec() ==> r.x == self.x.sub_spec(rhs.x) && r.y == self.y.sub_spec(rhs.y)
                && r.z == self.z.sub_spec(rhs.z),
    {
        Vec3 { x: self.x - rhs.x, y: self.y - rhs.y, z: self.z - rhs.z }
    }
}

impl<T> vstd::std_specs::ops::SubSpecImpl for Vec3<T> where T: std::ops::Sub<Output = T> + FloatBound {
    open spec fn obeys_sub_spec() -> bool {
        T::obeys_sub_spec()
    }

    open spec fn sub_req(self, rhs: Vec3<T>) -> bool {
        self.x.sub_req(rhs.x) && self.y.sub_req(rhs.y) && self.z.sub_req(rhs.z)
    }

    open spec fn sub_spec(self, rhs: Vec3<T>) -> Vec3<T> {
        Vec3 { x: self.x.sub_spec(rhs.x), y: self.y.sub_spec(rhs.y), z: self.z.sub_spec(rhs.z) }
    }
}

impl<T> std::ops::SubAssign for Vec3<T> where T: std::ops::Sub<Output = T> + FloatBound {
    /// Replaces each component by its difference with the matching one of `rhs`.
    fn sub_assign(&mut self, rhs: Vec3<T>)
        requires
            old(self).x.sub_req(rhs.x),
            old(self).y.sub_req(rhs.y),
            old(self).z.sub_req(rhs.z),
        ensures
            call_ensures(<T as std::ops::Sub>::sub, (old(self).x, rhs.x), final(self).x),
            call_ensures(<T as std::ops::Sub>::sub, (old(self).y, rhs.y), final(self).y),
            call_ensures(<T as std::ops::Sub>::sub, (old(self).z, rhs.z), final(self).z),
            T::obeys_sub_spec() ==> final(self).x == old(self).x.sub_spec(rhs.x)
                && final(self).y == old(self).y.sub_spec(rhs.y)
                && final(self).z == old(self).z.sub_spec(rhs.z),
    {
        *self = Vec3 { x: self.x - rhs.x, y: self.y - rhs.y, z: self.z - rhs.z };
    }
}

// Scaling by a scalar
impl<T> std::ops::Mul<T> for Vec3<T> where T: std::ops::Mul<Output = T> + FloatBound {
    type Output = Vec3<T>;

    /// Each component multiplied by `rhs`.
    fn mul(self, rhs: T) -> (r: Vec3<T>)
        ensures
            call_ensures(<T as std::ops::Mul>::mul, (self.x, rhs), r.x),
            call_ensures(<T as std::ops::Mul>::mul, (self.y, rhs), r.y),
            call_ensures(<T as std::ops::Mul>::mul, (self.z, rhs), r.z),
            T::obeys_mul_spec() ==> r.x == self.x.mul_spec(rhs) && r.y == self.y.mul_spec(rhs)
                && r.z == self.z.mul_spec(rhs),
    {
        Vec3 { x: self.x * rhs, y: self.y * rhs, z: self.z * rhs }
    }
}

impl<T> vstd::std_specs::ops::MulSpecImpl<T> for Vec3<T> where T: std::ops::Mul<Output = T> + FloatBound {
    open spec fn obeys_mul_spec() -> bool {
        T::obeys_mul_spec()
    }

    open spec fn mul_req(self, rhs: T) -> bool {
        self.x.mul_req(rhs) && self.y.mul_req(rhs) && self.z.mul_req(rhs)
    }

    open spec fn mul_spec(self, rhs: T) -> Vec3<T> {
        Vec3 { x: self.x.mul_spec(rhs), y: self.y.mul_spec(rhs), z: self.z.mul_spec(rhs) }
    }
}

impl<T> std::ops::MulAssign<T> for Vec3<T> where T: std::ops::Mul<Output = T> + FloatBound {
    /// Multiplies each component by `rhs` in place.
    fn mul_assign(&mut self, rhs: T)
        requires
            old(self).x.mul_req(rhs),
            old(self).y.mul_req(rhs),
            old(self).z.mul_req(rhs),
        ensures
            call_ensures(<T as std::ops::Mul>::mul, (old(self).x, rhs), final(self).x),
            call_ensures(<T as std::ops::Mul>::mul, (old(self).y, rhs), final(self).y),
            call_ensures(<T as std::ops::Mul>::mul, (old(self).z, rhs), final(self).z),
            T::obeys_mul_spec() ==> final(self).x == old(self).x.mul_spec(rhs)
                && final(self).y == old(self).y.mul_spec(rhs)
                && final(self).z == old(self).z.mul_spec(rhs),
    {
        *self = Vec3 { x: self.x * rhs, y: self.y * rhs, z: self.z * rhs };
    }
}

// Division by a scalar: a zero divisor is not treated specially, the element
// type's own division decides (for IEEE floats an infinity or a NaN).
impl<T> std::ops::Div<T> for Vec3<T> where T: std::ops::Div<Output = T> + FloatBound {
    type Output = Vec3<T>;

    /// Each component divided by `rhs`.
    fn div(self, rhs: T) -> (r: Vec3<T>)
        ensures
            call_ensures(<T as std::ops::Div>::div, (self.x, rhs), r.x),
            call_ensures(<T as std::ops::Div>::div, (self.y, rhs), r.y),
            call_ensures(<T as std::ops::Div>::div, (self.z, rhs), r.z),
            T::obeys_div_spec() ==> r.x == self.x.div_spec(rhs) && r.y == self.y.div_spec(rhs)
                && r.z == self.z.div_spec(rhs),
    {
        Vec3 { x: self.x / rhs, y: self.y / rhs, z: self.z / rhs }
    }
}

impl<T> vstd::std_specs::ops::DivSpecImpl<T> for Vec3<T> where T: std::ops::Div<Output = T> + FloatBound {
    open spec fn obeys_div_spec() -> bool {
        T::obeys_div_spec()
    }

    open spec fn div_req(self, rhs: T) -> bool {
        self.x.div_req(rhs) && self.y.div_req(rhs) && self.z.div_req(rhs)
    }

    open spec fn div_spec(self, rhs: T) -> Vec3<T> {
        Vec3 { x: self.x.div_spec(rhs), y: self.y.div_spec(rhs), z: self.z.div_spec(rhs) }
    }
}

impl<T> std::ops::DivAssign<T> for Vec3<T> where T: std::ops::Div<Output = T> + FloatBound {
    /// Divides each component by `rhs` in place.
    fn div_assign(&mut self, rhs: T)
        requires
            old(self).x.div_req(rhs),
            old(self).y.div_req(rhs),
            old(self).z.div_req(rhs),
        ensures
            call_ensures(<T as std::ops::Div>::div, (old(self).x, rhs), final(self).x),
            call_ensures(<T as std::ops::Div>::div, (old(self).y, rhs), final(self).y),
            call_ensures(<T as std::ops::Div>::div, (old(self).z, rhs), final(self).z),
            T::obeys_div_spec() ==> final(self).x == old(self).x.div_spec(rhs)
                && final(self).y == old(self).y.div_spec(rhs)
                && final(self).z == old(self).z.div_spec(rhs),
    {
        *self = Vec3 { x: self.x / rhs, y: self.y / rhs, z: self.z / rhs };
    }
}

// Squared distance
/// The square of `a - b` along one axis, as the element type's `-` and `*`
/// give it.
pub open spec fn axis_sq<T>(a: T, b: T) -> T where
    T: std::ops::Mul<Output = T> + std::ops::Sub<Output = T>,
 {
    a.sub_spec(b).mul_spec(a.sub_spec(b))
}

/// What `distsq` computes: the three squared axis differences, summed from x
/// to z.
pub open spec fn distsq_spec<T>(a: Vec3<T>, b: Vec3<T>) -> T where
    T: std::ops::Mul<Output = T> + std::ops::Add<Output = T> + std::ops::Sub<Output = T> + FloatBound,
 {
    axis_sq(a.x, b.x).add_spec(axis_sq(a.y, b.y)).add_spec(axis_sq(a.z, b.z))
}

/// The element type's `-`, `*` and `+` accept every pair of operands, as
/// IEEE arithmetic does. vstd does not establish this for the float widths
/// (see `Vec3`).
pub open spec fn arith_total<T>() -> bool where
    T: std::ops::Mul<Output = T> + std::ops::Add<Output = T> + std::ops::Sub<Output = T>,
 {
    &&& forall|p: T, q: T| #[trigger] p.sub_req(q)
    &&& forall|p: T, q: T| #[trigger] p.mul_req(q)
    &&& forall|p: T, q: T| #[trigger] p.add_req(q)
}

/// One run of `distsq` on `a` and `b`, step by step: `dx`, `dy`, `dz` are what
/// the element type's `-` returned on each axis, `sx`, `sy`, `sz` what its `*`
/// returned on each difference with itself, `s` what its `+` returned on `sx`
/// and `sy`, and `r` what it returned on `s` and `sz`.
pub open spec fn distsq_steps<T>(
    a: Vec3<T>,
    b: Vec3<T>,
    dx: T,
    dy: T,
    dz: T,
    sx: T,
    sy: T,
    sz: T,
    s: T,
    r: T,
) -> bool where
    T: std::ops::Mul<Output = T> + std::ops::Add<Output = T> + std::ops::Sub<Output = T> + FloatBound,
 {
    &&& call_ensures(<T as std::ops::Sub>::sub, (a.x, b.x), dx)
    &&& call_ensures(<T as std::ops::Sub>::sub, (a.y, b.y), dy)
    &&& call_ensures(<T as std::ops::Sub>::sub, (a.z, b.z), dz)
    &&& call_ensures(<T as std::ops::Mul>::mul, (dx, dx), sx)
    &&& call_ensures(<T as std::ops::Mul>::mul, (dy, dy), sy)
    &&& call_ensures(<T as std::ops::Mul>::mul, (dz, dz), sz)
    &&& call_ensures(<T as std::ops::Add>::add, (sx, sy), s)
    &&& call_ensures(<T as std::ops::Add>::add, (s, sz), r)
}

/// Squared Euclidean distance between `vec1` and `vec2`, without a square
/// root: `((x1-x2)^2 + (y1-y2)^2) + (z1-z2)^2`, each step the element type's
/// own operation. Overflow follows the element type's arithmetic.
pub fn distsq<T>(vec1: &Vec3<T>, vec2: &Vec3<T>) -> (r: T) where
    T: std::ops::Mul<Output = T> + std::ops::Add<Output = T> + std::ops::Sub<Output = T> + FloatBound,

    requires
        arith_total::<T>(),
    ensures
        exists|dx: T, dy: T, dz: T, sx: T, sy: T, sz: T, s: T|
            #[trigger] distsq_steps(*vec1, *vec2, dx, dy, dz, sx, sy, sz, s, r),
        T::obeys_sub_spec() && T::obeys_mul_spec() && T::obeys_add_spec() ==> r == distsq_spec(
            *vec1,
            *vec2,
        ),
{
    let dx = vec1.x - vec2.x;
    let dy = vec1.y - vec2.y;
    let dz = vec1.z - vec2.z;
    let sx = dx * dx;
    let sy = dy * dy;
    let sz = dz * dz;
    let s = sx + sy;
    let dd: T = s + sz;
    assert(distsq_steps(*vec1, *vec2, dx, dy, dz, sx, sy, sz, s, dd));
    dd
}

} // verus!
