//! Points and vectors in homogeneous coordinates.
//!
//! A tuple with `w` equal to one is a point, a tuple with `w` equal to zero a
//! direction. The sum and the difference act on all four components, so a
//! point minus a point is a vector and a point plus a vector is a point.

use vstd::prelude::*;
use vstd::string::{StringExecFns, to_string_from_display_ensures};
use vstd::std_specs::ops::{AddSpec, SubSpec, MulSpec, DivSpec, NegSpec};
use std::ops::{Add, Sub, Mul, Div, Neg, Index};
use std::fmt::Display;
use num::Float;
use crate::float_service::{
    Scalar, exact, lit, constant, close, close_defined, compare_floats, square_root,
};

verus! {

/// Four scalars: the coordinates `x`, `y`, `z` and the weight `w`.
#[derive(Debug, Clone, Copy)]
pub struct Tuple<T> {
    pub x: T,
    pub y: T,
    pub z: T,
    pub w: T,
}

impl<T: Scalar> Tuple<T> {
    /// The sum of the squares of the four components, from `x` to `w`.
    pub open spec fn norm_squared(self) -> T {
        self.x.mul_spec(self.x).add_spec(self.y.mul_spec(self.y)).add_spec(
            self.z.mul_spec(self.z),
        ).add_spec(self.w.mul_spec(self.w))
    }

    /// The operations of [`Self::norm_squared`] may be applied.
    pub open spec fn norm_defined(self) -> bool {
        &&& self.x.mul_req(self.x)
        &&& self.y.mul_req(self.y)
        &&& self.z.mul_req(self.z)
        &&& self.w.mul_req(self.w)
        &&& self.x.mul_spec(self.x).add_req(self.y.mul_spec(self.y))
        &&& self.x.mul_spec(self.x).add_spec(self.y.mul_spec(self.y)).add_req(
            self.z.mul_spec(self.z),
        )
        &&& self.x.mul_spec(self.x).add_spec(self.y.mul_spec(self.y)).add_spec(
            self.z.mul_spec(self.z),
        ).add_req(self.w.mul_spec(self.w))
    }

    /// The sum of the products of the components of the two tuples, all four
    /// of them, from `x` to `w`.
    pub open spec fn dot(self, other: Self) -> T {
        self.x.mul_spec(other.x).add_spec(self.y.mul_spec(other.y)).add_spec(
            self.z.mul_spec(other.z),
        ).add_spec(self.w.mul_spec(other.w))
    }

    /// The operations of [`Self::dot`] may be applied.
    pub open spec fn dot_defined(self, other: Self) -> bool {
        &&& self.x.mul_req(other.x)
        &&& self.y.mul_req(other.y)
        &&& self.z.mul_req(other.z)
        &&& self.w.mul_req(other.w)
        &&& self.x.mul_spec(other.x).add_req(self.y.mul_spec(other.y))
        &&& self.x.mul_spec(other.x).add_spec(self.y.mul_spec(other.y)).add_req(
            self.z.mul_spec(other.z),
        )
        &&& self.x.mul_spec(other.x).add_spec(self.y.mul_spec(other.y)).add_spec(
            self.z.mul_spec(other.z),
        ).add_req(self.w.mul_spec(other.w))
    }

    /// The cross product of the first three components; its weight is zero
    /// and the weights of the operands play no part.
    pub open spec fn cross(self, other: Self) -> Self {
        Tuple {
            x: self.y.mul_spec(other.z).sub_spec(self.z.mul_spec(other.y)),
            y: self.z.mul_spec(other.x).sub_spec(self.x.mul_spec(other.z)),
            z: self.x.mul_spec(other.y).sub_spec(self.y.mul_spec(other.x)),
            w: lit::<T>(0),
        }
    }

    /// The operations of [`Self::cross`] may be applied.
    pub open spec fn cross_defined(self, other: Self) -> bool {
        &&& self.y.mul_req(other.z)
        &&& self.z.mul_req(other.y)
        &&& self.y.mul_spec(other.z).sub_req(self.z.mul_spec(other.y))
        &&& self.z.mul_req(other.x)
        &&& self.x.mul_req(other.z)
        &&& self.z.mul_spec(other.x).sub_req(self.x.mul_spec(other.z))
        &&& self.x.mul_req(other.y)
        &&& self.y.mul_req(other.x)
        &&& self.x.mul_spec(other.y).sub_req(self.y.mul_spec(other.x))
    }

    /// The two tuples agree within the tolerance in `x`, `y` and `z`. The
    /// weight is not compared.
    pub open spec fn approx(self, other: Self) -> bool {
        &&& close(self.x, other.x)
        &&& close(self.y, other.y)
        &&& close(self.z, other.z)
    }

    /// The operations that decide [`Self::approx`] may be applied.
    pub open spec fn approx_defined(self, other: Self) -> bool {
        &&& close_defined(self.x, other.x)
        &&& close_defined(self.y, other.y)
        &&& close_defined(self.z, other.z)
    }

    /// The sum, component by component, the weight included.
    pub open spec fn plus(self, other: Self) -> Self {
        Tuple {
            x: self.x.add_spec(other.x),
            y: self.y.add_spec(other.y),
            z: self.z.add_spec(other.z),
            w: self.w.add_spec(other.w),
        }
    }

    /// The operations of [`Self::plus`] may be applied.
    pub open spec fn plus_defined(self, other: Self) -> bool {
        &&& self.x.add_req(other.x)
        &&& self.y.add_req(other.y)
        &&& self.z.add_req(other.z)
        &&& self.w.add_req(other.w)
    }

    /// The difference, component by component, the weight included.
    pub open spec fn minus(self, other: Self) -> Self {
        Tuple {
            x: self.x.sub_spec(other.x),
            y: self.y.sub_spec(other.y),
            z: self.z.sub_spec(other.z),
            w: self.w.sub_spec(other.w),
        }
    }

    /// The operations of [`Self::minus`] may be applied.
    pub open spec fn minus_defined(self, other: Self) -> bool {
        &&& self.x.sub_req(other.x)
        &&& self.y.sub_req(other.y)
        &&& self.z.sub_req(other.z)
        &&& self.w.sub_req(other.w)
    }

    /// Every component times `factor`.
    pub open spec fn scaled(self, factor: T) -> Self {
        Tuple {
            x: self.x.mul_spec(factor),
            y: self.y.mul_spec(factor),
            z: self.z.mul_spec(factor),
            w: self.w.mul_spec(factor),
        }
    }

    /// The operations of [`Self::scaled`] may be applied.
    pub open spec fn scaled_defined(self, factor: T) -> bool {
        &&& self.x.mul_req(factor)
        &&& self.y.mul_req(factor)
        &&& self.z.mul_req(factor)
        &&& self.w.mul_req(factor)
    }

    /// Every component divided by `divisor`.
    pub open spec fn divided(self, divisor: T) -> Self {
        Tuple {
            x: self.x.div_spec(divisor),
            y: self.y.div_spec(divisor),
            z: self.z.div_spec(divisor),
            w: self.w.div_spec(divisor),
        }
    }

    /// The operations of [`Self::divided`] may be applied.
    pub open spec fn divided_defined(self, divisor: T) -> bool {
        &&& self.x.div_req(divisor)
        &&& self.y.div_req(divisor)
        &&& self.z.div_req(divisor)
        &&& self.w.div_req(divisor)
    }

    /// The component at `index`, counted from `x` at zero to `w` at three.
    pub open spec fn component(self, index: int) -> T {
        if index == 0 {
            self.x
        } else if index == 1 {
            self.y
        } else if index == 2 {
            self.z
        } else {
            self.w
        }
    }

    /// The tuple of the four components given.
    pub fn new(x: T, y: T, z: T, w: T) -> (r: Self)
        ensures
            r == (Tuple { x, y, z, w }),
    {
        Self { x, y, z, w }
    }

    /// The point at `x`, `y`, `z`: its weight is one.
    pub fn new_point(x: T, y: T, z: T) -> (r: Self)
        ensures
            r.x == x,
            r.y == y,
            r.z == z,
            exact::<T>() ==> r.w == lit::<T>(1),
    {
        Self { x, y, z, w: constant(1) }
    }

    /// The vector along `x`, `y`, `z`: its weight is zero.
    pub fn new_vector(x: T, y: T, z: T) -> (r: Self)
        ensures
            r.x == x,
            r.y == y,
            r.z == z,
            exact::<T>() ==> r.w == lit::<T>(0),
    {
        Self { x, y, z, w: constant(0) }
    }

    /// The square of the magnitude: what [`Self::magnitude`] takes the root of.
    pub fn magnitude_squared(&self) -> (r: T)
        requires
            exact::<T>(),
            self.norm_defined(),
        ensures
            r == self.norm_squared(),
    {
        self.x * self.x + self.y * self.y + self.z * self.z + self.w * self.w
    }

    /// The dot product over all four components.
    pub fn dot_product(&self, t2: &Tuple<T>) -> (r: T)
        requires
            exact::<T>(),
            self.dot_defined(*t2),
        ensures
            r == self.dot(*t2),
    {
        self.x * t2.x + self.y * t2.y + self.z * t2.z + self.w * t2.w
    }

    /// The cross product, a vector.
    pub fn cross_product(&self, t2: &Tuple<T>) -> (r: Tuple<T>)
        requires
            exact::<T>(),
            self.cross_defined(*t2),
        ensures
            r == self.cross(*t2),
    {
        Tuple::new_vector(
            self.y * t2.z - self.z * t2.y,
            self.z * t2.x - self.x * t2.z,
            self.x * t2.y - self.y * t2.x,
        )
    }

    /// Equality within the tolerance, on `x`, `y` and `z`.
    pub fn eq(&self, other: &Self) -> (r: bool)
        requires
            exact::<T>(),
            self.approx_defined(*other),
        ensures
            r == self.approx(*other),
    {
        compare_floats(self.x, other.x) && compare_floats(self.y, other.y) && compare_floats(
            self.z,
            other.z,
        )
    }

    /// The tuple with `value` in place of the component at `index`.
    pub fn set(&mut self, index: usize, value: T)
        requires
            index < 4,
        ensures
            final(self).component(index as int) == value,
            forall|i: int|
                0 <= i < 4 && i != index ==> final(self).component(i) == old(self).component(i),
    {
        if index == 0 {
            self.x = value;
        } else if index == 1 {
            self.y = value;
        } else if index == 2 {
            self.z = value;
        } else {
            self.w = value;
        }
    }
}

impl<T: Scalar + Float> Tuple<T> {
    /// The magnitude: the square root of the sum of the squares of all four
    /// components. The root is taken outside this crate and nothing is
    /// stated of it; [`Self::magnitude_squared`] states what it is taken of.
    pub fn magnitude(&self) -> (r: T)
        requires
            exact::<T>(),
            self.norm_defined(),
    {
        square_root(self.magnitude_squared())
    }

    /// The tuple divided by its magnitude: for some scalar `m`, which is the
    /// magnitude that came back, every component is the quotient by `m`. The
    /// zero tuple is not guarded against: its quotient is whatever the
    /// division of `T` by its magnitude gives.
    pub fn normalize(&self) -> (r: Tuple<T>)
        requires
            exact::<T>(),
            self.norm_defined(),
            forall|m: T| self.divided_defined(m),
        ensures
            exists|m: T| r == #[trigger] self.divided(m),
    {
        let m = self.magnitude();
        let r = *self / m;
        r
    }
}

impl<T: Scalar> Index<usize> for Tuple<T> {
    type Output = T;

    /// The component at `index`, from `x` at zero to `w` at three.
    fn index(&self, index: usize) -> (r: &T)
        ensures
            *r == self.component(index as int),
    {
        if index == 0 {
            &self.x
        } else if index == 1 {
            &self.y
        } else if index == 2 {
            &self.z
        } else {
            &self.w
        }
    }
}

impl<T: Scalar> vstd::std_specs::core::IndexSpecImpl<usize> for Tuple<T> {
    open spec fn index_req(&self, index: &usize) -> bool {
        *index < 4
    }
}

impl<T: Scalar> Neg for Tuple<T> {
    type Output = ();

    /// Negates the four components of the operand, which is consumed: the
    /// caller gets nothing back.
    fn neg(self) -> (r: ()) {
        let mut negated = self;
        negated.x = self.x.neg();
        negated.y = self.y.neg();
        negated.z = self.z.neg();
        negated.w = self.w.neg();
    }
}

impl<T: Scalar> vstd::std_specs::ops::NegSpecImpl for Tuple<T> {
    open spec fn obeys_neg_spec() -> bool {
        true
    }

    open spec fn neg_req(self) -> bool {
        &&& self.x.neg_req()
        &&& self.y.neg_req()
        &&& self.z.neg_req()
        &&& self.w.neg_req()
    }

    open spec fn neg_spec(self) -> () {
        ()
    }
}

impl<T: Scalar> Add for Tuple<T> {
    type Output = Tuple<T>;

    /// The sum, component by component, the weight included.
    fn add(self, rhs: Self) -> (r: Self::Output) {
        Tuple { x: self.x + rhs.x, y: self.y + rhs.y, z: self.z + rhs.z, w: self.w + rhs.w }
    }
}

impl<T: Scalar> vstd::std_specs::ops::AddSpecImpl for Tuple<T> {
    open spec fn obeys_add_spec() -> bool {
        exact::<T>()
    }

    open spec fn add_req(self, rhs: Self) -> bool {
        self.plus_defined(rhs)
    }

    open spec fn add_spec(self, rhs: Self) -> Self {
        self.plus(rhs)
    }
}

impl<T: Scalar> Sub for Tuple<T> {
    type Output = Tuple<T>;

    /// The difference, component by component, the weight included.
    fn sub(self, rhs: Self) -> (r: Self::Output) {
        Tuple { x: self.x - rhs.x, y: self.y - rhs.y, z: self.z - rhs.z, w: self.w - rhs.w }
    }
}

impl<T: Scalar> vstd::std_specs::ops::SubSpecImpl for Tuple<T> {
    open spec fn obeys_sub_spec() -> bool {
        exact::<T>()
    }

    open spec fn sub_req(self, rhs: Self) -> bool {
        self.minus_defined(rhs)
    }

    open spec fn sub_spec(self, rhs: Self) -> Self {
        self.minus(rhs)
    }
}

impl<T: Scalar> Mul<T> for Tuple<T> {
    type Output = Tuple<T>;

    /// Every component times the scalar.
    fn mul(self, rhs: T) -> (r: Self::Output) {
        Tuple { x: self.x * rhs, y: self.y * rhs, z: self.z * rhs, w: self.w * rhs }
    }
}

impl<T: Scalar> vstd::std_specs::ops::MulSpecImpl<T> for Tuple<T> {
    open spec fn obeys_mul_spec() -> bool {
        exact::<T>()
    }

    open spec fn mul_req(self, rhs: T) -> bool {
        self.scaled_defined(rhs)
    }

    open spec fn mul_spec(self, rhs: T) -> Self {
        self.scaled(rhs)
    }
}

impl<T: Scalar> Div<T> for Tuple<T> {
    type Output = Tuple<T>;

    /// Every component divided by the scalar.
    fn div(self, rhs: T) -> (r: Self::Output) {
        Tuple { x: self.x / rhs, y: self.y / rhs, z: self.z / rhs, w: self.w / rhs }
    }
}

impl<T: Scalar> vstd::std_specs::ops::DivSpecImpl<T> for Tuple<T> {
    open spec fn obeys_div_spec() -> bool {
        exact::<T>()
    }

    open spec fn div_req(self, rhs: T) -> bool {
        self.divided_defined(rhs)
    }

    open spec fn div_spec(self, rhs: T) -> Self {
        self.divided(rhs)
    }
}

/// `text` may be the text of the tuple: the four components, each as `T`
/// shows itself, behind `x:`, ` y:`, ` z:` and ` w:`.
pub open spec fn shown<T: Display>(t: Tuple<T>, text: Seq<char>) -> bool {
    exists|x: String, y: String, z: String, w: String|
        {
            &&& to_string_from_display_ensures::<T>(&t.x, x)
            &&& to_string_from_display_ensures::<T>(&t.y, y)
            &&& to_string_from_display_ensures::<T>(&t.z, z)
            &&& to_string_from_display_ensures::<T>(&t.w, w)
            &&& text == #[trigger] labelled(x@, y@, z@, w@)
        }
}

/// The texts of four components behind their labels.
pub open spec fn labelled(x: Seq<char>, y: Seq<char>, z: Seq<char>, w: Seq<char>) -> Seq<char> {
    seq!['x', ':'] + x + seq![' ', 'y', ':'] + y + seq![' ', 'z', ':'] + z + seq![' ', 'w', ':']
        + w
}

impl<T: Display> Tuple<T> {
    /// The tuple as text, with each component as `T` shows itself.
    pub fn to_string(&self) -> (r: String)
        ensures
            shown(*self, r@),
    {
        let x = self.x.to_string();
        let y = self.y.to_string();
        let z = self.z.to_string();
        let w = self.w.to_string();
        let mut text = String::from_str("x:");
        text.append(x.as_str());
        text.append(" y:");
        text.append(y.as_str());
        text.append(" z:");
        text.append(z.as_str());
        text.append(" w:");
        text.append(w.as_str());
        proof {
            reveal_strlit("x:");
            reveal_strlit(" y:");
            reveal_strlit(" z:");
            reveal_strlit(" w:");
            assert(text@ =~= labelled(x@, y@, z@, w@));
        }
        text
    }
}

} // verus!
