use vstd::prelude::*;
use vstd::std_specs::cmp::{OrdSpec, PartialEqSpec, PartialOrdSpec};
use vstd::std_specs::ops::{AddSpec, DivSpec, MulSpec, NegSpec, RemSpec, SubSpec};
use crate::render::{pair_text, join_pair, Render};
use crate::transform::{both_axes, lexicographic};
use std::cmp::Ordering;
use std::ops::{Add, AddAssign, Div, DivAssign, Mul, MulAssign, Neg, Rem, RemAssign, Sub, SubAssign};

verus! {

/// A two-dimensional vector whose axes may carry different scalar types;
/// a variant of `Vec2` whose vector algebra borrows its operands.
///
/// Any pair of component values is a valid vector. Arithmetic applies the
/// scalar operator of each axis on its own; the result's axis types are
/// those the scalar operators produce. The total order, where both axes
/// have one, compares the x components first and the y components on a tie.
#[derive(Debug, Ord)]
pub struct Vector2<XT = i32, YT = XT> {
    pub x: XT,
    pub y: YT,
}

impl<XT, YT> Vector2<XT, YT> {
    /// Builds a vector from its two components, stored as given.
    pub fn new(x: XT, y: YT) -> (r: Self)
        ensures
            r.x == x,
            r.y == y,
    {
        Vector2 { x, y }
    }
}

impl<T: Clone> Vector2<T, T> {
    /// Builds a vector whose two components are both `n`: a clone of it on
    /// the x axis, and `n` itself on the y axis.
    pub fn from(n: T) -> (r: Self)
        ensures
            call_ensures(T::clone, (&n,), r.x),
            r.y == n,
    {
        Vector2 { x: n.clone(), y: n }
    }
}

impl<XT: Clone, YT: Clone> Clone for Vector2<XT, YT> {
    /// Clones each component.
    fn clone(&self) -> (r: Self)
        ensures
            call_ensures(XT::clone, (&self.x,), r.x),
            call_ensures(YT::clone, (&self.y,), r.y),
    {
        Vector2 { x: self.x.clone(), y: self.y.clone() }
    }
}

impl<XT: Copy, YT: Copy> Copy for Vector2<XT, YT> {
}

impl<XT: Default, YT: Default> Default for Vector2<XT, YT> {
    /// The zero vector: each component is its type's default value.
    fn default() -> (r: Self)
        ensures
            call_ensures(XT::default, (), r.x),
            call_ensures(YT::default, (), r.y),
    {
        Vector2 { x: XT::default(), y: YT::default() }
    }
}

impl<XT: Neg, YT: Neg> Neg for Vector2<XT, YT> {
    type Output = Vector2<XT::Output, YT::Output>;

    /// Negates each component.
    fn neg(self) -> (r: Self::Output) {
        Vector2 { x: self.x.neg(), y: self.y.neg() }
    }
}

impl<XT: Neg, YT: Neg> vstd::std_specs::ops::NegSpecImpl for Vector2<XT, YT> {
    open spec fn obeys_neg_spec() -> bool {
        XT::obeys_neg_spec() && YT::obeys_neg_spec()
    }

    open spec fn neg_req(self) -> bool {
        self.x.neg_req() && self.y.neg_req()
    }

    open spec fn neg_spec(self) -> Self::Output {
        Vector2 { x: self.x.neg_spec(), y: self.y.neg_spec() }
    }
}

// Vector algebra.

impl<XT: Mul + Copy, YT: Mul + Copy> Vector2<XT, YT> where XT::Output: Add<YT::Output> {
    /// The dot product `self.x * other.x + self.y * other.y`, in the sum type
    /// that the axes' products give.
    pub fn dot(&self, other: &Self) -> (r: <XT::Output as Add<YT::Output>>::Output)
        requires
            XT::obeys_mul_spec(),
            YT::obeys_mul_spec(),
            self.x.mul_req(other.x),
            self.y.mul_req(other.y),
            self.x.mul_spec(other.x).add_req(self.y.mul_spec(other.y)),
        ensures
            XT::Output::obeys_add_spec() ==> r == dot_of(*self, *other),
    {
        (self.x * other.x) + (self.y * other.y)
    }

    /// The squared magnitude: the dot product of the vector with itself.
    pub fn mag2(&self) -> (r: <XT::Output as Add<YT::Output>>::Output)
        requires
            XT::obeys_mul_spec(),
            YT::obeys_mul_spec(),
            self.x.mul_req(self.x),
            self.y.mul_req(self.y),
            self.x.mul_spec(self.x).add_req(self.y.mul_spec(self.y)),
        ensures
            XT::Output::obeys_add_spec() ==> r == dot_of(*self, *self),
    {
        self.dot(self)
    }
}

/// The dot product of two vectors, as the axes' own operators define it.
pub open spec fn dot_of<XT: Mul, YT: Mul>(a: Vector2<XT, YT>, b: Vector2<XT, YT>) -> <XT::Output as Add<YT::Output>>::Output
    where XT::Output: Add<YT::Output>
{
    a.x.mul_spec(b.x).add_spec(a.y.mul_spec(b.y))
}

// The nearest direction whose angle is a multiple of 45 degrees.

/// The sign of `v`: 1, 0 or -1.
pub open spec fn sign(v: int) -> int {
    (if v >= 0 { 1int } else { 0int }) - (if v <= 0 { 1int } else { 0int })
}

/// The absolute value of `v`.
pub open spec fn magnitude(v: int) -> int {
    if v < 0 { -v } else { v }
}

/// One axis of the cardinal direction: the sign of `own` where that axis
/// dominates or ties, else zero.
pub open spec fn cardinal_axis(own: int, other: int) -> int {
    if magnitude(own) >= magnitude(other) { sign(own) } else { 0 }
}

impl Vector2<i32, i32> {
    /// The unit-step vector nearest in direction to this one among the eight
    /// directions at multiples of 45 degrees, or zero for the zero vector:
    /// each axis keeps its sign where its magnitude is at least the other's.
    pub fn cardinal(&self) -> (r: Vector2<i32, i32>)
        ensures
            r.x == cardinal_axis(self.x as int, self.y as int),
            r.y == cardinal_axis(self.y as int, self.x as int),
    {
        let ax: i64 = if self.x < 0 { -(self.x as i64) } else { self.x as i64 };
        let ay: i64 = if self.y < 0 { -(self.y as i64) } else { self.y as i64 };
        let sx: i32 = if self.x > 0 { 1 } else if self.x < 0 { -1 } else { 0 };
        let sy: i32 = if self.y > 0 { 1 } else if self.y < 0 { -1 } else { 0 };
        Vector2 { x: if ax >= ay { sx } else { 0 }, y: if ay >= ax { sy } else { 0 } }
    }
}

// Comparison: equality is per component; the partial order holds where both
// axes agree, and the total order is lexicographic on (x, y).

impl<XT: PartialEq, YT: PartialEq> PartialEq for Vector2<XT, YT> {
    /// Two vectors are equal when both pairs of components are.
    fn eq(&self, rhs: &Self) -> (r: bool) {
        self.x == rhs.x && self.y == rhs.y
    }
}

impl<XT: PartialEq, YT: PartialEq> vstd::std_specs::cmp::PartialEqSpecImpl for Vector2<XT, YT> {
    open spec fn obeys_eq_spec() -> bool {
        XT::obeys_eq_spec() && YT::obeys_eq_spec()
    }

    open spec fn eq_spec(&self, rhs: &Self) -> bool {
        self.x.eq_spec(&rhs.x) && self.y.eq_spec(&rhs.y)
    }
}

impl<XT: Eq, YT: Eq> Eq for Vector2<XT, YT> {
}

impl<XT: PartialOrd, YT: PartialOrd> PartialOrd for Vector2<XT, YT> {
    /// Compares both axes: the vectors are ordered where the two axis
    /// comparisons agree (an equal axis agrees with either order), and
    /// incomparable otherwise.
    fn partial_cmp(&self, other: &Self) -> (r: Option<Ordering>) {
        let by_x = self.x.partial_cmp(&other.x);
        let by_y = self.y.partial_cmp(&other.y);
        match (by_x, by_y) {
            (Some(Ordering::Equal), _) => by_y,
            (_, Some(Ordering::Equal)) => by_x,
            (Some(Ordering::Less), Some(Ordering::Less)) => by_x,
            (Some(Ordering::Greater), Some(Ordering::Greater)) => by_x,
            _ => None,
        }
    }
}

impl<XT: PartialOrd, YT: PartialOrd> vstd::std_specs::cmp::PartialOrdSpecImpl for Vector2<XT, YT> {
    open spec fn obeys_partial_cmp_spec() -> bool {
        XT::obeys_partial_cmp_spec() && YT::obeys_partial_cmp_spec()
    }

    open spec fn partial_cmp_spec(&self, other: &Self) -> Option<Ordering> {
        both_axes(self.x.partial_cmp_spec(&other.x), self.y.partial_cmp_spec(&other.y))
    }
}

impl<XT: Ord, YT: Ord> Vector2<XT, YT> {
    /// The total order: compares the x components, and the y components
    /// where those are equal. It is the order that `cmp` gives.
    pub fn lex_cmp(&self, other: &Self) -> (r: Ordering)
        ensures
            XT::obeys_cmp_spec() && YT::obeys_cmp_spec() ==> r == lexicographic(
                self.x.cmp_spec(&other.x),
                self.y.cmp_spec(&other.y),
            ),
    {
        match self.x.cmp(&other.x) {
            Ordering::Equal => self.y.cmp(&other.y),
            by_x => by_x,
        }
    }
}

// Textual rendering: "<x> <y>".

impl<XT: Render, YT: Render> Vector2<XT, YT> {
    /// Renders the vector as the x component's text, one space, and the y
    /// component's text.
    pub fn to_string(&self) -> (r: String)
        ensures
            r@ == pair_text(self.x.text(), self.y.text()),
    {
        join_pair(self.x.render(), &self.y.render())
    }
}

// Add: element-wise, and with a scalar applied to both axes.

impl<XT: Add, YT: Add> Add for Vector2<XT, YT> {
    type Output = Vector2<XT::Output, YT::Output>;

    /// The component-wise sum.
    fn add(self, rhs: Self) -> (r: Self::Output) {
        Vector2 { x: self.x + rhs.x, y: self.y + rhs.y }
    }
}

impl<XT: Add, YT: Add> vstd::std_specs::ops::AddSpecImpl for Vector2<XT, YT> {
    open spec fn obeys_add_spec() -> bool {
        XT::obeys_add_spec() && YT::obeys_add_spec()
    }

    open spec fn add_req(self, rhs: Self) -> bool {
        self.x.add_req(rhs.x) && self.y.add_req(rhs.y)
    }

    open spec fn add_spec(self, rhs: Self) -> Self::Output {
        Vector2 { x: self.x.add_spec(rhs.x), y: self.y.add_spec(rhs.y) }
    }
}

impl<T: Add + Copy> Add<T> for Vector2<T, T> {
    type Output = Vector2<T::Output, T::Output>;

    /// The sum of each component with the scalar `n`.
    fn add(self, n: T) -> (r: Self::Output) {
        Vector2 { x: self.x + n, y: self.y + n }
    }
}

impl<T: Add + Copy> vstd::std_specs::ops::AddSpecImpl<T> for Vector2<T, T> {
    open spec fn obeys_add_spec() -> bool {
        T::obeys_add_spec()
    }

    open spec fn add_req(self, n: T) -> bool {
        self.x.add_req(n) && self.y.add_req(n)
    }

    open spec fn add_spec(self, n: T) -> Self::Output {
        Vector2 { x: self.x.add_spec(n), y: self.y.add_spec(n) }
    }
}

impl<XT: Add<Output = XT> + Copy, YT: Add<Output = YT> + Copy> AddAssign for Vector2<XT, YT> {
    /// Replaces each component by its sum with the matching component of `rhs`.
    fn add_assign(&mut self, rhs: Self)
        requires
            old(self).x.add_req(rhs.x),
            old(self).y.add_req(rhs.y),
        ensures
            XT::obeys_add_spec() ==> final(self).x == old(self).x.add_spec(rhs.x),
            YT::obeys_add_spec() ==> final(self).y == old(self).y.add_spec(rhs.y),
    {
        self.x = self.x + rhs.x;
        self.y = self.y + rhs.y;
    }
}

impl<T: Add<Output = T> + Copy> AddAssign<T> for Vector2<T, T> {
    /// Replaces each component by its sum with the scalar `n`.
    fn add_assign(&mut self, n: T)
        requires
            old(self).x.add_req(n),
            old(self).y.add_req(n),
        ensures
            T::obeys_add_spec() ==> final(self).x == old(self).x.add_spec(n),
            T::obeys_add_spec() ==> final(self).y == old(self).y.add_spec(n),
    {
        self.x = self.x + n;
        self.y = self.y + n;
    }
}

// Sub: element-wise, and with a scalar applied to both axes.

impl<XT: Sub, YT: Sub> Sub for Vector2<XT, YT> {
    type Output = Vector2<XT::Output, YT::Output>;

    /// The component-wise difference.
    fn sub(self, rhs: Self) -> (r: Self::Output) {
        Vector2 { x: self.x - rhs.x, y: self.y - rhs.y }
    }
}

impl<XT: Sub, YT: Sub> vstd::std_specs::ops::SubSpecImpl for Vector2<XT, YT> {
    open spec fn obeys_sub_spec() -> bool {
        XT::obeys_sub_spec() && YT::obeys_sub_spec()
    }

    open spec fn sub_req(self, rhs: Self) -> bool {
        self.x.sub_req(rhs.x) && self.y.sub_req(rhs.y)
    }

    open spec fn sub_spec(self, rhs: Self) -> Self::Output {
        Vector2 { x: self.x.sub_spec(rhs.x), y: self.y.sub_spec(rhs.y) }
    }
}

impl<T: Sub + Copy> Sub<T> for Vector2<T, T> {
    type Output = Vector2<T::Output, T::Output>;

    /// The difference of each component with the scalar `n`.
    fn sub(self, n: T) -> (r: Self::Output) {
        Vector2 { x: self.x - n, y: self.y - n }
    }
}

impl<T: Sub + Copy> vstd::std_specs::ops::SubSpecImpl<T> for Vector2<T, T> {
    open spec fn obeys_sub_spec() -> bool {
        T::obeys_sub_spec()
    }

    open spec fn sub_req(self, n: T) -> bool {
        self.x.sub_req(n) && self.y.sub_req(n)
    }

    open spec fn sub_spec(self, n: T) -> Self::Output {
        Vector2 { x: self.x.sub_spec(n), y: self.y.sub_spec(n) }
    }
}

impl<XT: Sub<Output = XT> + Copy, YT: Sub<Output = YT> + Copy> SubAssign for Vector2<XT, YT> {
    /// Replaces each component by its difference with the matching component of `rhs`.
    fn sub_assign(&mut self, rhs: Self)
        requires
            old(self).x.sub_req(rhs.x),
            old(self).y.sub_req(rhs.y),
        ensures
            XT::obeys_sub_spec() ==> final(self).x == old(self).x.sub_spec(rhs.x),
            YT::obeys_sub_spec() ==> final(self).y == old(self).y.sub_spec(rhs.y),
    {
        self.x = self.x - rhs.x;
        self.y = self.y - rhs.y;
    }
}

impl<T: Sub<Output = T> + Copy> SubAssign<T> for Vector2<T, T> {
    /// Replaces each component by its difference with the scalar `n`.
    fn sub_assign(&mut self, n: T)
        requires
            old(self).x.sub_req(n),
            old(self).y.sub_req(n),
        ensures
            T::obeys_sub_spec() ==> final(self).x == old(self).x.sub_spec(n),
            T::obeys_sub_spec() ==> final(self).y == old(self).y.sub_spec(n),
    {
        self.x = self.x - n;
        self.y = self.y - n;
    }
}

// Mul: element-wise, and with a scalar applied to both axes.

impl<XT: Mul, YT: Mul> Mul for Vector2<XT, YT> {
    type Output = Vector2<XT::Output, YT::Output>;

    /// The component-wise product.
    fn mul(self, rhs: Self) -> (r: Self::Output) {
        Vector2 { x: self.x * rhs.x, y: self.y * rhs.y }
    }
}

impl<XT: Mul, YT: Mul> vstd::std_specs::ops::MulSpecImpl for Vector2<XT, YT> {
    open spec fn obeys_mul_spec() -> bool {
        XT::obeys_mul_spec() && YT::obeys_mul_spec()
    }

    open spec fn mul_req(self, rhs: Self) -> bool {
        self.x.mul_req(rhs.x) && self.y.mul_req(rhs.y)
    }

    open spec fn mul_spec(self, rhs: Self) -> Self::Output {
        Vector2 { x: self.x.mul_spec(rhs.x), y: self.y.mul_spec(rhs.y) }
    }
}

impl<T: Mul + Copy> Mul<T> for Vector2<T, T> {
    type Output = Vector2<T::Output, T::Output>;

    /// The product of each component with the scalar `n`.
    fn mul(self, n: T) -> (r: Self::Output) {
        Vector2 { x: self.x * n, y: self.y * n }
    }
}

impl<T: Mul + Copy> vstd::std_specs::ops::MulSpecImpl<T> for Vector2<T, T> {
    open spec fn obeys_mul_spec() -> bool {
        T::obeys_mul_spec()
    }

    open spec fn mul_req(self, n: T) -> bool {
        self.x.mul_req(n) && self.y.mul_req(n)
    }

    open spec fn mul_spec(self, n: T) -> Self::Output {
        Vector2 { x: self.x.mul_spec(n), y: self.y.mul_spec(n) }
    }
}

impl<XT: Mul<Output = XT> + Copy, YT: Mul<Output = YT> + Copy> MulAssign for Vector2<XT, YT> {
    /// Replaces each component by its product with the matching component of `rhs`.
    fn mul_assign(&mut self, rhs: Self)
        requires
            old(self).x.mul_req(rhs.x),
            old(self).y.mul_req(rhs.y),
        ensures
            XT::obeys_mul_spec() ==> final(self).x == old(self).x.mul_spec(rhs.x),
            YT::obeys_mul_spec() ==> final(self).y == old(self).y.mul_spec(rhs.y),
    {
        self.x = self.x * rhs.x;
        self.y = self.y * rhs.y;
    }
}

impl<T: Mul<Output = T> + Copy> MulAssign<T> for Vector2<T, T> {
    /// Replaces each component by its product with the scalar `n`.
    fn mul_assign(&mut self, n: T)
        requires
            old(self).x.mul_req(n),
            old(self).y.mul_req(n),
        ensures
            T::obeys_mul_spec() ==> final(self).x == old(self).x.mul_spec(n),
            T::obeys_mul_spec() ==> final(self).y == old(self).y.mul_spec(n),
    {
        self.x = self.x * n;
        self.y = self.y * n;
    }
}

// Div: element-wise, and with a scalar applied to both axes.

impl<XT: Div, YT: Div> Div for Vector2<XT, YT> {
    type Output = Vector2<XT::Output, YT::Output>;

    /// The component-wise quotient.
    fn div(self, rhs: Self) -> (r: Self::Output) {
        Vector2 { x: self.x / rhs.x, y: self.y / rhs.y }
    }
}

impl<XT: Div, YT: Div> vstd::std_specs::ops::DivSpecImpl for Vector2<XT, YT> {
    open spec fn obeys_div_spec() -> bool {
        XT::obeys_div_spec() && YT::obeys_div_spec()
    }

    open spec fn div_req(self, rhs: Self) -> bool {
        self.x.div_req(rhs.x) && self.y.div_req(rhs.y)
    }

    open spec fn div_spec(self, rhs: Self) -> Self::Output {
        Vector2 { x: self.x.div_spec(rhs.x), y: self.y.div_spec(rhs.y) }
    }
}

impl<T: Div + Copy> Div<T> for Vector2<T, T> {
    type Output = Vector2<T::Output, T::Output>;

    /// The quotient of each component with the scalar `n`.
    fn div(self, n: T) -> (r: Self::Output) {
        Vector2 { x: self.x / n, y: self.y / n }
    }
}

impl<T: Div + Copy> vstd::std_specs::ops::DivSpecImpl<T> for Vector2<T, T> {
    open spec fn obeys_div_spec() -> bool {
        T::obeys_div_spec()
    }

    open spec fn div_req(self, n: T) -> bool {
        self.x.div_req(n) && self.y.div_req(n)
    }

    open spec fn div_spec(self, n: T) -> Self::Output {
        Vector2 { x: self.x.div_spec(n), y: self.y.div_spec(n) }
    }
}

impl<XT: Div<Output = XT> + Copy, YT: Div<Output = YT> + Copy> DivAssign for Vector2<XT, YT> {
    /// Replaces each component by its quotient with the matching component of `rhs`.
    fn div_assign(&mut self, rhs: Self)
        requires
            old(self).x.div_req(rhs.x),
            old(self).y.div_req(rhs.y),
        ensures
            XT::obeys_div_spec() ==> final(self).x == old(self).x.div_spec(rhs.x),
            YT::obeys_div_spec() ==> final(self).y == old(self).y.div_spec(rhs.y),
    {
        self.x = self.x / rhs.x;
        self.y = self.y / rhs.y;
    }
}

impl<T: Div<Output = T> + Copy> DivAssign<T> for Vector2<T, T> {
    /// Replaces each component by its quotient with the scalar `n`.
    fn div_assign(&mut self, n: T)
        requires
            old(self).x.div_req(n),
            old(self).y.div_req(n),
        ensures
            T::obeys_div_spec() ==> final(self).x == old(self).x.div_spec(n),
            T::obeys_div_spec() ==> final(self).y == old(self).y.div_spec(n),
    {
        self.x = self.x / n;
        self.y = self.y / n;
    }
}

// Rem: element-wise, and with a scalar applied to both axes.

impl<XT: Rem, YT: Rem> Rem for Vector2<XT, YT> {
    type Output = Vector2<XT::Output, YT::Output>;

    /// The component-wise remainder.
    fn rem(self, rhs: Self) -> (r: Self::Output) {
        Vector2 { x: self.x % rhs.x, y: self.y % rhs.y }
    }
}

impl<XT: Rem, YT: Rem> vstd::std_specs::ops::RemSpecImpl for Vector2<XT, YT> {
    open spec fn obeys_rem_spec() -> bool {
        XT::obeys_rem_spec() && YT::obeys_rem_spec()
    }

    open spec fn rem_req(self, rhs: Self) -> bool {
        self.x.rem_req(rhs.x) && self.y.rem_req(rhs.y)
    }

    open spec fn rem_spec(self, rhs: Self) -> Self::Output {
        Vector2 { x: self.x.rem_spec(rhs.x), y: self.y.rem_spec(rhs.y) }
    }
}

impl<T: Rem + Copy> Rem<T> for Vector2<T, T> {
    type Output = Vector2<T::Output, T::Output>;

    /// The remainder of each component with the scalar `n`.
    fn rem(self, n: T) -> (r: Self::Output) {
        Vector2 { x: self.x % n, y: self.y % n }
    }
}

impl<T: Rem + Copy> vstd::std_specs::ops::RemSpecImpl<T> for Vector2<T, T> {
    open spec fn obeys_rem_spec() -> bool {
        T::obeys_rem_spec()
    }

    open spec fn rem_req(self, n: T) -> bool {
        self.x.rem_req(n) && self.y.rem_req(n)
    }

    open spec fn rem_spec(self, n: T) -> Self::Output {
        Vector2 { x: self.x.rem_spec(n), y: self.y.rem_spec(n) }
    }
}

impl<XT: Rem<Output = XT> + Copy, YT: Rem<Output = YT> + Copy> RemAssign for Vector2<XT, YT> {
    /// Replaces each component by its remainder with the matching component of `rhs`.
    fn rem_assign(&mut self, rhs: Self)
        requires
            old(self).x.rem_req(rhs.x),
            old(self).y.rem_req(rhs.y),
        ensures
            XT::obeys_rem_spec() ==> final(self).x == old(self).x.rem_spec(rhs.x),
            YT::obeys_rem_spec() ==> final(self).y == old(self).y.rem_spec(rhs.y),
    {
        self.x = self.x % rhs.x;
        self.y = self.y % rhs.y;
    }
}

impl<T: Rem<Output = T> + Copy> RemAssign<T> for Vector2<T, T> {
    /// Replaces each component by its remainder with the scalar `n`.
    fn rem_assign(&mut self, n: T)
        requires
            old(self).x.rem_req(n),
            old(self).y.rem_req(n),
        ensures
            T::obeys_rem_spec() ==> final(self).x == old(self).x.rem_spec(n),
            T::obeys_rem_spec() ==> final(self).y == old(self).y.rem_spec(n),
    {
        self.x = self.x % n;
        self.y = self.y % n;
    }
}


} // verus!
