//! Margins and paddings: optional space on each side of a box.
use vstd::prelude::*;
use vstd::std_specs::ops::AddSpec;
use core::ops::Add;

verus! {

/// The sum of two optional values: both when both are there, the one that is there,
/// or none.
pub open spec fn add_two_optional_spec<U: Add<Output = U>>(a: Option<U>, b: Option<U>) -> Option<U> {
    match (a, b) {
        (Some(a), Some(b)) => Some(a.add_spec(b)),
        (Some(a), None) => Some(a),
        (None, Some(b)) => Some(b),
        (None, None) => None,
    }
}

/// Whether adding two optional values is defined.
pub open spec fn add_two_optional_req<U: Add<Output = U>>(a: Option<U>, b: Option<U>) -> bool {
    (a, b) matches (Some(x), Some(y)) ==> x.add_req(y)
}

/// Adds two optional values: both when both are there, else the one that is there.
pub fn add_two_optional<U>(a: Option<U>, b: Option<U>) -> (r: Option<U>)
    where U: Add<Output = U> + Copy,
    requires
        add_two_optional_req(a, b),
    ensures
        r is Some <==> (a is Some || b is Some),
        U::obeys_add_spec() ==> r == add_two_optional_spec(a, b),
        !(a is Some && b is Some) ==> r == add_two_optional_spec(a, b),
{
    match (a, b) {
        (Some(a), Some(b)) => Some(a + b),
        (Some(a), None) => Some(a),
        (None, Some(b)) => Some(b),
        (None, None) => None,
    }
}

/// Space outside a box, on each side.
#[derive(Debug, Default, PartialEq, Clone, Copy)]
pub struct Margin<U> {
    pub left: Option<U>,
    pub right: Option<U>,
    pub top: Option<U>,
    pub bottom: Option<U>,
}

/// Space inside a box, on each side.
#[derive(Debug, Default, PartialEq, Clone, Copy)]
pub struct Padding<U> {
    pub left: Option<U>,
    pub right: Option<U>,
    pub top: Option<U>,
    pub bottom: Option<U>,
}

impl<U> Margin<U> {
    /// Space on all four sides, each given.
    pub fn new(left: U, right: U, top: U, bottom: U) -> (r: Self)
        ensures
            r == (Margin { left: Some(left), right: Some(right), top: Some(top), bottom: Some(bottom) }),
    {
        Margin { left: Some(left), right: Some(right), top: Some(top), bottom: Some(bottom) }
    }

    /// The same margin on all four sides.
    pub fn all(padding: U) -> (r: Self)
        where U: Copy,
        ensures
            r == (Margin { left: Some(padding), right: Some(padding), top: Some(padding), bottom: Some(padding) }),
    {
        Margin { left: Some(padding), right: Some(padding), top: Some(padding), bottom: Some(padding) }
    }

    /// The same margin left and right, none above and below.
    pub fn horizontal(horizontal: U) -> (r: Self)
        where U: Copy + Default,
        ensures
            r == (Margin { left: Some(horizontal), right: Some(horizontal), top: None::<U>, bottom: None::<U> }),
    {
        Margin { left: Some(horizontal), right: Some(horizontal), top: None, bottom: None }
    }

    /// Space on the left and the right only.
    pub fn left_and_right(left: U, right: U) -> (r: Self)
        where U: Default,
        ensures
            r == (Margin { left: Some(left), right: Some(right), top: None::<U>, bottom: None::<U> }),
    {
        Margin { left: Some(left), right: Some(right), top: None, bottom: None }
    }

    /// The same margin above and below, none left and right.
    pub fn vertical(vertical: U) -> (r: Self)
        where U: Copy + Default,
        ensures
            r == (Margin { left: None::<U>, right: None::<U>, top: Some(vertical), bottom: Some(vertical) }),
    {
        Margin { left: None, right: None, top: Some(vertical), bottom: Some(vertical) }
    }

    /// The horizontal space: left plus right, where present.
    pub fn horizontal_value(&self) -> (r: Option<U>)
        where U: Copy + Add<Output = U>,
        requires
            add_two_optional_req(self.left, self.right),
        ensures
            r is Some <==> (self.left is Some || self.right is Some),
            U::obeys_add_spec() ==> r == add_two_optional_spec(self.left, self.right),
            !(self.left is Some && self.right is Some) ==> r == add_two_optional_spec(self.left, self.right),
    {
        add_two_optional(self.left, self.right)
    }

    /// The horizontal space, or `default` when neither side is set.
    pub fn horizontal_or_default(&self, default: U) -> (r: U)
        where U: Copy + Add<Output = U> + Default,
        requires
            add_two_optional_req(self.left, self.right),
        ensures
            (self.left is None && self.right is None) ==> r == default,
            U::obeys_add_spec() && (self.left is Some || self.right is Some) ==> Some(r)
                == add_two_optional_spec(self.left, self.right),
            (self.left is Some != self.right is Some) ==> Some(r) == add_two_optional_spec(self.left, self.right),
    {
        match self.horizontal_value() {
            Some(v) => v,
            None => default,
        }
    }

    /// The vertical space: top plus bottom, where present.
    pub fn vertical_value(&self) -> (r: Option<U>)
        where U: Copy + Add<Output = U>,
        requires
            add_two_optional_req(self.top, self.bottom),
        ensures
            r is Some <==> (self.top is Some || self.bottom is Some),
            U::obeys_add_spec() ==> r == add_two_optional_spec(self.top, self.bottom),
            !(self.top is Some && self.bottom is Some) ==> r == add_two_optional_spec(self.top, self.bottom),
    {
        add_two_optional(self.top, self.bottom)
    }

    /// The vertical space, or `default` when neither side is set.
    pub fn vertical_or_default(&self, default: U) -> (r: U)
        where U: Copy + Add<Output = U> + Default,
        requires
            add_two_optional_req(self.top, self.bottom),
        ensures
            (self.top is None && self.bottom is None) ==> r == default,
            U::obeys_add_spec() && (self.top is Some || self.bottom is Some) ==> Some(r)
                == add_two_optional_spec(self.top, self.bottom),
            (self.top is Some != self.bottom is Some) ==> Some(r) == add_two_optional_spec(self.top, self.bottom),
    {
        match self.vertical_value() {
            Some(v) => v,
            None => default,
        }
    }

    /// The four sides as a tuple: left, right, top, bottom.
    pub fn into_sides(self) -> (r: (Option<U>, Option<U>, Option<U>, Option<U>))
        ensures
            r == (self.left, self.right, self.top, self.bottom),
    {
        (self.left, self.right, self.top, self.bottom)
    }
}

impl<U> Padding<U> {
    /// Space on all four sides, each given.
    pub fn new(left: U, right: U, top: U, bottom: U) -> (r: Self)
        ensures
            r == (Padding { left: Some(left), right: Some(right), top: Some(top), bottom: Some(bottom) }),
    {
        Padding { left: Some(left), right: Some(right), top: Some(top), bottom: Some(bottom) }
    }

    /// The same padding on all four sides.
    pub fn all(padding: U) -> (r: Self)
        where U: Copy,
        ensures
            r == (Padding { left: Some(padding), right: Some(padding), top: Some(padding), bottom: Some(padding) }),
    {
        Padding { left: Some(padding), right: Some(padding), top: Some(padding), bottom: Some(padding) }
    }

    /// The same padding left and right, none above and below.
    pub fn horizontal(horizontal: U) -> (r: Self)
        where U: Copy + Default,
        ensures
            r == (Padding { left: Some(horizontal), right: Some(horizontal), top: None::<U>, bottom: None::<U> }),
    {
        Padding { left: Some(horizontal), right: Some(horizontal), top: None, bottom: None }
    }

    /// Space on the left and the right only.
    pub fn left_and_right(left: U, right: U) -> (r: Self)
        where U: Default,
        ensures
            r == (Padding { left: Some(left), right: Some(right), top: None::<U>, bottom: None::<U> }),
    {
        Padding { left: Some(left), right: Some(right), top: None, bottom: None }
    }

    /// The same padding above and below, none left and right.
    pub fn vertical(vertical: U) -> (r: Self)
        where U: Copy + Default,
        ensures
            r == (Padding { left: None::<U>, right: None::<U>, top: Some(vertical), bottom: Some(vertical) }),
    {
        Padding { left: None, right: None, top: Some(vertical), bottom: Some(vertical) }
    }

    /// The horizontal space: left plus right, where present.
    pub fn horizontal_value(&self) -> (r: Option<U>)
        where U: Copy + Add<Output = U>,
        requires
            add_two_optional_req(self.left, self.right),
        ensures
            r is Some <==> (self.left is Some || self.right is Some),
            U::obeys_add_spec() ==> r == add_two_optional_spec(self.left, self.right),
            !(self.left is Some && self.right is Some) ==> r == add_two_optional_spec(self.left, self.right),
    {
        add_two_optional(self.left, self.right)
    }

    /// The vertical space: top plus bottom, where present.
    pub fn vertical_value(&self) -> (r: Option<U>)
        where U: Copy + Add<Output = U>,
        requires
            add_two_optional_req(self.top, self.bottom),
        ensures
            r is Some <==> (self.top is Some || self.bottom is Some),
            U::obeys_add_spec() ==> r == add_two_optional_spec(self.top, self.bottom),
            !(self.top is Some && self.bottom is Some) ==> r == add_two_optional_spec(self.top, self.bottom),
    {
        add_two_optional(self.top, self.bottom)
    }
}

/// Law: the optional sum is symmetric for a unit whose addition is commutative.
pub proof fn law_add_two_optional_symmetric<U: Add<Output = U>>(a: Option<U>, b: Option<U>)
    requires
        forall|x: U, y: U| x.add_spec(y) == y.add_spec(x),
    ensures
        add_two_optional_spec(a, b) == add_two_optional_spec(b, a),
{
    if let (Some(x), Some(y)) = (a, b) {
        assert(x.add_spec(y) == y.add_spec(x));
    }
}

} // verus!
