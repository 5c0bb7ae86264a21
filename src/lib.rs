use vstd::prelude::*;

verus! {

/// An "inclusive or": a left item, a right item, or both, but never neither.
///
/// Build one directly from a variant, or from two optional values with
/// [`InclusiveOrExt::or_inclusive`].
#[derive(Debug)]
pub enum InclusiveOr<T, U> {
    LeftAndRight(T, U),
    Left(T),
    Right(U),
}

/// An inclusive or whose two sides share one type.
pub type InclusiveOrHomogeneous<T> = InclusiveOr<T, T>;

impl<T, U> InclusiveOr<T, U> {
    /// The left item, where one is present.
    pub open spec fn left_value(self) -> Option<T> {
        match self {
            InclusiveOr::LeftAndRight(left, _) => Some(left),
            InclusiveOr::Left(left) => Some(left),
            InclusiveOr::Right(_) => None,
        }
    }

    /// The right item, where one is present.
    pub open spec fn right_value(self) -> Option<U> {
        match self {
            InclusiveOr::LeftAndRight(_, right) => Some(right),
            InclusiveOr::Left(_) => None,
            InclusiveOr::Right(right) => Some(right),
        }
    }

    /// Borrows the left item of a `Left` or `LeftAndRight`; `None` for a `Right`.
    pub fn get_left(&self) -> (r: Option<&T>)
        ensures
            r is Some <==> self.left_value() is Some,
            r is Some ==> r->0 == self.left_value()->0,
    {
        match self {
            InclusiveOr::LeftAndRight(left, _) | InclusiveOr::Left(left) => Some(left),
            InclusiveOr::Right(_) => None,
        }
    }

    /// Borrows the right item of a `Right` or `LeftAndRight`; `None` for a `Left`.
    pub fn get_right(&self) -> (r: Option<&U>)
        ensures
            r is Some <==> self.right_value() is Some,
            r is Some ==> r->0 == self.right_value()->0,
    {
        match self {
            InclusiveOr::LeftAndRight(_, right) | InclusiveOr::Right(right) => Some(right),
            InclusiveOr::Left(_) => None,
        }
    }
}

/// What combining an optional left item with an optional right item gives:
/// `None` when both are absent, else the variant that holds exactly the items
/// that are present.
pub open spec fn inclusive_or_of<T, U>(left: Option<T>, right: Option<U>) -> Option<InclusiveOr<T, U>> {
    match (left, right) {
        (None, None) => None,
        (None, Some(r)) => Some(InclusiveOr::Right(r)),
        (Some(l), None) => Some(InclusiveOr::Left(l)),
        (Some(l), Some(r)) => Some(InclusiveOr::LeftAndRight(l, r)),
    }
}

/// Builds an [`InclusiveOr`] from two optional values.
pub trait InclusiveOrExt<T, U>: Sized {
    /// The optional left item that `self` stands for.
    spec fn left_option(self) -> Option<T>;

    /// Combines `self`, as the left item, with `other`, as the right item,
    /// moving whichever of the two are present into the result.
    fn or_inclusive(self, other: Option<U>) -> (r: Option<InclusiveOr<T, U>>)
        ensures
            r == inclusive_or_of(self.left_option(), other),
    ;
}

impl<T, U> InclusiveOrExt<T, U> for Option<T> {
    open spec fn left_option(self) -> Option<T> {
        self
    }

    fn or_inclusive(self, other: Option<U>) -> (r: Option<InclusiveOr<T, U>>) {
        match (self, other) {
            (None, None) => None,
            (None, Some(right)) => Some(InclusiveOr::Right(right)),
            (Some(left), None) => Some(InclusiveOr::Left(left)),
            (Some(left), Some(right)) => Some(InclusiveOr::LeftAndRight(left, right)),
        }
    }
}

/// A `Left` holds its item on the left and nothing on the right.
pub proof fn lemma_left_accessors<T, U>(t: T)
    ensures
        InclusiveOr::<T, U>::Left(t).left_value() == Some(t),
        InclusiveOr::<T, U>::Left(t).right_value() is None,
{
}

/// A `Right` holds its item on the right and nothing on the left.
pub proof fn lemma_right_accessors<T, U>(u: U)
    ensures
        InclusiveOr::<T, U>::Right(u).right_value() == Some(u),
        InclusiveOr::<T, U>::Right(u).left_value() is None,
{
}

/// A `LeftAndRight` holds its first item on the left and its second on the right.
pub proof fn lemma_left_and_right_accessors<T, U>(t: T, u: U)
    ensures
        InclusiveOr::<T, U>::LeftAndRight(t, u).left_value() == Some(t),
        InclusiveOr::<T, U>::LeftAndRight(t, u).right_value() == Some(u),
{
}

/// Every inclusive or holds a left item or a right item: no value has both
/// sides absent.
pub proof fn lemma_never_neither<T, U>(x: InclusiveOr<T, U>)
    ensures
        x.left_value() is Some || x.right_value() is Some,
{
}

/// Combining two optional values, not both absent, gives an inclusive or whose
/// sides are exactly those two values; two absent values give `None`.
pub proof fn lemma_round_trip<T, U>(left: Option<T>, right: Option<U>)
    ensures
        (left is Some || right is Some) ==> {
            &&& inclusive_or_of(left, right) is Some
            &&& inclusive_or_of(left, right)->0.left_value() == left
            &&& inclusive_or_of(left, right)->0.right_value() == right
        },
        (left is None && right is None) ==> inclusive_or_of(left, right) is None,
{
}

} // verus!
