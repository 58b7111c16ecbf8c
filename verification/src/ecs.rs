//! Results of the embedded entity-component system layers.
use vstd::prelude::*;

verus! {

/// Used to chain the results of each layer together.
pub enum LayerResult<A, B> {
    /// Event for the current layer
    Head(A),
    /// Events for the rest of the layers
    Rest(B),
}

/// Type alias for a result from a single layer; the base entity produces `()` as its result.
pub type LayerResult1<A> = LayerResult<A, ()>;

/// Type alias for a result from two layers.
pub type LayerResult2<A, B> = LayerResult<A, LayerResult1<B>>;

/// Immutable view into the result of a single layer.
pub enum ResultView0<'a, A> {
    /// Result of the layer
    Result0(&'a A),
}

/// Mutable view into the result of a single layer.
pub enum ResultViewMut0<'a, A> {
    /// Result of the layer
    Result0(&'a mut A),
}

impl<'a, A> TryFrom<&'a LayerResult1<A>> for ResultView0<'a, A> {
    type Error = ();

    fn try_from(value: &'a LayerResult1<A>) -> (r: Result<Self, Self::Error>) {
        match value {
            LayerResult::Head(a) => Ok(ResultView0::Result0(a)),
            LayerResult::Rest(_) => Err(()),
        }
    }
}

impl<'a, A> vstd::std_specs::convert::TryFromSpecImpl<&'a LayerResult1<A>> for ResultView0<'a, A> {
    open spec fn obeys_try_from_spec() -> bool {
        true
    }

    open spec fn try_from_spec(value: &'a LayerResult1<A>) -> Result<Self, ()> {
        match value {
            LayerResult::Head(a) => Ok(ResultView0::Result0(a)),
            LayerResult::Rest(_) => Err(()),
        }
    }
}

impl<'a, A> ResultViewMut0<'a, A> {
    /// Views the result of a single layer mutably; fails when the result is not the layer's own.
    ///
    /// A write through the view lands in the layer's result.
    pub fn try_from_mut(value: &'a mut LayerResult1<A>) -> (r: Result<Self, ()>)
        ensures
            r is Ok <==> *old(value) is Head,
            *old(value) is Rest ==> *final(value) == *old(value),
            (match (*old(value), r) {
                (LayerResult::Head(a), Ok(ResultViewMut0::Result0(x))) => *x == a && *final(value)
                    == LayerResult::<A, ()>::Head(*final(x)),
                _ => true,
            }),
    {
        match value {
            LayerResult::Head(a) => Ok(ResultViewMut0::Result0(a)),
            LayerResult::Rest(_) => Err(()),
        }
    }
}

impl<'a, A> TryFrom<&'a mut LayerResult1<A>> for ResultViewMut0<'a, A> {
    type Error = ();

    fn try_from(value: &'a mut LayerResult1<A>) -> (r: Result<Self, Self::Error>)
        ensures
            r is Ok <==> *old(value) is Head,
            *old(value) is Rest ==> *final(value) == *old(value),
            (match (*old(value), r) {
                (LayerResult::Head(a), Ok(ResultViewMut0::Result0(x))) => *x == a && *final(value)
                    == LayerResult::<A, ()>::Head(*final(x)),
                _ => true,
            }),
    {
        Self::try_from_mut(value)
    }
}

impl<'a, A> vstd::std_specs::convert::TryFromSpecImpl<&'a mut LayerResult1<A>> for ResultViewMut0<'a, A> {
    /// What the conversion gives is stated in the `ensures` of its `try_from`, since a spec
    /// function cannot take a mutable borrow apart.
    open spec fn obeys_try_from_spec() -> bool {
        false
    }

    open spec fn try_from_spec(value: &'a mut LayerResult1<A>) -> Result<Self, ()> {
        Err(())
    }
}

/// Struct used to access the result at index 0
pub struct Index0;

/// Struct used to access the result at index 1
pub struct Index1;

/// Struct used to access the result at index 2
pub struct Index2;

/// Private index trait
trait Index {
}

impl Index for Index0 {
}

impl Index for Index1 {
}

impl Index for Index2 {
}

/// Access to the result value of a certain type at a certain index.
#[allow(private_bounds)]
pub trait Get<T, I: Index> {
    /// The result at the index, if it is the one held.
    spec fn spec_get(&self) -> Option<&T>;

    /// Gets the inner result, or `None` if the view holds another layer's result.
    fn get(&self) -> (r: Option<&T>)
        ensures
            r == self.spec_get(),
    ;
}

impl<'a, A> Get<A, Index0> for ResultView0<'a, A> {
    open spec fn spec_get(&self) -> Option<&A> {
        match self {
            ResultView0::Result0(a) => Some(*a),
        }
    }

    fn get(&self) -> (r: Option<&A>) {
        match self {
            ResultView0::Result0(a) => Some(*a),
        }
    }
}

impl<'a, A, B> Get<A, Index0> for ResultView1<'a, A, B> {
    open spec fn spec_get(&self) -> Option<&A> {
        match self {
            ResultView1::Result0(a) => Some(*a),
            ResultView1::Result1(_) => None,
        }
    }

    fn get(&self) -> (r: Option<&A>) {
        match self {
            ResultView1::Result0(a) => Some(*a),
            ResultView1::Result1(_) => None,
        }
    }
}

impl<'a, A, B> Get<B, Index1> for ResultView1<'a, A, B> {
    open spec fn spec_get(&self) -> Option<&B> {
        match self {
            ResultView1::Result0(_) => None,
            ResultView1::Result1(b) => Some(*b),
        }
    }

    fn get(&self) -> (r: Option<&B>) {
        match self {
            ResultView1::Result0(_) => None,
            ResultView1::Result1(b) => Some(*b),
        }
    }
}

/// Immutable view into the result of two layers.
pub enum ResultView1<'a, A, B> {
    /// Result of the first layer
    Result0(&'a A),
    /// Result of the second layer
    Result1(&'a B),
}

impl<'a, A, B> TryFrom<&'a LayerResult2<A, B>> for ResultView1<'a, A, B> {
    type Error = ();

    fn try_from(value: &'a LayerResult2<A, B>) -> (r: Result<Self, Self::Error>) {
        match value {
            LayerResult::Head(a) => Ok(ResultView1::Result0(a)),
            LayerResult::Rest(b) => match ResultView0::try_from(b) {
                Ok(ResultView0::Result0(b)) => Ok(ResultView1::Result1(b)),
                Err(_) => Err(()),
            },
        }
    }
}

impl<'a, A, B> vstd::std_specs::convert::TryFromSpecImpl<&'a LayerResult2<A, B>> for ResultView1<'a, A, B> {
    open spec fn obeys_try_from_spec() -> bool {
        true
    }

    open spec fn try_from_spec(value: &'a LayerResult2<A, B>) -> Result<Self, ()> {
        match value {
            LayerResult::Head(a) => Ok(ResultView1::Result0(a)),
            LayerResult::Rest(LayerResult::Head(b)) => Ok(ResultView1::Result1(b)),
            LayerResult::Rest(LayerResult::Rest(_)) => Err(()),
        }
    }
}

/// Mutable view into the result of two layers.
pub enum ResultViewMut1<'a, A, B> {
    /// Result of the first layer
    Result0(&'a mut A),
    /// Result of the second layer
    Result1(&'a mut B),
}

/// Immutable view into the result of two layers.
pub enum ResultView2<'a, A, B> {
    /// Result of the first layer
    Result0(&'a A),
    /// Result of the second layer
    Result1(&'a B),
}

/// Mutable view into the result of two layers.
pub enum ResultViewMut2<'a, A, B> {
    /// Result of the first layer
    Result0(&'a mut A),
    /// Result of the second layer
    Result1(&'a mut B),
}

/// Immutable view into the result of three layers.
pub enum ResultView3<'a, A, B, C> {
    /// Result of the first layer
    Result0(&'a A),
    /// Result of the second layer
    Result1(&'a B),
    /// Result of the third layer
    Result2(&'a C),
}

/// Mutable view into the result of three layers.
pub enum ResultViewMut3<'a, A, B, C> {
    /// Result of the first layer
    Result0(&'a mut A),
    /// Result of the second layer
    Result1(&'a mut B),
    /// Result of the third layer
    Result2(&'a mut C),
}

} // verus!
