//! Transformer results.
//!
//! Building up types to contain the results of each layer at compile time requires a nested enum,
//! provided by [`Nested`]. Its nesting is awkward to work with, so this module also provides the
//! `View*` types, an idiomatic way to access the result of each layer, and the [`Get`] and
//! [`GetMut`] traits, which access the result at a given index.
use vstd::prelude::*;

verus! {

/// Nested result used to chain the results of each layer together; `()` terminates the chain.
pub enum Nested<A, B> {
    /// Event for the most recent layer
    Head(A),
    /// Events for the rest of the layers
    Other(B),
}

/// Struct used to access the result at index 0
pub struct Index0;

/// Struct used to access the result at index 1
pub struct Index1;

/// Struct used to access the result at index 2
pub struct Index2;

/// Struct used to access the result at index 3
pub struct Index3;

/// Private index trait
trait Index {
}

impl Index for Index0 {
}

impl Index for Index1 {
}

impl Index for Index2 {
}

impl Index for Index3 {
}

/// Access to the result value of a certain type at a certain index.
#[allow(private_bounds)]
pub trait Get<T, I: Index> {
    /// The result at the index, if it is the one held.
    spec fn spec_get(&self) -> Option<&T>;

    /// Gets the result at the index, or `None` if the result belongs to another layer.
    fn get(&self) -> (r: Option<&T>)
        ensures
            r == self.spec_get(),
    ;
}

/// Mutable access to the result value of a certain type at a certain index.
#[allow(private_bounds)]
pub trait GetMut<T, I: Index>: Sized {
    /// The result at the index, if it is the one held.
    spec fn spec_get_mut(&self) -> Option<T>;

    /// Whether `next` is this value with the result at the index replaced by `value`.
    spec fn spec_put(&self, value: T, next: Self) -> bool;

    /// Gets the result at the index, or `None` if the result belongs to another layer.
    ///
    /// A write through the returned reference lands in the result at the index; nothing else
    /// changes.
    fn get_mut(&mut self) -> (r: Option<&mut T>)
        ensures
            r is Some <==> old(self).spec_get_mut() is Some,
            r is Some ==> *r->0 == old(self).spec_get_mut()->0 && old(self).spec_put(*final(r->0), *final(self)),
            r is None ==> *final(self) == *old(self),
    ;
}

/// Type alias for a result from a single layer; the base entity produces `()` as its result.
pub type Nested1<A> = Nested<A, ()>;

impl<A> Get<A, Index0> for Nested1<A> {
    open spec fn spec_get(&self) -> Option<&A> {
        match self { Nested::Head(a) => Some(a), _ => None::<&A> }
    }

    fn get(&self) -> (r: Option<&A>) {
        match self {
            Nested::Head(a) => Some(a),
            Nested::Other(_) => None,
        }
    }
}

impl<A> GetMut<A, Index0> for Nested1<A> {
    open spec fn spec_get_mut(&self) -> Option<A> {
        match *self { Nested::Head(a) => Some(a), _ => None }
    }

    open spec fn spec_put(&self, value: A, next: Self) -> bool {
        next == match *self { Nested::Head(a) => Nested::Head(value), _ => *self }
    }

    fn get_mut(&mut self) -> (r: Option<&mut A>) {
        match self {
            Nested::Head(a) => Some(a),
            Nested::Other(_) => None,
        }
    }
}

/// Type alias for a result from two layers.
pub type Nested2<A, B> = Nested<A, Nested1<B>>;

impl<A, B> Get<A, Index0> for Nested2<A, B> {
    open spec fn spec_get(&self) -> Option<&A> {
        match self { Nested::Head(a) => Some(a), _ => None::<&A> }
    }

    fn get(&self) -> (r: Option<&A>) {
        match self {
            Nested::Head(a) => Some(a),
            Nested::Other(_) => None,
        }
    }
}

impl<A, B> GetMut<A, Index0> for Nested2<A, B> {
    open spec fn spec_get_mut(&self) -> Option<A> {
        match *self { Nested::Head(a) => Some(a), _ => None }
    }

    open spec fn spec_put(&self, value: A, next: Self) -> bool {
        next == match *self { Nested::Head(a) => Nested::Head(value), _ => *self }
    }

    fn get_mut(&mut self) -> (r: Option<&mut A>) {
        match self {
            Nested::Head(a) => Some(a),
            Nested::Other(_) => None,
        }
    }
}

impl<A, B> Get<B, Index1> for Nested2<A, B> {
    open spec fn spec_get(&self) -> Option<&B> {
        match self { Nested::Other(Nested::Head(b)) => Some(b), _ => None::<&B> }
    }

    fn get(&self) -> (r: Option<&B>) {
        match self {
            Nested::Head(_) => None,
            Nested::Other(b) => b.get(),
        }
    }
}

impl<A, B> GetMut<B, Index1> for Nested2<A, B> {
    open spec fn spec_get_mut(&self) -> Option<B> {
        match *self { Nested::Other(Nested::Head(b)) => Some(b), _ => None }
    }

    open spec fn spec_put(&self, value: B, next: Self) -> bool {
        next == match *self { Nested::Other(Nested::Head(b)) => Nested::Other(Nested::Head(value)), _ => *self }
    }

    fn get_mut(&mut self) -> (r: Option<&mut B>) {
        match self {
            Nested::Head(_) => None,
            Nested::Other(b) => b.get_mut(),
        }
    }
}

/// Type alias for a result from three layers.
pub type Nested3<A, B, C> = Nested<A, Nested2<B, C>>;

impl<A, B, C> Get<A, Index0> for Nested3<A, B, C> {
    open spec fn spec_get(&self) -> Option<&A> {
        match self { Nested::Head(a) => Some(a), _ => None::<&A> }
    }

    fn get(&self) -> (r: Option<&A>) {
        match self {
            Nested::Head(a) => Some(a),
            Nested::Other(_) => None,
        }
    }
}

impl<A, B, C> GetMut<A, Index0> for Nested3<A, B, C> {
    open spec fn spec_get_mut(&self) -> Option<A> {
        match *self { Nested::Head(a) => Some(a), _ => None }
    }

    open spec fn spec_put(&self, value: A, next: Self) -> bool {
        next == match *self { Nested::Head(a) => Nested::Head(value), _ => *self }
    }

    fn get_mut(&mut self) -> (r: Option<&mut A>) {
        match self {
            Nested::Head(a) => Some(a),
            Nested::Other(_) => None,
        }
    }
}

impl<A, B, C> Get<B, Index1> for Nested3<A, B, C> {
    open spec fn spec_get(&self) -> Option<&B> {
        match self { Nested::Other(Nested::Head(b)) => Some(b), _ => None::<&B> }
    }

    fn get(&self) -> (r: Option<&B>) {
        match self {
            Nested::Head(_) => None,
            Nested::Other(b) => b.get(),
        }
    }
}

impl<A, B, C> GetMut<B, Index1> for Nested3<A, B, C> {
    open spec fn spec_get_mut(&self) -> Option<B> {
        match *self { Nested::Other(Nested::Head(b)) => Some(b), _ => None }
    }

    open spec fn spec_put(&self, value: B, next: Self) -> bool {
        next == match *self { Nested::Other(Nested::Head(b)) => Nested::Other(Nested::Head(value)), _ => *self }
    }

    fn get_mut(&mut self) -> (r: Option<&mut B>) {
        match self {
            Nested::Head(_) => None,
            Nested::Other(b) => b.get_mut(),
        }
    }
}

impl<A, B, C> Get<C, Index2> for Nested3<A, B, C> {
    open spec fn spec_get(&self) -> Option<&C> {
        match self { Nested::Other(Nested::Other(Nested::Head(c))) => Some(c), _ => None::<&C> }
    }

    fn get(&self) -> (r: Option<&C>) {
        match self {
            Nested::Head(_) => None,
            Nested::Other(b) => b.get(),
        }
    }
}

impl<A, B, C> GetMut<C, Index2> for Nested3<A, B, C> {
    open spec fn spec_get_mut(&self) -> Option<C> {
        match *self { Nested::Other(Nested::Other(Nested::Head(c))) => Some(c), _ => None }
    }

    open spec fn spec_put(&self, value: C, next: Self) -> bool {
        next == match *self { Nested::Other(Nested::Other(Nested::Head(c))) => Nested::Other(Nested::Other(Nested::Head(value))), _ => *self }
    }

    fn get_mut(&mut self) -> (r: Option<&mut C>) {
        match self {
            Nested::Head(_) => None,
            Nested::Other(b) => b.get_mut(),
        }
    }
}

/// Type alias for a result from four layers.
pub type Nested4<A, B, C, D> = Nested<A, Nested3<B, C, D>>;

impl<A, B, C, D> Get<A, Index0> for Nested4<A, B, C, D> {
    open spec fn spec_get(&self) -> Option<&A> {
        match self { Nested::Head(a) => Some(a), _ => None::<&A> }
    }

    fn get(&self) -> (r: Option<&A>) {
        match self {
            Nested::Head(a) => Some(a),
            Nested::Other(_) => None,
        }
    }
}

impl<A, B, C, D> GetMut<A, Index0> for Nested4<A, B, C, D> {
    open spec fn spec_get_mut(&self) -> Option<A> {
        match *self { Nested::Head(a) => Some(a), _ => None }
    }

    open spec fn spec_put(&self, value: A, next: Self) -> bool {
        next == match *self { Nested::Head(a) => Nested::Head(value), _ => *self }
    }

    fn get_mut(&mut self) -> (r: Option<&mut A>) {
        match self {
            Nested::Head(a) => Some(a),
            Nested::Other(_) => None,
        }
    }
}

impl<A, B, C, D> Get<B, Index1> for Nested4<A, B, C, D> {
    open spec fn spec_get(&self) -> Option<&B> {
        match self { Nested::Other(Nested::Head(b)) => Some(b), _ => None::<&B> }
    }

    fn get(&self) -> (r: Option<&B>) {
        match self {
            Nested::Head(_) => None,
            Nested::Other(b) => b.get(),
        }
    }
}

impl<A, B, C, D> GetMut<B, Index1> for Nested4<A, B, C, D> {
    open spec fn spec_get_mut(&self) -> Option<B> {
        match *self { Nested::Other(Nested::Head(b)) => Some(b), _ => None }
    }

    open spec fn spec_put(&self, value: B, next: Self) -> bool {
        next == match *self { Nested::Other(Nested::Head(b)) => Nested::Other(Nested::Head(value)), _ => *self }
    }

    fn get_mut(&mut self) -> (r: Option<&mut B>) {
        match self {
            Nested::Head(_) => None,
            Nested::Other(b) => b.get_mut(),
        }
    }
}

impl<A, B, C, D> Get<C, Index2> for Nested4<A, B, C, D> {
    open spec fn spec_get(&self) -> Option<&C> {
        match self { Nested::Other(Nested::Other(Nested::Head(c))) => Some(c), _ => None::<&C> }
    }

    fn get(&self) -> (r: Option<&C>) {
        match self {
            Nested::Head(_) => None,
            Nested::Other(b) => b.get(),
        }
    }
}

impl<A, B, C, D> GetMut<C, Index2> for Nested4<A, B, C, D> {
    open spec fn spec_get_mut(&self) -> Option<C> {
        match *self { Nested::Other(Nested::Other(Nested::Head(c))) => Some(c), _ => None }
    }

    open spec fn spec_put(&self, value: C, next: Self) -> bool {
        next == match *self { Nested::Other(Nested::Other(Nested::Head(c))) => Nested::Other(Nested::Other(Nested::Head(value))), _ => *self }
    }

    fn get_mut(&mut self) -> (r: Option<&mut C>) {
        match self {
            Nested::Head(_) => None,
            Nested::Other(b) => b.get_mut(),
        }
    }
}

impl<A, B, C, D> Get<D, Index3> for Nested4<A, B, C, D> {
    open spec fn spec_get(&self) -> Option<&D> {
        match self { Nested::Other(Nested::Other(Nested::Other(Nested::Head(d)))) => Some(d), _ => None::<&D> }
    }

    fn get(&self) -> (r: Option<&D>) {
        match self {
            Nested::Head(_) => None,
            Nested::Other(b) => b.get(),
        }
    }
}

impl<A, B, C, D> GetMut<D, Index3> for Nested4<A, B, C, D> {
    open spec fn spec_get_mut(&self) -> Option<D> {
        match *self { Nested::Other(Nested::Other(Nested::Other(Nested::Head(d)))) => Some(d), _ => None }
    }

    open spec fn spec_put(&self, value: D, next: Self) -> bool {
        next == match *self { Nested::Other(Nested::Other(Nested::Other(Nested::Head(d)))) => Nested::Other(Nested::Other(Nested::Other(Nested::Head(value)))), _ => *self }
    }

    fn get_mut(&mut self) -> (r: Option<&mut D>) {
        match self {
            Nested::Head(_) => None,
            Nested::Other(b) => b.get_mut(),
        }
    }
}

/// An idiomatic, immutable view into the result of single layer.
pub enum View1<'a, A> {
    /// Result for the first layer
    Result0(&'a A),
}

/// An idiomatic, mutable view into the result of single layer.
pub enum ViewMut1<'a, A> {
    /// Result for the first layer
    Result0(&'a mut A),
}

impl<'a, A> TryFrom<&'a Nested1<A>> for View1<'a, A> {
    type Error = ();

    fn try_from(value: &'a Nested1<A>) -> (r: Result<Self, Self::Error>) {
        match value {
            Nested::Head(a) => Ok(View1::Result0(a)),
            _ => Err(()),
        }
    }
}

impl<'a, A> vstd::std_specs::convert::TryFromSpecImpl<&'a Nested1<A>> for View1<'a, A> {
    open spec fn obeys_try_from_spec() -> bool {
        true
    }

    open spec fn try_from_spec(value: &'a Nested1<A>) -> Result<Self, ()> {
        match value {
            Nested::Head(a) => Ok(View1::Result0(a)),
            _ => Err(()),
        }
    }
}

impl<'a, A> ViewMut1<'a, A> {
    /// Views the nested result mutably; fails when the result belongs to none of the layers.
    ///
    /// A write through the view lands in the nested result.
    pub fn try_from_mut(value: &'a mut Nested1<A>) -> (r: Result<Self, ()>)
        ensures
            r is Ok <==> (match *old(value) { Nested::Head(_) => true, _ => false }),
            r is Err ==> *final(value) == *old(value),
            (match (*old(value), r) {
                (Nested::Head(v), Ok(ViewMut1::Result0(x))) => *x == v && *final(value) == Nested::<A, ()>::Head(*final(x)),
                _ => true,
            }),
    {
        match value {
            Nested::Head(a) => Ok(ViewMut1::Result0(a)),
            _ => Err(()),
        }
    }
}

impl<'a, A> TryFrom<&'a mut Nested1<A>> for ViewMut1<'a, A> {
    type Error = ();

    fn try_from(value: &'a mut Nested1<A>) -> (r: Result<Self, Self::Error>)
        ensures
            r is Ok <==> (match *old(value) { Nested::Head(_) => true, _ => false }),
            r is Err ==> *final(value) == *old(value),
            (match (*old(value), r) {
                (Nested::Head(v), Ok(ViewMut1::Result0(x))) => *x == v && *final(value) == Nested::<A, ()>::Head(*final(x)),
                _ => true,
            }),
    {
        Self::try_from_mut(value)
    }
}

impl<'a, A> vstd::std_specs::convert::TryFromSpecImpl<&'a mut Nested1<A>> for ViewMut1<'a, A> {
    /// What the conversion gives is stated in the `ensures` of its `try_from`, since a spec function
    /// cannot take a mutable borrow apart.
    open spec fn obeys_try_from_spec() -> bool {
        false
    }

    open spec fn try_from_spec(value: &'a mut Nested1<A>) -> Result<Self, ()> {
        Err(())
    }
}

impl<'a, A> Get<A, Index0> for View1<'a, A> {
    open spec fn spec_get(&self) -> Option<&A> {
        match self { View1::Result0(a) => Some(*a), _ => None::<&A> }
    }

    fn get(&self) -> (r: Option<&A>) {
        match self {
            View1::Result0(a) => Some(*a),
            _ => None,
        }
    }
}

impl<'a, A> GetMut<A, Index0> for ViewMut1<'a, A> {
    open spec fn spec_get_mut(&self) -> Option<A> {
        match *self { Self::Result0(x) => Some(*x), _ => None }
    }

    open spec fn spec_put(&self, value: A, next: Self) -> bool {
        match (*self, next) { (Self::Result0(_), Self::Result0(y)) => *y == value, _ => false }
    }

    fn get_mut(&mut self) -> (r: Option<&mut A>) {
        match self {
            ViewMut1::Result0(a) => Some(&mut **a),
            _ => None,
        }
    }
}

/// An idiomatic, immutable view into the result of two layers.
pub enum View2<'a, A, B> {
    /// Result for the first layer
    Result0(&'a A),
    /// Result for the second layer
    Result1(&'a B),
}

/// An idiomatic, mutable view into the result of two layers.
pub enum ViewMut2<'a, A, B> {
    /// Result for the first layer
    Result0(&'a mut A),
    /// Result for the second layer
    Result1(&'a mut B),
}

impl<'a, A, B> TryFrom<&'a Nested2<A, B>> for View2<'a, A, B> {
    type Error = ();

    fn try_from(value: &'a Nested2<A, B>) -> (r: Result<Self, Self::Error>) {
        match value {
            Nested::Head(a) => Ok(View2::Result0(a)),
            Nested::Other(Nested::Head(b)) => Ok(View2::Result1(b)),
            _ => Err(()),
        }
    }
}

impl<'a, A, B> vstd::std_specs::convert::TryFromSpecImpl<&'a Nested2<A, B>> for View2<'a, A, B> {
    open spec fn obeys_try_from_spec() -> bool {
        true
    }

    open spec fn try_from_spec(value: &'a Nested2<A, B>) -> Result<Self, ()> {
        match value {
            Nested::Head(a) => Ok(View2::Result0(a)),
            Nested::Other(Nested::Head(b)) => Ok(View2::Result1(b)),
            _ => Err(()),
        }
    }
}

impl<'a, A, B> ViewMut2<'a, A, B> {
    /// Views the nested result mutably; fails when the result belongs to none of the layers.
    ///
    /// A write through the view lands in the nested result.
    pub fn try_from_mut(value: &'a mut Nested2<A, B>) -> (r: Result<Self, ()>)
        ensures
            r is Ok <==> (match *old(value) { Nested::Head(_) => true, _ => false }) || (match *old(value) { Nested::Other(Nested::Head(_)) => true, _ => false }),
            r is Err ==> *final(value) == *old(value),
            (match (*old(value), r) {
                (Nested::Head(v), Ok(ViewMut2::Result0(x))) => *x == v && *final(value) == Nested::<A, Nested1<B>>::Head(*final(x)),
                (Nested::Other(Nested::Head(v)), Ok(ViewMut2::Result1(x))) => *x == v && *final(value) == Nested2::<A, B>::Other(Nested::<B, ()>::Head(*final(x))),
                _ => true,
            }),
    {
        match value {
            Nested::Head(a) => Ok(ViewMut2::Result0(a)),
            Nested::Other(Nested::Head(b)) => Ok(ViewMut2::Result1(b)),
            _ => Err(()),
        }
    }
}

impl<'a, A, B> TryFrom<&'a mut Nested2<A, B>> for ViewMut2<'a, A, B> {
    type Error = ();

    fn try_from(value: &'a mut Nested2<A, B>) -> (r: Result<Self, Self::Error>)
        ensures
            r is Ok <==> (match *old(value) { Nested::Head(_) => true, _ => false }) || (match *old(value) { Nested::Other(Nested::Head(_)) => true, _ => false }),
            r is Err ==> *final(value) == *old(value),
            (match (*old(value), r) {
                (Nested::Head(v), Ok(ViewMut2::Result0(x))) => *x == v && *final(value) == Nested::<A, Nested1<B>>::Head(*final(x)),
                (Nested::Other(Nested::Head(v)), Ok(ViewMut2::Result1(x))) => *x == v && *final(value) == Nested2::<A, B>::Other(Nested::<B, ()>::Head(*final(x))),
                _ => true,
            }),
    {
        Self::try_from_mut(value)
    }
}

impl<'a, A, B> vstd::std_specs::convert::TryFromSpecImpl<&'a mut Nested2<A, B>> for ViewMut2<'a, A, B> {
    /// What the conversion gives is stated in the `ensures` of its `try_from`, since a spec function
    /// cannot take a mutable borrow apart.
    open spec fn obeys_try_from_spec() -> bool {
        false
    }

    open spec fn try_from_spec(value: &'a mut Nested2<A, B>) -> Result<Self, ()> {
        Err(())
    }
}

impl<'a, A, B> Get<A, Index0> for View2<'a, A, B> {
    open spec fn spec_get(&self) -> Option<&A> {
        match self { View2::Result0(a) => Some(*a), _ => None::<&A> }
    }

    fn get(&self) -> (r: Option<&A>) {
        match self {
            View2::Result0(a) => Some(*a),
            _ => None,
        }
    }
}

impl<'a, A, B> GetMut<A, Index0> for ViewMut2<'a, A, B> {
    open spec fn spec_get_mut(&self) -> Option<A> {
        match *self { Self::Result0(x) => Some(*x), _ => None }
    }

    open spec fn spec_put(&self, value: A, next: Self) -> bool {
        match (*self, next) { (Self::Result0(_), Self::Result0(y)) => *y == value, _ => false }
    }

    fn get_mut(&mut self) -> (r: Option<&mut A>) {
        match self {
            ViewMut2::Result0(a) => Some(&mut **a),
            _ => None,
        }
    }
}

impl<'a, A, B> Get<B, Index1> for View2<'a, A, B> {
    open spec fn spec_get(&self) -> Option<&B> {
        match self { View2::Result1(b) => Some(*b), _ => None::<&B> }
    }

    fn get(&self) -> (r: Option<&B>) {
        match self {
            View2::Result1(b) => Some(*b),
            _ => None,
        }
    }
}

impl<'a, A, B> GetMut<B, Index1> for ViewMut2<'a, A, B> {
    open spec fn spec_get_mut(&self) -> Option<B> {
        match *self { Self::Result1(x) => Some(*x), _ => None }
    }

    open spec fn spec_put(&self, value: B, next: Self) -> bool {
        match (*self, next) { (Self::Result1(_), Self::Result1(y)) => *y == value, _ => false }
    }

    fn get_mut(&mut self) -> (r: Option<&mut B>) {
        match self {
            ViewMut2::Result1(b) => Some(&mut **b),
            _ => None,
        }
    }
}

/// An idiomatic, immutable view into the result of three layers.
pub enum View3<'a, A, B, C> {
    /// Result for the first layer
    Result0(&'a A),
    /// Result for the second layer
    Result1(&'a B),
    /// Result for the third layer
    Result2(&'a C),
}

/// An idiomatic, mutable view into the result of three layers.
pub enum ViewMut3<'a, A, B, C> {
    /// Result for the first layer
    Result0(&'a mut A),
    /// Result for the second layer
    Result1(&'a mut B),
    /// Result for the third layer
    Result2(&'a mut C),
}

impl<'a, A, B, C> TryFrom<&'a Nested3<A, B, C>> for View3<'a, A, B, C> {
    type Error = ();

    fn try_from(value: &'a Nested3<A, B, C>) -> (r: Result<Self, Self::Error>) {
        match value {
            Nested::Head(a) => Ok(View3::Result0(a)),
            Nested::Other(Nested::Head(b)) => Ok(View3::Result1(b)),
            Nested::Other(Nested::Other(Nested::Head(c))) => Ok(View3::Result2(c)),
            _ => Err(()),
        }
    }
}

impl<'a, A, B, C> vstd::std_specs::convert::TryFromSpecImpl<&'a Nested3<A, B, C>> for View3<'a, A, B, C> {
    open spec fn obeys_try_from_spec() -> bool {
        true
    }

    open spec fn try_from_spec(value: &'a Nested3<A, B, C>) -> Result<Self, ()> {
        match value {
            Nested::Head(a) => Ok(View3::Result0(a)),
            Nested::Other(Nested::Head(b)) => Ok(View3::Result1(b)),
            Nested::Other(Nested::Other(Nested::Head(c))) => Ok(View3::Result2(c)),
            _ => Err(()),
        }
    }
}

impl<'a, A, B, C> ViewMut3<'a, A, B, C> {
    /// Views the nested result mutably; fails when the result belongs to none of the layers.
    ///
    /// A write through the view lands in the nested result.
    pub fn try_from_mut(value: &'a mut Nested3<A, B, C>) -> (r: Result<Self, ()>)
        ensures
            r is Ok <==> (match *old(value) { Nested::Head(_) => true, _ => false }) || (match *old(value) { Nested::Other(Nested::Head(_)) => true, _ => false }) || (match *old(value) { Nested::Other(Nested::Other(Nested::Head(_))) => true, _ => false }),
            r is Err ==> *final(value) == *old(value),
            (match (*old(value), r) {
                (Nested::Head(v), Ok(ViewMut3::Result0(x))) => *x == v && *final(value) == Nested::<A, Nested2<B, C>>::Head(*final(x)),
                (Nested::Other(Nested::Head(v)), Ok(ViewMut3::Result1(x))) => *x == v && *final(value) == Nested3::<A, B, C>::Other(Nested::<B, Nested1<C>>::Head(*final(x))),
                (Nested::Other(Nested::Other(Nested::Head(v))), Ok(ViewMut3::Result2(x))) => *x == v && *final(value) == Nested3::<A, B, C>::Other(Nested::Other(Nested::<C, ()>::Head(*final(x)))),
                _ => true,
            }),
    {
        match value {
            Nested::Head(a) => Ok(ViewMut3::Result0(a)),
            Nested::Other(Nested::Head(b)) => Ok(ViewMut3::Result1(b)),
            Nested::Other(Nested::Other(Nested::Head(c))) => Ok(ViewMut3::Result2(c)),
            _ => Err(()),
        }
    }
}

impl<'a, A, B, C> TryFrom<&'a mut Nested3<A, B, C>> for ViewMut3<'a, A, B, C> {
    type Error = ();

    fn try_from(value: &'a mut Nested3<A, B, C>) -> (r: Result<Self, Self::Error>)
        ensures
            r is Ok <==> (match *old(value) { Nested::Head(_) => true, _ => false }) || (match *old(value) { Nested::Other(Nested::Head(_)) => true, _ => false }) || (match *old(value) { Nested::Other(Nested::Other(Nested::Head(_))) => true, _ => false }),
            r is Err ==> *final(value) == *old(value),
            (match (*old(value), r) {
                (Nested::Head(v), Ok(ViewMut3::Result0(x))) => *x == v && *final(value) == Nested::<A, Nested2<B, C>>::Head(*final(x)),
                (Nested::Other(Nested::Head(v)), Ok(ViewMut3::Result1(x))) => *x == v && *final(value) == Nested3::<A, B, C>::Other(Nested::<B, Nested1<C>>::Head(*final(x))),
                (Nested::Other(Nested::Other(Nested::Head(v))), Ok(ViewMut3::Result2(x))) => *x == v && *final(value) == Nested3::<A, B, C>::Other(Nested::Other(Nested::<C, ()>::Head(*final(x)))),
                _ => true,
            }),
    {
        Self::try_from_mut(value)
    }
}

impl<'a, A, B, C> vstd::std_specs::convert::TryFromSpecImpl<&'a mut Nested3<A, B, C>> for ViewMut3<'a, A, B, C> {
    /// What the conversion gives is stated in the `ensures` of its `try_from`, since a spec function
    /// cannot take a mutable borrow apart.
    open spec fn obeys_try_from_spec() -> bool {
        false
    }

    open spec fn try_from_spec(value: &'a mut Nested3<A, B, C>) -> Result<Self, ()> {
        Err(())
    }
}

impl<'a, A, B, C> Get<A, Index0> for View3<'a, A, B, C> {
    open spec fn spec_get(&self) -> Option<&A> {
        match self { View3::Result0(a) => Some(*a), _ => None::<&A> }
    }

    fn get(&self) -> (r: Option<&A>) {
        match self {
            View3::Result0(a) => Some(*a),
            _ => None,
        }
    }
}

impl<'a, A, B, C> GetMut<A, Index0> for ViewMut3<'a, A, B, C> {
    open spec fn spec_get_mut(&self) -> Option<A> {
        match *self { Self::Result0(x) => Some(*x), _ => None }
    }

    open spec fn spec_put(&self, value: A, next: Self) -> bool {
        match (*self, next) { (Self::Result0(_), Self::Result0(y)) => *y == value, _ => false }
    }

    fn get_mut(&mut self) -> (r: Option<&mut A>) {
        match self {
            ViewMut3::Result0(a) => Some(&mut **a),
            _ => None,
        }
    }
}

impl<'a, A, B, C> Get<B, Index1> for View3<'a, A, B, C> {
    open spec fn spec_get(&self) -> Option<&B> {
        match self { View3::Result1(b) => Some(*b), _ => None::<&B> }
    }

    fn get(&self) -> (r: Option<&B>) {
        match self {
            View3::Result1(b) => Some(*b),
            _ => None,
        }
    }
}

impl<'a, A, B, C> GetMut<B, Index1> for ViewMut3<'a, A, B, C> {
    open spec fn spec_get_mut(&self) -> Option<B> {
        match *self { Self::Result1(x) => Some(*x), _ => None }
    }

    open spec fn spec_put(&self, value: B, next: Self) -> bool {
        match (*self, next) { (Self::Result1(_), Self::Result1(y)) => *y == value, _ => false }
    }

    fn get_mut(&mut self) -> (r: Option<&mut B>) {
        match self {
            ViewMut3::Result1(b) => Some(&mut **b),
            _ => None,
        }
    }
}

impl<'a, A, B, C> Get<C, Index2> for View3<'a, A, B, C> {
    open spec fn spec_get(&self) -> Option<&C> {
        match self { View3::Result2(c) => Some(*c), _ => None::<&C> }
    }

    fn get(&self) -> (r: Option<&C>) {
        match self {
            View3::Result2(c) => Some(*c),
            _ => None,
        }
    }
}

impl<'a, A, B, C> GetMut<C, Index2> for ViewMut3<'a, A, B, C> {
    open spec fn spec_get_mut(&self) -> Option<C> {
        match *self { Self::Result2(x) => Some(*x), _ => None }
    }

    open spec fn spec_put(&self, value: C, next: Self) -> bool {
        match (*self, next) { (Self::Result2(_), Self::Result2(y)) => *y == value, _ => false }
    }

    fn get_mut(&mut self) -> (r: Option<&mut C>) {
        match self {
            ViewMut3::Result2(c) => Some(&mut **c),
            _ => None,
        }
    }
}

/// An idiomatic, immutable view into the result of four layers.
pub enum View4<'a, A, B, C, D> {
    /// Result for the first layer
    Result0(&'a A),
    /// Result for the second layer
    Result1(&'a B),
    /// Result for the third layer
    Result2(&'a C),
    /// Result for the fourth layer
    Result3(&'a D),
}

/// An idiomatic, mutable view into the result of four layers.
pub enum ViewMut4<'a, A, B, C, D> {
    /// Result for the first layer
    Result0(&'a mut A),
    /// Result for the second layer
    Result1(&'a mut B),
    /// Result for the third layer
    Result2(&'a mut C),
    /// Result for the fourth layer
    Result3(&'a mut D),
}

impl<'a, A, B, C, D> TryFrom<&'a Nested4<A, B, C, D>> for View4<'a, A, B, C, D> {
    type Error = ();

    fn try_from(value: &'a Nested4<A, B, C, D>) -> (r: Result<Self, Self::Error>) {
        match value {
            Nested::Head(a) => Ok(View4::Result0(a)),
            Nested::Other(Nested::Head(b)) => Ok(View4::Result1(b)),
            Nested::Other(Nested::Other(Nested::Head(c))) => Ok(View4::Result2(c)),
            Nested::Other(Nested::Other(Nested::Other(Nested::Head(d)))) => Ok(View4::Result3(d)),
            _ => Err(()),
        }
    }
}

impl<'a, A, B, C, D> vstd::std_specs::convert::TryFromSpecImpl<&'a Nested4<A, B, C, D>> for View4<'a, A, B, C, D> {
    open spec fn obeys_try_from_spec() -> bool {
        true
    }

    open spec fn try_from_spec(value: &'a Nested4<A, B, C, D>) -> Result<Self, ()> {
        match value {
            Nested::Head(a) => Ok(View4::Result0(a)),
            Nested::Other(Nested::Head(b)) => Ok(View4::Result1(b)),
            Nested::Other(Nested::Other(Nested::Head(c))) => Ok(View4::Result2(c)),
            Nested::Other(Nested::Other(Nested::Other(Nested::Head(d)))) => Ok(View4::Result3(d)),
            _ => Err(()),
        }
    }
}

impl<'a, A, B, C, D> ViewMut4<'a, A, B, C, D> {
    /// Views the nested result mutably; fails when the result belongs to none of the layers.
    ///
    /// A write through the view lands in the nested result.
    pub fn try_from_mut(value: &'a mut Nested4<A, B, C, D>) -> (r: Result<Self, ()>)
        ensures
            r is Ok <==> (match *old(value) { Nested::Head(_) => true, _ => false }) || (match *old(value) { Nested::Other(Nested::Head(_)) => true, _ => false }) || (match *old(value) { Nested::Other(Nested::Other(Nested::Head(_))) => true, _ => false }) || (match *old(value) { Nested::Other(Nested::Other(Nested::Other(Nested::Head(_)))) => true, _ => false }),
            r is Err ==> *final(value) == *old(value),
            (match (*old(value), r) {
                (Nested::Head(v), Ok(ViewMut4::Result0(x))) => *x == v && *final(value) == Nested::<A, Nested3<B, C, D>>::Head(*final(x)),
                (Nested::Other(Nested::Head(v)), Ok(ViewMut4::Result1(x))) => *x == v && *final(value) == Nested4::<A, B, C, D>::Other(Nested::<B, Nested2<C, D>>::Head(*final(x))),
                (Nested::Other(Nested::Other(Nested::Head(v))), Ok(ViewMut4::Result2(x))) => *x == v && *final(value) == Nested4::<A, B, C, D>::Other(Nested::Other(Nested::<C, Nested1<D>>::Head(*final(x)))),
                (Nested::Other(Nested::Other(Nested::Other(Nested::Head(v)))), Ok(ViewMut4::Result3(x))) => *x == v && *final(value) == Nested4::<A, B, C, D>::Other(Nested::Other(Nested::Other(Nested::<D, ()>::Head(*final(x))))),
                _ => true,
            }),
    {
        match value {
            Nested::Head(a) => Ok(ViewMut4::Result0(a)),
            Nested::Other(Nested::Head(b)) => Ok(ViewMut4::Result1(b)),
            Nested::Other(Nested::Other(Nested::Head(c))) => Ok(ViewMut4::Result2(c)),
            Nested::Other(Nested::Other(Nested::Other(Nested::Head(d)))) => Ok(ViewMut4::Result3(d)),
            _ => Err(()),
        }
    }
}

impl<'a, A, B, C, D> TryFrom<&'a mut Nested4<A, B, C, D>> for ViewMut4<'a, A, B, C, D> {
    type Error = ();

    fn try_from(value: &'a mut Nested4<A, B, C, D>) -> (r: Result<Self, Self::Error>)
        ensures
            r is Ok <==> (match *old(value) { Nested::Head(_) => true, _ => false }) || (match *old(value) { Nested::Other(Nested::Head(_)) => true, _ => false }) || (match *old(value) { Nested::Other(Nested::Other(Nested::Head(_))) => true, _ => false }) || (match *old(value) { Nested::Other(Nested::Other(Nested::Other(Nested::Head(_)))) => true, _ => false }),
            r is Err ==> *final(value) == *old(value),
            (match (*old(value), r) {
                (Nested::Head(v), Ok(ViewMut4::Result0(x))) => *x == v && *final(value) == Nested::<A, Nested3<B, C, D>>::Head(*final(x)),
                (Nested::Other(Nested::Head(v)), Ok(ViewMut4::Result1(x))) => *x == v && *final(value) == Nested4::<A, B, C, D>::Other(Nested::<B, Nested2<C, D>>::Head(*final(x))),
                (Nested::Other(Nested::Other(Nested::Head(v))), Ok(ViewMut4::Result2(x))) => *x == v && *final(value) == Nested4::<A, B, C, D>::Other(Nested::Other(Nested::<C, Nested1<D>>::Head(*final(x)))),
                (Nested::Other(Nested::Other(Nested::Other(Nested::Head(v)))), Ok(ViewMut4::Result3(x))) => *x == v && *final(value) == Nested4::<A, B, C, D>::Other(Nested::Other(Nested::Other(Nested::<D, ()>::Head(*final(x))))),
                _ => true,
            }),
    {
        Self::try_from_mut(value)
    }
}

impl<'a, A, B, C, D> vstd::std_specs::convert::TryFromSpecImpl<&'a mut Nested4<A, B, C, D>> for ViewMut4<'a, A, B, C, D> {
    /// What the conversion gives is stated in the `ensures` of its `try_from`, since a spec function
    /// cannot take a mutable borrow apart.
    open spec fn obeys_try_from_spec() -> bool {
        false
    }

    open spec fn try_from_spec(value: &'a mut Nested4<A, B, C, D>) -> Result<Self, ()> {
        Err(())
    }
}

impl<'a, A, B, C, D> Get<A, Index0> for View4<'a, A, B, C, D> {
    open spec fn spec_get(&self) -> Option<&A> {
        match self { View4::Result0(a) => Some(*a), _ => None::<&A> }
    }

    fn get(&self) -> (r: Option<&A>) {
        match self {
            View4::Result0(a) => Some(*a),
            _ => None,
        }
    }
}

impl<'a, A, B, C, D> GetMut<A, Index0> for ViewMut4<'a, A, B, C, D> {
    open spec fn spec_get_mut(&self) -> Option<A> {
        match *self { Self::Result0(x) => Some(*x), _ => None }
    }

    open spec fn spec_put(&self, value: A, next: Self) -> bool {
        match (*self, next) { (Self::Result0(_), Self::Result0(y)) => *y == value, _ => false }
    }

    fn get_mut(&mut self) -> (r: Option<&mut A>) {
        match self {
            ViewMut4::Result0(a) => Some(&mut **a),
            _ => None,
        }
    }
}

impl<'a, A, B, C, D> Get<B, Index1> for View4<'a, A, B, C, D> {
    open spec fn spec_get(&self) -> Option<&B> {
        match self { View4::Result1(b) => Some(*b), _ => None::<&B> }
    }

    fn get(&self) -> (r: Option<&B>) {
        match self {
            View4::Result1(b) => Some(*b),
            _ => None,
        }
    }
}

impl<'a, A, B, C, D> GetMut<B, Index1> for ViewMut4<'a, A, B, C, D> {
    open spec fn spec_get_mut(&self) -> Option<B> {
        match *self { Self::Result1(x) => Some(*x), _ => None }
    }

    open spec fn spec_put(&self, value: B, next: Self) -> bool {
        match (*self, next) { (Self::Result1(_), Self::Result1(y)) => *y == value, _ => false }
    }

    fn get_mut(&mut self) -> (r: Option<&mut B>) {
        match self {
            ViewMut4::Result1(b) => Some(&mut **b),
            _ => None,
        }
    }
}

impl<'a, A, B, C, D> Get<C, Index2> for View4<'a, A, B, C, D> {
    open spec fn spec_get(&self) -> Option<&C> {
        match self { View4::Result2(c) => Some(*c), _ => None::<&C> }
    }

    fn get(&self) -> (r: Option<&C>) {
        match self {
            View4::Result2(c) => Some(*c),
            _ => None,
        }
    }
}

impl<'a, A, B, C, D> GetMut<C, Index2> for ViewMut4<'a, A, B, C, D> {
    open spec fn spec_get_mut(&self) -> Option<C> {
        match *self { Self::Result2(x) => Some(*x), _ => None }
    }

    open spec fn spec_put(&self, value: C, next: Self) -> bool {
        match (*self, next) { (Self::Result2(_), Self::Result2(y)) => *y == value, _ => false }
    }

    fn get_mut(&mut self) -> (r: Option<&mut C>) {
        match self {
            ViewMut4::Result2(c) => Some(&mut **c),
            _ => None,
        }
    }
}

impl<'a, A, B, C, D> Get<D, Index3> for View4<'a, A, B, C, D> {
    open spec fn spec_get(&self) -> Option<&D> {
        match self { View4::Result3(d) => Some(*d), _ => None::<&D> }
    }

    fn get(&self) -> (r: Option<&D>) {
        match self {
            View4::Result3(d) => Some(*d),
            _ => None,
        }
    }
}

impl<'a, A, B, C, D> GetMut<D, Index3> for ViewMut4<'a, A, B, C, D> {
    open spec fn spec_get_mut(&self) -> Option<D> {
        match *self { Self::Result3(x) => Some(*x), _ => None }
    }

    open spec fn spec_put(&self, value: D, next: Self) -> bool {
        match (*self, next) { (Self::Result3(_), Self::Result3(y)) => *y == value, _ => false }
    }

    fn get_mut(&mut self) -> (r: Option<&mut D>) {
        match self {
            ViewMut4::Result3(d) => Some(&mut **d),
            _ => None,
        }
    }
}

/// A result of 2 layers holds the result of exactly one layer at most, so at most one index
/// gives `Some`; and its view gives at every index what the nested result gives.
pub proof fn law_nested2_views<'a, A, B>(n: &'a Nested2<A, B>)
    ensures
        !(<Nested2<A, B> as Get<A, Index0>>::spec_get(n) is Some && <Nested2<A, B> as Get<B, Index1>>::spec_get(n) is Some),
        <View2<'a, A, B> as vstd::std_specs::convert::TryFromSpec<&'a Nested2<A, B>>>::try_from_spec(n) matches Ok(v) ==> <View2<'a, A, B> as Get<A, Index0>>::spec_get(&v) == <Nested2<A, B> as Get<A, Index0>>::spec_get(n),
        <View2<'a, A, B> as vstd::std_specs::convert::TryFromSpec<&'a Nested2<A, B>>>::try_from_spec(n) matches Ok(v) ==> <View2<'a, A, B> as Get<B, Index1>>::spec_get(&v) == <Nested2<A, B> as Get<B, Index1>>::spec_get(n),
{
}

/// A result of 4 layers holds the result of exactly one layer at most, so at most one index
/// gives `Some`; and its view gives at every index what the nested result gives.
pub proof fn law_nested4_views<'a, A, B, C, D>(n: &'a Nested4<A, B, C, D>)
    ensures
        !(<Nested4<A, B, C, D> as Get<A, Index0>>::spec_get(n) is Some && <Nested4<A, B, C, D> as Get<B, Index1>>::spec_get(n) is Some),
        !(<Nested4<A, B, C, D> as Get<A, Index0>>::spec_get(n) is Some && <Nested4<A, B, C, D> as Get<C, Index2>>::spec_get(n) is Some),
        !(<Nested4<A, B, C, D> as Get<A, Index0>>::spec_get(n) is Some && <Nested4<A, B, C, D> as Get<D, Index3>>::spec_get(n) is Some),
        !(<Nested4<A, B, C, D> as Get<B, Index1>>::spec_get(n) is Some && <Nested4<A, B, C, D> as Get<C, Index2>>::spec_get(n) is Some),
        !(<Nested4<A, B, C, D> as Get<B, Index1>>::spec_get(n) is Some && <Nested4<A, B, C, D> as Get<D, Index3>>::spec_get(n) is Some),
        !(<Nested4<A, B, C, D> as Get<C, Index2>>::spec_get(n) is Some && <Nested4<A, B, C, D> as Get<D, Index3>>::spec_get(n) is Some),
        <View4<'a, A, B, C, D> as vstd::std_specs::convert::TryFromSpec<&'a Nested4<A, B, C, D>>>::try_from_spec(n) matches Ok(v) ==> <View4<'a, A, B, C, D> as Get<A, Index0>>::spec_get(&v) == <Nested4<A, B, C, D> as Get<A, Index0>>::spec_get(n),
        <View4<'a, A, B, C, D> as vstd::std_specs::convert::TryFromSpec<&'a Nested4<A, B, C, D>>>::try_from_spec(n) matches Ok(v) ==> <View4<'a, A, B, C, D> as Get<B, Index1>>::spec_get(&v) == <Nested4<A, B, C, D> as Get<B, Index1>>::spec_get(n),
        <View4<'a, A, B, C, D> as vstd::std_specs::convert::TryFromSpec<&'a Nested4<A, B, C, D>>>::try_from_spec(n) matches Ok(v) ==> <View4<'a, A, B, C, D> as Get<C, Index2>>::spec_get(&v) == <Nested4<A, B, C, D> as Get<C, Index2>>::spec_get(n),
        <View4<'a, A, B, C, D> as vstd::std_specs::convert::TryFromSpec<&'a Nested4<A, B, C, D>>>::try_from_spec(n) matches Ok(v) ==> <View4<'a, A, B, C, D> as Get<D, Index3>>::spec_get(&v) == <Nested4<A, B, C, D> as Get<D, Index3>>::spec_get(n),
{
}

} // verus!
