//! Wrappers for values that are either owned outright or borrowed from a
//! longer-lived location.
//!
//! [`Mown`] holds an owned representation or a shared reference, and
//! [`MownMut`] holds an owned representation or a mutable reference. Unlike a
//! copy-on-write container, neither ever turns a borrowed value into an owned
//! one: the active variant is fixed at construction. The [`ToOwned`] trait maps
//! each value type to the representation used when the value is owned, and
//! guarantees that the representation can always be viewed back as a reference
//! to the value type, so every read goes through one uniform path.

use vstd::prelude::*;
use vstd::std_specs::cmp::PartialEqSpec;
use vstd::std_specs::cmp::PartialOrdSpec;

verus! {

/// Types that can be owned.
///
/// Associates to a value type the representation used when a value of the type
/// is owned. Projecting the representation back to a reference must preserve
/// the value's mathematical view: the borrowed view of an owned representation
/// is indistinguishable from a native reference to the value type.
pub trait ToOwned: View {
    /// The representation held when the value is owned.
    type Owned: View<V = <Self as View>::V>;

    /// Projects the owned representation to a reference to the value type.
    fn borrow(o: &Self::Owned) -> (r: &Self)
        ensures
            r@ == o@,
    ;
}

/// Types whose owned representation can also be projected to a mutable
/// reference to the value type.
pub trait ToOwnedMut: ToOwned {
    /// Projects the owned representation to a mutable reference to the value
    /// type; writes through the reference land in the representation.
    fn borrow_mut(o: &mut Self::Owned) -> (r: &mut Self)
        ensures
            r@ == old(o)@,
            final(o)@ == final(r)@,
    ;
}

impl<T: View> ToOwned for T {
    type Owned = T;

    fn borrow(o: &T) -> (r: &T) {
        o
    }
}

impl<T: View> ToOwnedMut for T {
    fn borrow_mut(o: &mut T) -> (r: &mut T) {
        o
    }
}

impl ToOwned for str {
    type Owned = String;

    fn borrow(o: &String) -> (r: &str) {
        o.as_str()
    }
}

impl ToOwnedMut for str {
    fn borrow_mut(o: &mut String) -> (r: &mut str) {
        string_as_mut_str(o)
    }
}

/// Relies on `String::as_mut_str`: a mutable view of the string's contents,
/// in place, so that writes through the view land in the string.
#[verifier::external_body]
fn string_as_mut_str(s: &mut String) -> (r: &mut str)
    ensures
        r@ == old(s)@,
        final(s)@ == final(r)@,
{
    s.as_mut_str()
}

impl<T> ToOwned for [T] {
    type Owned = Vec<T>;

    fn borrow(o: &Vec<T>) -> (r: &[T]) {
        o.as_slice()
    }
}

impl<T> ToOwnedMut for [T] {
    fn borrow_mut(o: &mut Vec<T>) -> (r: &mut [T]) {
        o.as_mut_slice()
    }
}

/// Container for a borrowed or owned value.
pub enum Mown<'a, T: ?Sized + ToOwned> {
    /// Owned value.
    Owned(T::Owned),
    /// Borrowed value.
    Borrowed(&'a T),
}

impl<'a, T: ?Sized + ToOwned> View for Mown<'a, T> {
    type V = <T as View>::V;

    open spec fn view(&self) -> Self::V {
        match self {
            Mown::Owned(t) => t@,
            Mown::Borrowed(t) => t@,
        }
    }
}

impl<'a, T: ?Sized + ToOwned> Mown<'a, T> {
    /// Checks if the value is owned.
    pub fn is_owned(&self) -> (r: bool)
        ensures
            r == (self is Owned),
    {
        match self {
            Mown::Owned(_) => true,
            Mown::Borrowed(_) => false,
        }
    }

    /// Checks if the value is borrowed.
    pub fn is_borrowed(&self) -> (r: bool)
        ensures
            r == (self is Borrowed),
            r == !(self is Owned),
    {
        match self {
            Mown::Owned(_) => false,
            Mown::Borrowed(_) => true,
        }
    }

    /// Returns a reference to the underlying value, whichever variant holds
    /// it: an owned representation is projected, a borrowed reference is
    /// returned as it is.
    pub fn as_ref(&self) -> (r: &T)
        ensures
            r@ == self@,
            (*self) matches Mown::Borrowed(b) ==> r == b,
    {
        match self {
            Mown::Owned(t) => T::borrow(t),
            Mown::Borrowed(t) => t,
        }
    }

    /// Returns the owned value as a mutable reference, if any.
    ///
    /// If the value is borrowed, returns `None`: mutating through a shared
    /// borrow is never permitted. The container itself is left as it was.
    pub fn as_mut(&mut self) -> (r: Option<&mut T>) where T: ToOwnedMut
        ensures
            r is Some <==> *old(self) is Owned,
            *old(self) is Borrowed ==> *final(self) == *old(self),
            *old(self) is Owned ==> {
                &&& r.unwrap()@ == (*old(self))@
                &&& *final(self) is Owned
                &&& (*final(self))@ == final(r.unwrap())@
            },
    {
        match self {
            Mown::Owned(t) => Some(T::borrow_mut(t)),
            Mown::Borrowed(_) => None,
        }
    }
}

impl<'a, T: ?Sized + ToOwned + PartialEq> vstd::std_specs::cmp::PartialEqSpecImpl for Mown<'a, T> {
    open spec fn obeys_eq_spec() -> bool {
        vstd::laws_eq::obeys_view_eq::<&'a T>()
    }

    open spec fn eq_spec(&self, other: &Self) -> bool {
        self@ == other@
    }
}

impl<'a, T: ?Sized + ToOwned + PartialEq> PartialEq for Mown<'a, T> {
    /// Equality delegates to the underlying values: which variant holds them
    /// never leaks into the result.
    fn eq(&self, other: &Self) -> (r: bool) {
        let a = self.as_ref();
        let b = other.as_ref();
        let r = a == b;
        proof {
            if vstd::laws_eq::obeys_view_eq::<&'a T>() {
                reveal(vstd::laws_eq::obeys_view_eq);
            }
        }
        r
    }
}

impl<'a, T: ?Sized + ToOwned + Eq> Eq for Mown<'a, T> {

}

/// Relies on `core::hash::Hash::hash`: feeds the value to the hasher. The
/// containers' hashing delegates here, so a container is hashed exactly as a
/// native reference to its underlying value would be.
#[verifier::external_body]
fn hash_through<T: ?Sized + core::hash::Hash, H: core::hash::Hasher>(value: &T, state: &mut H) {
    value.hash(state)
}

impl<'a, T: ?Sized + ToOwned + core::hash::Hash> core::hash::Hash for Mown<'a, T> {
    /// Hashing delegates to the underlying value, blind to the variant.
    fn hash<H: core::hash::Hasher>(&self, state: &mut H) {
        hash_through(self.as_ref(), state)
    }
}

impl<'a, T: ?Sized + ToOwned> core::ops::Deref for Mown<'a, T> {
    type Target = T;

    /// Transparent read access to the underlying value: exactly what `as_ref`
    /// returns, so a borrowed container dereferences to the held reference
    /// itself.
    fn deref(&self) -> (r: &T)
        ensures
            r@ == self@,
            (*self) matches Mown::Borrowed(b) ==> r == b,
    {
        self.as_ref()
    }
}

impl<'a> Mown<'a, String> {
    /// Equality for string containers, promised outright: true exactly when
    /// the two underlying strings hold the same characters, whichever
    /// variants hold them.
    ///
    /// The `==` operator's guarantee on the generic container is conditional
    /// on the element type's equality respecting its view, a law vstd leaves
    /// open for `String`; `String::eq` itself is specified outright, so this
    /// method can promise its result. No such method is possible for the
    /// unsized `str` instantiation, whose std equality carries no
    /// specification.
    pub fn eq_value<'b>(&self, other: &Mown<'b, String>) -> (r: bool)
        ensures
            r == (self@ == other@),
    {
        self.as_ref().eq(other.as_ref())
    }
}

/// Holds when the ordering of values of `T` is determined by their views
/// alone, so that comparing through any representation of the same value
/// gives the same answer.
pub open spec fn cmp_respects_view<T: ?Sized + PartialOrd + View>() -> bool {
    forall|a: &T, b: &T, c: &T, d: &T|
        #![trigger T::partial_cmp_spec(a, b), T::partial_cmp_spec(c, d)]
        a@ == c@ && b@ == d@ ==> T::partial_cmp_spec(a, b) == T::partial_cmp_spec(c, d)
}

impl<'a, T: ?Sized + ToOwned + PartialOrd> vstd::std_specs::cmp::PartialOrdSpecImpl for Mown<'a, T> {
    open spec fn obeys_partial_cmp_spec() -> bool {
        T::obeys_partial_cmp_spec() && cmp_respects_view::<T>()
    }

    open spec fn partial_cmp_spec(&self, other: &Self) -> Option<core::cmp::Ordering> {
        T::partial_cmp_spec(choose|x: &T| x@ == self@, choose|y: &T| y@ == other@)
    }
}

impl<'a, T: ?Sized + ToOwned + PartialOrd> PartialOrd for Mown<'a, T> {
    /// Ordering delegates to the underlying values, blind to the variant.
    fn partial_cmp(&self, other: &Self) -> (r: Option<core::cmp::Ordering>) {
        let a = self.as_ref();
        let b = other.as_ref();
        let r = a.partial_cmp(b);
        proof {
            if T::obeys_partial_cmp_spec() && cmp_respects_view::<T>() {
                assert(exists|x: &T| x@ == self@) by {
                    assert(a@ == self@);
                }
                assert(exists|y: &T| y@ == other@) by {
                    assert(b@ == other@);
                }
                let x = choose|x: &T| x@ == self@;
                let y = choose|y: &T| y@ == other@;
                assert(T::partial_cmp_spec(a, b) == T::partial_cmp_spec(x, y));
            }
        }
        r
    }
}

/// Container for a mutably borrowed or owned value.
pub enum MownMut<'a, T: ?Sized + ToOwned> {
    /// Owned value.
    Owned(T::Owned),
    /// Borrowed value.
    Borrowed(&'a mut T),
}

impl<'a, T: ?Sized + ToOwned> View for MownMut<'a, T> {
    type V = <T as View>::V;

    open spec fn view(&self) -> Self::V {
        match self {
            MownMut::Owned(t) => t@,
            MownMut::Borrowed(t) => t@,
        }
    }
}

impl<'a, T: ?Sized + ToOwned> MownMut<'a, T> {
    /// Checks if the value is owned.
    pub fn is_owned(&self) -> (r: bool)
        ensures
            r == (self is Owned),
    {
        match self {
            MownMut::Owned(_) => true,
            MownMut::Borrowed(_) => false,
        }
    }

    /// Checks if the value is borrowed.
    pub fn is_borrowed(&self) -> (r: bool)
        ensures
            r == (self is Borrowed),
            r == !(self is Owned),
    {
        match self {
            MownMut::Owned(_) => false,
            MownMut::Borrowed(_) => true,
        }
    }

    /// Returns a reference to the underlying value, whichever variant holds
    /// it.
    pub fn as_ref(&self) -> (r: &T)
        ensures
            r@ == self@,
    {
        match self {
            MownMut::Owned(t) => T::borrow(t),
            MownMut::Borrowed(t) => t,
        }
    }

    /// Returns a mutable reference to the underlying value. Unlike the
    /// immutable container, this is always possible: the borrowed variant
    /// already grants exclusive mutable access.
    pub fn as_mut(&mut self) -> (r: &mut T) where T: ToOwnedMut
        ensures
            r@ == (*old(self))@,
            (*final(self))@ == final(r)@,
            *old(self) is Owned <==> *final(self) is Owned,
    {
        match self {
            MownMut::Owned(t) => T::borrow_mut(t),
            MownMut::Borrowed(t) => &mut **t,
        }
    }
}

impl<'a> MownMut<'a, String> {
    /// Equality for mutable string containers, promised outright: true
    /// exactly when the two underlying strings currently hold the same
    /// characters, whichever variants hold them. See [`Mown::eq_value`].
    pub fn eq_value<'b>(&self, other: &MownMut<'b, String>) -> (r: bool)
        ensures
            r == (self@ == other@),
    {
        self.as_ref().eq(other.as_ref())
    }
}

impl<'a, T: ?Sized + ToOwned + PartialEq> vstd::std_specs::cmp::PartialEqSpecImpl for MownMut<'a, T> {
    open spec fn obeys_eq_spec() -> bool {
        vstd::laws_eq::obeys_view_eq::<&'a T>()
    }

    open spec fn eq_spec(&self, other: &Self) -> bool {
        self@ == other@
    }
}

impl<'a, T: ?Sized + ToOwned + PartialEq> PartialEq for MownMut<'a, T> {
    /// Equality delegates to the underlying values: which variant holds them
    /// never leaks into the result.
    fn eq(&self, other: &Self) -> (r: bool) {
        let a = self.as_ref();
        let b = other.as_ref();
        let r = a == b;
        proof {
            if vstd::laws_eq::obeys_view_eq::<&'a T>() {
                reveal(vstd::laws_eq::obeys_view_eq);
            }
        }
        r
    }
}

impl<'a, T: ?Sized + ToOwned + Eq> Eq for MownMut<'a, T> {

}

impl<'a, T: ?Sized + ToOwned + PartialOrd> vstd::std_specs::cmp::PartialOrdSpecImpl for MownMut<'a, T> {
    open spec fn obeys_partial_cmp_spec() -> bool {
        T::obeys_partial_cmp_spec() && cmp_respects_view::<T>()
    }

    open spec fn partial_cmp_spec(&self, other: &Self) -> Option<core::cmp::Ordering> {
        T::partial_cmp_spec(choose|x: &T| x@ == self@, choose|y: &T| y@ == other@)
    }
}

impl<'a, T: ?Sized + ToOwned + core::hash::Hash> core::hash::Hash for MownMut<'a, T> {
    /// Hashing delegates to the underlying value, blind to the variant.
    fn hash<H: core::hash::Hasher>(&self, state: &mut H) {
        hash_through(self.as_ref(), state)
    }
}

impl<'a, T: ?Sized + ToOwned> core::ops::Deref for MownMut<'a, T> {
    type Target = T;

    /// Transparent read access to the underlying value.
    fn deref(&self) -> (r: &T)
        ensures
            r@ == self@,
    {
        self.as_ref()
    }
}

impl<'a, T: ?Sized + ToOwnedMut> core::ops::DerefMut for MownMut<'a, T> {
    /// Transparent write access to the underlying value.
    fn deref_mut(&mut self) -> (r: &mut T)
        ensures
            r@ == (*old(self))@,
            (*final(self))@ == final(r)@,
            *old(self) is Owned <==> *final(self) is Owned,
    {
        self.as_mut()
    }
}

impl<'a, T: ?Sized + ToOwned + PartialOrd> PartialOrd for MownMut<'a, T> {
    /// Ordering delegates to the underlying values, blind to the variant.
    fn partial_cmp(&self, other: &Self) -> (r: Option<core::cmp::Ordering>) {
        let a = self.as_ref();
        let b = other.as_ref();
        let r = a.partial_cmp(b);
        proof {
            if T::obeys_partial_cmp_spec() && cmp_respects_view::<T>() {
                assert(exists|x: &T| x@ == self@) by {
                    assert(a@ == self@);
                }
                assert(exists|y: &T| y@ == other@) by {
                    assert(b@ == other@);
                }
                let x = choose|x: &T| x@ == self@;
                let y = choose|y: &T| y@ == other@;
                assert(T::partial_cmp_spec(a, b) == T::partial_cmp_spec(x, y));
            }
        }
        r
    }
}

/// An owned container stands for the value its representation projects to:
/// its view is the representation's view, so `as_ref` on `Owned(o)` yields a
/// reference whose view is `o`'s.
pub proof fn lemma_owned_view<'a, T: ?Sized + ToOwned>(o: T::Owned)
    ensures
        (Mown::<'a, T>::Owned(o))@ == o@,
        (MownMut::<'a, T>::Owned(o))@ == o@,
{
}

/// A borrowed container stands for the referenced value itself: its view is
/// the referent's view, and `as_ref` on `Borrowed(r)` returns `r` itself.
pub proof fn lemma_borrowed_view<'a, T: ?Sized + ToOwned>(r: &'a T)
    ensures
        (Mown::<'a, T>::Borrowed(r))@ == r@,
{
}

/// For every container, for its whole lifetime, exactly one of `is_owned` and
/// `is_borrowed` holds.
pub proof fn lemma_variants_complementary<'a, T: ?Sized + ToOwned>(
    m: &Mown<'a, T>,
    n: &MownMut<'a, T>,
)
    ensures
        (m is Owned) <==> !(m is Borrowed),
        (n is Owned) <==> !(n is Borrowed),
{
}

/// Equality is representation-blind: a container owning a representation and
/// a container borrowing a value compare equal exactly when the underlying
/// views agree, so the active variant never leaks into comparison.
pub proof fn lemma_eq_representation_blind<'a, T: ?Sized + ToOwned + PartialEq>(
    o: T::Owned,
    r: &'a T,
)
    requires
        o@ == r@,
    ensures
        Mown::<'a, T>::Owned(o).eq_spec(&Mown::<'a, T>::Borrowed(r)),
        Mown::<'a, T>::Borrowed(r).eq_spec(&Mown::<'a, T>::Owned(o)),
{
}

/// Ordering is representation-blind: containers with equal views compare the
/// same way against any others, whichever variants hold the values.
pub proof fn lemma_cmp_representation_blind<'a, T: ?Sized + ToOwned + PartialOrd>(
    a: Mown<'a, T>,
    b: Mown<'a, T>,
    c: Mown<'a, T>,
    d: Mown<'a, T>,
)
    requires
        a@ == c@,
        b@ == d@,
    ensures
        a.partial_cmp_spec(&b) == c.partial_cmp_spec(&d),
{
}

} // verus!
