//! Upgrading values that may borrow their data into values that own all of it.
//!
//! [`IntoStatic`] turns a value into its `'static` counterpart and states,
//! through [`IntoStatic::upgrades_to`], which results are counterparts of a
//! given input. It is implemented for the copy-or-owned wrappers over text,
//! bytes and sequences, and for the shapes built from them: optional values,
//! two-branch values, arrays, vectors and tuples of up to twelve components.
//!
//! A counterpart type is meant to be its own counterpart. A trait whose
//! associated type is bounded by the trait itself is a cyclic definition to
//! Verus, so that property lives in two traits of its own: [`StaticForm`]
//! says of a counterpart type when a value borrows nothing and when two
//! values hold the same content, and [`SelfStatic`] marks the types that
//! upgrade to themselves and carries the proof that upgrading a value that
//! borrows nothing changes nothing. [`lemma_idempotent`] puts the two
//! together.

use vstd::prelude::*;

pub mod composite;
pub mod cow;
pub mod tuple;

verus! {

/// A type that values are upgraded to.
pub trait StaticForm: Sized {
    /// Whether `self` borrows nothing: every copy-or-owned wrapper in it
    /// holds its own data.
    spec fn is_owned(self) -> bool;

    /// Whether `self` and `other` have the same shape and the same content in
    /// the same places, whichever alternative their copy-or-owned wrappers
    /// hold.
    spec fn alike(self, other: Self) -> bool;
}

/// Upgrading to `'static` lifetimes.
pub trait IntoStatic: Sized {
    /// The type with `'static` lifetimes.
    type Static: StaticForm + 'static;

    /// Whether `out` is a counterpart of `self`: the same shape, the content
    /// of `self` in the same places, and nothing borrowed.
    spec fn upgrades_to(self, out: Self::Static) -> bool;

    /// Upgrades `self` to [`IntoStatic::Static`].
    fn into_static(self) -> (out: Self::Static)
        ensures
            self.upgrades_to(out),
            out.is_owned(),
    ;

    /// A counterpart borrows nothing.
    proof fn lemma_upgrade_is_owned(self, out: Self::Static)
        requires
            self.upgrades_to(out),
        ensures
            out.is_owned(),
    ;
}

/// A type that is its own `'static` counterpart.
pub trait SelfStatic: StaticForm + IntoStatic<Static = Self> {
    /// Upgrading a value that borrows nothing gives a value like it.
    proof fn lemma_upgrade_alike(self, again: Self)
        requires
            self.is_owned(),
            self.upgrades_to(again),
        ensures
            self.alike(again),
    ;
}

/// Upgrading is idempotent: if `first` is a counterpart of `value` and
/// `second` a counterpart of `first`, then `second` is like `first`, and both
/// borrow nothing.
pub proof fn lemma_idempotent<T: IntoStatic>(value: T, first: T::Static, second: T::Static) where
    T::Static: SelfStatic,
    requires
        value.upgrades_to(first),
        first.upgrades_to(second),
    ensures
        first.alike(second),
        first.is_owned(),
        second.is_owned(),
{
    value.lemma_upgrade_is_owned(first);
    first.lemma_upgrade_is_owned(second);
    first.lemma_upgrade_alike(second);
}

} // verus!
