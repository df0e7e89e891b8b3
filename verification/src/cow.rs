//! Copy-or-owned wrappers: the only place where data is duplicated.

use vstd::prelude::*;
use vstd::slice::slice_to_vec;
use std::borrow::Cow;
use crate::IntoStatic;
use crate::SelfStatic;
use crate::StaticForm;

verus! {

impl StaticForm for Cow<'static, str> {
    open spec fn is_owned(self) -> bool {
        self is Owned
    }

    open spec fn alike(self, other: Self) -> bool {
        self@ == other@
    }
}

impl IntoStatic for Cow<'_, str> {
    type Static = Cow<'static, str>;

    open spec fn upgrades_to(self, out: Cow<'static, str>) -> bool {
        out is Owned && out@ == self@
    }

    fn into_static(self) -> (out: Cow<'static, str>)
        ensures
            out is Owned,
            out@ == self@,
    {
        match self {
            Cow::Borrowed(text) => Cow::Owned(text.to_owned()),
            Cow::Owned(text) => Cow::Owned(text),
        }
    }

    proof fn lemma_upgrade_is_owned(self, out: Cow<'static, str>) {
    }
}

impl SelfStatic for Cow<'static, str> {
    proof fn lemma_upgrade_alike(self, again: Self) {
    }
}

impl StaticForm for Cow<'static, [u8]> {
    open spec fn is_owned(self) -> bool {
        self is Owned
    }

    open spec fn alike(self, other: Self) -> bool {
        self@ == other@
    }
}

impl IntoStatic for Cow<'_, [u8]> {
    type Static = Cow<'static, [u8]>;

    open spec fn upgrades_to(self, out: Cow<'static, [u8]>) -> bool {
        out is Owned && out@ == self@
    }

    fn into_static(self) -> (out: Cow<'static, [u8]>)
        ensures
            out is Owned,
            out@ == self@,
    {
        match self {
            Cow::Borrowed(bytes) => Cow::Owned(slice_to_vec(bytes)),
            Cow::Owned(bytes) => Cow::Owned(bytes),
        }
    }

    proof fn lemma_upgrade_is_owned(self, out: Cow<'static, [u8]>) {
    }
}

impl SelfStatic for Cow<'static, [u8]> {
    proof fn lemma_upgrade_alike(self, again: Self) {
    }
}

/// The items that a wrapper over a sequence holds or refers to, in order.
pub open spec fn cow_items<T: Clone>(wrapper: Cow<'_, [T]>) -> Seq<T> {
    match wrapper {
        Cow::Borrowed(items) => items@,
        Cow::Owned(items) => items@,
    }
}

/// Whether `out` is a counterpart of a clone of `item`.
pub open spec fn clone_upgrades_to<T: Clone + IntoStatic>(item: T, out: T::Static) -> bool {
    exists|copy: T| cloned(item, copy) && #[trigger] copy.upgrades_to(out)
}

/// Clones the items of `items` into a new vector, in order.
fn clone_items<T: Clone>(items: &[T]) -> (out: Vec<T>)
    ensures
        out@.len() == items@.len(),
        forall|i: int| 0 <= i < items@.len() ==> cloned(items@[i], #[trigger] out@[i]),
{
    let mut out: Vec<T> = Vec::new();
    let mut at: usize = 0;
    while at < items.len()
        invariant
            at <= items@.len(),
            out@.len() == at,
            forall|i: int| 0 <= i < at ==> cloned(items@[i], #[trigger] out@[i]),
        decreases items@.len() - at,
    {
        out.push(items[at].clone());
        at += 1;
    }
    out
}

impl<T: StaticForm + Clone> StaticForm for Cow<'static, [T]> {
    open spec fn is_owned(self) -> bool {
        &&& self is Owned
        &&& forall|i: int| 0 <= i < cow_items(self).len() ==> (#[trigger] cow_items(self)[i]).is_owned()
    }

    open spec fn alike(self, other: Self) -> bool {
        &&& cow_items(self).len() == cow_items(other).len()
        &&& forall|i: int|
            0 <= i < cow_items(self).len() ==> (#[trigger] cow_items(self)[i]).alike(
                cow_items(other)[i],
            )
    }
}

impl<T: Clone + IntoStatic> IntoStatic for Cow<'_, [T]> where T::Static: Clone {
    type Static = Cow<'static, [T::Static]>;

    open spec fn upgrades_to(self, out: Cow<'static, [T::Static]>) -> bool {
        &&& out is Owned
        &&& cow_items(out).len() == cow_items(self).len()
        &&& forall|i: int|
            0 <= i < cow_items(self).len() ==> if self is Owned {
                cow_items(self)[i].upgrades_to(#[trigger] cow_items(out)[i])
            } else {
                clone_upgrades_to(cow_items(self)[i], #[trigger] cow_items(out)[i])
            }
    }

    fn into_static(self) -> (out: Cow<'static, [T::Static]>)
        ensures
            out is Owned,
            cow_items(out).len() == cow_items(self).len(),
            self is Owned ==> forall|i: int|
                0 <= i < cow_items(self).len() ==> cow_items(self)[i].upgrades_to(
                    #[trigger] cow_items(out)[i],
                ),
            self is Borrowed ==> forall|i: int|
                0 <= i < cow_items(self).len() ==> clone_upgrades_to(
                    cow_items(self)[i],
                    #[trigger] cow_items(out)[i],
                ),
    {
        match self {
            Cow::Borrowed(items) => {
                let copies = clone_items(items);
                let owned = copies.into_static();
                assert forall|i: int| 0 <= i < items@.len() implies clone_upgrades_to(
                    items@[i],
                    #[trigger] owned@[i],
                ) by {
                    assert(copies@[i].upgrades_to(owned@[i]));
                }
                Cow::Owned(owned)
            },
            Cow::Owned(items) => Cow::Owned(items.into_static()),
        }
    }

    proof fn lemma_upgrade_is_owned(self, out: Cow<'static, [T::Static]>) {
        assert forall|i: int| 0 <= i < cow_items(out).len() implies (#[trigger] cow_items(
            out,
        )[i]).is_owned() by {
            if self is Owned {
                cow_items(self)[i].lemma_upgrade_is_owned(cow_items(out)[i]);
            } else {
                let copy = choose|copy: T|
                    cloned(cow_items(self)[i], copy) && #[trigger] copy.upgrades_to(
                        cow_items(out)[i],
                    );
                copy.lemma_upgrade_is_owned(cow_items(out)[i]);
            }
        }
    }
}

impl<T: SelfStatic + Clone> SelfStatic for Cow<'static, [T]> {
    proof fn lemma_upgrade_alike(self, again: Self) {
        assert forall|i: int| 0 <= i < cow_items(self).len() implies (#[trigger] cow_items(
            self,
        )[i]).alike(cow_items(again)[i]) by {
            cow_items(self)[i].lemma_upgrade_alike(cow_items(again)[i]);
        }
    }
}

/// A wrapper over a sequence keeps the length and the order of the sequence,
/// and its counterpart holds its sequence itself: the item at each index is a
/// counterpart of the item at that index where the wrapper held its items,
/// and of a clone of that item where it referred to them.
pub proof fn lemma_sequence_keeps_shape<T: Clone + IntoStatic>(
    value: Cow<'_, [T]>,
    out: Cow<'static, [T::Static]>,
    at: int,
) where T::Static: Clone
    requires
        value.upgrades_to(out),
        0 <= at < cow_items(value).len(),
    ensures
        out is Owned,
        cow_items(out).len() == cow_items(value).len(),
        value is Owned ==> cow_items(value)[at].upgrades_to(cow_items(out)[at]),
        value is Borrowed ==> clone_upgrades_to(cow_items(value)[at], cow_items(out)[at]),
{
}

/// Wrapper normalization for sequences: two wrappers over the same items,
/// whichever alternative each holds, upgrade to owned wrappers of the same
/// length in which the item at each index is a counterpart of a clone of the
/// same item. (An item counts as a clone of itself.)
pub proof fn lemma_sequence_normalized<T: Clone + IntoStatic>(
    a: Cow<'_, [T]>,
    b: Cow<'_, [T]>,
    a_out: Cow<'static, [T::Static]>,
    b_out: Cow<'static, [T::Static]>,
    at: int,
) where T::Static: Clone
    requires
        cow_items(a) == cow_items(b),
        a.upgrades_to(a_out),
        b.upgrades_to(b_out),
        0 <= at < cow_items(a).len(),
    ensures
        a_out is Owned,
        b_out is Owned,
        cow_items(a_out).len() == cow_items(b_out).len(),
        clone_upgrades_to(cow_items(a)[at], cow_items(a_out)[at]),
        clone_upgrades_to(cow_items(a)[at], cow_items(b_out)[at]),
{
    let item = cow_items(a)[at];
    if a is Owned {
        assert(item.upgrades_to(cow_items(a_out)[at]));
    }
    if b is Owned {
        assert(item.upgrades_to(cow_items(b_out)[at]));
    }
}

/// Wrapper normalization for text: two wrappers with the same text, whichever
/// alternative each holds, upgrade to owned wrappers with that same text.
pub proof fn lemma_text_normalized(
    a: Cow<'_, str>,
    b: Cow<'_, str>,
    a_out: Cow<'static, str>,
    b_out: Cow<'static, str>,
)
    requires
        a@ == b@,
        a.upgrades_to(a_out),
        b.upgrades_to(b_out),
    ensures
        a_out is Owned,
        b_out is Owned,
        a_out@ == b_out@,
        a_out@ == a@,
        a_out.alike(b_out),
{
}

/// Wrapper normalization for bytes: two wrappers with the same bytes,
/// whichever alternative each holds, upgrade to owned wrappers with those
/// same bytes.
pub proof fn lemma_bytes_normalized(
    a: Cow<'_, [u8]>,
    b: Cow<'_, [u8]>,
    a_out: Cow<'static, [u8]>,
    b_out: Cow<'static, [u8]>,
)
    requires
        a@ == b@,
        a.upgrades_to(a_out),
        b.upgrades_to(b_out),
    ensures
        a_out is Owned,
        b_out is Owned,
        a_out@ == b_out@,
        a_out@ == a@,
        a_out.alike(b_out),
{
}

} // verus!
