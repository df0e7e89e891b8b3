//! Composite shapes: each converts its components and keeps its shape.

use vstd::prelude::*;
use crate::IntoStatic;
use crate::SelfStatic;
use crate::StaticForm;

verus! {

impl<T: StaticForm> StaticForm for Option<T> {
    open spec fn is_owned(self) -> bool {
        match self {
            Some(value) => value.is_owned(),
            None => true,
        }
    }

    open spec fn alike(self, other: Self) -> bool {
        match (self, other) {
            (None, None) => true,
            (Some(a), Some(b)) => a.alike(b),
            _ => false,
        }
    }
}

impl<T: IntoStatic> IntoStatic for Option<T> {
    type Static = Option<T::Static>;

    open spec fn upgrades_to(self, out: Option<T::Static>) -> bool {
        match (self, out) {
            (None, None) => true,
            (Some(value), Some(owned)) => value.upgrades_to(owned),
            _ => false,
        }
    }

    fn into_static(self) -> (out: Option<T::Static>)
        ensures
            self is None <==> out is None,
            self is Some ==> self->0.upgrades_to(out->0),
    {
        match self {
            Some(value) => Some(value.into_static()),
            None => None,
        }
    }

    proof fn lemma_upgrade_is_owned(self, out: Option<T::Static>) {
        match (self, out) {
            (Some(value), Some(owned)) => {
                value.lemma_upgrade_is_owned(owned);
            },
            _ => {},
        }
    }
}

impl<T: SelfStatic> SelfStatic for Option<T> {
    proof fn lemma_upgrade_alike(self, again: Self) {
        match (self, again) {
            (Some(a), Some(b)) => {
                a.lemma_upgrade_alike(b);
            },
            _ => {},
        }
    }
}

/// An optional value keeps its shape: an absent value has an absent
/// counterpart, and a present value a present one that holds a counterpart of
/// what it held.
pub proof fn lemma_option_keeps_shape<T: IntoStatic>(value: Option<T>, out: Option<T::Static>)
    requires
        value.upgrades_to(out),
    ensures
        value is None <==> out is None,
        value is Some ==> value->0.upgrades_to(out->0),
{
}

impl<T: StaticForm, E: StaticForm> StaticForm for Result<T, E> {
    open spec fn is_owned(self) -> bool {
        match self {
            Ok(value) => value.is_owned(),
            Err(error) => error.is_owned(),
        }
    }

    open spec fn alike(self, other: Self) -> bool {
        match (self, other) {
            (Ok(a), Ok(b)) => a.alike(b),
            (Err(a), Err(b)) => a.alike(b),
            _ => false,
        }
    }
}

impl<T: IntoStatic, E: IntoStatic> IntoStatic for Result<T, E> {
    type Static = Result<T::Static, E::Static>;

    open spec fn upgrades_to(self, out: Result<T::Static, E::Static>) -> bool {
        match (self, out) {
            (Ok(value), Ok(owned)) => value.upgrades_to(owned),
            (Err(error), Err(owned)) => error.upgrades_to(owned),
            _ => false,
        }
    }

    fn into_static(self) -> (out: Result<T::Static, E::Static>)
        ensures
            self is Ok <==> out is Ok,
            self is Ok ==> self->Ok_0.upgrades_to(out->Ok_0),
            self is Err ==> self->Err_0.upgrades_to(out->Err_0),
    {
        match self {
            Ok(value) => Ok(value.into_static()),
            Err(error) => Err(error.into_static()),
        }
    }

    proof fn lemma_upgrade_is_owned(self, out: Result<T::Static, E::Static>) {
        match (self, out) {
            (Ok(value), Ok(owned)) => {
                value.lemma_upgrade_is_owned(owned);
            },
            (Err(error), Err(owned)) => {
                error.lemma_upgrade_is_owned(owned);
            },
            _ => {},
        }
    }
}

impl<T: SelfStatic, E: SelfStatic> SelfStatic for Result<T, E> {
    proof fn lemma_upgrade_alike(self, again: Self) {
        match (self, again) {
            (Ok(a), Ok(b)) => {
                a.lemma_upgrade_alike(b);
            },
            (Err(a), Err(b)) => {
                a.lemma_upgrade_alike(b);
            },
            _ => {},
        }
    }
}

/// A two-branch value keeps its branch: the counterpart of a success is a
/// success, that of a failure is a failure, and each holds a counterpart of
/// what the value held.
pub proof fn lemma_result_keeps_shape<T: IntoStatic, E: IntoStatic>(
    value: Result<T, E>,
    out: Result<T::Static, E::Static>,
)
    requires
        value.upgrades_to(out),
    ensures
        value is Ok <==> out is Ok,
        value is Ok ==> value->Ok_0.upgrades_to(out->Ok_0),
        value is Err ==> value->Err_0.upgrades_to(out->Err_0),
{
}

/// `<[T; N]>::map` of the standard library: the array that it returns holds,
/// at each index, what a call of `f` returned for the item at that index.
pub assume_specification<Item, const LEN: usize, Func, Mapped>[ <[Item; LEN]>::map ](
    items: [Item; LEN],
    f: Func,
) -> (out: [Mapped; LEN]) where Func: FnMut(Item) -> Mapped
    requires
        forall|i: int| 0 <= i < LEN ==> call_requires(f, (#[trigger] items@[i],)),
    ensures
        forall|i: int| 0 <= i < LEN ==> call_ensures(f, (items@[i],), #[trigger] out@[i]),
;

impl<T: StaticForm, const N: usize> StaticForm for [T; N] {
    open spec fn is_owned(self) -> bool {
        forall|i: int| 0 <= i < N ==> (#[trigger] self@[i]).is_owned()
    }

    open spec fn alike(self, other: Self) -> bool {
        forall|i: int| 0 <= i < N ==> (#[trigger] self@[i]).alike(other@[i])
    }
}

impl<T: IntoStatic, const N: usize> IntoStatic for [T; N] {
    type Static = [T::Static; N];

    open spec fn upgrades_to(self, out: [T::Static; N]) -> bool {
        forall|i: int| 0 <= i < N ==> (#[trigger] self@[i]).upgrades_to(out@[i])
    }

    fn into_static(self) -> (out: [T::Static; N])
        ensures
            forall|i: int| 0 <= i < N ==> (#[trigger] self@[i]).upgrades_to(out@[i]),
    {
        let upgrade = |item: T| -> (owned: T::Static)
            ensures
                item.upgrades_to(owned),
                owned.is_owned(),
            { item.into_static() };
        self.map(upgrade)
    }

    proof fn lemma_upgrade_is_owned(self, out: [T::Static; N]) {
        assert forall|i: int| 0 <= i < N implies (#[trigger] out@[i]).is_owned() by {
            self@[i].lemma_upgrade_is_owned(out@[i]);
        }
    }
}

impl<T: SelfStatic, const N: usize> SelfStatic for [T; N] {
    proof fn lemma_upgrade_alike(self, again: Self) {
        assert forall|i: int| 0 <= i < N implies (#[trigger] self@[i]).alike(again@[i]) by {
            self@[i].lemma_upgrade_alike(again@[i]);
        }
    }
}

/// An array keeps its length and its order: the item at each index of the
/// counterpart is a counterpart of the item at that index.
pub proof fn lemma_array_keeps_shape<T: IntoStatic, const N: usize>(
    value: [T; N],
    out: [T::Static; N],
    at: int,
)
    requires
        value.upgrades_to(out),
        0 <= at < N,
    ensures
        out@.len() == value@.len(),
        value@[at].upgrades_to(out@[at]),
{
}

impl<T: StaticForm> StaticForm for Vec<T> {
    open spec fn is_owned(self) -> bool {
        forall|i: int| 0 <= i < self@.len() ==> (#[trigger] self@[i]).is_owned()
    }

    open spec fn alike(self, other: Self) -> bool {
        &&& self@.len() == other@.len()
        &&& forall|i: int| 0 <= i < self@.len() ==> (#[trigger] self@[i]).alike(other@[i])
    }
}

impl<T: IntoStatic> IntoStatic for Vec<T> {
    type Static = Vec<T::Static>;

    open spec fn upgrades_to(self, out: Vec<T::Static>) -> bool {
        &&& out@.len() == self@.len()
        &&& forall|i: int| 0 <= i < self@.len() ==> (#[trigger] self@[i]).upgrades_to(out@[i])
    }

    fn into_static(self) -> (out: Vec<T::Static>)
        ensures
            out@.len() == self@.len(),
            forall|i: int| 0 <= i < self@.len() ==> (#[trigger] self@[i]).upgrades_to(out@[i]),
    {
        let ghost items = self@;
        let mut out: Vec<T::Static> = Vec::new();
        for item in it: self.into_iter()
            invariant
                it.seq() == items,
                out@.len() == it.index(),
                forall|i: int| 0 <= i < out@.len() ==> (#[trigger] items[i]).upgrades_to(out@[i]),
                forall|i: int| 0 <= i < out@.len() ==> (#[trigger] out@[i]).is_owned(),
        {
            out.push(item.into_static());
        }
        out
    }

    proof fn lemma_upgrade_is_owned(self, out: Vec<T::Static>) {
        assert forall|i: int| 0 <= i < out@.len() implies (#[trigger] out@[i]).is_owned() by {
            self@[i].lemma_upgrade_is_owned(out@[i]);
        }
    }
}

impl<T: SelfStatic> SelfStatic for Vec<T> {
    proof fn lemma_upgrade_alike(self, again: Self) {
        assert forall|i: int| 0 <= i < self@.len() implies (#[trigger] self@[i]).alike(
            again@[i],
        ) by {
            self@[i].lemma_upgrade_alike(again@[i]);
        }
    }
}

/// A vector keeps its length and its order: the item at each index of the
/// counterpart is a counterpart of the item at that index.
pub proof fn lemma_vec_keeps_shape<T: IntoStatic>(value: Vec<T>, out: Vec<T::Static>, at: int)
    requires
        value.upgrades_to(out),
        0 <= at < value@.len(),
    ensures
        out@.len() == value@.len(),
        value@[at].upgrades_to(out@[at]),
{
}

} // verus!
