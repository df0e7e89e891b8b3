//! Tuples of one to twelve components: each component is upgraded on its
//! own and keeps its place.

use vstd::prelude::*;
use crate::IntoStatic;
use crate::SelfStatic;
use crate::StaticForm;

verus! {

impl<A: StaticForm> StaticForm for (A,) {
    open spec fn is_owned(self) -> bool {
        self.0.is_owned()
    }

    open spec fn alike(self, other: Self) -> bool {
        self.0.alike(other.0)
    }
}

impl<A: IntoStatic> IntoStatic for (A,) {
    type Static = (A::Static,);

    open spec fn upgrades_to(self, out: (A::Static,)) -> bool {
        self.0.upgrades_to(out.0)
    }

    fn into_static(self) -> (out: (A::Static,))
        ensures
            self.0.upgrades_to(out.0),
    {
        let (a,) = self;
        (a.into_static(),)
    }

    proof fn lemma_upgrade_is_owned(self, out: (A::Static,)) {
        self.0.lemma_upgrade_is_owned(out.0);
    }
}

impl<A: SelfStatic> SelfStatic for (A,) {
    proof fn lemma_upgrade_alike(self, again: Self) {
        self.0.lemma_upgrade_alike(again.0);
    }
}

impl<A: StaticForm, B: StaticForm> StaticForm for (A, B) {
    open spec fn is_owned(self) -> bool {
        &&& self.0.is_owned()
        &&& self.1.is_owned()
    }

    open spec fn alike(self, other: Self) -> bool {
        &&& self.0.alike(other.0)
        &&& self.1.alike(other.1)
    }
}

impl<A: IntoStatic, B: IntoStatic> IntoStatic for (A, B) {
    type Static = (A::Static, B::Static);

    open spec fn upgrades_to(self, out: (A::Static, B::Static)) -> bool {
        &&& self.0.upgrades_to(out.0)
        &&& self.1.upgrades_to(out.1)
    }

    fn into_static(self) -> (out: (A::Static, B::Static))
        ensures
            self.0.upgrades_to(out.0),
            self.1.upgrades_to(out.1),
    {
        let (a, b) = self;
        (a.into_static(), b.into_static())
    }

    proof fn lemma_upgrade_is_owned(self, out: (A::Static, B::Static)) {
        self.0.lemma_upgrade_is_owned(out.0);
        self.1.lemma_upgrade_is_owned(out.1);
    }
}

impl<A: SelfStatic, B: SelfStatic> SelfStatic for (A, B) {
    proof fn lemma_upgrade_alike(self, again: Self) {
        self.0.lemma_upgrade_alike(again.0);
        self.1.lemma_upgrade_alike(again.1);
    }
}

impl<A: StaticForm, B: StaticForm, C: StaticForm> StaticForm for (A, B, C) {
    open spec fn is_owned(self) -> bool {
        &&& self.0.is_owned()
        &&& self.1.is_owned()
        &&& self.2.is_owned()
    }

    open spec fn alike(self, other: Self) -> bool {
        &&& self.0.alike(other.0)
        &&& self.1.alike(other.1)
        &&& self.2.alike(other.2)
    }
}

impl<A: IntoStatic, B: IntoStatic, C: IntoStatic> IntoStatic for (A, B, C) {
    type Static = (A::Static, B::Static, C::Static);

    open spec fn upgrades_to(self, out: (A::Static, B::Static, C::Static)) -> bool {
        &&& self.0.upgrades_to(out.0)
        &&& self.1.upgrades_to(out.1)
        &&& self.2.upgrades_to(out.2)
    }

    fn into_static(self) -> (out: (A::Static, B::Static, C::Static))
        ensures
            self.0.upgrades_to(out.0),
            self.1.upgrades_to(out.1),
            self.2.upgrades_to(out.2),
    {
        let (a, b, c) = self;
        (a.into_static(), b.into_static(), c.into_static())
    }

    proof fn lemma_upgrade_is_owned(self, out: (A::Static, B::Static, C::Static)) {
        self.0.lemma_upgrade_is_owned(out.0);
        self.1.lemma_upgrade_is_owned(out.1);
        self.2.lemma_upgrade_is_owned(out.2);
    }
}

impl<A: SelfStatic, B: SelfStatic, C: SelfStatic> SelfStatic for (A, B, C) {
    proof fn lemma_upgrade_alike(self, again: Self) {
        self.0.lemma_upgrade_alike(again.0);
        self.1.lemma_upgrade_alike(again.1);
        self.2.lemma_upgrade_alike(again.2);
    }
}

impl<A: StaticForm, B: StaticForm, C: StaticForm, D: StaticForm> StaticForm for (A, B, C, D) {
    open spec fn is_owned(self) -> bool {
        &&& self.0.is_owned()
        &&& self.1.is_owned()
        &&& self.2.is_owned()
        &&& self.3.is_owned()
    }

    open spec fn alike(self, other: Self) -> bool {
        &&& self.0.alike(other.0)
        &&& self.1.alike(other.1)
        &&& self.2.alike(other.2)
        &&& self.3.alike(other.3)
    }
}

impl<A: IntoStatic, B: IntoStatic, C: IntoStatic, D: IntoStatic> IntoStatic for (A, B, C, D) {
    type Static = (A::Static, B::Static, C::Static, D::Static);

    open spec fn upgrades_to(self, out: (A::Static, B::Static, C::Static, D::Static)) -> bool {
        &&& self.0.upgrades_to(out.0)
        &&& self.1.upgrades_to(out.1)
        &&& self.2.upgrades_to(out.2)
        &&& self.3.upgrades_to(out.3)
    }

    fn into_static(self) -> (out: (A::Static, B::Static, C::Static, D::Static))
        ensures
            self.0.upgrades_to(out.0),
            self.1.upgrades_to(out.1),
            self.2.upgrades_to(out.2),
            self.3.upgrades_to(out.3),
    {
        let (a, b, c, d) = self;
        (a.into_static(), b.into_static(), c.into_static(), d.into_static())
    }

    proof fn lemma_upgrade_is_owned(self, out: (A::Static, B::Static, C::Static, D::Static)) {
        self.0.lemma_upgrade_is_owned(out.0);
        self.1.lemma_upgrade_is_owned(out.1);
        self.2.lemma_upgrade_is_owned(out.2);
        self.3.lemma_upgrade_is_owned(out.3);
    }
}

impl<A: SelfStatic, B: SelfStatic, C: SelfStatic, D: SelfStatic> SelfStatic for (A, B, C, D) {
    proof fn lemma_upgrade_alike(self, again: Self) {
        self.0.lemma_upgrade_alike(again.0);
        self.1.lemma_upgrade_alike(again.1);
        self.2.lemma_upgrade_alike(again.2);
        self.3.lemma_upgrade_alike(again.3);
    }
}

impl<A: StaticForm, B: StaticForm, C: StaticForm, D: StaticForm, E: StaticForm> StaticForm for (A, B, C, D, E) {
    open spec fn is_owned(self) -> bool {
        &&& self.0.is_owned()
        &&& self.1.is_owned()
        &&& self.2.is_owned()
        &&& self.3.is_owned()
        &&& self.4.is_owned()
    }

    open spec fn alike(self, other: Self) -> bool {
        &&& self.0.alike(other.0)
        &&& self.1.alike(other.1)
        &&& self.2.alike(other.2)
        &&& self.3.alike(other.3)
        &&& self.4.alike(other.4)
    }
}

impl<A: IntoStatic, B: IntoStatic, C: IntoStatic, D: IntoStatic, E: IntoStatic> IntoStatic for (A, B, C, D, E) {
    type Static = (A::Static, B::Static, C::Static, D::Static, E::Static);

    open spec fn upgrades_to(self, out: (A::Static, B::Static, C::Static, D::Static, E::Static)) -> bool {
        &&& self.0.upgrades_to(out.0)
        &&& self.1.upgrades_to(out.1)
        &&& self.2.upgrades_to(out.2)
        &&& self.3.upgrades_to(out.3)
        &&& self.4.upgrades_to(out.4)
    }

    fn into_static(self) -> (out: (A::Static, B::Static, C::Static, D::Static, E::Static))
        ensures
            self.0.upgrades_to(out.0),
            self.1.upgrades_to(out.1),
            self.2.upgrades_to(out.2),
            self.3.upgrades_to(out.3),
            self.4.upgrades_to(out.4),
    {
        let (a, b, c, d, e) = self;
        (a.into_static(), b.into_static(), c.into_static(), d.into_static(), e.into_static())
    }

    proof fn lemma_upgrade_is_owned(self, out: (A::Static, B::Static, C::Static, D::Static, E::Static)) {
        self.0.lemma_upgrade_is_owned(out.0);
        self.1.lemma_upgrade_is_owned(out.1);
        self.2.lemma_upgrade_is_owned(out.2);
        self.3.lemma_upgrade_is_owned(out.3);
        self.4.lemma_upgrade_is_owned(out.4);
    }
}

impl<A: SelfStatic, B: SelfStatic, C: SelfStatic, D: SelfStatic, E: SelfStatic> SelfStatic for (A, B, C, D, E) {
    proof fn lemma_upgrade_alike(self, again: Self) {
        self.0.lemma_upgrade_alike(again.0);
        self.1.lemma_upgrade_alike(again.1);
        self.2.lemma_upgrade_alike(again.2);
        self.3.lemma_upgrade_alike(again.3);
        self.4.lemma_upgrade_alike(again.4);
    }
}

impl<A: StaticForm, B: StaticForm, C: StaticForm, D: StaticForm, E: StaticForm, F: StaticForm> StaticForm for (A, B, C, D, E, F) {
    open spec fn is_owned(self) -> bool {
        &&& self.0.is_owned()
        &&& self.1.is_owned()
        &&& self.2.is_owned()
        &&& self.3.is_owned()
        &&& self.4.is_owned()
        &&& self.5.is_owned()
    }

    open spec fn alike(self, other: Self) -> bool {
        &&& self.0.alike(other.0)
        &&& self.1.alike(other.1)
        &&& self.2.alike(other.2)
        &&& self.3.alike(other.3)
        &&& self.4.alike(other.4)
        &&& self.5.alike(other.5)
    }
}

impl<A: IntoStatic, B: IntoStatic, C: IntoStatic, D: IntoStatic, E: IntoStatic, F: IntoStatic> IntoStatic for (A, B, C, D, E, F) {
    type Static = (A::Static, B::Static, C::Static, D::Static, E::Static, F::Static);

    open spec fn upgrades_to(self, out: (A::Static, B::Static, C::Static, D::Static, E::Static, F::Static)) -> bool {
        &&& self.0.upgrades_to(out.0)
        &&& self.1.upgrades_to(out.1)
        &&& self.2.upgrades_to(out.2)
        &&& self.3.upgrades_to(out.3)
        &&& self.4.upgrades_to(out.4)
        &&& self.5.upgrades_to(out.5)
    }

    fn into_static(self) -> (out: (A::Static, B::Static, C::Static, D::Static, E::Static, F::Static))
        ensures
            self.0.upgrades_to(out.0),
            self.1.upgrades_to(out.1),
            self.2.upgrades_to(out.2),
            self.3.upgrades_to(out.3),
            self.4.upgrades_to(out.4),
            self.5.upgrades_to(out.5),
    {
        let (a, b, c, d, e, f) = self;
        (a.into_static(), b.into_static(), c.into_static(), d.into_static(), e.into_static(), f.into_static())
    }

    proof fn lemma_upgrade_is_owned(self, out: (A::Static, B::Static, C::Static, D::Static, E::Static, F::Static)) {
        self.0.lemma_upgrade_is_owned(out.0);
        self.1.lemma_upgrade_is_owned(out.1);
        self.2.lemma_upgrade_is_owned(out.2);
        self.3.lemma_upgrade_is_owned(out.3);
        self.4.lemma_upgrade_is_owned(out.4);
        self.5.lemma_upgrade_is_owned(out.5);
    }
}

impl<A: SelfStatic, B: SelfStatic, C: SelfStatic, D: SelfStatic, E: SelfStatic, F: SelfStatic> SelfStatic for (A, B, C, D, E, F) {
    proof fn lemma_upgrade_alike(self, again: Self) {
        self.0.lemma_upgrade_alike(again.0);
        self.1.lemma_upgrade_alike(again.1);
        self.2.lemma_upgrade_alike(again.2);
        self.3.lemma_upgrade_alike(again.3);
        self.4.lemma_upgrade_alike(again.4);
        self.5.lemma_upgrade_alike(again.5);
    }
}

impl<A: StaticForm, B: StaticForm, C: StaticForm, D: StaticForm, E: StaticForm, F: StaticForm, G: StaticForm> StaticForm for (A, B, C, D, E, F, G) {
    open spec fn is_owned(self) -> bool {
        &&& self.0.is_owned()
        &&& self.1.is_owned()
        &&& self.2.is_owned()
        &&& self.3.is_owned()
        &&& self.4.is_owned()
        &&& self.5.is_owned()
        &&& self.6.is_owned()
    }

    open spec fn alike(self, other: Self) -> bool {
        &&& self.0.alike(other.0)
        &&& self.1.alike(other.1)
        &&& self.2.alike(other.2)
        &&& self.3.alike(other.3)
        &&& self.4.alike(other.4)
        &&& self.5.alike(other.5)
        &&& self.6.alike(other.6)
    }
}

impl<A: IntoStatic, B: IntoStatic, C: IntoStatic, D: IntoStatic, E: IntoStatic, F: IntoStatic, G: IntoStatic> IntoStatic for (A, B, C, D, E, F, G) {
    type Static = (A::Static, B::Static, C::Static, D::Static, E::Static, F::Static, G::Static);

    open spec fn upgrades_to(self, out: (A::Static, B::Static, C::Static, D::Static, E::Static, F::Static, G::Static)) -> bool {
        &&& self.0.upgrades_to(out.0)
        &&& self.1.upgrades_to(out.1)
        &&& self.2.upgrades_to(out.2)
        &&& self.3.upgrades_to(out.3)
        &&& self.4.upgrades_to(out.4)
        &&& self.5.upgrades_to(out.5)
        &&& self.6.upgrades_to(out.6)
    }

    fn into_static(self) -> (out: (A::Static, B::Static, C::Static, D::Static, E::Static, F::Static, G::Static))
        ensures
            self.0.upgrades_to(out.0),
            self.1.upgrades_to(out.1),
            self.2.upgrades_to(out.2),
            self.3.upgrades_to(out.3),
            self.4.upgrades_to(out.4),
            self.5.upgrades_to(out.5),
            self.6.upgrades_to(out.6),
    {
        let (a, b, c, d, e, f, g) = self;
        (a.into_static(), b.into_static(), c.into_static(), d.into_static(), e.into_static(), f.into_static(), g.into_static())
    }

    proof fn lemma_upgrade_is_owned(self, out: (A::Static, B::Static, C::Static, D::Static, E::Static, F::Static, G::Static)) {
        self.0.lemma_upgrade_is_owned(out.0);
        self.1.lemma_upgrade_is_owned(out.1);
        self.2.lemma_upgrade_is_owned(out.2);
        self.3.lemma_upgrade_is_owned(out.3);
        self.4.lemma_upgrade_is_owned(out.4);
        self.5.lemma_upgrade_is_owned(out.5);
        self.6.lemma_upgrade_is_owned(out.6);
    }
}

impl<A: SelfStatic, B: SelfStatic, C: SelfStatic, D: SelfStatic, E: SelfStatic, F: SelfStatic, G: SelfStatic> SelfStatic for (A, B, C, D, E, F, G) {
    proof fn lemma_upgrade_alike(self, again: Self) {
        self.0.lemma_upgrade_alike(again.0);
        self.1.lemma_upgrade_alike(again.1);
        self.2.lemma_upgrade_alike(again.2);
        self.3.lemma_upgrade_alike(again.3);
        self.4.lemma_upgrade_alike(again.4);
        self.5.lemma_upgrade_alike(again.5);
        self.6.lemma_upgrade_alike(again.6);
    }
}

impl<A: StaticForm, B: StaticForm, C: StaticForm, D: StaticForm, E: StaticForm, F: StaticForm, G: StaticForm, H: StaticForm> StaticForm for (A, B, C, D, E, F, G, H) {
    open spec fn is_owned(self) -> bool {
        &&& self.0.is_owned()
        &&& self.1.is_owned()
        &&& self.2.is_owned()
        &&& self.3.is_owned()
        &&& self.4.is_owned()
        &&& self.5.is_owned()
        &&& self.6.is_owned()
        &&& self.7.is_owned()
    }

    open spec fn alike(self, other: Self) -> bool {
        &&& self.0.alike(other.0)
        &&& self.1.alike(other.1)
        &&& self.2.alike(other.2)
        &&& self.3.alike(other.3)
        &&& self.4.alike(other.4)
        &&& self.5.alike(other.5)
        &&& self.6.alike(other.6)
        &&& self.7.alike(other.7)
    }
}

impl<A: IntoStatic, B: IntoStatic, C: IntoStatic, D: IntoStatic, E: IntoStatic, F: IntoStatic, G: IntoStatic, H: IntoStatic> IntoStatic for (A, B, C, D, E, F, G, H) {
    type Static = (A::Static, B::Static, C::Static, D::Static, E::Static, F::Static, G::Static, H::Static);

    open spec fn upgrades_to(self, out: (A::Static, B::Static, C::Static, D::Static, E::Static, F::Static, G::Static, H::Static)) -> bool {
        &&& self.0.upgrades_to(out.0)
        &&& self.1.upgrades_to(out.1)
        &&& self.2.upgrades_to(out.2)
        &&& self.3.upgrades_to(out.3)
        &&& self.4.upgrades_to(out.4)
        &&& self.5.upgrades_to(out.5)
        &&& self.6.upgrades_to(out.6)
        &&& self.7.upgrades_to(out.7)
    }

    fn into_static(self) -> (out: (A::Static, B::Static, C::Static, D::Static, E::Static, F::Static, G::Static, H::Static))
        ensures
            self.0.upgrades_to(out.0),
            self.1.upgrades_to(out.1),
            self.2.upgrades_to(out.2),
            self.3.upgrades_to(out.3),
            self.4.upgrades_to(out.4),
            self.5.upgrades_to(out.5),
            self.6.upgrades_to(out.6),
            self.7.upgrades_to(out.7),
    {
        let (a, b, c, d, e, f, g, h) = self;
        (a.into_static(), b.into_static(), c.into_static(), d.into_static(), e.into_static(), f.into_static(), g.into_static(), h.into_static())
    }

    proof fn lemma_upgrade_is_owned(self, out: (A::Static, B::Static, C::Static, D::Static, E::Static, F::Static, G::Static, H::Static)) {
        self.0.lemma_upgrade_is_owned(out.0);
        self.1.lemma_upgrade_is_owned(out.1);
        self.2.lemma_upgrade_is_owned(out.2);
        self.3.lemma_upgrade_is_owned(out.3);
        self.4.lemma_upgrade_is_owned(out.4);
        self.5.lemma_upgrade_is_owned(out.5);
        self.6.lemma_upgrade_is_owned(out.6);
        self.7.lemma_upgrade_is_owned(out.7);
    }
}

impl<A: SelfStatic, B: SelfStatic, C: SelfStatic, D: SelfStatic, E: SelfStatic, F: SelfStatic, G: SelfStatic, H: SelfStatic> SelfStatic for (A, B, C, D, E, F, G, H) {
    proof fn lemma_upgrade_alike(self, again: Self) {
        self.0.lemma_upgrade_alike(again.0);
        self.1.lemma_upgrade_alike(again.1);
        self.2.lemma_upgrade_alike(again.2);
        self.3.lemma_upgrade_alike(again.3);
        self.4.lemma_upgrade_alike(again.4);
        self.5.lemma_upgrade_alike(again.5);
        self.6.lemma_upgrade_alike(again.6);
        self.7.lemma_upgrade_alike(again.7);
    }
}

impl<A: StaticForm, B: StaticForm, C: StaticForm, D: StaticForm, E: StaticForm, F: StaticForm, G: StaticForm, H: StaticForm, I: StaticForm> StaticForm for (A, B, C, D, E, F, G, H, I) {
    open spec fn is_owned(self) -> bool {
        &&& self.0.is_owned()
        &&& self.1.is_owned()
        &&& self.2.is_owned()
        &&& self.3.is_owned()
        &&& self.4.is_owned()
        &&& self.5.is_owned()
        &&& self.6.is_owned()
        &&& self.7.is_owned()
        &&& self.8.is_owned()
    }

    open spec fn alike(self, other: Self) -> bool {
        &&& self.0.alike(other.0)
        &&& self.1.alike(other.1)
        &&& self.2.alike(other.2)
        &&& self.3.alike(other.3)
        &&& self.4.alike(other.4)
        &&& self.5.alike(other.5)
        &&& self.6.alike(other.6)
        &&& self.7.alike(other.7)
        &&& self.8.alike(other.8)
    }
}

impl<A: IntoStatic, B: IntoStatic, C: IntoStatic, D: IntoStatic, E: IntoStatic, F: IntoStatic, G: IntoStatic, H: IntoStatic, I: IntoStatic> IntoStatic for (A, B, C, D, E, F, G, H, I) {
    type Static = (A::Static, B::Static, C::Static, D::Static, E::Static, F::Static, G::Static, H::Static, I::Static);

    open spec fn upgrades_to(self, out: (A::Static, B::Static, C::Static, D::Static, E::Static, F::Static, G::Static, H::Static, I::Static)) -> bool {
        &&& self.0.upgrades_to(out.0)
        &&& self.1.upgrades_to(out.1)
        &&& self.2.upgrades_to(out.2)
        &&& self.3.upgrades_to(out.3)
        &&& self.4.upgrades_to(out.4)
        &&& self.5.upgrades_to(out.5)
        &&& self.6.upgrades_to(out.6)
        &&& self.7.upgrades_to(out.7)
        &&& self.8.upgrades_to(out.8)
    }

    fn into_static(self) -> (out: (A::Static, B::Static, C::Static, D::Static, E::Static, F::Static, G::Static, H::Static, I::Static))
        ensures
            self.0.upgrades_to(out.0),
            self.1.upgrades_to(out.1),
            self.2.upgrades_to(out.2),
            self.3.upgrades_to(out.3),
            self.4.upgrades_to(out.4),
            self.5.upgrades_to(out.5),
            self.6.upgrades_to(out.6),
            self.7.upgrades_to(out.7),
            self.8.upgrades_to(out.8),
    {
        let (a, b, c, d, e, f, g, h, i) = self;
        (a.into_static(), b.into_static(), c.into_static(), d.into_static(), e.into_static(), f.into_static(), g.into_static(), h.into_static(), i.into_static())
    }

    proof fn lemma_upgrade_is_owned(self, out: (A::Static, B::Static, C::Static, D::Static, E::Static, F::Static, G::Static, H::Static, I::Static)) {
        self.0.lemma_upgrade_is_owned(out.0);
        self.1.lemma_upgrade_is_owned(out.1);
        self.2.lemma_upgrade_is_owned(out.2);
        self.3.lemma_upgrade_is_owned(out.3);
        self.4.lemma_upgrade_is_owned(out.4);
        self.5.lemma_upgrade_is_owned(out.5);
        self.6.lemma_upgrade_is_owned(out.6);
        self.7.lemma_upgrade_is_owned(out.7);
        self.8.lemma_upgrade_is_owned(out.8);
    }
}

impl<A: SelfStatic, B: SelfStatic, C: SelfStatic, D: SelfStatic, E: SelfStatic, F: SelfStatic, G: SelfStatic, H: SelfStatic, I: SelfStatic> SelfStatic for (A, B, C, D, E, F, G, H, I) {
    proof fn lemma_upgrade_alike(self, again: Self) {
        self.0.lemma_upgrade_alike(again.0);
        self.1.lemma_upgrade_alike(again.1);
        self.2.lemma_upgrade_alike(again.2);
        self.3.lemma_upgrade_alike(again.3);
        self.4.lemma_upgrade_alike(again.4);
        self.5.lemma_upgrade_alike(again.5);
        self.6.lemma_upgrade_alike(again.6);
        self.7.lemma_upgrade_alike(again.7);
        self.8.lemma_upgrade_alike(again.8);
    }
}

impl<A: StaticForm, B: StaticForm, C: StaticForm, D: StaticForm, E: StaticForm, F: StaticForm, G: StaticForm, H: StaticForm, I: StaticForm, J: StaticForm> StaticForm for (A, B, C, D, E, F, G, H, I, J) {
    open spec fn is_owned(self) -> bool {
        &&& self.0.is_owned()
        &&& self.1.is_owned()
        &&& self.2.is_owned()
        &&& self.3.is_owned()
        &&& self.4.is_owned()
        &&& self.5.is_owned()
        &&& self.6.is_owned()
        &&& self.7.is_owned()
        &&& self.8.is_owned()
        &&& self.9.is_owned()
    }

    open spec fn alike(self, other: Self) -> bool {
        &&& self.0.alike(other.0)
        &&& self.1.alike(other.1)
        &&& self.2.alike(other.2)
        &&& self.3.alike(other.3)
        &&& self.4.alike(other.4)
        &&& self.5.alike(other.5)
        &&& self.6.alike(other.6)
        &&& self.7.alike(other.7)
        &&& self.8.alike(other.8)
        &&& self.9.alike(other.9)
    }
}

impl<A: IntoStatic, B: IntoStatic, C: IntoStatic, D: IntoStatic, E: IntoStatic, F: IntoStatic, G: IntoStatic, H: IntoStatic, I: IntoStatic, J: IntoStatic> IntoStatic for (A, B, C, D, E, F, G, H, I, J) {
    type Static = (A::Static, B::Static, C::Static, D::Static, E::Static, F::Static, G::Static, H::Static, I::Static, J::Static);

    open spec fn upgrades_to(self, out: (A::Static, B::Static, C::Static, D::Static, E::Static, F::Static, G::Static, H::Static, I::Static, J::Static)) -> bool {
        &&& self.0.upgrades_to(out.0)
        &&& self.1.upgrades_to(out.1)
        &&& self.2.upgrades_to(out.2)
        &&& self.3.upgrades_to(out.3)
        &&& self.4.upgrades_to(out.4)
        &&& self.5.upgrades_to(out.5)
        &&& self.6.upgrades_to(out.6)
        &&& self.7.upgrades_to(out.7)
        &&& self.8.upgrades_to(out.8)
        &&& self.9.upgrades_to(out.9)
    }

    fn into_static(self) -> (out: (A::Static, B::Static, C::Static, D::Static, E::Static, F::Static, G::Static, H::Static, I::Static, J::Static))
        ensures
            self.0.upgrades_to(out.0),
            self.1.upgrades_to(out.1),
            self.2.upgrades_to(out.2),
            self.3.upgrades_to(out.3),
            self.4.upgrades_to(out.4),
            self.5.upgrades_to(out.5),
            self.6.upgrades_to(out.6),
            self.7.upgrades_to(out.7),
            self.8.upgrades_to(out.8),
            self.9.upgrades_to(out.9),
    {
        let (a, b, c, d, e, f, g, h, i, j) = self;
        (a.into_static(), b.into_static(), c.into_static(), d.into_static(), e.into_static(), f.into_static(), g.into_static(), h.into_static(), i.into_static(), j.into_static())
    }

    proof fn lemma_upgrade_is_owned(self, out: (A::Static, B::Static, C::Static, D::Static, E::Static, F::Static, G::Static, H::Static, I::Static, J::Static)) {
        self.0.lemma_upgrade_is_owned(out.0);
        self.1.lemma_upgrade_is_owned(out.1);
        self.2.lemma_upgrade_is_owned(out.2);
        self.3.lemma_upgrade_is_owned(out.3);
        self.4.lemma_upgrade_is_owned(out.4);
        self.5.lemma_upgrade_is_owned(out.5);
        self.6.lemma_upgrade_is_owned(out.6);
        self.7.lemma_upgrade_is_owned(out.7);
        self.8.lemma_upgrade_is_owned(out.8);
        self.9.lemma_upgrade_is_owned(out.9);
    }
}

impl<A: SelfStatic, B: SelfStatic, C: SelfStatic, D: SelfStatic, E: SelfStatic, F: SelfStatic, G: SelfStatic, H: SelfStatic, I: SelfStatic, J: SelfStatic> SelfStatic for (A, B, C, D, E, F, G, H, I, J) {
    proof fn lemma_upgrade_alike(self, again: Self) {
        self.0.lemma_upgrade_alike(again.0);
        self.1.lemma_upgrade_alike(again.1);
        self.2.lemma_upgrade_alike(again.2);
        self.3.lemma_upgrade_alike(again.3);
        self.4.lemma_upgrade_alike(again.4);
        self.5.lemma_upgrade_alike(again.5);
        self.6.lemma_upgrade_alike(again.6);
        self.7.lemma_upgrade_alike(again.7);
        self.8.lemma_upgrade_alike(again.8);
        self.9.lemma_upgrade_alike(again.9);
    }
}

impl<A: StaticForm, B: StaticForm, C: StaticForm, D: StaticForm, E: StaticForm, F: StaticForm, G: StaticForm, H: StaticForm, I: StaticForm, J: StaticForm, K: StaticForm> StaticForm for (A, B, C, D, E, F, G, H, I, J, K) {
    open spec fn is_owned(self) -> bool {
        &&& self.0.is_owned()
        &&& self.1.is_owned()
        &&& self.2.is_owned()
        &&& self.3.is_owned()
        &&& self.4.is_owned()
        &&& self.5.is_owned()
        &&& self.6.is_owned()
        &&& self.7.is_owned()
        &&& self.8.is_owned()
        &&& self.9.is_owned()
        &&& self.10.is_owned()
    }

    open spec fn alike(self, other: Self) -> bool {
        &&& self.0.alike(other.0)
        &&& self.1.alike(other.1)
        &&& self.2.alike(other.2)
        &&& self.3.alike(other.3)
        &&& self.4.alike(other.4)
        &&& self.5.alike(other.5)
        &&& self.6.alike(other.6)
        &&& self.7.alike(other.7)
        &&& self.8.alike(other.8)
        &&& self.9.alike(other.9)
        &&& self.10.alike(other.10)
    }
}

impl<A: IntoStatic, B: IntoStatic, C: IntoStatic, D: IntoStatic, E: IntoStatic, F: IntoStatic, G: IntoStatic, H: IntoStatic, I: IntoStatic, J: IntoStatic, K: IntoStatic> IntoStatic for (A, B, C, D, E, F, G, H, I, J, K) {
    type Static = (A::Static, B::Static, C::Static, D::Static, E::Static, F::Static, G::Static, H::Static, I::Static, J::Static, K::Static);

    open spec fn upgrades_to(self, out: (A::Static, B::Static, C::Static, D::Static, E::Static, F::Static, G::Static, H::Static, I::Static, J::Static, K::Static)) -> bool {
        &&& self.0.upgrades_to(out.0)
        &&& self.1.upgrades_to(out.1)
        &&& self.2.upgrades_to(out.2)
        &&& self.3.upgrades_to(out.3)
        &&& self.4.upgrades_to(out.4)
        &&& self.5.upgrades_to(out.5)
        &&& self.6.upgrades_to(out.6)
        &&& self.7.upgrades_to(out.7)
        &&& self.8.upgrades_to(out.8)
        &&& self.9.upgrades_to(out.9)
        &&& self.10.upgrades_to(out.10)
    }

    fn into_static(self) -> (out: (A::Static, B::Static, C::Static, D::Static, E::Static, F::Static, G::Static, H::Static, I::Static, J::Static, K::Static))
        ensures
            self.0.upgrades_to(out.0),
            self.1.upgrades_to(out.1),
            self.2.upgrades_to(out.2),
            self.3.upgrades_to(out.3),
            self.4.upgrades_to(out.4),
            self.5.upgrades_to(out.5),
            self.6.upgrades_to(out.6),
            self.7.upgrades_to(out.7),
            self.8.upgrades_to(out.8),
            self.9.upgrades_to(out.9),
            self.10.upgrades_to(out.10),
    {
        let (a, b, c, d, e, f, g, h, i, j, k) = self;
        (a.into_static(), b.into_static(), c.into_static(), d.into_static(), e.into_static(), f.into_static(), g.into_static(), h.into_static(), i.into_static(), j.into_static(), k.into_static())
    }

    proof fn lemma_upgrade_is_owned(self, out: (A::Static, B::Static, C::Static, D::Static, E::Static, F::Static, G::Static, H::Static, I::Static, J::Static, K::Static)) {
        self.0.lemma_upgrade_is_owned(out.0);
        self.1.lemma_upgrade_is_owned(out.1);
        self.2.lemma_upgrade_is_owned(out.2);
        self.3.lemma_upgrade_is_owned(out.3);
        self.4.lemma_upgrade_is_owned(out.4);
        self.5.lemma_upgrade_is_owned(out.5);
        self.6.lemma_upgrade_is_owned(out.6);
        self.7.lemma_upgrade_is_owned(out.7);
        self.8.lemma_upgrade_is_owned(out.8);
        self.9.lemma_upgrade_is_owned(out.9);
        self.10.lemma_upgrade_is_owned(out.10);
    }
}

impl<A: SelfStatic, B: SelfStatic, C: SelfStatic, D: SelfStatic, E: SelfStatic, F: SelfStatic, G: SelfStatic, H: SelfStatic, I: SelfStatic, J: SelfStatic, K: SelfStatic> SelfStatic for (A, B, C, D, E, F, G, H, I, J, K) {
    proof fn lemma_upgrade_alike(self, again: Self) {
        self.0.lemma_upgrade_alike(again.0);
        self.1.lemma_upgrade_alike(again.1);
        self.2.lemma_upgrade_alike(again.2);
        self.3.lemma_upgrade_alike(again.3);
        self.4.lemma_upgrade_alike(again.4);
        self.5.lemma_upgrade_alike(again.5);
        self.6.lemma_upgrade_alike(again.6);
        self.7.lemma_upgrade_alike(again.7);
        self.8.lemma_upgrade_alike(again.8);
        self.9.lemma_upgrade_alike(again.9);
        self.10.lemma_upgrade_alike(again.10);
    }
}

impl<A: StaticForm, B: StaticForm, C: StaticForm, D: StaticForm, E: StaticForm, F: StaticForm, G: StaticForm, H: StaticForm, I: StaticForm, J: StaticForm, K: StaticForm, L: StaticForm> StaticForm for (A, B, C, D, E, F, G, H, I, J, K, L) {
    open spec fn is_owned(self) -> bool {
        &&& self.0.is_owned()
        &&& self.1.is_owned()
        &&& self.2.is_owned()
        &&& self.3.is_owned()
        &&& self.4.is_owned()
        &&& self.5.is_owned()
        &&& self.6.is_owned()
        &&& self.7.is_owned()
        &&& self.8.is_owned()
        &&& self.9.is_owned()
        &&& self.10.is_owned()
        &&& self.11.is_owned()
    }

    open spec fn alike(self, other: Self) -> bool {
        &&& self.0.alike(other.0)
        &&& self.1.alike(other.1)
        &&& self.2.alike(other.2)
        &&& self.3.alike(other.3)
        &&& self.4.alike(other.4)
        &&& self.5.alike(other.5)
        &&& self.6.alike(other.6)
        &&& self.7.alike(other.7)
        &&& self.8.alike(other.8)
        &&& self.9.alike(other.9)
        &&& self.10.alike(other.10)
        &&& self.11.alike(other.11)
    }
}

impl<A: IntoStatic, B: IntoStatic, C: IntoStatic, D: IntoStatic, E: IntoStatic, F: IntoStatic, G: IntoStatic, H: IntoStatic, I: IntoStatic, J: IntoStatic, K: IntoStatic, L: IntoStatic> IntoStatic for (A, B, C, D, E, F, G, H, I, J, K, L) {
    type Static = (A::Static, B::Static, C::Static, D::Static, E::Static, F::Static, G::Static, H::Static, I::Static, J::Static, K::Static, L::Static);

    open spec fn upgrades_to(self, out: (A::Static, B::Static, C::Static, D::Static, E::Static, F::Static, G::Static, H::Static, I::Static, J::Static, K::Static, L::Static)) -> bool {
        &&& self.0.upgrades_to(out.0)
        &&& self.1.upgrades_to(out.1)
        &&& self.2.upgrades_to(out.2)
        &&& self.3.upgrades_to(out.3)
        &&& self.4.upgrades_to(out.4)
        &&& self.5.upgrades_to(out.5)
        &&& self.6.upgrades_to(out.6)
        &&& self.7.upgrades_to(out.7)
        &&& self.8.upgrades_to(out.8)
        &&& self.9.upgrades_to(out.9)
        &&& self.10.upgrades_to(out.10)
        &&& self.11.upgrades_to(out.11)
    }

    fn into_static(self) -> (out: (A::Static, B::Static, C::Static, D::Static, E::Static, F::Static, G::Static, H::Static, I::Static, J::Static, K::Static, L::Static))
        ensures
            self.0.upgrades_to(out.0),
            self.1.upgrades_to(out.1),
            self.2.upgrades_to(out.2),
            self.3.upgrades_to(out.3),
            self.4.upgrades_to(out.4),
            self.5.upgrades_to(out.5),
            self.6.upgrades_to(out.6),
            self.7.upgrades_to(out.7),
            self.8.upgrades_to(out.8),
            self.9.upgrades_to(out.9),
            self.10.upgrades_to(out.10),
            self.11.upgrades_to(out.11),
    {
        let (a, b, c, d, e, f, g, h, i, j, k, l) = self;
        (a.into_static(), b.into_static(), c.into_static(), d.into_static(), e.into_static(), f.into_static(), g.into_static(), h.into_static(), i.into_static(), j.into_static(), k.into_static(), l.into_static())
    }

    proof fn lemma_upgrade_is_owned(self, out: (A::Static, B::Static, C::Static, D::Static, E::Static, F::Static, G::Static, H::Static, I::Static, J::Static, K::Static, L::Static)) {
        self.0.lemma_upgrade_is_owned(out.0);
        self.1.lemma_upgrade_is_owned(out.1);
        self.2.lemma_upgrade_is_owned(out.2);
        self.3.lemma_upgrade_is_owned(out.3);
        self.4.lemma_upgrade_is_owned(out.4);
        self.5.lemma_upgrade_is_owned(out.5);
        self.6.lemma_upgrade_is_owned(out.6);
        self.7.lemma_upgrade_is_owned(out.7);
        self.8.lemma_upgrade_is_owned(out.8);
        self.9.lemma_upgrade_is_owned(out.9);
        self.10.lemma_upgrade_is_owned(out.10);
        self.11.lemma_upgrade_is_owned(out.11);
    }
}

impl<A: SelfStatic, B: SelfStatic, C: SelfStatic, D: SelfStatic, E: SelfStatic, F: SelfStatic, G: SelfStatic, H: SelfStatic, I: SelfStatic, J: SelfStatic, K: SelfStatic, L: SelfStatic> SelfStatic for (A, B, C, D, E, F, G, H, I, J, K, L) {
    proof fn lemma_upgrade_alike(self, again: Self) {
        self.0.lemma_upgrade_alike(again.0);
        self.1.lemma_upgrade_alike(again.1);
        self.2.lemma_upgrade_alike(again.2);
        self.3.lemma_upgrade_alike(again.3);
        self.4.lemma_upgrade_alike(again.4);
        self.5.lemma_upgrade_alike(again.5);
        self.6.lemma_upgrade_alike(again.6);
        self.7.lemma_upgrade_alike(again.7);
        self.8.lemma_upgrade_alike(again.8);
        self.9.lemma_upgrade_alike(again.9);
        self.10.lemma_upgrade_alike(again.10);
        self.11.lemma_upgrade_alike(again.11);
    }
}

} // verus!
