//! The host-side route stack: a thin state holder that pairs the route
//! storage with the returning/navigating/replacing flags and keeps the stack
//! non-empty.

use vstd::prelude::*;

verus! {

use crate::util::arr_top_n;

/// Route storage a router can sit on: an owned stack, or a borrowed slice of
/// one for the duration of a frame.
pub trait AsRoutes: Sized {
    type Route;

    /// The stored routes as a sequence.
    spec fn routes_view(&self) -> Seq<Self::Route>;

    /// Whether this storage supports pushing and popping. A borrowed slice
    /// does not: push and pop may never be called on it.
    spec fn supports_mutation() -> bool;

    fn as_routes(&self) -> (r: &[Self::Route])
        ensures
            r@ == self.routes_view(),
    ;

    fn push(&mut self, r: Self::Route)
        requires
            Self::supports_mutation(),
        ensures
            final(self).routes_view() == old(self).routes_view().push(r),
    ;

    fn pop(&mut self) -> (r: Option<Self::Route>)
        requires
            Self::supports_mutation(),
        ensures
            old(self).routes_view().len() == 0 ==> r is None && final(self).routes_view() == old(
                self,
            ).routes_view(),
            old(self).routes_view().len() > 0 ==> r == Some(old(self).routes_view().last())
                && final(self).routes_view() == old(self).routes_view().drop_last(),
    ;
}

impl<R> AsRoutes for Vec<R> {
    type Route = R;

    open spec fn routes_view(&self) -> Seq<R> {
        self@
    }

    open spec fn supports_mutation() -> bool {
        true
    }

    fn as_routes(&self) -> (r: &[R]) {
        self.as_slice()
    }

    fn push(&mut self, route: R) {
        self.push(route);
    }

    fn pop(&mut self) -> (r: Option<R>) {
        let r = self.pop();
        proof {
            if old(self)@.len() > 0 {
                assert(old(self)@.drop_last() == old(self)@.subrange(
                    0,
                    old(self)@.len() - 1,
                ));
            }
        }
        r
    }
}

impl<'s, R> AsRoutes for &'s [R] {
    type Route = R;

    open spec fn routes_view(&self) -> Seq<R> {
        self@
    }

    open spec fn supports_mutation() -> bool {
        false
    }

    fn as_routes(&self) -> (r: &[R]) {
        self
    }

    fn push(&mut self, _r: R) {
        // unreachable: a borrowed slice supports no mutation
    }

    fn pop(&mut self) -> (r: Option<R>) {
        // unreachable: a borrowed slice supports no mutation
        None
    }
}

/// Something that can hand out its router.
pub trait HasRouter<R: AsRoutes> {
    spec fn router_view(&self) -> Router<R>;

    fn get_router(&mut self) -> (r: &mut Router<R>)
        ensures
            *r == old(self).router_view(),
            final(self).router_view() == *final(r),
    ;
}

impl<R: AsRoutes> HasRouter<R> for Router<R> {
    open spec fn router_view(&self) -> Router<R> {
        *self
    }

    fn get_router(&mut self) -> (r: &mut Router<R>) {
        self
    }
}

impl<'m, R: AsRoutes> HasRouter<R> for &'m mut Router<R> {
    open spec fn router_view(&self) -> Router<R> {
        **self
    }

    fn get_router(&mut self) -> (r: &mut Router<R>) {
        self
    }
}

const RETURNING: u32 = 0b0000_0001;

const NAVIGATING: u32 = 0b0000_0010;

const REPLACING: u32 = 0b0000_0100;

/// A route stack with its transition flags. The stack is never empty.
pub struct Router<R: AsRoutes> {
    routes: R,
    flags: u32,
}

impl<R: AsRoutes> Router<R> {
    pub closed spec fn routes_view(&self) -> Seq<R::Route> {
        self.routes.routes_view()
    }

    pub closed spec fn routes_field(&self) -> R {
        self.routes
    }

    /// Whether the router is currently returning to the previous route.
    pub closed spec fn spec_is_returning(&self) -> bool {
        self.flags & RETURNING != 0
    }

    /// Whether the router is currently navigating to a new route.
    pub closed spec fn spec_is_navigating(&self) -> bool {
        self.flags & NAVIGATING != 0
    }

    /// Whether the router is currently replacing its previous routes.
    pub closed spec fn spec_is_replacing(&self) -> bool {
        self.flags & REPLACING != 0
    }

    /// A router always holds at least one route.
    pub open spec fn wf(&self) -> bool {
        self.routes_view().len() >= 1
    }

    /// A router over a non-empty stack; an empty stack is a precondition
    /// violation.
    pub fn new(routes: R) -> (router: Self)
        requires
            routes.routes_view().len() >= 1,
        ensures
            router.wf(),
            router.routes_view() == routes.routes_view(),
            !router.spec_is_returning(),
            !router.spec_is_navigating(),
            !router.spec_is_replacing(),
    {
        proof {
            assert(0u32 & 0b1u32 == 0 && 0u32 & 0b10u32 == 0 && 0u32 & 0b100u32 == 0)
                by (bit_vector);
        }
        Router { routes, flags: 0 }
    }

    /// A frame-lived router over the same routes, borrowed as a slice.
    pub fn borrow(&self) -> (r: Router<&[R::Route]>)
        ensures
            r.routes_view() == self.routes_view(),
            r.spec_is_returning() == self.spec_is_returning(),
            r.spec_is_navigating() == self.spec_is_navigating(),
            r.spec_is_replacing() == self.spec_is_replacing(),
    {
        Router { routes: self.routes.as_routes(), flags: self.flags }
    }

    /// Like [`Self::borrow`], but with the top route dropped: the stack the
    /// background pass renders. A stack of fewer than two routes is borrowed
    /// whole, since a router may not become empty.
    pub fn borrow_popped(&self) -> (r: Router<&[R::Route]>)
        ensures
            self.routes_view().len() < 2 ==> r.routes_view() == self.routes_view(),
            self.routes_view().len() >= 2 ==> r.routes_view() == self.routes_view().drop_last(),
            r.spec_is_returning() == self.spec_is_returning(),
            r.spec_is_navigating() == self.spec_is_navigating(),
            r.spec_is_replacing() == self.spec_is_replacing(),
    {
        let all = self.routes.as_routes();
        let routes_len = all.len();
        if routes_len < 2 {
            self.borrow()
        } else {
            let popped = vstd::slice::slice_subrange(all, 0, routes_len - 1);
            proof {
                assert(popped@ == self.routes_view().drop_last());
            }
            Router { routes: popped, flags: self.flags }
        }
    }

    /// Set that we are returning from a route.
    pub fn set_returning(&mut self, value: bool)
        ensures
            final(self).spec_is_returning() == value,
            final(self).spec_is_navigating() == old(self).spec_is_navigating(),
            final(self).spec_is_replacing() == old(self).spec_is_replacing(),
            final(self).routes_field() == old(self).routes_field(),
            final(self).routes_view() == old(self).routes_view(),
    {
        let f = self.flags;
        if value {
            self.flags = f | RETURNING;
            proof {
                assert((f | 0b1u32) & 0b1u32 != 0 && (f | 0b1u32) & 0b10u32 == f & 0b10u32 && (f
                    | 0b1u32) & 0b100u32 == f & 0b100u32) by (bit_vector);
            }
        } else {
            self.flags = f & !RETURNING;
            proof {
                assert((f & !0b1u32) & 0b1u32 == 0 && (f & !0b1u32) & 0b10u32 == f & 0b10u32 && (f
                    & !0b1u32) & 0b100u32 == f & 0b100u32) by (bit_vector);
            }
        }
    }

    /// Set our router as navigating, ie. moving to a new route.
    pub fn set_navigating(&mut self, value: bool)
        ensures
            final(self).spec_is_navigating() == value,
            final(self).spec_is_returning() == old(self).spec_is_returning(),
            final(self).spec_is_replacing() == old(self).spec_is_replacing(),
            final(self).routes_field() == old(self).routes_field(),
            final(self).routes_view() == old(self).routes_view(),
    {
        let f = self.flags;
        if value {
            self.flags = f | NAVIGATING;
            proof {
                assert((f | 0b10u32) & 0b10u32 != 0 && (f | 0b10u32) & 0b1u32 == f & 0b1u32 && (f
                    | 0b10u32) & 0b100u32 == f & 0b100u32) by (bit_vector);
            }
        } else {
            self.flags = f & !NAVIGATING;
            proof {
                assert((f & !0b10u32) & 0b10u32 == 0 && (f & !0b10u32) & 0b1u32 == f & 0b1u32 && (f
                    & !0b10u32) & 0b100u32 == f & 0b100u32) by (bit_vector);
            }
        }
    }

    /// Sets or clears the replacing flag.
    pub fn set_replacing(&mut self, value: bool)
        ensures
            final(self).spec_is_replacing() == value,
            final(self).spec_is_returning() == old(self).spec_is_returning(),
            final(self).spec_is_navigating() == old(self).spec_is_navigating(),
            final(self).routes_field() == old(self).routes_field(),
            final(self).routes_view() == old(self).routes_view(),
    {
        let f = self.flags;
        if value {
            self.flags = f | REPLACING;
            proof {
                assert((f | 0b100u32) & 0b100u32 != 0 && (f | 0b100u32) & 0b1u32 == f & 0b1u32 && (
                f | 0b100u32) & 0b10u32 == f & 0b10u32) by (bit_vector);
            }
        } else {
            self.flags = f & !REPLACING;
            proof {
                assert((f & !0b100u32) & 0b100u32 == 0 && (f & !0b100u32) & 0b1u32 == f & 0b1u32
                    && (f & !0b100u32) & 0b10u32 == f & 0b10u32) by (bit_vector);
            }
        }
    }

    /// Is our router currently navigating? ie moving to a new route.
    pub fn is_navigating(&self) -> (b: bool)
        ensures
            b == self.spec_is_navigating(),
    {
        (self.flags & NAVIGATING) != 0
    }

    /// Is our router currently returning?
    pub fn is_returning(&self) -> (b: bool)
        ensures
            b == self.spec_is_returning(),
    {
        (self.flags & RETURNING) != 0
    }

    /// Is our router currently replacing?
    pub fn is_replacing(&self) -> (b: bool)
        ensures
            b == self.spec_is_replacing(),
    {
        (self.flags & REPLACING) != 0
    }

    /// Push a new route and mark the router as navigating toward it.
    pub fn navigate(&mut self, route: R::Route)
        requires
            R::supports_mutation(),
        ensures
            final(self).routes_view() == old(self).routes_view().push(route),
            final(self).spec_is_navigating(),
            final(self).spec_is_returning() == old(self).spec_is_returning(),
            final(self).spec_is_replacing() == old(self).spec_is_replacing(),
    {
        self.set_navigating(true);
        self.routes.push(route);
    }

    /// Route to a new top. Once it is in place, the host should remove the
    /// previous routes; until then the router reports itself as replacing.
    pub fn route_to_replaced(&mut self, route: R::Route)
        requires
            R::supports_mutation(),
        ensures
            final(self).routes_view() == old(self).routes_view().push(route),
            final(self).spec_is_navigating(),
            final(self).spec_is_replacing(),
            final(self).spec_is_returning() == old(self).spec_is_returning(),
    {
        self.set_navigating(true);
        self.set_replacing(true);
        self.routes.push(route);
    }

    /// Go back: start the returning process, handing out the route being
    /// returned to. Does nothing when already returning or when there is no
    /// previous route.
    pub fn go_back(&mut self) -> (r: Option<&R::Route>)
        requires
            old(self).wf(),
        ensures
            old(self).spec_is_returning() || old(self).routes_view().len() == 1 ==> r is None
                && *final(self) == *old(self),
            !(old(self).spec_is_returning() || old(self).routes_view().len() == 1) ==> {
                &&& final(self).routes_view() == old(self).routes_view()
                &&& final(self).spec_is_returning()
                &&& final(self).spec_is_navigating() == old(self).spec_is_navigating()
                &&& final(self).spec_is_replacing() == old(self).spec_is_replacing()
                &&& (r matches Some(t) && *t == old(self).routes_view()[old(
                    self,
                ).routes_view().len() - 2])
            },
    {
        if self.is_returning() || self.routes.as_routes().len() == 1 {
            return None;
        }
        self.set_returning(true);
        self.prev()
    }

    /// Pop a route; should only be called on a returned response. Does
    /// nothing on a single-route stack, which may not become empty.
    pub fn pop(&mut self) -> (r: Option<R::Route>)
        requires
            old(self).wf(),
            old(self).routes_view().len() > 1 ==> R::supports_mutation(),
        ensures
            old(self).routes_view().len() == 1 ==> r is None && *final(self) == *old(self),
            old(self).routes_view().len() > 1 ==> {
                &&& r == Some(old(self).routes_view().last())
                &&& final(self).routes_view() == old(self).routes_view().drop_last()
                &&& !final(self).spec_is_returning()
                &&& final(self).spec_is_navigating() == old(self).spec_is_navigating()
                &&& final(self).spec_is_replacing() == old(self).spec_is_replacing()
                &&& final(self).wf()
            },
    {
        if self.routes.as_routes().len() == 1 {
            return None;
        }
        self.set_returning(false);
        self.routes.pop()
    }

    /// The top of the stack; a router guarantees at least one route.
    pub fn top(&self) -> (r: &R::Route)
        requires
            self.wf(),
        ensures
            *r == self.routes_view().last(),
    {
        let all = self.routes.as_routes();
        vstd::slice::slice_index_get(all, all.len() - 1)
    }

    /// The route at some position near the top of the stack: `top_n(0)` is
    /// the top route, `top_n(1)` the one immediately before it.
    pub fn top_n(&self, n: usize) -> (r: Option<&R::Route>)
        ensures
            (r is Some) <==> n < self.routes_view().len(),
            r matches Some(t) ==> *t == self.routes_view()[self.routes_view().len() - 1 - n],
    {
        arr_top_n(self.routes.as_routes(), n)
    }

    /// The route immediately before the top.
    pub fn prev(&self) -> (r: Option<&R::Route>)
        requires
            self.routes_view().len() >= 2,
        ensures
            r matches Some(t) && *t == self.routes_view()[self.routes_view().len() - 2],
    {
        let all = self.routes.as_routes();
        Some(vstd::slice::slice_index_get(all, all.len() - 2))
    }

    pub fn routes(&self) -> (r: &[R::Route])
        ensures
            r@ == self.routes_view(),
    {
        self.routes.as_routes()
    }

    pub fn routes_mut(&mut self) -> (r: &mut R)
        ensures
            *r == old(self).routes_field(),
            final(self).routes_field() == *final(r),
            final(self).routes_view() == final(r).routes_view(),
            final(self).spec_is_returning() == old(self).spec_is_returning(),
            final(self).spec_is_navigating() == old(self).spec_is_navigating(),
            final(self).spec_is_replacing() == old(self).spec_is_replacing(),
    {
        &mut self.routes
    }
}

} // verus!
