use egui_nav::{arr_top_n, AsRoutes, HasRouter, Router};

#[test]
fn arr_top_n_counts_from_the_top() {
    let v = [10u32, 20, 30];
    assert_eq!(arr_top_n(&v, 0), Some(&30));
    assert_eq!(arr_top_n(&v, 1), Some(&20));
    assert_eq!(arr_top_n(&v, 2), Some(&10));
    assert_eq!(arr_top_n(&v, 3), None);
    assert_eq!(arr_top_n(&v, 100), None);
}

#[test]
fn a_new_router_is_idle() {
    let r = Router::new(vec!["home"]);
    assert!(!r.is_navigating());
    assert!(!r.is_returning());
    assert!(!r.is_replacing());
    assert_eq!(*r.top(), "home");
}

#[test]
fn flags_are_independent() {
    let mut r = Router::new(vec![1u32]);
    r.set_navigating(true);
    r.set_returning(true);
    r.set_replacing(true);
    assert!(r.is_navigating() && r.is_returning() && r.is_replacing());
    r.set_navigating(false);
    assert!(!r.is_navigating() && r.is_returning() && r.is_replacing());
    r.set_returning(false);
    assert!(!r.is_returning() && r.is_replacing());
    r.set_replacing(false);
    assert!(!r.is_replacing());
}

#[test]
fn navigate_pushes_and_flags() {
    let mut r = Router::new(vec![1u32]);
    r.navigate(2);
    assert!(r.is_navigating());
    assert!(!r.is_replacing());
    assert_eq!(r.routes(), &[1, 2]);
    assert_eq!(*r.top(), 2);
}

#[test]
fn route_to_replaced_pushes_and_marks_replacing() {
    let mut r = Router::new(vec![1u32]);
    r.route_to_replaced(9);
    assert!(r.is_navigating());
    assert!(r.is_replacing());
    assert_eq!(r.routes(), &[1, 9]);
}

#[test]
fn go_back_hands_out_the_previous_route_once() {
    let mut r = Router::new(vec![1u32, 2, 3]);
    assert_eq!(r.go_back(), Some(&2));
    assert!(r.is_returning());
    assert_eq!(r.go_back(), None, "already returning");
    assert_eq!(r.routes(), &[1, 2, 3], "go_back never pops");
}

#[test]
fn go_back_on_a_single_route_does_nothing() {
    let mut r = Router::new(vec![1u32]);
    assert_eq!(r.go_back(), None);
    assert!(!r.is_returning());
}

#[test]
fn pop_removes_the_top_and_clears_returning() {
    let mut r = Router::new(vec![1u32, 2]);
    r.go_back();
    assert!(r.is_returning());
    assert_eq!(r.pop(), Some(2));
    assert!(!r.is_returning());
    assert_eq!(r.routes(), &[1]);
}

#[test]
fn pop_keeps_the_last_route() {
    let mut r = Router::new(vec![1u32]);
    assert_eq!(r.pop(), None);
    assert_eq!(r.routes(), &[1]);
}

#[test]
fn top_n_and_prev_navigate_the_stack() {
    let r = Router::new(vec![1u32, 2, 3]);
    assert_eq!(r.top_n(0), Some(&3));
    assert_eq!(r.top_n(1), Some(&2));
    assert_eq!(r.top_n(2), Some(&1));
    assert_eq!(r.top_n(3), None);
    assert_eq!(r.prev(), Some(&2));
}

#[test]
fn borrow_views_the_same_routes() {
    let mut r = Router::new(vec![1u32, 2]);
    r.set_navigating(true);
    let b = r.borrow();
    assert_eq!(b.routes(), &[1, 2]);
    assert!(b.is_navigating());
    assert!(!b.is_returning());
}

#[test]
fn borrow_popped_drops_the_top() {
    let r = Router::new(vec![1u32, 2, 3]);
    assert_eq!(r.borrow_popped().routes(), &[1, 2]);
    let single = Router::new(vec![7u32]);
    assert_eq!(single.borrow_popped().routes(), &[7], "a router may not become empty");
}

#[test]
fn routes_mut_reaches_the_storage() {
    let mut r = Router::new(vec![1u32]);
    r.routes_mut().push(5);
    assert_eq!(r.routes(), &[1, 5]);
}

#[test]
fn get_router_returns_itself() {
    let mut r = Router::new(vec![1u32]);
    r.get_router().set_navigating(true);
    assert!(r.is_navigating());
    let mut borrowed = &mut r;
    borrowed.get_router().set_returning(true);
    assert!(r.is_returning());
}

#[test]
fn vec_as_routes_pushes_and_pops() {
    let mut v = vec![1u32, 2];
    assert_eq!(v.as_routes(), &[1, 2]);
    AsRoutes::push(&mut v, 3);
    assert_eq!(v.as_routes(), &[1, 2, 3]);
    assert_eq!(AsRoutes::pop(&mut v), Some(3));
    assert_eq!(v.as_routes(), &[1, 2]);
}
