use ufork_dev::substrate::Core;
use ufork_dev::value::{Any, Quad, E_MEM_LIM, E_NOT_RAM};

fn quad(t: Any, x: Any, y: Any, z: Any) -> Quad {
    Quad { t, x, y, z }
}

#[test]
fn nth_walks_a_proper_list() {
    // (1 2 . 3) = Pair(1, Pair(2, 3))
    let mut core = Core::new(8);
    let tail = core.reserve(&Quad::pair_t(Any::Fix(2), Any::Fix(3))).unwrap();
    let msg = core.reserve(&Quad::pair_t(Any::Fix(1), tail)).unwrap();
    assert_eq!(core.nth(msg, 0), msg);
    assert_eq!(core.nth(msg, 1), Any::Fix(1));
    assert_eq!(core.nth(msg, 2), Any::Fix(2));
    assert_eq!(core.nth(msg, 3), Any::Undef);
    assert_eq!(core.nth(msg, -1), tail);
    assert_eq!(core.nth(msg, -2), Any::Fix(3));
    assert_eq!(core.nth(msg, -3), Any::Undef);
}

#[test]
fn nth_on_an_atom_yields_undef() {
    let core = Core::new(8);
    assert_eq!(core.nth(Any::Fix(9), 1), Any::Undef);
    assert_eq!(core.nth(Any::Cap(3), -1), Any::Undef);
    assert_eq!(core.nth(Any::Nil, 2), Any::Undef);
    assert_eq!(core.nth(Any::Undef, 0), Any::Undef);
}

#[test]
fn reserve_respects_the_quota() {
    let mut core = Core::new(1);
    let p = core.reserve(&Quad::pair_t(Any::Nil, Any::Nil)).unwrap();
    assert_eq!(p, Any::Ptr(0));
    let r = core.reserve(&Quad::pair_t(Any::Nil, Any::Nil));
    assert_eq!(r, Err(E_MEM_LIM));
    assert_eq!(core.quads.len(), 1);
}

#[test]
fn release_stub_is_one_shot() {
    let mut core = Core::new(4);
    let target = core.reserve(&Quad::pair_t(Any::Fix(1), Any::Nil)).unwrap();
    let stub = core.reserve_stub(Any::Cap(9), target).unwrap();
    assert_eq!(core.quads[1].t, Any::StubT);
    assert_eq!(core.quads[1].y, target);
    assert_eq!(core.release_stub(stub), Ok(()));
    assert_eq!(core.quads[1].t, Any::FreeT);
    // second release of the same handle is refused and changes nothing
    assert_eq!(core.release_stub(stub), Err(E_NOT_RAM));
    assert_eq!(core.quads[1].t, Any::FreeT);
}

#[test]
fn release_of_a_non_stub_is_refused() {
    let mut core = Core::new(4);
    let p = core.reserve(&Quad::pair_t(Any::Fix(1), Any::Nil)).unwrap();
    assert_eq!(core.release_stub(p), Err(E_NOT_RAM));
    assert_eq!(core.release_stub(Any::Fix(0)), Err(E_NOT_RAM));
    assert_eq!(core.quads[0].t, Any::PairT);
}

#[test]
fn typeq_and_cap_to_ptr() {
    let mut core = Core::new(4);
    let p = core.reserve(&quad(Any::ActorT, Any::Undef, Any::Undef, Any::Undef)).unwrap();
    assert_eq!(p, Any::Ptr(0));
    assert!(core.typeq(Any::ActorT, p));
    assert!(!core.typeq(Any::PairT, p));
    assert!(!core.typeq(Any::ActorT, Any::Cap(0)));
    assert!(!core.typeq(Any::ActorT, Any::Ptr(7)));
    assert_eq!(core.cap_to_ptr(Any::Cap(0)), Any::Ptr(0));
}
