use std::cell::Cell;
use std::cell::RefCell;

use scoped_callback::Finalizer;
use scoped_callback::GuardSlot;
use scoped_callback::MisuseError;
use scoped_callback::Scope;
use scoped_callback::scope;

#[test]
fn it_works() {
    let a = 42;
    scope(|mut scope: Scope<_, (), _>| {
        let registered = scope.register(
            |_x: i32| {
                let _b = a * a;
            },
            |_trampoline| (),
            |_handle: ()| {},
        );

        let _ran = scope.dispose(registered);
        (scope, ())
    });
}

#[test]
fn calling() {
    let stored = RefCell::new(None);
    scope(|mut scope: Scope<_, (), _>| {
        let registered = scope.register(
            |a: i32| 2 * a,
            |trampoline| {
                stored.borrow_mut().replace(trampoline);
            },
            |_handle: ()| {},
        );

        let trampoline = stored.borrow_mut().take().unwrap();
        assert_eq!(scope.invoke(&trampoline, 42), Ok(2 * 42));

        let _ran = scope.dispose(registered);
        (scope, ())
    });
}

#[test]
fn drop_registered_causes_deregister() {
    let dropped = Cell::new(false);
    scope(|mut scope: Scope<_, (), _>| {
        let registered = scope.register(|_x: i32| {}, |_trampoline| (), |_handle: ()| {
            dropped.set(true)
        });

        let _ran = scope.dispose(registered);
        assert!(dropped.get());
        (scope, ())
    });
}

#[test]
fn leaving_scope_causes_deregister() {
    let dropped = Cell::new(false);
    scope(|mut scope: Scope<_, (), _>| {
        let registered = scope.register(|_x: i32| {}, |_trampoline| (), |_handle: ()| {
            dropped.set(true)
        });

        core::mem::forget(registered);
        assert!(!dropped.get());
        (scope, ())
    });
    assert!(dropped.get());
}

#[test]
fn invoking_after_disposal_reports_misuse() {
    let stored = RefCell::new(None);
    scope(|mut scope: Scope<_, (), _>| {
        let registered = scope.register(
            |_x: i32| {},
            |trampoline| {
                stored.borrow_mut().replace(trampoline);
            },
            |_handle: ()| {},
        );

        let _ran = scope.dispose(registered);
        let trampoline = stored.borrow_mut().take().unwrap();
        assert_eq!(scope.invoke::<i32, ()>(&trampoline, 42), Err(MisuseError));
        (scope, ())
    });
}

#[test]
fn invoking_after_scope_end_reports_misuse() {
    let stored = RefCell::new(None);
    let mut scope: Scope<_, (), _> = Scope::new();
    let registered = scope.register(
        |_x: i32| {},
        |trampoline| {
            stored.borrow_mut().replace(trampoline);
        },
        |_handle: ()| {},
    );

    core::mem::forget(registered);
    scope.teardown();

    let trampoline = stored.borrow_mut().take().unwrap();
    assert_eq!(scope.invoke::<i32, ()>(&trampoline, 42), Err(MisuseError));
}

#[test]
fn finalizer_hands_its_action_out_once() {
    let mut finalizer = Finalizer::new(5u32);
    assert_eq!(finalizer.force(), Some(5));
    assert_eq!(finalizer.force(), None);
    assert_eq!(finalizer.force(), None);
}

#[test]
fn guard_slot_delegates_until_cleared() {
    let mut slot = GuardSlot::new(|x: i32| x + 1);
    assert_eq!(slot.invoke(41), Ok(42));
    slot.clear();
    assert_eq!(slot.invoke(41), Err(MisuseError));
}

#[test]
fn deregister_receives_the_registered_handle() {
    let got = Cell::new(0u32);
    let mut scope = Scope::new();
    let registered = scope.register(|_x: i32| {}, |_trampoline| 77u32, |handle: u32| {
        got.set(handle)
    });

    let ran = scope.dispose(registered);
    assert!(ran);
    assert_eq!(got.get(), 77);
}

#[test]
fn disposal_then_teardown_deregisters_once() {
    let count = Cell::new(0);
    let mut scope: Scope<_, (), _> = Scope::new();
    let registered = scope.register(|_x: i32| {}, |_trampoline| (), |_handle: ()| {
        count.set(count.get() + 1)
    });

    let ran = scope.dispose(registered);
    assert!(ran);
    assert_eq!(count.get(), 1);

    scope.teardown();
    assert_eq!(count.get(), 1);
}

#[test]
fn abandoned_registrations_each_deregister_once() {
    let log = RefCell::new(Vec::new());
    let callback = |_x: u8| 0u8;
    let dereg = |handle: u32| log.borrow_mut().push(handle);
    scope(|mut scope| {
        let first = scope.register(callback, |_trampoline| 10u32, dereg);
        let second = scope.register(callback, |_trampoline| 20u32, dereg);

        core::mem::forget(first);
        core::mem::forget(second);
        assert!(log.borrow().is_empty());
        (scope, ())
    });

    let mut seen = log.borrow().clone();
    seen.sort();
    assert_eq!(seen, vec![10, 20]);
}

#[test]
fn teardown_deregisters_in_reverse_registration_order() {
    let log = RefCell::new(Vec::new());
    let callback = |_x: u8| 0u8;
    let dereg = |handle: u32| log.borrow_mut().push(handle);
    let mut scope = Scope::new();
    let first = scope.register(callback, |_trampoline| 1u32, dereg);
    let second = scope.register(callback, |_trampoline| 2u32, dereg);

    core::mem::forget(first);
    core::mem::forget(second);
    scope.teardown();

    assert_eq!(*log.borrow(), vec![2, 1]);
}
