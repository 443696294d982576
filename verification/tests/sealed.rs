//! Sealed values.

use weechat::{Sealed, Weechat};

#[test]
fn seal_then_unseal_returns_the_value() {
    let weechat = Weechat::from_ptr(0x1000);
    let sealed = Sealed::seal(String::from("core"));
    assert_eq!(sealed.unseal(&weechat), "core");
}

#[test]
fn seal_then_unseal_returns_any_value() {
    let weechat = Weechat::from_ptr(0x1000);
    assert_eq!(Sealed::seal(42u8).unseal(&weechat), 42);
    assert_eq!(Sealed::seal(()).unseal(&weechat), ());
    assert_eq!(Sealed::seal(vec![1, 2, 3]).unseal(&weechat), vec![1, 2, 3]);
    assert_eq!(Sealed::seal(Some(("a", -1i64))).unseal(&weechat), Some(("a", -1i64)));
    let nested = Sealed::seal(Sealed::seal('x'));
    assert_eq!(nested.unseal(&weechat).unseal(&weechat), 'x');
}

#[test]
fn any_handle_of_the_main_thread_unseals() {
    let sealed = Sealed::seal(7);
    let other = Weechat::from_ptr(0x2000);
    assert_eq!(sealed.unseal(&other), 7);
}
