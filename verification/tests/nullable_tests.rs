use timeline::Nullable;

#[test]
fn null_is_absent() {
    let n: Nullable<i32> = Nullable::null();
    assert!(n.is_null());
    assert_eq!(n.get(), None);
}

#[test]
fn new_some_is_present() {
    let n = Nullable::new(Some(5));
    assert!(!n.is_null());
    assert_eq!(n.get(), Some(&5));
}

#[test]
fn new_none_is_absent() {
    let n: Nullable<u8> = Nullable::new(None);
    assert!(n.is_null());
}

#[test]
fn map_on_present_applies() {
    let n = Nullable::new(Some(2));
    let m = n.map(|x: i32| x * 10);
    assert_eq!(m.get(), Some(&20));
}

#[test]
fn map_on_present_equals_of_fx() {
    let direct = Nullable::new(Some(7 + 1));
    let mapped = Nullable::new(Some(7)).map(|x: i32| x + 1);
    assert_eq!(mapped.get(), direct.get());
}

#[test]
fn map_on_absent_skips_function() {
    let n: Nullable<i32> = Nullable::null();
    let m = n.map(|_x: i32| -> i32 { panic!("transform must not run on an absent value") });
    assert!(m.is_null());
}

#[test]
fn map_changes_type() {
    let n = Nullable::new(Some(String::from("hello")));
    let m = n.map(|s: String| s.len());
    assert_eq!(m.get(), Some(&5));
}

#[test]
fn unwrap_or_default_present() {
    let n = Nullable::new(Some(9));
    assert_eq!(n.unwrap_or_default(), 9);
}

#[test]
fn unwrap_or_default_absent() {
    let n: Nullable<i32> = Nullable::null();
    assert_eq!(n.unwrap_or_default(), 0);
}

#[test]
fn clone_keeps_value() {
    let n = Nullable::new(Some(3));
    let c = n.clone();
    assert_eq!(c.get(), Some(&3));
    assert_eq!(n.get(), Some(&3));
}
