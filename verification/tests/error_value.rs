use not_found_error::NotFoundError;
use std::cmp::Ordering;
use std::collections::hash_map::DefaultHasher;
use std::hash::Hash;
use std::hash::Hasher;

fn hash_of<T: Hash>(value: &T) -> u64 {
    let mut hasher = DefaultHasher::new();
    value.hash(&mut hasher);
    hasher.finish()
}

#[test]
fn errors_of_one_tag_are_equal() {
    let a: NotFoundError<String> = NotFoundError::new();
    let b: NotFoundError<String> = NotFoundError::new();
    assert_eq!(a, b);
    assert!(!(a != b));
    assert_eq!(NotFoundError::<i32>::new(), NotFoundError::<i32>::default());
}

#[test]
fn errors_of_one_tag_compare_as_equal() {
    let a: NotFoundError<i32> = NotFoundError::new();
    let b: NotFoundError<i32> = NotFoundError::new();
    assert_eq!(a.cmp(&b), Ordering::Equal);
    assert_eq!(a.partial_cmp(&b), Some(Ordering::Equal));
    assert!(a <= b);
    assert!(a >= b);
    assert!(!(a < b));
    assert!(!(a > b));
}

#[test]
fn errors_of_one_tag_hash_alike() {
    let a: NotFoundError<i32> = NotFoundError::new();
    let b: NotFoundError<i32> = NotFoundError::default();
    assert_eq!(hash_of(&a), hash_of(&b));
}

#[test]
fn error_is_copied_and_cloned() {
    let a: NotFoundError<i32> = NotFoundError::new();
    let b = a;
    let c = a.clone();
    assert_eq!(a, b);
    assert_eq!(a, c);
}

#[test]
fn error_holds_no_data() {
    assert_eq!(std::mem::size_of::<NotFoundError<[u64; 16]>>(), 0);
}

#[test]
fn describe_writes_the_name_and_not_found() {
    let error: NotFoundError<i32> = NotFoundError::new();
    assert_eq!(error.describe("i32"), "i32 not found");
    assert_eq!(NotFoundError::<String>::new().describe("alloc::string::String"), "alloc::string::String not found");
}

#[test]
fn describe_of_an_empty_name() {
    assert_eq!(NotFoundError::<()>::new().describe(""), " not found");
}
