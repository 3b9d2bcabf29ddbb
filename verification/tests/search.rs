use not_found_error::locate;
use not_found_error::NotFoundError;

#[test]
fn locate_finds_the_first_even_number() {
    assert_eq!(locate([1, 2, 3].into_iter(), |x| x % 2 == 0), Ok(2));
}

#[test]
fn locate_reports_not_found_without_a_match() {
    assert_eq!(locate([1, 3, 5].into_iter(), |x| x % 2 == 0), Err(NotFoundError::new()));
}

#[test]
fn locate_over_references() {
    let numbers = &[1, 2, 3, 4, 5];
    let result = locate(numbers.iter(), |&&n| n % 2 == 0);
    assert_eq!(result, Ok(&2));
    let result = locate(numbers.iter(), |&&n| n > 10);
    assert_eq!(result, Err(NotFoundError::new()));
    let numbers = &[1, 2, 3];
    let result = locate(numbers.iter(), |&&n| n == 0);
    assert_eq!(result, Err(NotFoundError::new()));
}

#[test]
fn locate_takes_the_first_of_several_matches() {
    let words = vec!["pear", "plum", "apple", "peach", "apricot"];
    assert_eq!(locate(words.into_iter(), |w| w.starts_with('a')), Ok("apple"));
}

#[test]
fn locate_on_an_empty_iterator() {
    let nothing: Vec<u8> = Vec::new();
    assert_eq!(locate(nothing.into_iter(), |_| true), Err(NotFoundError::<u8>::new()));
}

#[test]
fn locate_accepts_the_first_item() {
    assert_eq!(locate(vec![7u8, 8, 9].into_iter(), |_| true), Ok(7));
}

#[test]
fn locate_accepts_the_last_item() {
    assert_eq!(locate(vec![7u8, 8, 9].into_iter(), |x| *x == 9), Ok(9));
}

#[test]
fn locate_stops_at_the_first_match() {
    let mut calls: u32 = 0;
    let found = locate(vec![1, 2, 3, 4, 5].into_iter(), |x| {
        calls += 1;
        *x == 3
    });
    assert_eq!(found, Ok(3));
    assert_eq!(calls, 3);
}

#[test]
fn locate_asks_every_item_before_it_fails() {
    let mut seen: Vec<i32> = Vec::new();
    let found = locate(vec![4, 5, 6].into_iter(), |x| {
        seen.push(*x);
        false
    });
    assert_eq!(found, Err(NotFoundError::new()));
    assert_eq!(seen, vec![4, 5, 6]);
}

#[test]
fn locate_in_an_unbounded_iterator_with_a_match() {
    assert_eq!(locate(1u32.., |x| *x > 100), Ok(101));
}

#[test]
fn locate_leaves_the_rest_of_a_borrowed_iterator() {
    let mut it = vec![1, 2, 3, 4].into_iter();
    assert_eq!(locate(&mut it, |x| *x == 2), Ok(2));
    assert_eq!(it.next(), Some(3));
}
