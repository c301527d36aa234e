use feature_tour::error_handling::{Guess, GuessError};
use feature_tour::iterators_closures::{fibonacci_numbers, Counter, Fibonacci};
use feature_tour::lifetimes::{compare, longest};
use feature_tour::pattern_matching::{plus_one, value_in_cents, Coin, UsState};
use feature_tour::structs_enums::Rectangle;
use feature_tour::traits_generics::{largest_char, largest_i32};

#[test]
fn rectangle_area_and_fit() {
    let rect1 = Rectangle::new(30, 50);
    assert_eq!(rect1.area(), 1500);
    assert!(rect1.can_hold(&Rectangle::new(10, 40)));
    assert!(!rect1.can_hold(&Rectangle::new(60, 45)));
    assert!(!rect1.can_hold(&Rectangle::new(30, 10)));
    let square = Rectangle::square(25);
    assert_eq!(square, Rectangle { width: 25, height: 25 });
    assert_eq!(square.area(), 625);
    let mut rect = Rectangle::new(10, 20);
    rect.double_size();
    assert_eq!(rect, Rectangle::new(20, 40));
}

#[test]
fn coins_are_worth_their_cents() {
    assert_eq!(value_in_cents(&Coin::Penny), 1);
    assert_eq!(value_in_cents(&Coin::Nickel), 5);
    assert_eq!(value_in_cents(&Coin::Dime), 10);
    assert_eq!(value_in_cents(&Coin::Quarter(UsState::California)), 25);
    assert_eq!(value_in_cents(&Coin::Quarter(UsState::Alaska)), 25);
}

#[test]
fn plus_one_keeps_absence() {
    assert_eq!(plus_one(Some(5)), Some(6));
    assert_eq!(plus_one(Some(-1)), Some(0));
    assert_eq!(plus_one(None), None);
}

#[test]
fn largest_of_lists() {
    assert_eq!(*largest_i32(&[34, 50, 25, 100, 65]), 100);
    assert_eq!(*largest_i32(&[-7]), -7);
    assert_eq!(*largest_i32(&[-3, -9, -1]), -1);
    assert_eq!(*largest_char(&['y', 'm', 'a', 'q']), 'y');
    assert_eq!(*largest_char(&['a', 'z', 'z']), 'z');
}

#[test]
fn counter_counts_up_to_its_bound() {
    let mut c = Counter::new(3);
    assert_eq!(c.next(), Some(1));
    assert_eq!(c.next(), Some(2));
    assert_eq!(c.next(), Some(3));
    assert_eq!(c.next(), None);
    assert_eq!(c, Counter { count: 3, max: 3 });
    assert_eq!(Counter::new(0).next(), None);
}

#[test]
fn fibonacci_steps() {
    let mut f = Fibonacci::new();
    assert_eq!(f.next(), Some(1));
    assert_eq!(f.next(), Some(1));
    assert_eq!(f.next(), Some(2));
    assert_eq!(f, Fibonacci { current: 2, next: 3 });
    let mut top = Fibonacci { current: u64::MAX - 1, next: 2 };
    assert_eq!(top.next(), None);
    assert_eq!(top, Fibonacci { current: u64::MAX - 1, next: 2 });
}

#[test]
fn first_ten_fibonacci_numbers() {
    assert_eq!(fibonacci_numbers(10), vec![1, 1, 2, 3, 5, 8, 13, 21, 34, 55]);
    assert_eq!(fibonacci_numbers(0), Vec::<u64>::new());
}

#[test]
fn fibonacci_numbers_stop_before_overflow() {
    let all = fibonacci_numbers(1000);
    assert_eq!(all.len(), 92);
    assert_eq!(*all.last().unwrap(), 7540113804746346429);
}

#[test]
fn longest_by_bytes() {
    assert_eq!(longest("long string is long", "xyz"), "long string is long");
    assert_eq!(longest("abcd", "xyz"), "abcd");
    assert_eq!(longest("abc", "xyz"), "xyz");
    assert_eq!(longest("ab", "あ"), "あ");
    assert!(!compare("hello", "world!"));
    assert!(compare("world!", "hello"));
    assert!(!compare("same", "same"));
}

#[test]
fn guesses_must_be_in_range() {
    assert_eq!(Guess::new(50).map(|g| g.value()), Ok(50));
    assert_eq!(Guess::new(1).map(|g| g.value()), Ok(1));
    assert_eq!(Guess::new(100).map(|g| g.value()), Ok(100));
    assert_eq!(Guess::new(200).map(|g| g.value()), Err(GuessError::OutOfRange(200)));
    assert_eq!(Guess::new(0).map(|g| g.value()), Err(GuessError::OutOfRange(0)));
    assert_eq!(Guess::new(-5).map(|g| g.value()), Err(GuessError::OutOfRange(-5)));
}
