use std::collections::HashSet;
use task_creator::name::{compose_name, decimal_string, generate_name};

const ADJECTIVES: [&str; 5] = ["Quick", "Lazy", "Sleepy", "Noisy", "Hungry"];
const NOUNS: [&str; 5] = ["Fox", "Dog", "Cat", "Mouse", "Bear"];

fn split_name(s: &str) -> Option<(usize, usize, u64)> {
    let a = ADJECTIVES.iter().position(|w| s.starts_with(w))?;
    let rest = &s[ADJECTIVES[a].len()..];
    let b = NOUNS.iter().position(|w| rest.starts_with(w))?;
    let digits = &rest[NOUNS[b].len()..];
    if digits.is_empty() || !digits.chars().all(|c| c.is_ascii_digit()) {
        return None;
    }
    if digits.len() > 1 && digits.starts_with('0') {
        return None;
    }
    let k: u64 = digits.parse().ok()?;
    if k >= 1000 {
        return None;
    }
    Some((a, b, k))
}

#[test]
fn compose_first_words_and_zero() {
    assert_eq!(compose_name(0, 0, 0), "QuickFox0");
}

#[test]
fn compose_last_words_and_largest_number() {
    assert_eq!(compose_name(4, 4, 999), "HungryBear999");
}

#[test]
fn compose_middle_words() {
    assert_eq!(compose_name(2, 3, 42), "SleepyMouse42");
    assert_eq!(compose_name(1, 2, 7), "LazyCat7");
    assert_eq!(compose_name(3, 1, 100), "NoisyDog100");
}

#[test]
fn decimal_has_no_leading_zeros() {
    assert_eq!(decimal_string(0), "0");
    assert_eq!(decimal_string(9), "9");
    assert_eq!(decimal_string(10), "10");
    assert_eq!(decimal_string(305), "305");
    assert_eq!(decimal_string(18446744073709551615), "18446744073709551615");
}

#[test]
fn every_composed_name_splits_back() {
    for a in 0..5u64 {
        for b in 0..5u64 {
            for k in [0u64, 1, 9, 10, 99, 100, 500, 999] {
                let s = compose_name(a, b, k);
                assert_eq!(split_name(&s), Some((a as usize, b as usize, k)));
            }
        }
    }
}

#[test]
fn generated_names_have_the_format() {
    for _ in 0..1000 {
        let s = generate_name();
        assert!(split_name(&s).is_some(), "bad name {}", s);
    }
}

#[test]
fn generated_names_reach_every_pair_and_number() {
    let mut pairs = HashSet::new();
    let mut numbers = HashSet::new();
    for _ in 0..100_000 {
        let (a, b, k) = split_name(&generate_name()).unwrap();
        pairs.insert((a, b));
        numbers.insert(k);
    }
    assert_eq!(pairs.len(), 25);
    assert_eq!(numbers.len(), 1000);
}
