use std::any::TypeId;

use deepclone::memo::SourceKey;
use deepclone::{stored, Cloner, Record, StrongStep, WeakStep};

fn key_of<T: 'static>(address: usize) -> SourceKey {
    (TypeId::of::<T>(), address)
}

#[test]
fn a_fresh_cloner_has_reached_nothing() {
    let cloner: Cloner<&'static str> = Cloner::new();
    let key = key_of::<u32>(0x1000);
    assert_eq!(cloner.copies(), 0);
    assert!(cloner.lookup(&key).is_none());
    assert!(matches!(cloner.strong_step(&key), StrongStep::Build));
    assert!(matches!(cloner.weak_step(&key), WeakStep::ThroughStrong));
}

#[test]
fn default_is_a_fresh_cloner() {
    let cloner: Cloner<u8> = Cloner::default();
    assert_eq!(cloner.copies(), 0);
    assert!(matches!(cloner.strong_step(&key_of::<u8>(8)), StrongStep::Build));
}

#[test]
fn a_source_reached_twice_reuses_one_copy() {
    let mut cloner: Cloner<&'static str> = Cloner::new();
    let key = key_of::<u32>(0x1000);
    cloner.insert(key, Record::InProgress("shell"));
    cloner.insert(key, Record::Done("copy"));

    for _ in 0..2 {
        match cloner.strong_step(&key) {
            StrongStep::Reuse(copy) => assert_eq!(*copy, "copy"),
            _ => panic!("a finished copy must be reused"),
        }
    }
    assert_eq!(cloner.copies(), 1, "one source, one copy");
}

#[test]
fn a_strong_edge_back_into_a_copy_under_construction_is_a_cycle() {
    let mut cloner: Cloner<&'static str> = Cloner::new();
    let key = key_of::<u64>(0x2000);
    cloner.insert(key, Record::InProgress("shell"));
    assert!(matches!(cloner.strong_step(&key), StrongStep::Cycle));
}

#[test]
fn a_weak_edge_back_into_a_copy_under_construction_gets_the_shell() {
    let mut cloner: Cloner<&'static str> = Cloner::new();
    let key = key_of::<u64>(0x2000);
    cloner.insert(key, Record::InProgress("shell"));
    match cloner.weak_step(&key) {
        WeakStep::Shell(shell) => assert_eq!(*shell, "shell"),
        _ => panic!("a back-edge must resolve to the allocation being built"),
    }
}

#[test]
fn a_weak_edge_reached_first_builds_then_shares_with_the_strong_edge() {
    let mut cloner: Cloner<&'static str> = Cloner::new();
    let key = key_of::<i32>(0x3000);
    assert!(matches!(cloner.weak_step(&key), WeakStep::ThroughStrong));

    // The weak edge copies its target as a strong edge would.
    assert!(matches!(cloner.strong_step(&key), StrongStep::Build));
    cloner.insert(key, Record::InProgress("shell"));
    cloner.insert(key, Record::Done("copy"));

    match cloner.weak_step(&key) {
        WeakStep::Downgrade(copy) => assert_eq!(*copy, "copy"),
        _ => panic!("the weak edge must downgrade the finished copy"),
    }
    match cloner.strong_step(&key) {
        StrongStep::Reuse(copy) => assert_eq!(*copy, "copy", "one new target, not two"),
        _ => panic!("the strong edge must reuse the copy"),
    }
}

#[test]
fn sources_are_told_apart_by_address_and_by_type() {
    let mut cloner: Cloner<u32> = Cloner::new();
    let here = key_of::<u32>(0x4000);
    let elsewhere = key_of::<u32>(0x4008);
    let other_type = key_of::<u64>(0x4000);

    cloner.insert(here, Record::Done(1));
    assert!(matches!(cloner.strong_step(&elsewhere), StrongStep::Build));
    assert!(matches!(cloner.strong_step(&other_type), StrongStep::Build));

    cloner.insert(elsewhere, Record::Done(2));
    cloner.insert(other_type, Record::InProgress(3));
    assert_eq!(cloner.copies(), 3);
    match cloner.strong_step(&here) {
        StrongStep::Reuse(copy) => assert_eq!(*copy, 1),
        _ => panic!("recording other sources must leave this one alone"),
    }
    assert!(matches!(cloner.strong_step(&other_type), StrongStep::Cycle));
}

#[test]
fn each_cloner_is_its_own_operation() {
    let key = key_of::<u32>(0x5000);
    let mut first: Cloner<&'static str> = Cloner::new();
    first.insert(key, Record::Done("first copy"));
    let second: Cloner<&'static str> = Cloner::new();
    assert!(
        matches!(second.strong_step(&key), StrongStep::Build),
        "a memo must not leak from one clone operation into the next"
    );
}

#[test]
fn lookup_and_stored_read_back_the_record() {
    let mut cloner: Cloner<String> = Cloner::new();
    let key = key_of::<String>(0x6000);
    cloner.insert(key, Record::InProgress("weak".to_owned()));
    match cloner.lookup(&key) {
        Some(record @ Record::InProgress(_)) => assert_eq!(stored(record), "weak"),
        _ => panic!("the shell must be recorded"),
    }
    cloner.insert(key, Record::Done("strong".to_owned()));
    match cloner.lookup(&key) {
        Some(record @ Record::Done(_)) => assert_eq!(stored(record), "strong"),
        _ => panic!("the copy must replace the shell"),
    }
    assert_eq!(cloner.copies(), 1);
}

#[test]
fn building_a_copy_sees_the_shell_until_it_is_done() {
    let mut cloner: Cloner<&'static str> = Cloner::new();
    let root = key_of::<u32>(0x7000);
    let child = key_of::<u32>(0x7100);

    cloner.insert(root, Record::InProgress("root shell"));
    // The pointee is copied: a child is built on the way, and its back-edge to the root is
    // reached while the root is still under construction.
    cloner.insert(child, Record::InProgress("child shell"));
    match cloner.weak_step(&root) {
        WeakStep::Shell(shell) => assert_eq!(*shell, "root shell"),
        _ => panic!("a back-edge into the root must resolve to its shell"),
    }
    assert!(matches!(cloner.strong_step(&root), StrongStep::Cycle));
    cloner.insert(child, Record::Done("child copy"));
    cloner.insert(root, Record::Done("root copy"));

    match cloner.strong_step(&root) {
        StrongStep::Reuse(copy) => assert_eq!(*copy, "root copy"),
        _ => panic!("the finished root must be reused"),
    }
    match cloner.weak_step(&child) {
        WeakStep::Downgrade(copy) => assert_eq!(*copy, "child copy"),
        _ => panic!("the finished child must be downgraded"),
    }
    assert_eq!(cloner.copies(), 2);
}
