use shared_flag::Flag;

#[test]
fn fresh_flag_reads_false() {
    let flag = Flag::new(false);
    assert_eq!(flag.read(), false);
}

#[test]
fn fresh_flag_reads_true() {
    let flag = Flag::new(true);
    assert_eq!(flag.read(), true);
}

#[test]
fn read_after_write() {
    let flag = Flag::new(false);
    flag.write(true);
    assert_eq!(flag.read(), true);
}

#[test]
fn latest_write_wins() {
    let flag = Flag::new(true);
    flag.write(false);
    flag.write(true);
    flag.write(false);
    assert_eq!(flag.read(), false);
}

#[test]
fn write_is_idempotent_on_value() {
    let flag = Flag::new(false);
    flag.write(true);
    flag.write(true);
    assert_eq!(flag.read(), true);
}

#[test]
fn duplicate_observes_writes() {
    let original = Flag::new(true);
    let duplicate = original.clone();
    duplicate.write(false);
    assert_eq!(original.read(), false);
}

#[test]
fn duplicate_equivalence_both_ways() {
    let first = Flag::new(false);
    let second = first.clone();
    first.write(true);
    assert_eq!(second.read(), true);
    second.write(false);
    assert_eq!(first.read(), false);
}

#[test]
fn duplicate_twice_then_drop_one() {
    let first = Flag::new(false);
    let second = first.clone();
    let third = first.clone();
    drop(second);
    third.write(true);
    assert_eq!(first.read(), true);
    drop(first);
    assert_eq!(third.read(), true);
    third.write(false);
    assert_eq!(third.read(), false);
}

#[test]
fn duplicate_of_duplicate_shares_cell() {
    let first = Flag::new(false);
    let second = first.clone();
    let third = second.clone();
    first.write(true);
    assert_eq!(third.read(), true);
}

#[test]
fn independent_flags_do_not_interfere() {
    let left = Flag::new(false);
    let right = Flag::new(true);
    left.write(true);
    right.write(false);
    assert_eq!(left.read(), true);
    assert_eq!(right.read(), false);
}
