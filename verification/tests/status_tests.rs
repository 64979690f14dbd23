use mos6502::status::{
    Status, BREAK, CARRY, DECIMAL, INTERRUPT_DISABLE, NEGATIVE, OVERFLOW, UNUSED, ZERO,
};

#[test]
fn empty_status_holds_no_flag() {
    let status = Status::empty();

    assert!(status.is_empty());
    assert_eq!(status.bits(), 0);
    assert!(!status.contains(Status::C()));
    assert!(!status.contains(Status::Z()));
    assert!(!status.contains(Status::I()));
    assert!(!status.contains(Status::D()));
    assert!(!status.contains(Status::B()));
    assert!(!status.contains(Status::V()));
    assert!(!status.contains(Status::N()));
    assert!(status.contains(Status::empty()));
}

#[test]
fn each_flag_has_its_bit() {
    assert_eq!(Status::C().bits(), 0b0000_0001);
    assert_eq!(Status::Z().bits(), 0b0000_0010);
    assert_eq!(Status::I().bits(), 0b0000_0100);
    assert_eq!(Status::D().bits(), 0b0000_1000);
    assert_eq!(Status::B().bits(), 0b0001_0000);
    assert_eq!(Status::V().bits(), 0b0100_0000);
    assert_eq!(Status::N().bits(), 0b1000_0000);

    assert_eq!(CARRY, 0x01);
    assert_eq!(ZERO, 0x02);
    assert_eq!(INTERRUPT_DISABLE, 0x04);
    assert_eq!(DECIMAL, 0x08);
    assert_eq!(BREAK, 0x10);
    assert_eq!(UNUSED, 0x20);
    assert_eq!(OVERFLOW, 0x40);
    assert_eq!(NEGATIVE, 0x80);
}

#[test]
fn insert_sets_and_remove_clears() {
    let mut status = Status::empty();

    status.insert(Status::Z());
    assert!(status.contains(Status::Z()));
    assert!(!status.contains(Status::N()));
    assert_eq!(status, Status::Z());

    status.insert(Status::N());
    assert!(status.contains(Status::Z()));
    assert!(status.contains(Status::N()));
    assert_eq!(status.bits(), 0b1000_0010);
    assert!(!status.is_empty());

    status.remove(Status::Z());
    assert!(!status.contains(Status::Z()));
    assert!(status.contains(Status::N()));
    assert_eq!(status, Status::N());

    status.remove(Status::N());
    assert_eq!(status, Status::empty());
}

#[test]
fn insert_and_remove_can_be_repeated() {
    let mut status = Status::C();

    status.insert(Status::C());
    assert_eq!(status, Status::C());

    status.remove(Status::V());
    assert_eq!(status, Status::C());

    status.remove(Status::C());
    status.remove(Status::C());
    assert_eq!(status, Status::empty());
}

#[test]
fn all_flags_leave_the_unused_bit_clear() {
    let mut status = Status::empty();
    status.insert(Status::C());
    status.insert(Status::Z());
    status.insert(Status::I());
    status.insert(Status::D());
    status.insert(Status::B());
    status.insert(Status::V());
    status.insert(Status::N());

    assert_eq!(status.bits(), 0b1101_1111);
    assert_eq!(status.bits() & UNUSED, 0);
}

#[test]
fn contains_asks_for_every_flag_of_the_other() {
    let mut both = Status::Z();
    both.insert(Status::N());

    assert!(both.contains(Status::Z()));
    assert!(both.contains(both));
    assert!(!Status::Z().contains(both));
    assert!(!Status::N().contains(both));
}
