use unftp_sbe_restrict::permissions::{
    ALL_BITS, DEL_BIT, GET_BIT, LIST_BIT, MD5_BIT, MK_DIR_BIT, PUT_BIT, RENAME_BIT, RM_DIR_BIT,
    WRITE_OPS_BITS,
};
use unftp_sbe_restrict::VfsOperations;

fn every_flag() -> Vec<VfsOperations> {
    vec![
        VfsOperations::mk_dir(),
        VfsOperations::rm_dir(),
        VfsOperations::get(),
        VfsOperations::put(),
        VfsOperations::del(),
        VfsOperations::rename(),
        VfsOperations::md5(),
        VfsOperations::list(),
    ]
}

#[test]
fn flag_bits_are_distinct_single_bits() {
    assert_eq!(VfsOperations::mk_dir().bits(), 0b0000_0001);
    assert_eq!(VfsOperations::rm_dir().bits(), 0b0000_0010);
    assert_eq!(VfsOperations::get().bits(), 0b0000_0100);
    assert_eq!(VfsOperations::put().bits(), 0b0000_1000);
    assert_eq!(VfsOperations::del().bits(), 0b0001_0000);
    assert_eq!(VfsOperations::rename().bits(), 0b0010_0000);
    assert_eq!(VfsOperations::md5().bits(), 0b0100_0000);
    assert_eq!(VfsOperations::list().bits(), 0b1000_0000);
    assert_eq!(ALL_BITS, 0xFF);
    assert_eq!(
        MK_DIR_BIT | RM_DIR_BIT | GET_BIT | PUT_BIT | DEL_BIT | RENAME_BIT | MD5_BIT | LIST_BIT,
        ALL_BITS
    );
}

#[test]
fn union_contains_each_operand() {
    let flags = every_flag();
    for a in &flags {
        for b in &flags {
            let u = a.union(*b);
            assert!(u.contains(*a));
            assert!(u.contains(*b));
        }
    }
    let a = VfsOperations::get().union(VfsOperations::list());
    let b = VfsOperations::put().union(VfsOperations::md5());
    assert!(a.union(b).contains(a));
    assert!(a.union(b).contains(b));
    assert_eq!(a.union(b).bits(), 0b1100_1100);
}

#[test]
fn empty_set_contains_no_flag() {
    let empty = VfsOperations::empty();
    assert!(empty.is_empty());
    for f in every_flag() {
        assert!(!empty.contains(f));
    }
    assert!(!empty.contains(VfsOperations::write_ops()));
    assert!(!empty.contains(VfsOperations::all()));
    assert!(empty.contains(VfsOperations::empty()));
}

#[test]
fn write_ops_is_exactly_the_five_write_bits() {
    let five = VfsOperations::mk_dir()
        .union(VfsOperations::rm_dir())
        .union(VfsOperations::put())
        .union(VfsOperations::del())
        .union(VfsOperations::rename());
    assert_eq!(VfsOperations::write_ops(), five);
    assert_eq!(WRITE_OPS_BITS, 0b0011_1011);
    let w = VfsOperations::write_ops();
    assert!(!w.contains(VfsOperations::get()));
    assert!(!w.contains(VfsOperations::md5()));
    assert!(!w.contains(VfsOperations::list()));
    assert!(!w.intersects(VfsOperations::get().union(VfsOperations::md5()).union(VfsOperations::list())));
}

#[test]
fn all_but_write_ops() {
    let read_only = VfsOperations::all().difference(VfsOperations::write_ops());
    assert_eq!(read_only.bits(), 0b1100_0100);
    assert!(read_only.contains(VfsOperations::get()));
    assert!(!read_only.contains(VfsOperations::put()));
    assert_eq!(VfsOperations::write_ops().complement(), read_only);
    assert!(VfsOperations::all().is_all());
    assert!(!read_only.is_all());
}

#[test]
fn intersection_keeps_shared_bits() {
    let a = VfsOperations::get().union(VfsOperations::put());
    let b = VfsOperations::put().union(VfsOperations::del());
    assert_eq!(a.intersection(b), VfsOperations::put());
    assert!(a.intersects(b));
    assert!(!a.intersects(VfsOperations::list()));
}

#[test]
fn insert_and_remove() {
    let mut s = VfsOperations::empty();
    s.insert(VfsOperations::list());
    s.insert(VfsOperations::get());
    assert_eq!(s.bits(), 0b1000_0100);
    s.remove(VfsOperations::list());
    assert_eq!(s, VfsOperations::get());
    s.remove(VfsOperations::md5());
    assert_eq!(s, VfsOperations::get());
}

#[test]
fn from_bits_checks_range() {
    assert_eq!(VfsOperations::from_bits(0b0000_0101).map(|s| s.bits()), Some(5));
    assert_eq!(VfsOperations::from_bits(0xFF), Some(VfsOperations::all()));
    assert_eq!(VfsOperations::from_bits(0x100), None);
    assert_eq!(VfsOperations::from_bits_truncate(0x1_0104).bits(), 0x04);
}
