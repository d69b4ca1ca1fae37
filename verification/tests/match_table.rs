use openthread::instance::OTInstance;
use openthread::match_table::SourceAddressMatchTable;

#[test]
fn add_short_twice_leaves_one_entry() {
    let mut t = SourceAddressMatchTable::new();
    t.add_short(0x1234);
    t.add_short(0x1234);
    assert_eq!(t.short_addrs.len(), 1);
    assert_eq!(t.short_addrs[0], 0x1234);
    assert!(t.contains_short(0x1234));
}

#[test]
fn clear_absent_short_is_a_no_op() {
    let mut t = SourceAddressMatchTable::new();
    t.add_short(0x1111);
    t.clear_short(0x2222);
    assert_eq!(t.short_addrs.len(), 1);
    assert!(t.contains_short(0x1111));
    t.clear_short(0x1111);
    assert_eq!(t.short_addrs.len(), 0);
    assert!(!t.contains_short(0x1111));
}

#[test]
fn add_ext_twice_leaves_one_entry() {
    let a = [1, 2, 3, 4, 5, 6, 7, 8];
    let mut t = SourceAddressMatchTable::new();
    t.add_ext(a);
    t.add_ext(a);
    assert_eq!(t.ext_addrs.len(), 1);
    assert!(t.contains_ext(&a));
}

#[test]
fn clear_absent_ext_is_a_no_op() {
    let a = [1, 2, 3, 4, 5, 6, 7, 8];
    let b = [8, 7, 6, 5, 4, 3, 2, 1];
    let mut t = SourceAddressMatchTable::new();
    t.add_ext(a);
    t.clear_ext(&b);
    assert_eq!(t.ext_addrs.len(), 1);
    t.clear_ext(&a);
    assert_eq!(t.ext_addrs.len(), 0);
}

#[test]
fn clear_all_empties_one_set_only() {
    let mut t = SourceAddressMatchTable::new();
    t.add_short(1);
    t.add_short(2);
    t.add_ext([1, 1, 1, 1, 1, 1, 1, 1]);
    t.clear_all_short();
    assert_eq!(t.short_addrs.len(), 0);
    assert_eq!(t.ext_addrs.len(), 1);
    t.clear_all_ext();
    assert_eq!(t.ext_addrs.len(), 0);
}

#[test]
fn frame_pending_always_set_when_disabled() {
    let mut t = SourceAddressMatchTable::new();
    t.add_short(0x1000);
    assert!(!t.enabled);
    assert!(t.frame_pending_short(0x1000));
    assert!(t.frame_pending_short(0x2000));
    assert!(t.frame_pending_ext(&[9, 9, 9, 9, 9, 9, 9, 9]));
}

#[test]
fn frame_pending_follows_membership_when_enabled() {
    let mut t = SourceAddressMatchTable::new();
    t.enable(true);
    t.add_short(0x1000);
    t.add_ext([2, 2, 2, 2, 2, 2, 2, 2]);
    assert!(t.frame_pending_short(0x1000));
    assert!(!t.frame_pending_short(0x2000));
    assert!(t.frame_pending_ext(&[2, 2, 2, 2, 2, 2, 2, 2]));
    assert!(!t.frame_pending_ext(&[3, 2, 2, 2, 2, 2, 2, 2]));
    t.clear_short(0x1000);
    assert!(!t.frame_pending_short(0x1000));
}

#[test]
fn instance_match_table_entry_points() {
    let mut inst = OTInstance::new(0, 0, 0);
    assert!(inst.enable_src_match(true).is_ok());
    assert!(inst.add_src_match_short_entry(0xabcd).is_ok());
    assert!(inst.add_src_match_short_entry(0xabcd).is_ok());
    assert_eq!(inst.src_match.short_addrs.len(), 1);
    assert!(inst.add_src_match_ext_entry([4, 4, 4, 4, 4, 4, 4, 4]).is_ok());
    assert!(inst.clear_src_match_short_entry(0xffff).is_ok());
    assert_eq!(inst.src_match.short_addrs.len(), 1);
    assert!(inst.clear_src_match_short_entry(0xabcd).is_ok());
    assert_eq!(inst.src_match.short_addrs.len(), 0);
    assert!(inst.clear_src_match_ext_entry([4, 4, 4, 4, 4, 4, 4, 4]).is_ok());
    assert_eq!(inst.src_match.ext_addrs.len(), 0);
    assert!(inst.add_src_match_short_entry(1).is_ok());
    assert!(inst.add_src_match_ext_entry([5, 5, 5, 5, 5, 5, 5, 5]).is_ok());
    assert!(inst.clear_src_match_short_entries().is_ok());
    assert!(inst.clear_src_match_ext_entries().is_ok());
    assert_eq!(inst.src_match.short_addrs.len(), 0);
    assert_eq!(inst.src_match.ext_addrs.len(), 0);
}
