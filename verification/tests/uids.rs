use std::collections::HashSet;

use syncyam::uid::{Cuid, Duid};

#[test]
fn can_create_duid_and_cuid() {
    let _duid = Duid::new();
    let _cuid = Cuid::new();
    assert_ne!(_duid.to_string(), _cuid.to_string());
    let default_duid = Duid::default();
    println!("{}", default_duid.to_string());
}

#[test]
fn can_generate_uids() {
    let mut uid_set = HashSet::new();
    uid_set.insert(Cuid::new_nil());
    const LIMIT: usize = 10000;
    for _n in 0..LIMIT {
        let uid = Cuid::new();
        assert!(Cuid::validate(uid.as_str()));
        uid_set.insert(uid);
    }
    assert_eq!(uid_set.len(), LIMIT + 1)
}

#[test]
fn can_validate_uid_shapes() {
    assert!(Cuid::validate("0000000000000000"));
    assert!(Cuid::validate("-_00000000000000"));
    assert!(!Cuid::validate("()00000000000000"));
    assert!(!Cuid::validate("short"));
    assert!(!Cuid::validate("longer_than_16_characters"));
}
