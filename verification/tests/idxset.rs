use pa_proto::cookie::{AuthCookie, COOKIE_LENGTH};
use pa_proto::idxset::{Idx, IdxSet};

#[test]
fn allocated_ids_increase_and_are_never_reused() {
    let mut set: IdxSet<String> = IdxSet::new();
    assert_eq!(set.len(), 0);
    let first = set.allocate(|idx| format!("item {}", idx.value()));
    assert_eq!(first.value(), "item 0");
    let a = first.idx();
    let b = set.allocate(|idx| format!("item {}", idx.value())).idx();
    assert_eq!(a.value(), 0);
    assert_eq!(b.value(), 1);
    assert_eq!(set.get(a).unwrap(), "item 0");
    assert_eq!(set.remove(b), Some(String::from("item 1")));
    assert_eq!(set.remove(b), None);
    let c = set.allocate(|_| String::from("third")).idx();
    assert_eq!(c.value(), 2);
    assert_eq!(set.remove(a), Some(String::from("item 0")));
    assert_eq!(set.remove(c), Some(String::from("third")));
    assert_eq!(set.len(), 0);
    let d = set.insert_next(String::from("fourth"));
    assert_eq!(d.value(), 3);
    assert_eq!(set.next_idx().value(), 4);
    assert!(!set.is_exhausted());
}

#[test]
fn lookups_find_what_is_there() {
    let mut set: IdxSet<u32> = IdxSet::new();
    let ids: Vec<Idx<u32>> = (0..100u32).map(|i| set.insert_next(i * 10)).collect();
    for (i, id) in ids.iter().enumerate() {
        assert_eq!(set.get(*id), Some(&(i as u32 * 10)));
    }
    assert_eq!(set.get(Idx::from_raw(100)), None);
    for id in ids.iter().step_by(2) {
        assert!(set.remove(*id).is_some());
    }
    assert_eq!(set.len(), 50);
    for (i, id) in ids.iter().enumerate() {
        assert_eq!(set.get(*id).is_some(), i % 2 == 1);
    }
    *set.get_mut(ids[1]).unwrap() = 7;
    assert_eq!(set.get(ids[1]), Some(&7));
    assert!(set.get_mut(ids[0]).is_none());
    let values = set.iter();
    assert_eq!(values.len(), 50);
    assert_eq!(*values[0], 7);
    assert_eq!(*values[1], 30);
    assert_eq!(*values[49], 990);
    assert_eq!(set.idx_at(0).value(), 1);
    assert_eq!(set.idx_at(49).value(), 99);
}

#[test]
fn cookies_are_256_bytes() {
    let cookie = AuthCookie::generate();
    assert_eq!(cookie.as_bytes().len(), 256);
    assert_eq!(COOKIE_LENGTH, 256);
    let other = AuthCookie::generate();
    assert_ne!(cookie.as_bytes(), other.as_bytes());
    assert_ne!(cookie.as_bytes(), &[0u8; 256][..]);
    assert!(AuthCookie::from_bytes(&[1u8; 255]).is_none());
    assert!(AuthCookie::from_bytes(&[1u8; 257]).is_none());
    assert!(AuthCookie::from_bytes(&[]).is_none());
    let fixed = AuthCookie::from_bytes(&[1u8; 256]).unwrap();
    assert_eq!(fixed.as_bytes(), &[1u8; 256][..]);
}

#[test]
fn cookies_are_compared_byte_for_byte() {
    let mut bytes = [0u8; 256];
    for (i, b) in bytes.iter_mut().enumerate() {
        *b = i as u8;
    }
    let cookie = AuthCookie::from_bytes(&bytes).unwrap();
    assert!(cookie.matches(&bytes));
    assert!(!cookie.matches(&bytes[..255]));
    assert!(!cookie.matches(&[]));
    for place in [0usize, 1, 128, 255] {
        let mut other = bytes;
        other[place] ^= 0x80;
        assert!(!cookie.matches(&other));
    }
    let mut longer = bytes.to_vec();
    longer.push(0);
    assert!(!cookie.matches(&longer));
}

#[test]
fn cookie_file_mode_is_exactly_0600() {
    assert!(AuthCookie::file_mode_ok(0o600));
    assert!(AuthCookie::file_mode_ok(0o100600));
    assert!(!AuthCookie::file_mode_ok(0o644));
    assert!(!AuthCookie::file_mode_ok(0o400));
    assert!(!AuthCookie::file_mode_ok(0o700));
    assert!(!AuthCookie::file_mode_ok(0));
}
