use std::collections::hash_map::DefaultHasher;
use std::hash::{Hash, Hasher};

use znbt::kind::{Kind, NbtKindError};

const ALL: [Kind; 12] = [
    Kind::Byte,
    Kind::Short,
    Kind::Int,
    Kind::Long,
    Kind::Float,
    Kind::Double,
    Kind::ByteArray,
    Kind::String,
    Kind::List,
    Kind::Compound,
    Kind::IntArray,
    Kind::LongArray,
];

fn hash_of(k: Kind) -> u64 {
    let mut h = DefaultHasher::new();
    k.hash(&mut h);
    h.finish()
}

#[test]
fn checked_accepts_exactly_one_to_twelve() {
    for b in 0..=255u8 {
        let r = Kind::new(b);
        assert_eq!(r.is_ok(), (1..=12).contains(&b), "byte {}", b);
    }
}

#[test]
fn ids_follow_declaration_order() {
    for (i, k) in ALL.iter().enumerate() {
        assert_eq!(k.to_u8() as usize, i + 1);
        assert_eq!(u8::from(*k) as usize, i + 1);
    }
}

#[test]
fn round_trip_through_id() {
    for k in ALL {
        assert_eq!(Kind::new(k.to_u8()).unwrap(), k);
        assert_eq!(Kind::try_from(u8::from(k)).unwrap(), k);
    }
    for b in 1..=12u8 {
        assert_eq!(Kind::new(b).unwrap().to_u8(), b);
    }
}

#[test]
fn order_follows_id() {
    for b1 in 1..=12u8 {
        for b2 in 1..=12u8 {
            let k1 = Kind::new(b1).unwrap();
            let k2 = Kind::new(b2).unwrap();
            assert_eq!(k1 < k2, b1 < b2);
            assert_eq!(k1.partial_cmp(&k2), b1.partial_cmp(&b2));
            assert_eq!(k1.cmp(&k2), b1.cmp(&b2));
        }
    }
}

#[test]
fn unchecked_matches_checked() {
    for b in 1..=12u8 {
        let c = Kind::new(b).unwrap();
        let u = Kind::new_unchecked(b);
        assert_eq!(c, u);
        assert_eq!(u.to_u8(), b);
        assert_eq!(c.partial_cmp(&u), Some(std::cmp::Ordering::Equal));
        assert_eq!(hash_of(c), hash_of(u));
    }
}

#[test]
fn error_message_is_fixed() {
    let e0: NbtKindError = Kind::new(0).unwrap_err();
    let e200: NbtKindError = Kind::new(200).unwrap_err();
    assert_eq!(
        e0.message(),
        "cannot convert from `u8` into `Kind`, value out of range"
    );
    assert_eq!(e0.message(), e200.message());
    assert_eq!(format!("{:?}", e0), format!("{:?}", e200));
}

#[test]
fn error_debug_has_no_number() {
    for b in [0u8, 13, 42, 99, 255] {
        let e = Kind::new(b).unwrap_err();
        let repr = format!("{:?}", e);
        assert!(!repr.chars().any(|c| c.is_ascii_digit()), "{}", repr);
        assert!(!e.message().contains(&b.to_string()));
    }
}

#[test]
fn scenario_byte() {
    let k = Kind::new(1).unwrap();
    assert_eq!(k, Kind::Byte);
    assert_eq!(k.to_u8(), 1);
}

#[test]
fn scenario_compound() {
    let k = Kind::new(10).unwrap();
    assert_eq!(k, Kind::Compound);
    assert_eq!(k.to_u8(), 10);
}

#[test]
fn scenario_end_marker_rejected() {
    assert!(Kind::new(0).is_err());
    assert!(Kind::try_from(0u8).is_err());
}

#[test]
fn scenario_one_past_max_rejected() {
    assert!(Kind::new(13).is_err());
}

#[test]
fn scenario_max_byte_rejected() {
    assert!(Kind::new(255).is_err());
}

#[test]
fn scenario_sorted_kinds() {
    let mut v: Vec<Kind> = (1..=12u8).rev().map(|b| Kind::new(b).unwrap()).collect();
    v.sort();
    assert_eq!(v, ALL.to_vec());
}

#[test]
fn end_marker_as_none() {
    let tags: Vec<Option<Kind>> = [10u8, 8, 0]
        .iter()
        .map(|&b| Kind::new(b).ok())
        .collect();
    assert_eq!(tags, vec![Some(Kind::Compound), Some(Kind::String), None]);
}
