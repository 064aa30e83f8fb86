use rustwlc::keyboard::copy_current_keys;
use rustwlc::types::{KeyMod, Modifier, Point, MOD_MASK};
use rustwlc::xkb::{Keysym, NO_SYMBOL};

#[test]
fn idle_keyboard_gives_empty_snapshot() {
    let keys: Vec<u32> = copy_current_keys(&[], 0);
    assert!(keys.is_empty());
    assert_eq!(keys.len(), 0);
}

#[test]
fn snapshot_has_reported_length() {
    let buffer: [u32; 5] = [30, 42, 57, 99, 100];
    let keys = copy_current_keys(&buffer, 3);
    assert_eq!(keys, vec![30, 42, 57]);
    let all = copy_current_keys(&buffer, 5);
    assert_eq!(all, vec![30, 42, 57, 99, 100]);
}

#[test]
fn snapshot_outlives_source_buffer() {
    let keys = {
        let buffer: Vec<u32> = vec![1, 2];
        copy_current_keys(&buffer, 2)
    };
    assert_eq!(keys, vec![1, 2]);
}

#[test]
fn point_holds_coordinates() {
    let p = Point::new(-5, 1080);
    assert_eq!(p.x, -5);
    assert_eq!(p.y, 1080);
    assert_eq!(p, Point { x: -5, y: 1080 });
}

#[test]
fn keysym_keeps_code() {
    let k = Keysym::from(0x61u32);
    assert_eq!(k.raw(), 0x61);
    assert!(!k.is_no_symbol());
    assert_eq!(k, Keysym::from(0x61u32));
    assert_ne!(k, Keysym::from(0x62u32));
}

#[test]
fn no_symbol_sentinel() {
    let k = Keysym::from(NO_SYMBOL);
    assert!(k.is_no_symbol());
    assert_eq!(k.raw(), 0);
}

#[test]
fn modifier_bits_match_wlc() {
    assert_eq!(Modifier::Shift.bit(), 1);
    assert_eq!(Modifier::Caps.bit(), 2);
    assert_eq!(Modifier::Ctrl.bit(), 4);
    assert_eq!(Modifier::Alt.bit(), 8);
    assert_eq!(Modifier::Mod2.bit(), 16);
    assert_eq!(Modifier::Mod3.bit(), 32);
    assert_eq!(Modifier::Logo.bit(), 64);
    assert_eq!(Modifier::Mod5.bit(), 128);
}

#[test]
fn empty_and_all() {
    assert!(KeyMod::empty().is_empty());
    assert_eq!(KeyMod::empty().bits(), 0);
    assert_eq!(KeyMod::all().bits(), MOD_MASK);
    assert!(!KeyMod::all().is_empty());
    assert!(KeyMod::all().has(Modifier::Logo));
    assert!(!KeyMod::empty().has(Modifier::Shift));
}

#[test]
fn from_bits_rejects_undefined_bits() {
    let k = KeyMod::from_bits(5).unwrap();
    assert!(k.has(Modifier::Shift));
    assert!(k.has(Modifier::Ctrl));
    assert!(!k.has(Modifier::Caps));
    assert!(KeyMod::from_bits(0x100).is_none());
    assert!(KeyMod::from_bits(0x1ff).is_none());
    assert_eq!(KeyMod::from_bits(0xff), Some(KeyMod::all()));
}

#[test]
fn from_bits_truncate_drops_undefined_bits() {
    let k = KeyMod::from_bits_truncate(0x148);
    assert_eq!(k.bits(), 0x48);
    assert!(k.has(Modifier::Alt));
    assert!(k.has(Modifier::Logo));
}

#[test]
fn union_and_intersection_commute() {
    let a = KeyMod::from_bits(0b0000_0101).unwrap();
    let b = KeyMod::from_bits(0b0000_1100).unwrap();
    assert_eq!(a.union(&b).bits(), 0b0000_1101);
    assert_eq!(a.union(&b), b.union(&a));
    assert_eq!(a.intersection(&b).bits(), 0b0000_0100);
    assert_eq!(a.intersection(&b), b.intersection(&a));
    assert_eq!(a.difference(&b).bits(), 0b0000_0001);
    assert_eq!(b.difference(&a).bits(), 0b0000_1000);
}

#[test]
fn contains_is_subset() {
    let ctrl_shift = KeyMod::from_bits(0b101).unwrap();
    let ctrl = KeyMod::from_modifier(Modifier::Ctrl);
    assert!(ctrl_shift.contains(&ctrl));
    assert!(!ctrl.contains(&ctrl_shift));
    assert!(ctrl.contains(&KeyMod::empty()));
    assert!(KeyMod::all().contains(&ctrl_shift));
}

#[test]
fn insert_and_remove() {
    let mut k = KeyMod::empty();
    k.insert(Modifier::Logo);
    k.insert(Modifier::Shift);
    assert_eq!(k.bits(), 65);
    k.insert(Modifier::Shift);
    assert_eq!(k.bits(), 65);
    k.remove(Modifier::Logo);
    assert_eq!(k, KeyMod::from_modifier(Modifier::Shift));
    k.remove(Modifier::Alt);
    assert_eq!(k.bits(), 1);
    k.remove(Modifier::Shift);
    assert!(k.is_empty());
}
