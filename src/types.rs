//! Value types shared by the pointer and keyboard services.
use vstd::prelude::*;

verus! {

/// A position in pixels, in the compositor's global coordinate space.
#[derive(Clone, Copy, Debug, PartialEq, Eq, Structural)]
pub struct Point {
    pub x: i32,
    pub y: i32,
}

impl Point {
    /// A point at the given coordinates.
    pub fn new(x: i32, y: i32) -> (r: Point)
        ensures
            r.x == x,
            r.y == y,
    {
        Point { x, y }
    }
}

/// One modifier key, as wlc names the bits of its modifier mask.
#[derive(Clone, Copy, Debug, PartialEq, Eq, Structural, Hash)]
pub enum Modifier {
    Shift,
    Caps,
    Ctrl,
    Alt,
    Mod2,
    Mod3,
    Logo,
    Mod5,
}

/// The mask of every bit that names a modifier.
pub const MOD_MASK: u32 = 0xff;

/// True of a mask that holds exactly one of the modifier bits.
pub open spec fn is_modifier_bit(b: u32) -> bool {
    b == 1 || b == 2 || b == 4 || b == 8 || b == 16 || b == 32 || b == 64 || b == 128
}

/// The modifiers whose bits are set in `bits`; bits above the mask name none.
pub open spec fn modifiers_of(bits: u32) -> Set<Modifier> {
    Set::new(|m: Modifier| bits & m.spec_bit() != 0)
}

impl Modifier {
    /// The bit of this modifier in wlc's modifier mask.
    pub open spec fn spec_bit(self) -> u32 {
        match self {
            Modifier::Shift => 1,
            Modifier::Caps => 2,
            Modifier::Ctrl => 4,
            Modifier::Alt => 8,
            Modifier::Mod2 => 16,
            Modifier::Mod3 => 32,
            Modifier::Logo => 64,
            Modifier::Mod5 => 128,
        }
    }

    /// The bit of this modifier in wlc's modifier mask.
    pub fn bit(self) -> (r: u32)
        ensures
            r == self.spec_bit(),
    {
        match self {
            Modifier::Shift => 1,
            Modifier::Caps => 2,
            Modifier::Ctrl => 4,
            Modifier::Alt => 8,
            Modifier::Mod2 => 16,
            Modifier::Mod3 => 32,
            Modifier::Logo => 64,
            Modifier::Mod5 => 128,
        }
    }
}

proof fn lemma_or_bit(a: u32, b: u32, m: u32)
    by (bit_vector)
    requires
        is_modifier_bit(m),
    ensures
        ((a | b) & m != 0) == (a & m != 0 || b & m != 0),
{
}

proof fn lemma_and_bit(a: u32, b: u32, m: u32)
    by (bit_vector)
    requires
        is_modifier_bit(m),
    ensures
        ((a & b) & m != 0) == (a & m != 0 && b & m != 0),
{
}

proof fn lemma_and_not_bit(a: u32, b: u32, m: u32)
    by (bit_vector)
    requires
        is_modifier_bit(m),
    ensures
        ((a & !b) & m != 0) == (a & m != 0 && b & m == 0),
{
}

proof fn lemma_distinct_bits(p: u32, q: u32)
    by (bit_vector)
    requires
        is_modifier_bit(p),
        is_modifier_bit(q),
    ensures
        (p & q != 0) == (p == q),
{
}

proof fn lemma_masks_stay_in_range(a: u32, b: u32)
    by (bit_vector)
    requires
        a <= MOD_MASK,
        b <= MOD_MASK,
    ensures
        a | b <= MOD_MASK,
        a & b <= MOD_MASK,
        a & !b <= MOD_MASK,
{
}

/// Two masks within the modifier bits that agree on each of them are equal.
proof fn lemma_mask_bits_agree(a: u32, b: u32)
    by (bit_vector)
    requires
        a <= 0xff,
        b <= 0xff,
        (a & 1 != 0) == (b & 1 != 0),
        (a & 2 != 0) == (b & 2 != 0),
        (a & 4 != 0) == (b & 4 != 0),
        (a & 8 != 0) == (b & 8 != 0),
        (a & 16 != 0) == (b & 16 != 0),
        (a & 32 != 0) == (b & 32 != 0),
        (a & 64 != 0) == (b & 64 != 0),
        (a & 128 != 0) == (b & 128 != 0),
    ensures
        a == b,
{
}

/// Holds when every modifier bit set in `b` is set in `a`.
proof fn lemma_mask_covers(a: u32, b: u32)
    by (bit_vector)
    requires
        b <= 0xff,
        b & 1 != 0 ==> a & 1 != 0,
        b & 2 != 0 ==> a & 2 != 0,
        b & 4 != 0 ==> a & 4 != 0,
        b & 8 != 0 ==> a & 8 != 0,
        b & 16 != 0 ==> a & 16 != 0,
        b & 32 != 0 ==> a & 32 != 0,
        b & 64 != 0 ==> a & 64 != 0,
        b & 128 != 0 ==> a & 128 != 0,
    ensures
        a & b == b,
{
}

proof fn lemma_covers_bits(a: u32, b: u32, m: u32)
    by (bit_vector)
    requires
        a & b == b,
        is_modifier_bit(m),
        b & m != 0,
    ensures
        a & m != 0,
{
}

proof fn lemma_modifier_bit(m: Modifier)
    ensures
        is_modifier_bit(m.spec_bit()),
{
}

proof fn lemma_constant_masks(m: u32)
    by (bit_vector)
    requires
        is_modifier_bit(m),
    ensures
        MOD_MASK & m != 0,
        0u32 & m == 0,
        m <= MOD_MASK,
{
}

proof fn lemma_mask_clear(a: u32)
    by (bit_vector)
    requires
        a <= 0xff,
        a & 1 == 0,
        a & 2 == 0,
        a & 4 == 0,
        a & 8 == 0,
        a & 16 == 0,
        a & 32 == 0,
        a & 64 == 0,
        a & 128 == 0,
    ensures
        a == 0,
{
}

/// A set of active modifier keys, held as wlc's modifier mask.
#[derive(Clone, Copy, Debug, PartialEq, Eq, Structural, Hash)]
pub struct KeyMod {
    bits: u32,
}

impl View for KeyMod {
    type V = Set<Modifier>;

    closed spec fn view(&self) -> Set<Modifier> {
        modifiers_of(self.bits)
    }
}

impl KeyMod {
    /// Only the modifier bits are ever set.
    #[verifier::type_invariant]
    pub closed spec fn well_formed(self) -> bool {
        self.bits <= MOD_MASK
    }

    /// The mask as wlc reads it.
    pub closed spec fn spec_bits(self) -> u32 {
        self.bits
    }

    /// The set with no modifier.
    pub fn empty() -> (r: KeyMod)
        ensures
            r@ == Set::<Modifier>::empty(),
            r.spec_bits() == 0,
    {
        let r = KeyMod { bits: 0 };
        assert(r@ =~= Set::<Modifier>::empty()) by {
            assert forall|m: Modifier| !r@.contains(m) by {
                lemma_constant_masks(m.spec_bit());
            }
        }
        r
    }

    /// The set of every modifier.
    pub fn all() -> (r: KeyMod)
        ensures
            r@ == Set::<Modifier>::full(),
            r.spec_bits() == MOD_MASK,
    {
        let r = KeyMod { bits: MOD_MASK };
        assert(r@ =~= Set::<Modifier>::full()) by {
            assert forall|m: Modifier| r@.contains(m) by {
                lemma_constant_masks(m.spec_bit());
            }
        }
        r
    }

    /// The set that holds `m` alone.
    pub fn from_modifier(m: Modifier) -> (r: KeyMod)
        ensures
            r@ == set![m],
            r.spec_bits() == m.spec_bit(),
    {
        let r = KeyMod { bits: m.bit() };
        proof {
            lemma_modifier_bit(m);
            lemma_constant_masks(m.spec_bit());
        }
        assert(r@ =~= set![m]) by {
            assert forall|n: Modifier| r@.contains(n) == (n == m) by {
                lemma_modifier_bit(n);
                lemma_distinct_bits(m.spec_bit(), n.spec_bit());
            }
        }
        r
    }

    /// The set that a raw mask names, or `None` where it sets a bit that
    /// names no modifier.
    pub fn from_bits(bits: u32) -> (r: Option<KeyMod>)
        ensures
            r is Some <==> bits <= MOD_MASK,
            r matches Some(k) ==> k@ == modifiers_of(bits) && k.spec_bits() == bits,
    {
        if bits <= MOD_MASK {
            Some(KeyMod { bits })
        } else {
            None
        }
    }

    /// The set that a raw mask names, with the bits that name no modifier
    /// dropped.
    pub fn from_bits_truncate(bits: u32) -> (r: KeyMod)
        ensures
            r@ == modifiers_of(bits),
            r.spec_bits() == bits & MOD_MASK,
    {
        assert(bits & MOD_MASK <= MOD_MASK) by (bit_vector);
        let r = KeyMod { bits: bits & MOD_MASK };
        assert(r@ =~= modifiers_of(bits)) by {
            assert forall|m: Modifier| r@.contains(m) == modifiers_of(bits).contains(m) by {
                lemma_modifier_bit(m);
                lemma_and_bit(bits, MOD_MASK, m.spec_bit());
                lemma_constant_masks(m.spec_bit());
            }
        }
        r
    }

    /// The raw mask, in the layout wlc reads.
    pub fn bits(&self) -> (r: u32)
        ensures
            r == self.spec_bits(),
            r <= MOD_MASK,
            modifiers_of(r) == self@,
    {
        proof {
            use_type_invariant(self);
        }
        self.bits
    }

    /// Whether no modifier is active.
    pub fn is_empty(&self) -> (r: bool)
        ensures
            r == (self@ == Set::<Modifier>::empty()),
    {
        proof {
            use_type_invariant(self);
            if self.bits == 0 {
                assert(self@ =~= Set::<Modifier>::empty()) by {
                    assert forall|m: Modifier| !self@.contains(m) by {
                        lemma_constant_masks(m.spec_bit());
                    }
                }
            }
            if self@ == Set::<Modifier>::empty() {
                assert(!self@.contains(Modifier::Shift));
                assert(!self@.contains(Modifier::Caps));
                assert(!self@.contains(Modifier::Ctrl));
                assert(!self@.contains(Modifier::Alt));
                assert(!self@.contains(Modifier::Mod2));
                assert(!self@.contains(Modifier::Mod3));
                assert(!self@.contains(Modifier::Logo));
                assert(!self@.contains(Modifier::Mod5));
                lemma_mask_clear(self.bits);
            }
        }
        self.bits == 0
    }

    /// Whether the modifier `m` is active.
    pub fn has(&self, m: Modifier) -> (r: bool)
        ensures
            r == self@.contains(m),
    {
        self.bits & m.bit() != 0
    }

    /// Whether every modifier of `other` is active in `self`.
    pub fn contains(&self, other: &KeyMod) -> (r: bool)
        ensures
            r == other@.subset_of(self@),
    {
        proof {
            use_type_invariant(other);
            if self.bits & other.bits == other.bits {
                assert forall|m: Modifier| other@.contains(m) implies self@.contains(m) by {
                    lemma_modifier_bit(m);
                    lemma_covers_bits(self.bits, other.bits, m.spec_bit());
                }
            }
            if other@.subset_of(self@) {
                assert(other@.contains(Modifier::Shift) ==> self@.contains(Modifier::Shift));
                assert(other@.contains(Modifier::Caps) ==> self@.contains(Modifier::Caps));
                assert(other@.contains(Modifier::Ctrl) ==> self@.contains(Modifier::Ctrl));
                assert(other@.contains(Modifier::Alt) ==> self@.contains(Modifier::Alt));
                assert(other@.contains(Modifier::Mod2) ==> self@.contains(Modifier::Mod2));
                assert(other@.contains(Modifier::Mod3) ==> self@.contains(Modifier::Mod3));
                assert(other@.contains(Modifier::Logo) ==> self@.contains(Modifier::Logo));
                assert(other@.contains(Modifier::Mod5) ==> self@.contains(Modifier::Mod5));
                lemma_mask_covers(self.bits, other.bits);
            }
        }
        self.bits & other.bits == other.bits
    }

    /// The modifiers active in either set.
    pub fn union(&self, other: &KeyMod) -> (r: KeyMod)
        ensures
            r@ == self@.union(other@),
            r.spec_bits() == self.spec_bits() | other.spec_bits(),
    {
        proof {
            use_type_invariant(self);
            use_type_invariant(other);
            lemma_masks_stay_in_range(self.bits, other.bits);
        }
        let r = KeyMod { bits: self.bits | other.bits };
        assert(r@ =~= self@.union(other@)) by {
            assert forall|m: Modifier| r@.contains(m) == self@.union(other@).contains(m) by {
                lemma_modifier_bit(m);
                lemma_or_bit(self.bits, other.bits, m.spec_bit());
            }
        }
        r
    }

    /// The modifiers active in both sets.
    pub fn intersection(&self, other: &KeyMod) -> (r: KeyMod)
        ensures
            r@ == self@.intersect(other@),
            r.spec_bits() == self.spec_bits() & other.spec_bits(),
    {
        proof {
            use_type_invariant(self);
            use_type_invariant(other);
            lemma_masks_stay_in_range(self.bits, other.bits);
        }
        let r = KeyMod { bits: self.bits & other.bits };
        assert(r@ =~= self@.intersect(other@)) by {
            assert forall|m: Modifier| r@.contains(m) == self@.intersect(other@).contains(m) by {
                lemma_modifier_bit(m);
                lemma_and_bit(self.bits, other.bits, m.spec_bit());
            }
        }
        r
    }

    /// The modifiers active in `self` and not in `other`.
    pub fn difference(&self, other: &KeyMod) -> (r: KeyMod)
        ensures
            r@ == self@.difference(other@),
            r.spec_bits() == self.spec_bits() & !other.spec_bits(),
    {
        proof {
            use_type_invariant(self);
            use_type_invariant(other);
            lemma_masks_stay_in_range(self.bits, other.bits);
        }
        let r = KeyMod { bits: self.bits & !other.bits };
        assert(r@ =~= self@.difference(other@)) by {
            assert forall|m: Modifier| r@.contains(m) == self@.difference(other@).contains(m) by {
                lemma_modifier_bit(m);
                lemma_and_not_bit(self.bits, other.bits, m.spec_bit());
            }
        }
        r
    }

    /// Makes the modifier `m` active.
    pub fn insert(&mut self, m: Modifier)
        ensures
            final(self)@ == old(self)@.insert(m),
    {
        let single = KeyMod::from_modifier(m);
        *self = self.union(&single);
        assert(final(self)@ =~= old(self)@.insert(m));
    }

    /// Makes the modifier `m` inactive.
    pub fn remove(&mut self, m: Modifier)
        ensures
            final(self)@ == old(self)@.remove(m),
    {
        let single = KeyMod::from_modifier(m);
        *self = self.difference(&single);
        assert(final(self)@ =~= old(self)@.remove(m));
    }
}

/// Two modifier sets with the same modifiers are the same value: the
/// set operations above, stated over the modifiers, fix the masks too.
pub proof fn lemma_same_modifiers_same_mask(a: KeyMod, b: KeyMod)
    requires
        a.well_formed(),
        b.well_formed(),
        a@ == b@,
    ensures
        a == b,
{
    assert forall|m: Modifier| (a.bits & #[trigger] m.spec_bit() != 0) == (b.bits & m.spec_bit()
        != 0) by {
        assert(a@ == modifiers_of(a.bits));
        assert(modifiers_of(a.bits).contains(m) == (a.bits & m.spec_bit() != 0));
        assert(a@.contains(m) == b@.contains(m));
    }
    assert(Modifier::Shift.spec_bit() == 1);
    assert(Modifier::Caps.spec_bit() == 2);
    assert(Modifier::Ctrl.spec_bit() == 4);
    assert(Modifier::Alt.spec_bit() == 8);
    assert(Modifier::Mod2.spec_bit() == 16);
    assert(Modifier::Mod3.spec_bit() == 32);
    assert(Modifier::Logo.spec_bit() == 64);
    assert(Modifier::Mod5.spec_bit() == 128);
    lemma_mask_bits_agree(a.bits, b.bits);
}

} // verus!
