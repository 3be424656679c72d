use vstd::prelude::*;
use crate::key::{Key, base58_key};

verus! {

/// The custodian account of the Raydium AMM.
pub const RAYDIUM_AMM: &'static str = "675kPX9MHTjS2zt1qfr1NYHuzeLXfQM9H24wFSUt1Mp8";

/// The custodian account of Orca's Whirlpool AMM.
pub const ORCA_WHIRLPOOL: &'static str = "whirLbMiicVdio4qvUfM5KAg6Ct8VwpYzGff3uctyCc";

/// The custodian account of Orca's legacy AMM.
pub const ORCA_LEGACY: &'static str = "9W959DqEETiGZocYWCQPaJ6sBmUzgfxXfqGeTEdp3aQP";

/// `set` with the key that the base58 text `s` names, if it names one.
pub open spec fn with_text(set: Set<Seq<u8>>, s: Seq<char>) -> Set<Seq<u8>> {
    match base58_key(s) {
        Some(b) => set.insert(b),
        None => set,
    }
}

/// The configured set of AMM custodian accounts.
pub struct AmmSet {
    keys: Vec<Key>,
}

impl View for AmmSet {
    type V = Set<Seq<u8>>;

    closed spec fn view(&self) -> Set<Seq<u8>> {
        Set::new(|b: Seq<u8>| exists|i: int| 0 <= i < self.keys@.len() && self.keys@[i]@ == b)
    }
}

impl AmmSet {
    /// A set with no account in it.
    pub fn new() -> (r: AmmSet)
        ensures
            r@ == Set::<Seq<u8>>::empty(),
    {
        let r = AmmSet { keys: Vec::new() };
        assert(r@ =~= Set::<Seq<u8>>::empty());
        r
    }

    /// The AMM venues known at launch: Raydium, Orca Whirlpool and Orca legacy.
    pub fn known_venues() -> (r: AmmSet)
        ensures
            r@ == with_text(
                with_text(with_text(Set::empty(), RAYDIUM_AMM@), ORCA_WHIRLPOOL@),
                ORCA_LEGACY@,
            ),
    {
        let mut r = AmmSet::new();
        r.add_text(RAYDIUM_AMM);
        r.add_text(ORCA_WHIRLPOOL);
        r.add_text(ORCA_LEGACY);
        r
    }

    /// Whether `owner` is one of the configured AMM custodians.
    pub fn contains(&self, owner: &Key) -> (r: bool)
        ensures
            r == self@.contains(owner@),
    {
        let mut i: usize = 0;
        while i < self.keys.len()
            invariant
                0 <= i <= self.keys@.len(),
                forall|j: int| 0 <= j < i ==> self.keys@[j]@ != owner@,
            decreases self.keys@.len() - i,
        {
            if self.keys[i].same_as(owner) {
                assert(self.keys@[i as int]@ == owner@);
                return true;
            }
            i = i + 1;
        }
        false
    }

    /// Adds `key` to the set; it stays there once in.
    pub fn add(&mut self, key: Key)
        ensures
            final(self)@ == old(self)@.insert(key@),
    {
        if !self.contains(&key) {
            self.keys.push(key);
            assert forall|b: Seq<u8>| #[trigger] final(self)@.contains(b) implies old(self)@.insert(key@).contains(b) by {
                let i = choose|i: int| 0 <= i < self.keys@.len() && self.keys@[i]@ == b;
                if i < old(self).keys@.len() {
                    assert(old(self).keys@[i] == self.keys@[i]);
                }
            };
            assert forall|b: Seq<u8>| #[trigger] old(self)@.insert(key@).contains(b) implies final(self)@.contains(b) by {
                if b == key@ {
                    assert(self.keys@[old(self).keys@.len() as int]@ == b);
                } else {
                    let i = choose|i: int| 0 <= i < old(self).keys@.len() && old(self).keys@[i]@ == b;
                    assert(self.keys@[i] == old(self).keys@[i]);
                }
            };
            assert(final(self)@ =~= old(self)@.insert(key@));
        } else {
            assert(old(self)@ =~= old(self)@.insert(key@));
        }
    }

    /// Takes `key` out of the set.
    pub fn remove(&mut self, key: &Key)
        ensures
            final(self)@ == old(self)@.remove(key@),
    {
        let mut kept: Vec<Key> = Vec::new();
        let mut i: usize = 0;
        while i < self.keys.len()
            invariant
                0 <= i <= self.keys@.len(),
                self.keys@ == old(self).keys@,
                forall|j: int| 0 <= j < kept@.len() ==> #[trigger] kept@[j]@ != key@
                    && old(self)@.contains(kept@[j]@),
                forall|m: int| 0 <= m < i && #[trigger] self.keys@[m]@ != key@
                    ==> exists|j: int| 0 <= j < kept@.len() && kept@[j]@ == self.keys@[m]@,
            decreases self.keys@.len() - i,
        {
            if !self.keys[i].same_as(key) {
                let ghost before = kept@;
                kept.push(self.keys[i]);
                assert(old(self)@.contains(self.keys@[i as int]@));
                assert forall|m: int| 0 <= m <= i && #[trigger] self.keys@[m]@ != key@
                    implies exists|j: int| 0 <= j < kept@.len() && kept@[j]@ == self.keys@[m]@ by {
                    if m == i {
                        assert(kept@[before.len() as int]@ == self.keys@[m]@);
                    } else {
                        let j = choose|j: int| 0 <= j < before.len() && before[j]@ == self.keys@[m]@;
                        assert(kept@[j] == before[j]);
                    }
                };
            }
            i = i + 1;
        }
        self.keys = kept;
        assert forall|b: Seq<u8>| #[trigger] old(self)@.remove(key@).contains(b) implies final(self)@.contains(b) by {
            let m = choose|m: int| 0 <= m < old(self).keys@.len() && old(self).keys@[m]@ == b;
            assert(old(self).keys@[m]@ != key@);
        };
        assert(final(self)@ =~= old(self)@.remove(key@));
    }

    /// Adds the key that the base58 text `s` names; `false`, and no change,
    /// where `s` names no key.
    pub fn add_text(&mut self, s: &str) -> (r: bool)
        ensures
            r == base58_key(s@) is Some,
            final(self)@ == with_text(old(self)@, s@),
    {
        match Key::parse(s) {
            Some(k) => {
                self.add(k);
                true
            },
            None => false,
        }
    }
}

} // verus!
