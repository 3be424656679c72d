use vstd::prelude::*;

verus! {

/// What the base58 text `s` decodes to as an account identity: the 32 bytes of
/// the key, or `None` where `s` is not the base58 form of exactly 32 bytes.
pub uninterp spec fn base58_key(s: Seq<char>) -> Option<Seq<u8>>;

/// Relies on `Pubkey::try_from(&str)` of solana-program (re-exported by
/// anchor_lang): it decodes base58 text into the 32 bytes of an account key,
/// and fails where the text is too long, not base58, or not 32 bytes.
#[verifier::external_body]
fn decode_base58_key(s: &str) -> (r: Option<[u8; 32]>)
    ensures
        match r {
            Some(b) => base58_key(s@) == Some(b@),
            None => base58_key(s@) is None,
        },
{
    match anchor_lang::prelude::Pubkey::try_from(s) {
        Ok(k) => Some(k.to_bytes()),
        Err(_) => None,
    }
}

/// The identity of an account on the ledger: 32 bytes.
#[derive(Clone, Copy, Debug)]
pub struct Key {
    pub bytes: [u8; 32],
}

impl View for Key {
    type V = Seq<u8>;

    open spec fn view(&self) -> Seq<u8> {
        self.bytes@
    }
}

impl Key {
    pub fn new(bytes: [u8; 32]) -> (r: Key)
        ensures
            r@ == bytes@,
    {
        Key { bytes }
    }

    /// Reads a key from its base58 text; `None` where the text is no key.
    pub fn parse(s: &str) -> (r: Option<Key>)
        ensures
            match r {
                Some(k) => base58_key(s@) == Some(k@),
                None => base58_key(s@) is None,
            },
    {
        match decode_base58_key(s) {
            Some(b) => Some(Key { bytes: b }),
            None => None,
        }
    }

    /// Whether two keys name the same account.
    pub fn same_as(&self, other: &Key) -> (r: bool)
        ensures
            r == (self@ == other@),
    {
        broadcast use vstd::array::group_array_axioms;
        let mut i: usize = 0;
        while i < 32
            invariant
                0 <= i <= 32,
                self@.len() == 32,
                other@.len() == 32,
                forall|j: int| 0 <= j < i ==> self@[j] == other@[j],
            decreases 32 - i,
        {
            if self.bytes[i] != other.bytes[i] {
                assert(self@[i as int] != other@[i as int]);
                return false;
            }
            i = i + 1;
        }
        assert(self@ =~= other@);
        true
    }
}

} // verus!
