use crate::keys::WindowKey;
use vstd::prelude::*;

verus! {

/// Number of 64-bit words in a `KeySet`: one bit for each native code from
/// `-1` to `348`.
pub const KEY_SET_WORDS: usize = 6;

/// Whether bit number `bit` of `word` is set.
pub open spec fn bit_is_set(word: u64, bit: u64) -> bool {
    (word >> bit) & 1 == 1
}

proof fn lemma_zero_has_no_bit(bit: u64)
    requires
        bit < 64,
    ensures
        !bit_is_set(0, bit),
{
    assert((0u64 >> bit) & 1 != 1) by (bit_vector)
        requires
            bit < 64,
    ;
}

proof fn lemma_set_bit(word: u64, bit: u64, other: u64)
    requires
        bit < 64,
        other < 64,
    ensures
        bit_is_set(word | (1u64 << bit), other) == (other == bit || bit_is_set(word, other)),
{
    assert((((word | (1u64 << bit)) >> other) & 1 == 1) == (other == bit || (word >> other) & 1
        == 1)) by (bit_vector)
        requires
            bit < 64,
            other < 64,
    ;
}

/// A set of keys, held as a fixed-size bitset: no operation on it allocates.
#[derive(Debug, Clone, Copy)]
pub struct KeySet {
    words: [u64; KEY_SET_WORDS],
}

impl View for KeySet {
    type V = Set<WindowKey>;

    /// The keys in the set.
    closed spec fn view(&self) -> Set<WindowKey> {
        Set::new(|key: WindowKey| Self::holds(self.words@, key))
    }
}

impl KeySet {
    /// The bit that stands for `key`, counted over all words.
    spec fn slot(key: WindowKey) -> int {
        key.native_code() + 1
    }

    spec fn holds(words: Seq<u64>, key: WindowKey) -> bool {
        bit_is_set(words[Self::slot(key) / 64], (Self::slot(key) % 64) as u64)
    }

    fn slot_of(key: WindowKey) -> (slot: usize)
        ensures
            slot == Self::slot(key),
            slot < 64 * KEY_SET_WORDS,
    {
        proof {
            WindowKey::lemma_native_code_range(key);
        }
        let code: i32 = i32::from(key);
        (code + 1) as usize
    }

    /// The empty set.
    pub fn new() -> (set: KeySet)
        ensures
            set@ == Set::<WindowKey>::empty(),
    {
        let set = KeySet { words: [0u64;KEY_SET_WORDS] };
        proof {
            assert forall|key: WindowKey| !Self::holds(set.words@, key) by {
                WindowKey::lemma_native_code_range(key);
                lemma_zero_has_no_bit((Self::slot(key) % 64) as u64);
            }
        }
        set
    }

    /// Puts `key` into the set.
    pub fn insert(&mut self, key: WindowKey)
        ensures
            final(self)@ == old(self)@.insert(key),
    {
        let slot: usize = Self::slot_of(key);
        let word: usize = slot / 64;
        let bit: u64 = (slot % 64) as u64;
        let updated: u64 = self.words[word] | (1u64 << bit);
        self.words[word] = updated;
        proof {
            assert forall|other: WindowKey|
                Self::holds(self.words@, other) == (other == key || Self::holds(
                    old(self).words@,
                    other,
                )) by {
                WindowKey::lemma_native_code_range(other);
                let other_bit = (Self::slot(other) % 64) as u64;
                if Self::slot(other) / 64 == word {
                    lemma_set_bit(old(self).words@[word as int], bit, other_bit);
                    if other_bit == bit {
                        WindowKey::lemma_native_code_injective(other, key);
                    }
                }
            }
        }
    }

    /// Whether `key` is in the set.
    pub fn contains(&self, key: WindowKey) -> (found: bool)
        ensures
            found == self@.contains(key),
    {
        let slot: usize = Self::slot_of(key);
        let word: u64 = self.words[slot / 64];
        (word >> ((slot % 64) as u64)) & 1 == 1
    }

    /// Takes every key out of the set.
    pub fn clear(&mut self)
        ensures
            final(self)@ == Set::<WindowKey>::empty(),
    {
        *self = KeySet::new();
    }
}

} // verus!
