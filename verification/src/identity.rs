//! Identities: the 32-byte keys by which players and authorities are known.

use vstd::prelude::*;
use vstd::std_specs::cmp::PartialEqSpecImpl;

verus! {

/// A party's identity: a 32-byte public key.
///
/// Two identities are the same party exactly when all their bytes agree.
#[derive(Clone, Copy, Debug)]
pub struct Identity {
    bytes: [u8; 32],
}

impl Identity {
    /// The key bytes, as a sequence of length 32.
    pub closed spec fn bytes(self) -> Seq<u8> {
        self.bytes@
    }

    /// The identity with the given key bytes.
    pub fn new(bytes: [u8; 32]) -> (id: Identity)
        ensures
            id.bytes() == bytes@,
    {
        Identity { bytes }
    }

    /// The key bytes of this identity.
    pub fn to_bytes(&self) -> (bytes: [u8; 32])
        ensures
            bytes@ == self.bytes(),
    {
        self.bytes
    }

    /// The identity whose key bytes are all zero. No party has this key:
    /// in a list of keys it marks a slot that holds nobody.
    pub closed spec fn zero() -> Identity {
        Identity { bytes: vstd::array::spec_array_fill_for_copy_type::<u8, 32>(0u8) }
    }

    /// Whether this is the all-zero identity.
    pub fn is_zero(&self) -> (zero: bool)
        ensures
            zero == (*self == Identity::zero()),
    {
        *self == Identity::default()
    }

    /// The all-zero identity has 32 key bytes, each of them zero, and is
    /// the only identity that has.
    pub proof fn lemma_zero_bytes(id: Identity)
        ensures
            Identity::zero().bytes().len() == 32,
            forall|i: int| 0 <= i < 32 ==> Identity::zero().bytes()[i] == 0u8,
            id == Identity::zero() <==> (forall|i: int| 0 <= i < 32 ==> id.bytes()[i] == 0u8),
    {
        let zero = Identity::zero().bytes;
        assert forall|i: int| 0 <= i < 32 implies zero@[i] == 0u8 by {}
        if forall|i: int| 0 <= i < 32 ==> id.bytes()[i] == 0u8 {
            assert forall|i: int| 0 <= i < 32 implies id.bytes[i] == zero[i] by {
                assert(id.bytes()[i] == 0u8);
                assert(zero@[i] == 0u8);
            }
            assert(id.bytes =~= zero);
        }
    }

    /// Identities with the same key bytes are equal, and only those.
    pub proof fn lemma_equal_by_bytes(a: Identity, b: Identity)
        ensures
            (a == b) <==> (a.bytes() == b.bytes()),
    {
        if a.bytes() == b.bytes() {
            assert(a.bytes =~= b.bytes);
        }
    }
}

impl Default for Identity {
    /// The all-zero identity.
    fn default() -> (id: Identity)
        ensures
            id == Identity::zero(),
    {
        Identity { bytes: [0u8; 32] }
    }
}

/// The winner slot that a key stands for: nobody if the key is all zero.
pub open spec fn slot_of(key: Identity) -> Option<Identity> {
    if key == Identity::zero() {
        None
    } else {
        Some(key)
    }
}

/// The key that stands for a winner slot: all zero for an empty slot.
pub open spec fn key_of(slot: Option<Identity>) -> Identity {
    match slot {
        Some(winner) => winner,
        None => Identity::zero(),
    }
}

/// Reads three winner slots from three keys, where the all-zero key marks
/// an empty slot.
pub fn slots_from_keys(keys: [Identity; 3]) -> (slots: [Option<Identity>; 3])
    ensures
        forall|i: int| 0 <= i < 3 ==> #[trigger] slots@[i] == slot_of(keys@[i]),
{
    [slot_from_key(keys[0]), slot_from_key(keys[1]), slot_from_key(keys[2])]
}

/// Writes three winner slots as three keys, with the all-zero key in each
/// empty slot.
pub fn keys_from_slots(slots: [Option<Identity>; 3]) -> (keys: [Identity; 3])
    ensures
        forall|i: int| 0 <= i < 3 ==> #[trigger] keys@[i] == key_of(slots@[i]),
{
    [key_from_slot(slots[0]), key_from_slot(slots[1]), key_from_slot(slots[2])]
}

/// Reads one winner slot from its key.
pub fn slot_from_key(key: Identity) -> (slot: Option<Identity>)
    ensures
        slot == slot_of(key),
{
    if key.is_zero() {
        None
    } else {
        Some(key)
    }
}

/// Writes one winner slot as a key.
pub fn key_from_slot(slot: Option<Identity>) -> (key: Identity)
    ensures
        key == key_of(slot),
{
    match slot {
        Some(winner) => winner,
        None => Identity::default(),
    }
}

/// A key read as a slot and written back is the same key. A slot written
/// as a key and read back is the same slot, unless it names the all-zero
/// identity as a winner, which reads back as an empty slot.
pub proof fn lemma_slots_and_keys(key: Identity, slot: Option<Identity>)
    ensures
        key_of(slot_of(key)) == key,
        slot != Some(Identity::zero()) ==> slot_of(key_of(slot)) == slot,
        slot_of(key_of(Some(Identity::zero()))) == None::<Identity>,
{
}

impl PartialEq for Identity {
    fn eq(&self, other: &Self) -> (same: bool) {
        let mut i: usize = 0;
        while i < 32
            invariant
                i <= 32,
                forall|j: int| 0 <= j < i ==> self.bytes[j] == other.bytes[j],
            decreases 32 - i,
        {
            if self.bytes[i] != other.bytes[i] {
                return false;
            }
            i += 1;
        }
        proof {
            assert(self.bytes =~= other.bytes);
        }
        true
    }
}

impl Eq for Identity {}

impl PartialEqSpecImpl for Identity {
    open spec fn obeys_eq_spec() -> bool {
        true
    }

    open spec fn eq_spec(&self, other: &Self) -> bool {
        *self == *other
    }
}

} // verus!
