//! Thirty-two byte account addresses.

use vstd::prelude::*;

verus! {

/// The address of an account.
#[derive(Clone, Copy, Debug, Hash)]
pub struct Pubkey {
    pub bytes: [u8; 32],
}

impl View for Pubkey {
    type V = Seq<u8>;

    open spec fn view(&self) -> Seq<u8> {
        self.bytes@
    }
}

/// The address whose bytes are all zero. It stands for "nobody".
pub open spec fn default_pubkey() -> Pubkey {
    Pubkey { bytes: vstd::array::spec_array_fill_for_copy_type::<u8, 32>(0u8) }
}

/// Two addresses with the same bytes are the same address.
pub proof fn pubkey_extensionality(a: Pubkey, b: Pubkey)
    requires
        a@ == b@,
    ensures
        a == b,
{
    assert(a.bytes =~= b.bytes);
}

impl Pubkey {
    /// The address made of `bytes`.
    pub fn new_from_array(bytes: [u8; 32]) -> (key: Pubkey)
        ensures
            key.bytes == bytes,
    {
        Pubkey { bytes }
    }

    /// The bytes of the address.
    pub fn to_bytes(&self) -> (bytes: [u8; 32])
        ensures
            bytes == self.bytes,
    {
        self.bytes
    }

    /// Whether this is the all-zero address.
    pub fn is_default(&self) -> (r: bool)
        ensures
            r == (*self == default_pubkey()),
    {
        let zero = Pubkey { bytes: [0u8; 32] };
        self.same(&zero)
    }

    /// Whether the two addresses are the same.
    pub fn same(&self, other: &Pubkey) -> (r: bool)
        ensures
            r == (*self == *other),
    {
        let mut i: usize = 0;
        while i < 32
            invariant
                i <= 32,
                forall|k: int| 0 <= k < i ==> self.bytes[k] == other.bytes[k],
            decreases 32 - i,
        {
            if self.bytes[i] != other.bytes[i] {
                return false;
            }
            i += 1;
        }
        assert(self.bytes =~= other.bytes);
        true
    }
}

impl Default for Pubkey {
    fn default() -> (key: Pubkey)
        ensures
            key == default_pubkey(),
    {
        Pubkey { bytes: [0u8; 32] }
    }
}

impl PartialEq for Pubkey {
    fn eq(&self, other: &Pubkey) -> (r: bool) {
        self.same(other)
    }
}

impl vstd::std_specs::cmp::PartialEqSpecImpl for Pubkey {
    open spec fn obeys_eq_spec() -> bool {
        true
    }

    open spec fn eq_spec(&self, other: &Pubkey) -> bool {
        *self == *other
    }
}

impl Eq for Pubkey {

}

/// Whether `a` and `b` hold the same address, or both hold none.
pub fn same_optional_key(a: &Option<Pubkey>, b: &Option<Pubkey>) -> (r: bool)
    ensures
        r == (*a == *b),
{
    match a {
        None => b.is_none(),
        Some(x) => match b {
            None => false,
            Some(y) => x.same(y),
        },
    }
}

} // verus!
