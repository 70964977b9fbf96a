use vstd::prelude::*;

verus! {

/// A 32-byte public identifier naming an account, a mint or a program.
#[derive(Debug, Clone, Copy, Eq)]
pub struct Pubkey {
    pub bytes: [u8; 32],
}

impl Pubkey {
    pub fn new_from_array(bytes: [u8; 32]) -> (r: Pubkey)
        ensures
            r.bytes == bytes,
    {
        Pubkey { bytes }
    }

    pub fn to_bytes(&self) -> (r: [u8; 32])
        ensures
            r == self.bytes,
    {
        self.bytes
    }
}

impl PartialEq for Pubkey {
    fn eq(&self, o: &Pubkey) -> (r: bool)
        ensures
            r == (self.bytes == o.bytes),
    {
        let mut i: usize = 0;
        while i < 32
            invariant
                i <= 32,
                forall|j: int| 0 <= j < i ==> self.bytes[j] == o.bytes[j],
            decreases 32 - i,
        {
            if self.bytes[i] != o.bytes[i] {
                return false;
            }
            i = i + 1;
        }
        assert(self.bytes@ =~= o.bytes@);
        proof {
            vstd::array::axiom_array_ext_equal(self.bytes, o.bytes);
        }
        true
    }
}

impl vstd::std_specs::cmp::PartialEqSpecImpl for Pubkey {
    open spec fn obeys_eq_spec() -> bool {
        true
    }

    open spec fn eq_spec(&self, o: &Pubkey) -> bool {
        self.bytes == o.bytes
    }
}

/// A capability handle: an account reference with its signer and writable
/// flags and the program that owns it.
#[derive(Debug, Clone, Copy)]
pub struct Handle {
    pub key: Pubkey,
    pub is_signer: bool,
    pub is_writable: bool,
    pub owner: Pubkey,
}

/// One account entry of a call descriptor.
#[derive(Debug, Clone, Copy)]
pub struct AccountMeta {
    pub pubkey: Pubkey,
    pub is_signer: bool,
    pub is_writable: bool,
}

/// A call descriptor for the invocation primitive: target program, the
/// accounts it touches, and its encoded payload.
#[derive(Debug, Clone)]
pub struct Instruction {
    pub program_id: Pubkey,
    pub accounts: Vec<AccountMeta>,
    pub data: Vec<u8>,
}

} // verus!
