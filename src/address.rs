//! Public keys and the derivation of the vault's program address.
use vstd::prelude::*;

verus! {

/// A 32-byte public key: an account's address or a signer's identity.
#[derive(Clone, Copy, Debug)]
pub struct Pubkey {
    pub bytes: [u8; 32],
}

impl View for Pubkey {
    type V = Seq<u8>;

    open spec fn view(&self) -> Seq<u8> {
        self.bytes@
    }
}

impl Pubkey {
    pub fn new_from_array(bytes: [u8; 32]) -> (r: Pubkey)
        ensures
            r.bytes == bytes,
    {
        Pubkey { bytes }
    }

    pub fn to_bytes(&self) -> (r: [u8; 32])
        ensures
            r == self.bytes,
    {
        self.bytes
    }

    /// Compares two keys byte by byte.
    pub fn key_eq(&self, other: &Pubkey) -> (r: bool)
        ensures
            r == (self@ == other@),
    {
        let mut i: usize = 0;
        while i < 32
            invariant
                i <= 32,
                forall|j: int| 0 <= j < i ==> self@[j] == other@[j],
            decreases 32 - i,
        {
            if self.bytes[i] != other.bytes[i] {
                return false;
            }
            i = i + 1;
        }
        assert(self@ =~= other@);
        true
    }
}

/// The address derived from the seeds `[label, [bump]]` and a program id, or
/// `None` where the digest is a point on the curve (such an address could
/// have a private key, so it is no program address).
pub uninterp spec fn program_address(label: Seq<u8>, bump: u8, program: Seq<u8>) -> Option<Seq<u8>>;

/// The first bump, counting down from `b` to 1, for which `[label, [bump]]`
/// yields a program address.
pub open spec fn first_viable_bump(label: Seq<u8>, program: Seq<u8>, b: u8) -> Option<u8>
    decreases b,
{
    if b == 0 {
        None
    } else if program_address(label, b, program) is Some {
        Some(b)
    } else {
        first_viable_bump(label, program, (b - 1) as u8)
    }
}

/// The seed label of the vault account: the bytes of "vault".
pub open spec fn vault_seed() -> Seq<u8> {
    seq![118u8, 97u8, 117u8, 108u8, 116u8]
}

/// The vault's canonical bump under a program id, if any bump yields an address.
pub open spec fn canonical_bump(program: Seq<u8>) -> Option<u8> {
    first_viable_bump(vault_seed(), program, 255)
}

/// Whether `key` is the vault address derived with `bump` under `program`.
pub open spec fn is_vault_address(program: Seq<u8>, bump: u8, key: Seq<u8>) -> bool {
    program_address(vault_seed(), bump, program) == Some(key)
}

/// Relies on solana_program's `Pubkey::create_program_address`: with the
/// seeds `[label, [bump]]` (two seeds, none over 32 bytes, so never refused
/// for length) it hashes the seeds, the program id and the PDA marker, and
/// fails only where the digest lies on the curve.
#[verifier::external_body]
fn create_program_address(label: &[u8], bump: u8, program_id: &Pubkey) -> (r: Option<Pubkey>)
    requires
        label@.len() <= 32,
    ensures
        match r {
            Some(k) => program_address(label@, bump, program_id@) == Some(k@),
            None => program_address(label@, bump, program_id@) is None,
        },
{
    let bump_seed = [bump];
    let program = anchor_lang::prelude::Pubkey::new_from_array(program_id.bytes);
    match anchor_lang::prelude::Pubkey::create_program_address(&[label, &bump_seed], &program) {
        Ok(k) => Some(Pubkey { bytes: k.to_bytes() }),
        Err(_) => None,
    }
}

/// Relies on solana_program's `Pubkey::try_find_program_address`: with the
/// seeds `[label]` it calls `create_program_address` on `[label, [bump]]` for
/// each bump from 255 down to 1 and returns the first address found with its
/// bump (a label of at most 32 bytes is never refused for length).
#[verifier::external_body]
fn try_find_program_address(label: &[u8], program_id: &Pubkey) -> (r: Option<(Pubkey, u8)>)
    requires
        label@.len() <= 32,
    ensures
        match r {
            Some((k, b)) => first_viable_bump(label@, program_id@, 255) == Some(b)
                && program_address(label@, b, program_id@) == Some(k@),
            None => first_viable_bump(label@, program_id@, 255) is None,
        },
{
    let program = anchor_lang::prelude::Pubkey::new_from_array(program_id.bytes);
    match anchor_lang::prelude::Pubkey::try_find_program_address(&[label], &program) {
        Some((k, b)) => Some((Pubkey { bytes: k.to_bytes() }, b)),
        None => None,
    }
}

/// The bytes of the vault's seed label.
pub fn vault_seed_bytes() -> (r: Vec<u8>)
    ensures
        r@ == vault_seed(),
{
    let r: Vec<u8> = vec![118u8, 97u8, 117u8, 108u8, 116u8];
    assert(r@ =~= vault_seed());
    r
}

/// The vault address for a given bump, if that bump yields one.
pub fn vault_address(program_id: &Pubkey, bump: u8) -> (r: Option<Pubkey>)
    ensures
        match r {
            Some(k) => is_vault_address(program_id@, bump, k@),
            None => program_address(vault_seed(), bump, program_id@) is None,
        },
{
    let seed = vault_seed_bytes();
    create_program_address(seed.as_slice(), bump, program_id)
}

/// The vault's canonical address and bump: the address of the highest bump
/// that yields one.
pub fn find_vault_address(program_id: &Pubkey) -> (r: Option<(Pubkey, u8)>)
    ensures
        match r {
            Some((k, b)) => canonical_bump(program_id@) == Some(b) && is_vault_address(
                program_id@,
                b,
                k@,
            ),
            None => canonical_bump(program_id@) is None,
        },
{
    let seed = vault_seed_bytes();
    try_find_program_address(seed.as_slice(), program_id)
}

/// Checks that `key` is the vault address derived with `bump`: the check made
/// on the vault account of every instruction.
pub fn check_vault_address(program_id: &Pubkey, bump: u8, key: &Pubkey) -> (r: bool)
    ensures
        r == is_vault_address(program_id@, bump, key@),
{
    match vault_address(program_id, bump) {
        Some(k) => k.key_eq(key),
        None => false,
    }
}

} // verus!
