//! Deterministic derivation of a counter's storage address.
//!
//! An address is a function of a fixed label, the owner's 32-byte key and a
//! disambiguating bump byte, computed by the ledger's standard derivation
//! primitive. The search for the bump and the single-bump re-derivation are
//! outside calls; everything around them is verified against the names
//! given to their results.

use vstd::prelude::*;

verus! {

/// What `Pubkey::try_find_program_address` returns for a label seed, an
/// owner seed and a program id: the derived address and the bump it found,
/// or nothing in the statistically improbable event that no bump works.
/// The result depends on the arguments alone.
pub uninterp spec fn pda_of(seeds: Seq<Seq<u8>>, program_id: Seq<u8>) -> Option<(Seq<u8>, u8)>;

/// What `Pubkey::create_program_address` returns for a full seed list
/// (bump included) and a program id: the address those seeds derive, or
/// nothing where the seeds are invalid. The result depends on the
/// arguments alone.
pub uninterp spec fn address_for_seeds(seeds: Seq<Seq<u8>>, program_id: Seq<u8>) -> Option<Seq<u8>>;

/// The fixed label every counter address is derived under: the bytes of
/// `"counter"`.
pub open spec fn counter_label() -> Seq<u8> {
    seq![99u8, 111u8, 117u8, 110u8, 116u8, 101u8, 114u8]
}

/// The seed list a counter address is derived from: the label, then the
/// owner's key bytes.
pub open spec fn counter_seeds(owner: Seq<u8>) -> Seq<Seq<u8>> {
    seq![counter_label(), owner]
}

/// The binding Initialize fixes and `verify_counter_address` re-checks:
/// re-deriving with the stored bump as one extra single-byte seed yields
/// exactly this address.
pub open spec fn counter_address_ok(
    address: Seq<u8>,
    owner: Seq<u8>,
    bump: u8,
    program_id: Seq<u8>,
) -> bool {
    address_for_seeds(counter_seeds(owner).push(seq![bump]), program_id) == Some(address)
}

/// Relies on `solana_pubkey::Pubkey::try_find_program_address`: the result
/// is a function of the seeds and the program id alone, and, when it is
/// `Some`, its source re-derives the returned address from the same seeds
/// plus the returned bump through `Pubkey::create_program_address`.
#[verifier::external_body]
fn find_derived_address(label: &Vec<u8>, owner: &[u8; 32], program_id: &[u8; 32]) -> (r: Option<
    ([u8; 32], u8),
>)
    ensures
        (r is Some) == (pda_of(seq![label@, owner@], program_id@) is Some),
        r matches Some((address, bump)) ==> pda_of(seq![label@, owner@], program_id@) == Some(
            (address@, bump),
        ),
        r matches Some((address, bump)) ==> address_for_seeds(
            seq![label@, owner@, seq![bump]],
            program_id@,
        ) == Some(address@),
{
    let pid = solana_pubkey::Pubkey::new_from_array(*program_id);
    let found = solana_pubkey::Pubkey::try_find_program_address(
        &[label.as_slice(), owner.as_ref()],
        &pid,
    );
    found.map(|(address, bump)| (address.to_bytes(), bump))
}

/// Relies on `solana_pubkey::Pubkey::create_program_address`: the result is
/// a function of the seeds and the program id alone.
#[verifier::external_body]
fn rederive_address(label: &Vec<u8>, owner: &[u8; 32], bump: u8, program_id: &[u8; 32]) -> (r:
    Option<[u8; 32]>)
    ensures
        (r is Some) == (address_for_seeds(seq![label@, owner@, seq![bump]], program_id@) is Some),
        r matches Some(address) ==> address_for_seeds(
            seq![label@, owner@, seq![bump]],
            program_id@,
        ) == Some(address@),
{
    let pid = solana_pubkey::Pubkey::new_from_array(*program_id);
    let made = solana_pubkey::Pubkey::create_program_address(
        &[label.as_slice(), owner.as_ref(), &[bump]],
        &pid,
    );
    made.ok().map(|address| address.to_bytes())
}

/// The label bytes as a value the derivation calls can take.
fn counter_label_bytes() -> (r: Vec<u8>)
    ensures
        r@ == counter_label(),
{
    let mut r: Vec<u8> = Vec::new();
    r.push(99);
    r.push(111);
    r.push(117);
    r.push(110);
    r.push(116);
    r.push(101);
    r.push(114);
    proof {
        assert(r@ =~= counter_label());
    }
    r
}

/// Derives the storage address for an owner's counter: the address the
/// search primitive finds for the label-and-owner seeds, together with the
/// bump that made it valid, which the record then stores.
pub fn derive_counter_address(owner: &[u8; 32], program_id: &[u8; 32]) -> (r: Option<
    ([u8; 32], u8),
>)
    ensures
        (r is Some) == (pda_of(counter_seeds(owner@), program_id@) is Some),
        r matches Some((address, bump)) ==> pda_of(counter_seeds(owner@), program_id@) == Some(
            (address@, bump),
        ),
        r matches Some((address, bump)) ==> counter_address_ok(address@, owner@, bump, program_id@),
{
    let label = counter_label_bytes();
    proof {
        assert(seq![label@, owner@] =~= counter_seeds(owner@));
    }
    match find_derived_address(&label, owner, program_id) {
        Some((address, bump)) => {
            proof {
                assert(seq![label@, owner@, seq![bump]] =~= counter_seeds(owner@).push(seq![bump]));
            }
            Some((address, bump))
        },
        None => None,
    }
}

/// Equality of two 32-byte keys, checked byte by byte.
pub fn bytes32_eq(a: &[u8; 32], b: &[u8; 32]) -> (r: bool)
    ensures
        r == (a@ == b@),
{
    let mut i: usize = 0;
    while i < 32
        invariant
            i <= 32,
            forall|j: int| 0 <= j < i ==> a@[j] == b@[j],
        decreases 32 - i,
    {
        if a[i] != b[i] {
            return false;
        }
        i += 1;
    }
    proof {
        assert(a@ =~= b@);
    }
    true
}

/// Re-checks a stored address-to-owner binding without searching: true
/// exactly when re-deriving with the stored bump yields the given address.
pub fn verify_counter_address(
    address: &[u8; 32],
    owner: &[u8; 32],
    bump: u8,
    program_id: &[u8; 32],
) -> (r: bool)
    ensures
        r == counter_address_ok(address@, owner@, bump, program_id@),
{
    let label = counter_label_bytes();
    proof {
        assert(seq![label@, owner@, seq![bump]] =~= counter_seeds(owner@).push(seq![bump]));
    }
    match rederive_address(&label, owner, bump, program_id) {
        Some(derived) => bytes32_eq(&derived, address),
        None => false,
    }
}

} // verus!
