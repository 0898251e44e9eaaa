use vstd::prelude::*;
use anchor_lang::solana_program::pubkey::Pubkey;
use crate::vault::VaultError;

verus! {

/// A 32-byte account identity.
#[derive(Clone, Copy, Debug)]
pub struct Address {
    pub bytes: [u8; 32],
}

impl View for Address {
    type V = Seq<u8>;

    open spec fn view(&self) -> Seq<u8> {
        self.bytes@
    }
}

impl Address {
    pub fn new(bytes: [u8; 32]) -> (r: Address)
        ensures
            r.bytes == bytes,
    {
        Address { bytes }
    }

    /// Byte-wise equality of two addresses.
    pub fn same_as(&self, other: &Address) -> (r: bool)
        ensures
            r == (self@ == other@),
    {
        let mut i: usize = 0;
        while i < 32
            invariant
                i <= 32,
                self@.len() == 32,
                other@.len() == 32,
                forall|k: int| 0 <= k < i ==> self@[k] == other@[k],
            decreases 32 - i,
        {
            if self.bytes[i] != other.bytes[i] {
                return false;
            }
            i = i + 1;
        }
        assert(self@ =~= other@);
        true
    }
}

/// The address that the program `program` derives from the seeds
/// `namespace`, `authority` and the single byte `bump`; `None` where no
/// address is derived from them.
pub uninterp spec fn program_address_of(
    namespace: Seq<u8>,
    authority: Seq<u8>,
    bump: u8,
    program: Seq<u8>,
) -> Option<Seq<u8>>;

/// The view of an optional address.
pub open spec fn address_view(a: Option<Address>) -> Option<Seq<u8>> {
    match a {
        Some(x) => Some(x@),
        None => None,
    }
}

/// Relies on `Pubkey::create_program_address` with the seeds
/// `[namespace, authority, [bump]]`: a function of the seeds and the program
/// id alone, which refuses a seed longer than 32 bytes.
#[verifier::external_body]
fn create_program_address(
    namespace: &[u8],
    authority: &Address,
    bump: u8,
    program: &Address,
) -> (r: Option<Address>)
    ensures
        address_view(r) == program_address_of(namespace@, authority@, bump, program@),
        namespace@.len() > 32 ==> r is None,
{
    let bump_seed = [bump];
    let seeds: [&[u8]; 3] = [namespace, &authority.bytes, &bump_seed];
    match Pubkey::create_program_address(&seeds, &Pubkey::new_from_array(program.bytes)) {
        Ok(key) => Some(Address { bytes: key.to_bytes() }),
        Err(_) => None,
    }
}

/// Relies on `Pubkey::try_find_program_address` with the seeds
/// `[namespace, authority]`: the bump it returns is one for which
/// `create_program_address` derives the address it returns.
#[verifier::external_body]
fn try_find_program_address(
    namespace: &[u8],
    authority: &Address,
    program: &Address,
) -> (r: Option<(Address, u8)>)
    ensures
        r matches Some((a, b)) ==> program_address_of(namespace@, authority@, b, program@) == Some(
            a@,
        ),
{
    let seeds: [&[u8]; 2] = [namespace, &authority.bytes];
    match Pubkey::try_find_program_address(&seeds, &Pubkey::new_from_array(program.bytes)) {
        Some((key, bump)) => Some((Address { bytes: key.to_bytes() }, bump)),
        None => None,
    }
}

/// Derives the address of `program` for the given namespace, authority and bump.
pub fn derive_address(namespace: &[u8], authority: &Address, bump: u8, program: &Address) -> (r:
    Option<Address>)
    ensures
        address_view(r) == program_address_of(namespace@, authority@, bump, program@),
        namespace@.len() > 32 ==> r is None,
{
    create_program_address(namespace, authority, bump, program)
}

/// Searches a bump for which an address is derived from the namespace and authority.
pub fn find_address(namespace: &[u8], authority: &Address, program: &Address) -> (r: Option<
    (Address, u8),
>)
    ensures
        r matches Some((a, b)) ==> program_address_of(namespace@, authority@, b, program@) == Some(
            a@,
        ),
{
    try_find_program_address(namespace, authority, program)
}

/// Whether a derivation's outcome is the supplied address.
pub fn address_matches(supplied: &Address, derived: &Option<Address>) -> (r: bool)
    ensures
        r == (address_view(*derived) == Some(supplied@)),
{
    match derived {
        Some(d) => d.same_as(supplied),
        None => false,
    }
}

/// Recomputes the derivation and checks it against the supplied address.
pub fn resolve_and_verify(
    supplied: &Address,
    namespace: &[u8],
    authority: &Address,
    bump: u8,
    program: &Address,
) -> (r: Result<(), VaultError>)
    ensures
        r is Ok <==> program_address_of(namespace@, authority@, bump, program@) == Some(supplied@),
        r is Err ==> r == Err::<(), VaultError>(VaultError::AddressMismatch),
{
    let derived = derive_address(namespace, authority, bump, program);
    if address_matches(supplied, &derived) {
        Ok(())
    } else {
        Err(VaultError::AddressMismatch)
    }
}

/// Derivation is a function: two derivations from the same inputs give the
/// same outcome.
pub proof fn lemma_derivation_deterministic(
    namespace: Seq<u8>,
    authority: Seq<u8>,
    bump: u8,
    program: Seq<u8>,
    first: Option<Address>,
    second: Option<Address>,
)
    requires
        address_view(first) == program_address_of(namespace, authority, bump, program),
        address_view(second) == program_address_of(namespace, authority, bump, program),
    ensures
        address_view(first) == address_view(second),
{
}

} // verus!
