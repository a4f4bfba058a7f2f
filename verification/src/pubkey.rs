//! Account addresses.

use vstd::prelude::*;

verus! {

/// The program address that a list of seeds has under a program, with its
/// bump seed, as a function of the seeds' bytes and the program's address;
/// none where no bump seed gives an address.
pub uninterp spec fn program_address(seeds: Seq<Seq<u8>>, program_id: Seq<u8>) -> Option<
    (Seq<u8>, u8),
>;

/// `solana_program::pubkey::Pubkey::try_find_program_address`: what it
/// finds depends on the seeds' bytes and on the program's address alone.
/// Nothing more is claimed of the address or of the bump seed. It returns
/// `None` where it finds no address, and does not panic.
#[verifier::external_body]
pub(crate) fn try_find_program_address(seeds: &Vec<Vec<u8>>, program_id: &Pubkey) -> (r: Option<
    (Pubkey, u8),
>)
    ensures
        r is Some <==> program_address(seeds@.map_values(|seed: Vec<u8>| seed@), program_id@)
            is Some,
        r matches Some(found) ==> program_address(
            seeds@.map_values(|seed: Vec<u8>| seed@),
            program_id@,
        ) == Some((found.0@, found.1)),
{
    let slices: Vec<&[u8]> = seeds.iter().map(|seed| seed.as_slice()).collect();
    let id = solana_program::pubkey::Pubkey::new_from_array(program_id.bytes);
    match solana_program::pubkey::Pubkey::try_find_program_address(&slices, &id) {
        Some((address, bump)) => Some((Pubkey { bytes: address.to_bytes() }, bump)),
        None => None,
    }
}

/// Bump seed of the fee owner's address.
pub const FEE_OWNER_BUMP: u8 = 255;

/// The address of an account: 32 bytes.
#[derive(Clone, Copy, Debug, PartialEq, Eq, Hash)]
pub struct Pubkey {
    pub bytes: [u8; 32],
}

impl View for Pubkey {
    type V = Seq<u8>;

    open spec fn view(&self) -> Seq<u8> {
        self.bytes@
    }
}

impl Pubkey {
    /// The address with the given bytes.
    pub fn new_from_array(bytes: [u8; 32]) -> (r: Pubkey)
        ensures
            r@ == bytes@,
            r.bytes == bytes,
    {
        Pubkey { bytes }
    }

    /// The bytes of the address.
    pub fn to_bytes(&self) -> (r: [u8; 32])
        ensures
            r == self.bytes,
    {
        self.bytes
    }

    /// The bytes of the address as a vector.
    pub fn to_vec(&self) -> (r: Vec<u8>)
        ensures
            r@ == self@,
    {
        let mut out: Vec<u8> = Vec::new();
        let mut i: usize = 0;
        while i < 32
            invariant
                i <= 32,
                out@ == self.bytes@.subrange(0, i as int),
            decreases 32 - i,
        {
            out.push(self.bytes[i]);
            assert(out@ =~= self.bytes@.subrange(0, i + 1));
            i += 1;
        }
        assert(out@ =~= self.bytes@);
        out
    }

    /// Whether two addresses are the same, byte for byte.
    pub fn equals(&self, other: &Pubkey) -> (r: bool)
        ensures
            r == (*self == *other),
            r == (self@ == other@),
    {
        let mut i: usize = 0;
        while i < 32
            invariant
                i <= 32,
                forall|j: int| 0 <= j < i ==> self.bytes[j] == other.bytes[j],
            decreases 32 - i,
        {
            if self.bytes[i] != other.bytes[i] {
                return false;
            }
            i += 1;
        }
        assert(self.bytes@ =~= other.bytes@);
        assert(self.bytes =~= other.bytes);
        true
    }
}

/// What `fee_owner` returns.
pub open spec fn fee_owner_bytes() -> Seq<u8> {
    seq![
        17u8, 252, 186, 115, 104, 241, 43, 90, 52, 92, 160, 224, 80, 61, 164, 145,
        188, 137, 139, 48, 40, 164, 97, 4, 1, 212, 232, 49, 53, 103, 125, 156,
    ]
}

/// Owner of all accounts that receive the fees earned by the protocol.
pub fn fee_owner() -> (r: Pubkey)
    ensures
        r@ == fee_owner_bytes(),
{
    let bytes: [u8; 32] = [
        17, 252, 186, 115, 104, 241, 43, 90, 52, 92, 160, 224, 80, 61, 164, 145,
        188, 137, 139, 48, 40, 164, 97, 4, 1, 212, 232, 49, 53, 103, 125, 156,
    ];
    assert(bytes@ =~= fee_owner_bytes());
    Pubkey { bytes }
}

/// What `program_id` returns.
pub open spec fn program_id_bytes() -> Seq<u8> {
    seq![
        6u8, 196, 213, 231, 35, 190, 83, 133, 205, 186, 138, 247, 44, 43, 180, 179,
        94, 210, 8, 46, 174, 253, 176, 29, 234, 179, 21, 3, 213, 187, 249, 145,
    ]
}

/// The address of the program that owns every contract.
pub fn program_id() -> (r: Pubkey)
    ensures
        r@ == program_id_bytes(),
{
    let bytes: [u8; 32] = [
        6, 196, 213, 231, 35, 190, 83, 133, 205, 186, 138, 247, 44, 43, 180, 179,
        94, 210, 8, 46, 174, 253, 176, 29, 234, 179, 21, 3, 213, 187, 249, 145,
    ];
    assert(bytes@ =~= program_id_bytes());
    Pubkey { bytes }
}

/// The address of the token program.
pub open spec fn token_program_id_bytes() -> Seq<u8> {
    seq![
        6u8, 221, 246, 225, 215, 101, 161, 147, 217, 203, 225, 70, 206, 235, 121, 172,
        28, 180, 133, 237, 95, 91, 55, 145, 58, 140, 245, 133, 126, 255, 0, 169,
    ]
}

/// The address of the token program.
pub fn token_program_id() -> (r: Pubkey)
    ensures
        r@ == token_program_id_bytes(),
{
    let bytes: [u8; 32] = [
        6, 221, 246, 225, 215, 101, 161, 147, 217, 203, 225, 70, 206, 235, 121, 172,
        28, 180, 133, 237, 95, 91, 55, 145, 58, 140, 245, 133, 126, 255, 0, 169,
    ];
    assert(bytes@ =~= token_program_id_bytes());
    Pubkey { bytes }
}

/// The address of the associated token account program.
pub open spec fn associated_token_program_id_bytes() -> Seq<u8> {
    seq![
        140u8, 151, 37, 143, 78, 36, 137, 241, 187, 61, 16, 41, 20, 142, 13, 131,
        11, 90, 19, 153, 218, 255, 16, 132, 4, 142, 123, 216, 219, 233, 248, 89,
    ]
}

/// The address of the associated token account program.
pub fn associated_token_program_id() -> (r: Pubkey)
    ensures
        r@ == associated_token_program_id_bytes(),
{
    let bytes: [u8; 32] = [
        140, 151, 37, 143, 78, 36, 137, 241, 187, 61, 16, 41, 20, 142, 13, 131,
        11, 90, 19, 153, 218, 255, 16, 132, 4, 142, 123, 216, 219, 233, 248, 89,
    ];
    assert(bytes@ =~= associated_token_program_id_bytes());
    Pubkey { bytes }
}

/// The address of the associated token account of a wallet for a mint:
/// the program address, under the associated token account program, of
/// the seeds wallet, token program and mint; none where there is no such
/// address.
pub open spec fn associated_token_address(wallet: Seq<u8>, mint: Seq<u8>) -> Option<Seq<u8>> {
    match program_address(
        seq![wallet, token_program_id_bytes(), mint],
        associated_token_program_id_bytes(),
    ) {
        Some(found) => Some(found.0),
        None => None,
    }
}

/// Derives the associated token account address for the given wallet
/// address and token mint, if there is one.
pub fn get_associated_token_address(wallet: &Pubkey, mint: &Pubkey) -> (r: Option<Pubkey>)
    ensures
        r is Some <==> associated_token_address(wallet@, mint@) is Some,
        r matches Some(address) ==> associated_token_address(wallet@, mint@) == Some(address@),
{
    let mut seeds: Vec<Vec<u8>> = Vec::new();
    seeds.push(wallet.to_vec());
    seeds.push(token_program_id().to_vec());
    seeds.push(mint.to_vec());
    assert(seeds@.map_values(|seed: Vec<u8>| seed@) =~= seq![
        wallet@,
        token_program_id_bytes(),
        mint@,
    ]);
    let program = associated_token_program_id();
    match try_find_program_address(&seeds, &program) {
        Some(found) => Some(found.0),
        None => None,
    }
}

} // verus!
