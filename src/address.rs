use anchor_lang::prelude::Pubkey;
use vstd::prelude::*;
use vstd::utf8::encode_utf8;

verus! {

/// A 32-byte account address: a principal's identity, or the address of a
/// record or a balance account.
#[derive(Clone, Copy, Debug)]
pub struct Address {
    pub bytes: [u8; 32],
}

impl View for Address {
    type V = Seq<u8>;

    open spec fn view(&self) -> Seq<u8> {
        self.bytes@
    }
}

impl Address {
    pub fn new(bytes: [u8; 32]) -> (r: Address)
        ensures
            r@ == bytes@,
    {
        Address { bytes }
    }

    /// Whether the two addresses hold the same bytes.
    pub fn same(&self, other: &Address) -> (r: bool)
        ensures
            r == (self@ == other@),
    {
        let mut i: usize = 0;
        while i < 32
            invariant
                0 <= i <= 32,
                self@.len() == 32,
                other@.len() == 32,
                forall|j: int| 0 <= j < i ==> self@[j] == other@[j],
            decreases 32 - i,
        {
            if self.bytes[i] != other.bytes[i] {
                return false;
            }
            i = i + 1;
        }
        assert(self@ =~= other@);
        true
    }
}

impl PartialEq for Address {
    fn eq(&self, other: &Address) -> (r: bool) {
        self.same(other)
    }
}

impl vstd::std_specs::cmp::PartialEqSpecImpl for Address {
    open spec fn obeys_eq_spec() -> bool {
        true
    }

    open spec fn eq_spec(&self, other: &Address) -> bool {
        self@ == other@
    }
}

/// The address whose bytes are `s` (meaningful where `s` has 32 bytes).
pub open spec fn address_of(s: Seq<u8>) -> Address {
    choose|a: Address| a@ == s
}

/// An address is determined by its bytes.
pub proof fn lemma_address_of(a: Address)
    ensures
        address_of(a@) == a,
{
    let b = address_of(a@);
    assert(b@ == a@);
    assert(b.bytes =~= a.bytes);
}

pub open spec fn opt_view(r: Option<Address>) -> Option<Seq<u8>> {
    match r {
        Some(a) => Some(a@),
        None => None,
    }
}

/// The program-derived address for `seeds` under the program id `program`,
/// or none where no such address exists for them.
pub uninterp spec fn program_address(seeds: Seq<Seq<u8>>, program: Seq<u8>) -> Option<Seq<u8>>;

/// Relies on `Pubkey::try_find_program_address` of solana-program (re-exported
/// by anchor-lang): the address it finds for the seeds under the program id,
/// which depends on those two alone; `None` where the seeds exceed its limits
/// or no bump seed gives an address off the curve.
#[verifier::external_body]
fn find_address(seeds: &Vec<Vec<u8>>, program: &Address) -> (r: Option<Address>)
    ensures
        opt_view(r) == program_address(seeds@.map_values(|v: Vec<u8>| v@), program@),
{
    let slices: Vec<&[u8]> = seeds.iter().map(|s| s.as_slice()).collect();
    Pubkey::try_find_program_address(&slices, &Pubkey::new_from_array(program.bytes)).map(
        |(key, _bump)| Address { bytes: key.to_bytes() },
    )
}

/// The bytes of an address, as a seed.
fn address_seed(a: &Address) -> (r: Vec<u8>)
    ensures
        r@ == a@,
{
    let mut v: Vec<u8> = Vec::new();
    let mut i: usize = 0;
    while i < 32
        invariant
            0 <= i <= 32,
            a@.len() == 32,
            v@ == a@.subrange(0, i as int),
        decreases 32 - i,
    {
        v.push(a.bytes[i]);
        i = i + 1;
    }
    assert(v@ =~= a@);
    v
}

/// The UTF-8 bytes of a text, as a seed.
fn text_seed(s: &str) -> (r: Vec<u8>)
    ensures
        r@ == encode_utf8(s@),
{
    let b = s.as_bytes();
    let mut v: Vec<u8> = Vec::new();
    let mut i: usize = 0;
    while i < b.len()
        invariant
            0 <= i <= b@.len(),
            b@ == encode_utf8(s@),
            v@ == b@.subrange(0, i as int),
        decreases b@.len() - i,
    {
        v.push(b[i]);
        i = i + 1;
    }
    assert(v@ =~= b@);
    v
}

/// Seeds of a game record: its owner and its name.
pub open spec fn game_seeds(owner: Seq<u8>, name: Seq<char>) -> Seq<Seq<u8>> {
    seq![owner, encode_utf8(name)]
}

/// Seeds of an asset record: its name and its game's address.
pub open spec fn asset_seeds(name: Seq<char>, game: Seq<u8>) -> Seq<Seq<u8>> {
    seq![encode_utf8(name), game]
}

/// Seeds of an asset's token mint: its game's address and the asset's address.
pub open spec fn mint_seeds(game: Seq<u8>, asset: Seq<u8>) -> Seq<Seq<u8>> {
    seq![game, asset]
}

/// Seeds of a mint-authority grant: the asset, its game and the delegate.
pub open spec fn grant_seeds(asset: Seq<u8>, game: Seq<u8>, delegate: Seq<u8>) -> Seq<Seq<u8>> {
    seq![asset, game, delegate]
}

/// Seeds of the holder authority of a balance account: the account itself.
pub open spec fn holder_seeds(balance: Seq<u8>) -> Seq<Seq<u8>> {
    seq![balance]
}

/// The decimal digits of `n`, most significant first, in ASCII.
pub open spec fn decimal(n: nat) -> Seq<u8>
    decreases n,
{
    if n < 10 {
        seq![(48 + n) as u8]
    } else {
        decimal(n / 10).push((48 + n % 10) as u8)
    }
}

/// Seeds of a sale record: its listing id in decimal.
pub open spec fn sale_seeds(listing_id: u64) -> Seq<Seq<u8>> {
    seq![decimal(listing_id as nat)]
}

/// Appends the decimal digits of `n` to `out`.
fn push_decimal(n: u64, out: &mut Vec<u8>)
    ensures
        final(out)@ == old(out)@ + decimal(n as nat),
    decreases n,
{
    if n >= 10 {
        push_decimal(n / 10, out);
    }
    out.push(48 + (n % 10) as u8);
    proof {
        if n >= 10 {
            assert(old(out)@ + decimal(n as nat) =~= old(out)@ + decimal((n / 10) as nat) + seq![(48 + n % 10) as u8]);
        } else {
            assert(old(out)@ + decimal(n as nat) =~= old(out)@ + seq![(48 + n % 10) as u8]);
        }
    }
}

/// The address of the record of the sale `listing_id`.
pub fn sale_address(listing_id: u64, program: &Address) -> (r: Option<Address>)
    ensures
        opt_view(r) == program_address(sale_seeds(listing_id), program@),
{
    let mut digits: Vec<u8> = Vec::new();
    push_decimal(listing_id, &mut digits);
    assert(digits@ =~= decimal(listing_id as nat));
    let mut seeds: Vec<Vec<u8>> = Vec::new();
    seeds.push(digits);
    assert(seeds@.map_values(|v: Vec<u8>| v@) =~= sale_seeds(listing_id));
    find_address(&seeds, program)
}

/// The address of the game that `owner` registers under `name`.
pub fn game_address(owner: &Address, name: &str, program: &Address) -> (r: Option<Address>)
    ensures
        opt_view(r) == program_address(game_seeds(owner@, name@), program@),
{
    let mut seeds: Vec<Vec<u8>> = Vec::new();
    seeds.push(address_seed(owner));
    seeds.push(text_seed(name));
    assert(seeds@.map_values(|v: Vec<u8>| v@) =~= game_seeds(owner@, name@));
    find_address(&seeds, program)
}

/// The address of the asset registered under `name` for the game `game`.
pub fn asset_address(name: &str, game: &Address, program: &Address) -> (r: Option<Address>)
    ensures
        opt_view(r) == program_address(asset_seeds(name@, game@), program@),
{
    let mut seeds: Vec<Vec<u8>> = Vec::new();
    seeds.push(text_seed(name));
    seeds.push(address_seed(game));
    assert(seeds@.map_values(|v: Vec<u8>| v@) =~= asset_seeds(name@, game@));
    find_address(&seeds, program)
}

/// The address of the token mint of the asset `asset` of the game `game`.
pub fn mint_address(game: &Address, asset: &Address, program: &Address) -> (r: Option<Address>)
    ensures
        opt_view(r) == program_address(mint_seeds(game@, asset@), program@),
{
    let mut seeds: Vec<Vec<u8>> = Vec::new();
    seeds.push(address_seed(game));
    seeds.push(address_seed(asset));
    assert(seeds@.map_values(|v: Vec<u8>| v@) =~= mint_seeds(game@, asset@));
    find_address(&seeds, program)
}

/// The address of the grant that lets `delegate` mint `asset` of `game`.
pub fn grant_address(asset: &Address, game: &Address, delegate: &Address, program: &Address) -> (r:
    Option<Address>)
    ensures
        opt_view(r) == program_address(grant_seeds(asset@, game@, delegate@), program@),
{
    let mut seeds: Vec<Vec<u8>> = Vec::new();
    seeds.push(address_seed(asset));
    seeds.push(address_seed(game));
    seeds.push(address_seed(delegate));
    assert(seeds@.map_values(|v: Vec<u8>| v@) =~= grant_seeds(asset@, game@, delegate@));
    find_address(&seeds, program)
}

/// The address of the holder authority of the balance account `balance`.
pub fn holder_address(balance: &Address, program: &Address) -> (r: Option<Address>)
    ensures
        opt_view(r) == program_address(holder_seeds(balance@), program@),
{
    let mut seeds: Vec<Vec<u8>> = Vec::new();
    seeds.push(address_seed(balance));
    assert(seeds@.map_values(|v: Vec<u8>| v@) =~= holder_seeds(balance@));
    find_address(&seeds, program)
}

} // verus!
