use crate::address::{asset_seeds, game_seeds, program_address, Address};
use crate::state::{AssetAuthority, AssetData, GameState, Marketplace, MintAuthority, Sale};
use crate::store::Store;
use vstd::prelude::*;

pub mod assets;
pub mod games;
pub mod marketplace;
pub mod transfer;

verus! {

/// The program's records: games, assets, mint-authority grants, holder
/// authorities, and the marketplace's counter and sales.
#[derive(Clone, Debug)]
pub struct Registry {
    program: Address,
    credit_mint: Address,
    collateral_vault: Address,
    games: Store<GameState>,
    assets: Store<AssetData>,
    grants: Store<MintAuthority>,
    holders: Store<AssetAuthority>,
    marketplace: Marketplace,
    sales: Vec<Sale>,
}

/// The registry as mathematical values: each kind of record by address, and
/// the sales by listing id.
pub struct RegistryView {
    /// The program id that record addresses are derived under.
    pub program: Address,
    /// The token mint of the credit currency.
    pub credit_mint: Address,
    /// The balance that receives collateral.
    pub collateral_vault: Address,
    pub games: Map<Seq<u8>, GameState>,
    pub assets: Map<Seq<u8>, AssetData>,
    pub grants: Map<Seq<u8>, MintAuthority>,
    pub holders: Map<Seq<u8>, AssetAuthority>,
    pub next_listing_id: u64,
    pub sales: Seq<Sale>,
}

impl RegistryView {
    /// Listing ids are issued in order from zero: the sale at index `i` has
    /// id `i`, and the counter is the number of sales. Each game is kept
    /// under the address derived from its owner and name, and each asset
    /// under the address derived from its name and game, so that no two
    /// games share an owner and a name and no two assets of a game share a
    /// name.
    pub open spec fn wf(self) -> bool {
        &&& self.sales.len() == self.next_listing_id
        &&& forall|i: int| 0 <= i < self.sales.len() ==> (#[trigger] self.sales[i]).listing_id == i
        &&& forall|k: Seq<u8>|
            #[trigger] self.games.contains_key(k) ==> program_address(
                game_seeds(self.games[k].owner@, self.games[k].name@),
                self.program@,
            ) == Some(k)
        &&& forall|k: Seq<u8>|
            #[trigger] self.assets.contains_key(k) ==> program_address(
                asset_seeds(self.assets[k].name@, self.assets[k].game@),
                self.program@,
            ) == Some(k)
    }
}

impl View for Registry {
    type V = RegistryView;

    closed spec fn view(&self) -> RegistryView {
        RegistryView {
            program: self.program,
            credit_mint: self.credit_mint,
            collateral_vault: self.collateral_vault,
            games: self.games@,
            assets: self.assets@,
            grants: self.grants@,
            holders: self.holders@,
            next_listing_id: self.marketplace.current_listing_id,
            sales: self.sales@,
        }
    }
}

impl Registry {
    pub closed spec fn inv(&self) -> bool {
        &&& self.games.inv()
        &&& self.assets.inv()
        &&& self.grants.inv()
        &&& self.holders.inv()
        &&& self@.wf()
    }

    /// The invariant includes the well-formedness of the view.
    pub proof fn lemma_inv(&self)
        requires
            self.inv(),
        ensures
            self@.wf(),
    {
    }

    /// An empty registry for the program `program`, whose credit currency is
    /// `credit_mint` and whose collateral goes to `collateral_vault`.
    pub fn new(program: Address, credit_mint: Address, collateral_vault: Address) -> (r: Registry)
        ensures
            r.inv(),
            r@.program == program,
            r@.credit_mint == credit_mint,
            r@.collateral_vault == collateral_vault,
            r@.games == Map::<Seq<u8>, GameState>::empty(),
            r@.assets == Map::<Seq<u8>, AssetData>::empty(),
            r@.grants == Map::<Seq<u8>, MintAuthority>::empty(),
            r@.holders == Map::<Seq<u8>, AssetAuthority>::empty(),
            r@.next_listing_id == 0,
            r@.sales == Seq::<Sale>::empty(),
    {
        Registry {
            program,
            credit_mint,
            collateral_vault,
            games: Store::new(),
            assets: Store::new(),
            grants: Store::new(),
            holders: Store::new(),
            marketplace: Marketplace { current_listing_id: 0 },
            sales: Vec::new(),
        }
    }

    pub fn program(&self) -> (r: Address)
        ensures
            r == self@.program,
    {
        self.program
    }

    pub fn next_listing_id(&self) -> (r: u64)
        ensures
            r == self@.next_listing_id,
    {
        self.marketplace.current_listing_id
    }

    pub fn game(&self, key: &Address) -> (r: Option<&GameState>)
        requires
            self.inv(),
        ensures
            match r {
                Some(g) => self@.games.contains_key(key@) && self@.games[key@] == *g,
                None => !self@.games.contains_key(key@),
            },
    {
        self.games.get(key)
    }

    pub fn asset(&self, key: &Address) -> (r: Option<&AssetData>)
        requires
            self.inv(),
        ensures
            match r {
                Some(a) => self@.assets.contains_key(key@) && self@.assets[key@] == *a,
                None => !self@.assets.contains_key(key@),
            },
    {
        self.assets.get(key)
    }

    pub fn grant(&self, key: &Address) -> (r: Option<&MintAuthority>)
        requires
            self.inv(),
        ensures
            match r {
                Some(g) => self@.grants.contains_key(key@) && self@.grants[key@] == *g,
                None => !self@.grants.contains_key(key@),
            },
    {
        self.grants.get(key)
    }

    pub fn holder(&self, key: &Address) -> (r: Option<&AssetAuthority>)
        requires
            self.inv(),
        ensures
            match r {
                Some(h) => self@.holders.contains_key(key@) && self@.holders[key@] == *h,
                None => !self@.holders.contains_key(key@),
            },
    {
        self.holders.get(key)
    }

    pub fn sale(&self, listing_id: u64) -> (r: Option<&Sale>)
        ensures
            match r {
                Some(s) => listing_id < self@.sales.len() && self@.sales[listing_id as int] == *s,
                None => listing_id >= self@.sales.len(),
            },
    {
        if listing_id < self.sales.len() as u64 {
            Some(&self.sales[listing_id as usize])
        } else {
            None
        }
    }
}

} // verus!
