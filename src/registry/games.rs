use super::{Registry, RegistryView};
use crate::address::{
    address_of, game_address, grant_address, grant_seeds, game_seeds, lemma_address_of,
    program_address, Address,
};
use crate::errors::GameErrors;
use crate::state::{GameState, MintAuthority};
use vstd::prelude::*;
use vstd::utf8::encode_utf8;

verus! {

/// Longest game name, in bytes of UTF-8.
pub const MAX_GAME_NAME_LEN: usize = 10;

/// Longest game description, in bytes of UTF-8.
pub const MAX_GAME_DESCRIPTION_LEN: usize = 50;

impl RegistryView {
    /// Registering the game `owner`/`name` under the address `key`: the name
    /// must fit, `key` must be free, and then the description must fit.
    pub open spec fn initialize_game_at(
        self,
        key: Seq<u8>,
        owner: Address,
        name: String,
        description: String,
    ) -> (RegistryView, Result<Address, GameErrors>) {
        if encode_utf8(name@).len() > MAX_GAME_NAME_LEN {
            (self, Err(GameErrors::InvalidArguments))
        } else if self.games.contains_key(key) {
            (self, Err(GameErrors::AlreadyExists))
        } else if encode_utf8(description@).len() > MAX_GAME_DESCRIPTION_LEN {
            (self, Err(GameErrors::InvalidArguments))
        } else {
            (
                RegistryView {
                    games: self.games.insert(key, GameState { owner, name, description }),
                    ..self
                },
                Ok(address_of(key)),
            )
        }
    }

    /// Registering a game under the address derived from its owner and name;
    /// an over-long name is refused before any address is derived.
    pub open spec fn initialize_game(self, owner: Address, name: String, description: String) -> (
        RegistryView,
        Result<Address, GameErrors>,
    ) {
        if encode_utf8(name@).len() > MAX_GAME_NAME_LEN {
            (self, Err(GameErrors::InvalidArguments))
        } else {
            match program_address(game_seeds(owner@, name@), self.program@) {
                Some(k) => self.initialize_game_at(k, owner, name, description),
                None => (self, Err(GameErrors::InvalidArguments)),
            }
        }
    }

    /// Granting `delegate` the right to mint `asset`, recorded under `key`:
    /// the asset must belong to `source_game`, `caller` must own that game,
    /// and `key` must be free.
    pub open spec fn grant_asset_minting_at(
        self,
        key: Seq<u8>,
        caller: Address,
        asset: Address,
        source_game: Address,
        delegate: Address,
    ) -> (RegistryView, Result<Address, GameErrors>) {
        if !self.assets.contains_key(asset@) || self.assets[asset@].game@ != source_game@
            || !self.games.contains_key(source_game@) {
            (self, Err(GameErrors::RelationMismatch))
        } else if self.games[source_game@].owner@ != caller@ {
            (self, Err(GameErrors::Unauthorized))
        } else if self.grants.contains_key(key) {
            (self, Err(GameErrors::AlreadyExists))
        } else {
            (
                RegistryView {
                    grants: self.grants.insert(
                        key,
                        MintAuthority { user: delegate, asset_account: asset },
                    ),
                    ..self
                },
                Ok(address_of(key)),
            )
        }
    }

    /// Granting mint authority under the address derived from the asset, the
    /// game and the delegate.
    pub open spec fn grant_asset_minting(
        self,
        caller: Address,
        asset: Address,
        source_game: Address,
        delegate: Address,
    ) -> (RegistryView, Result<Address, GameErrors>) {
        match program_address(grant_seeds(asset@, source_game@, delegate@), self.program@) {
            Some(k) => self.grant_asset_minting_at(k, caller, asset, source_game, delegate),
            None => (self, Err(GameErrors::InvalidArguments)),
        }
    }
}

impl Registry {
    /// Registers a game under `key`, the address derived from its owner and name.
    pub fn initialize_game_at(
        &mut self,
        key: Address,
        owner: Address,
        name: String,
        description: String,
    ) -> (r: Result<Address, GameErrors>)
        requires
            old(self).inv(),
            program_address(game_seeds(owner@, name@), old(self)@.program@) == Some(key@),
        ensures
            final(self).inv(),
            (final(self)@, r) == old(self)@.initialize_game_at(key@, owner, name, description),
    {
        proof {
            lemma_address_of(key);
        }
        if name.as_str().as_bytes().len() > MAX_GAME_NAME_LEN {
            return Err(GameErrors::InvalidArguments);
        }
        match self.games.get(&key) {
            Some(_) => {
                return Err(GameErrors::AlreadyExists);
            },
            None => {},
        }
        if description.as_str().as_bytes().len() > MAX_GAME_DESCRIPTION_LEN {
            return Err(GameErrors::InvalidArguments);
        }
        self.games.insert(key, GameState { owner, name, description });
        Ok(key)
    }

    /// Registers the game `name` of `owner` and returns its address.
    pub fn initialize_game(&mut self, owner: Address, name: String, description: String) -> (r:
        Result<Address, GameErrors>)
        requires
            old(self).inv(),
        ensures
            final(self).inv(),
            (final(self)@, r) == old(self)@.initialize_game(owner, name, description),
    {
        if name.as_str().as_bytes().len() > MAX_GAME_NAME_LEN {
            return Err(GameErrors::InvalidArguments);
        }
        match game_address(&owner, name.as_str(), &self.program) {
            Some(key) => self.initialize_game_at(key, owner, name, description),
            None => Err(GameErrors::InvalidArguments),
        }
    }

    /// Records a mint-authority grant under `key`, the address derived from
    /// the asset, the game and the delegate.
    pub fn grant_asset_minting_at(
        &mut self,
        key: Address,
        caller: Address,
        asset: Address,
        source_game: Address,
        delegate: Address,
    ) -> (r: Result<Address, GameErrors>)
        requires
            old(self).inv(),
            program_address(grant_seeds(asset@, source_game@, delegate@), old(self)@.program@)
                == Some(key@),
        ensures
            final(self).inv(),
            (final(self)@, r) == old(self)@.grant_asset_minting_at(
                key@,
                caller,
                asset,
                source_game,
                delegate,
            ),
    {
        proof {
            lemma_address_of(key);
        }
        let game_owner = match self.assets.get(&asset) {
            None => {
                return Err(GameErrors::RelationMismatch);
            },
            Some(a) => {
                if !a.game.same(&source_game) {
                    return Err(GameErrors::RelationMismatch);
                }
                match self.games.get(&source_game) {
                    None => {
                        return Err(GameErrors::RelationMismatch);
                    },
                    Some(g) => g.owner,
                }
            },
        };
        if !game_owner.same(&caller) {
            return Err(GameErrors::Unauthorized);
        }
        match self.grants.get(&key) {
            Some(_) => {
                return Err(GameErrors::AlreadyExists);
            },
            None => {},
        }
        self.grants.insert(key, MintAuthority { user: delegate, asset_account: asset });
        Ok(key)
    }

    /// Lets `delegate` mint `asset`, on behalf of the owner of the asset's
    /// game; returns the grant's address.
    pub fn grant_asset_minting(
        &mut self,
        caller: Address,
        asset: Address,
        source_game: Address,
        delegate: Address,
    ) -> (r: Result<Address, GameErrors>)
        requires
            old(self).inv(),
        ensures
            final(self).inv(),
            (final(self)@, r) == old(self)@.grant_asset_minting(
                caller,
                asset,
                source_game,
                delegate,
            ),
    {
        match grant_address(&asset, &source_game, &delegate, &self.program) {
            Some(key) => self.grant_asset_minting_at(key, caller, asset, source_game, delegate),
            None => Err(GameErrors::InvalidArguments),
        }
    }
}

} // verus!
