use crate::error::StorageError;
use crate::state::config::{Config, ConfigView};
use crate::state::finality::{keys_are_distinct, Collection};
use vstd::prelude::*;

verus! {

/// A single persisted entry, held as what loading it yields: its value, or
/// the failure that the store raises for it.
#[derive(Debug, Clone, PartialEq, Eq)]
pub enum Entry<T> {
    /// The entry loads, and this is its value.
    Stored(T),
    /// The entry does not load, and this is why.
    Unreadable(StorageError),
}

/// The persisted state, entry by entry.
///
/// The four collections belong to the verification of finality and are held
/// as they are.
#[derive(Debug, Clone, PartialEq, Eq)]
pub struct Store {
    /// The administrator's address; `None` where nobody administers.
    pub admin: Entry<Option<String>>,
    /// The configuration of the gadget.
    pub config: Entry<Config>,
    /// Whether the gadget is switched on.
    pub is_enabled: Entry<bool>,
    /// The signatures that the gadget has been shown.
    pub signatures: Collection,
    /// The block hashes that the gadget has been shown.
    pub block_hashes: Collection,
    /// The votes on blocks that the gadget has counted.
    pub block_votes: Collection,
    /// The evidence that the gadget has gathered.
    pub evidences: Collection,
}

/// Mathematical value of a [`Store`]. An entry that cannot be loaded is given
/// by the reason of its failure.
pub struct StoreState {
    pub admin: Result<Option<Seq<char>>, Seq<char>>,
    pub config: Result<ConfigView, Seq<char>>,
    pub is_enabled: Result<bool, Seq<char>>,
    pub signatures: Seq<(Seq<u8>, Seq<u8>)>,
    pub block_hashes: Seq<(Seq<u8>, Seq<u8>)>,
    pub block_votes: Seq<(Seq<u8>, Seq<u8>)>,
    pub evidences: Seq<(Seq<u8>, Seq<u8>)>,
}

impl View for Store {
    type V = StoreState;

    open spec fn view(&self) -> StoreState {
        StoreState {
            admin: match self.admin {
                Entry::Stored(Some(owner)) => Ok(Some(owner@)),
                Entry::Stored(None) => Ok(None),
                Entry::Unreadable(e) => Err(e@),
            },
            config: match self.config {
                Entry::Stored(config) => Ok(config@),
                Entry::Unreadable(e) => Err(e@),
            },
            is_enabled: match self.is_enabled {
                Entry::Stored(enabled) => Ok(enabled),
                Entry::Unreadable(e) => Err(e@),
            },
            signatures: self.signatures@,
            block_hashes: self.block_hashes@,
            block_votes: self.block_votes@,
            evidences: self.evidences@,
        }
    }
}

impl StoreState {
    /// Whether `caller` is the administrator. Nobody is while the
    /// administrator's entry cannot be loaded.
    pub open spec fn is_admin(self, caller: Seq<char>) -> bool {
        self.admin == Ok::<Option<Seq<char>>, Seq<char>>(Some(caller))
    }

    /// Whether each of the four collections is a mapping: none holds a key
    /// twice.
    pub open spec fn well_formed(self) -> bool {
        &&& keys_are_distinct(self.signatures)
        &&& keys_are_distinct(self.block_hashes)
        &&& keys_are_distinct(self.block_votes)
        &&& keys_are_distinct(self.evidences)
    }
}

impl Store {
    /// Whether each of the four collections is a mapping.
    pub open spec fn well_formed(&self) -> bool {
        self@.well_formed()
    }

    /// Whether `caller` is the administrator: the address that is set, if
    /// one is. Fails where the administrator's entry cannot be loaded.
    pub fn is_admin(&self, caller: &String) -> (answer: Result<bool, StorageError>)
        ensures
            match self.admin {
                Entry::Stored(_) => answer == Ok::<bool, StorageError>(self@.is_admin(caller@)),
                Entry::Unreadable(e) => answer == Err::<bool, StorageError>(e),
            },
    {
        match &self.admin {
            Entry::Stored(Some(owner)) => Ok(*owner == *caller),
            Entry::Stored(None) => Ok(false),
            Entry::Unreadable(e) => Err(e.clone()),
        }
    }

    /// Loads the switch.
    pub fn load_enabled(&self) -> (loaded: Result<bool, StorageError>)
        ensures
            match self.is_enabled {
                Entry::Stored(enabled) => loaded == Ok::<bool, StorageError>(enabled),
                Entry::Unreadable(e) => loaded == Err::<bool, StorageError>(e),
            },
    {
        match &self.is_enabled {
            Entry::Stored(enabled) => Ok(*enabled),
            Entry::Unreadable(e) => Err(e.clone()),
        }
    }

    /// Saves the switch and touches nothing else.
    pub fn save_enabled(&mut self, enabled: bool)
        ensures
            *final(self) == (Store { is_enabled: Entry::Stored(enabled), ..*old(self) }),
    {
        self.is_enabled = Entry::Stored(enabled);
    }

    /// Loads a copy of the configuration.
    pub fn load_config(&self) -> (loaded: Result<Config, StorageError>)
        ensures
            match self.config {
                Entry::Stored(config) => loaded == Ok::<Config, StorageError>(config),
                Entry::Unreadable(e) => loaded == Err::<Config, StorageError>(e),
            },
    {
        match &self.config {
            Entry::Stored(config) => Ok(config.clone()),
            Entry::Unreadable(e) => Err(e.clone()),
        }
    }

    /// Saves the configuration and touches nothing else.
    pub fn save_config(&mut self, config: Config)
        ensures
            *final(self) == (Store { config: Entry::Stored(config), ..*old(self) }),
    {
        self.config = Entry::Stored(config);
    }
}

} // verus!
