use vstd::prelude::*;

verus! {

/// The failure that the store reported when an entry was loaded. The reason is
/// kept as the store gave it and is handed on without being interpreted.
#[derive(Debug, PartialEq, Eq)]
pub struct StorageError {
    pub reason: String,
}

impl View for StorageError {
    type V = Seq<char>;

    open spec fn view(&self) -> Seq<char> {
        self.reason@
    }
}

impl Clone for StorageError {
    fn clone(&self) -> (copy: StorageError)
        ensures
            copy == *self,
    {
        StorageError { reason: self.reason.clone() }
    }
}

/// Why an administrative operation was refused.
#[derive(Debug, Clone, PartialEq, Eq)]
pub enum ContractError {
    /// The caller is not the administrator.
    Unauthorized,
    /// The gadget was asked to switch on while it is on.
    AlreadyEnabled,
    /// The gadget was asked to switch off while it is off.
    AlreadyDisabled,
    /// An entry that the operation needs could not be loaded.
    StorageError(StorageError),
}

impl From<StorageError> for ContractError {
    fn from(e: StorageError) -> (error: ContractError) {
        ContractError::StorageError(e)
    }
}

impl vstd::std_specs::convert::FromSpecImpl<StorageError> for ContractError {
    open spec fn obeys_from_spec() -> bool {
        true
    }

    open spec fn from_spec(e: StorageError) -> ContractError {
        ContractError::StorageError(e)
    }
}

/// Mathematical value of a [`ContractError`].
pub enum ContractErrorView {
    Unauthorized,
    AlreadyEnabled,
    AlreadyDisabled,
    StorageError(Seq<char>),
}

impl View for ContractError {
    type V = ContractErrorView;

    open spec fn view(&self) -> ContractErrorView {
        match self {
            ContractError::Unauthorized => ContractErrorView::Unauthorized,
            ContractError::AlreadyEnabled => ContractErrorView::AlreadyEnabled,
            ContractError::AlreadyDisabled => ContractErrorView::AlreadyDisabled,
            ContractError::StorageError(e) => ContractErrorView::StorageError(e@),
        }
    }
}

} // verus!
