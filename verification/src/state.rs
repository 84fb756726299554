//! What the contract keeps between calls, and its mathematical model.

use vstd::prelude::*;

verus! {

/// The name under which the contract records itself.
pub const CONTRACT_NAME: &'static str = "crates.io:cw-template";

/// The version under which the contract records itself.
pub const CONTRACT_VERSION: &'static str = "0.1.0";

/// The single record of the contract.
#[derive(Clone, Debug, PartialEq, Eq)]
pub struct State {
    /// The counter.
    pub count: i32,
    /// The address that may reset the counter.
    pub owner: String,
}

/// The model of a `State`.
pub ghost struct StateView {
    pub count: int,
    pub owner: Seq<char>,
}

impl View for State {
    type V = StateView;

    open spec fn view(&self) -> StateView {
        StateView { count: self.count as int, owner: self.owner@ }
    }
}

/// The name and version that a contract has recorded for migration tooling.
#[derive(Clone, Debug, PartialEq, Eq)]
pub struct ContractVersion {
    /// The name of the contract.
    pub contract: String,
    /// The version of the contract.
    pub version: String,
}

/// The model of a `ContractVersion`.
pub ghost struct ContractVersionView {
    pub contract: Seq<char>,
    pub version: Seq<char>,
}

impl View for ContractVersion {
    type V = ContractVersionView;

    open spec fn view(&self) -> ContractVersionView {
        ContractVersionView { contract: self.contract@, version: self.version@ }
    }
}

/// The storage of one contract instance: the state record and the version
/// record, each absent until it is first written.
#[derive(Clone, Debug, PartialEq, Eq)]
pub struct Store {
    /// The state record.
    pub state: Option<State>,
    /// The version record.
    pub version: Option<ContractVersion>,
}

/// The model of a `Store`.
pub ghost struct StoreView {
    pub state: Option<StateView>,
    pub version: Option<ContractVersionView>,
}

impl View for Store {
    type V = StoreView;

    open spec fn view(&self) -> StoreView {
        StoreView {
            state: match self.state {
                Some(s) => Some(s@),
                None => None,
            },
            version: match self.version {
                Some(v) => Some(v@),
                None => None,
            },
        }
    }
}

impl Store {
    /// The storage of a contract that has not been instantiated.
    pub fn new() -> (store: Store)
        ensures
            store@ == (StoreView { state: None, version: None }),
    {
        Store { state: None, version: None }
    }
}

} // verus!
