//! The record kept for each scanned function, and how its facets collapse
//! into the scope, action and connection type of a diagram node.
use crate::objects::{ActionType, ConnectionType, ScopeType};
use vstd::prelude::*;

verus! {

/// What the scan found out about one function.
#[derive(Debug)]
pub struct FunctionInfo {
    pub name: String,
    /// Whether the function is exposed
    pub is_public: bool,
    /// Whether it is a trait implementation
    pub is_trait_impl: bool,
    /// Whether it initializes the contract
    pub is_init: bool,
    /// Whether it accepts an attached value
    pub is_payable: bool,
    /// Whether it only reads the state
    pub is_view: bool,
    /// Whether it can modify the state
    pub is_mutable: bool,
    /// Whether it returns no value
    pub is_process: bool,
    /// Whether it only accepts calls from the contract itself
    pub is_private_cccalls: bool,
    /// Whether it is declared outside every exposed block
    pub is_out_of_contract_scope: bool,
    /// Whether it belongs to the event marker type
    pub is_event: bool,
    /// The known functions it calls, once resolved
    pub inner_calls: Option<Vec<FunctionInfo>>,
}

/// The value of a function record, without its resolved calls.
pub struct FunctionInfoV {
    pub name: Seq<char>,
    pub is_public: bool,
    pub is_trait_impl: bool,
    pub is_init: bool,
    pub is_payable: bool,
    pub is_view: bool,
    pub is_mutable: bool,
    pub is_process: bool,
    pub is_private_cccalls: bool,
    pub is_out_of_contract_scope: bool,
    pub is_event: bool,
}

impl View for FunctionInfo {
    type V = FunctionInfoV;

    open spec fn view(&self) -> FunctionInfoV {
        FunctionInfoV {
            name: self.name@,
            is_public: self.is_public,
            is_trait_impl: self.is_trait_impl,
            is_init: self.is_init,
            is_payable: self.is_payable,
            is_view: self.is_view,
            is_mutable: self.is_mutable,
            is_process: self.is_process,
            is_private_cccalls: self.is_private_cccalls,
            is_out_of_contract_scope: self.is_out_of_contract_scope,
            is_event: self.is_event,
        }
    }
}

/// The values of a sequence of function records.
pub open spec fn infos_view(fs: Seq<FunctionInfo>) -> Seq<FunctionInfoV> {
    fs.map_values(|f: FunctionInfo| f@)
}

/// The resolved calls of a record, as values.
pub open spec fn inner_calls_view(f: FunctionInfo) -> Option<Seq<FunctionInfoV>> {
    match f.inner_calls {
        Some(v) => Some(infos_view(v@)),
        None => None,
    }
}

/// The scope a function is drawn with.
pub open spec fn scope_of(f: FunctionInfoV) -> ScopeType {
    if f.is_public && !f.is_init && !f.is_payable {
        ScopeType::Public
    } else if !f.is_public {
        ScopeType::Private
    } else if f.is_trait_impl {
        ScopeType::Trait
    } else if f.is_init {
        ScopeType::Initializer
    } else {
        ScopeType::Payable
    }
}

/// The action a function is drawn with.
pub open spec fn action_of(f: FunctionInfoV) -> ActionType {
    if f.is_event {
        ActionType::Event
    } else if f.is_mutable {
        ActionType::Mutation
    } else if f.is_process {
        ActionType::Process
    } else if f.is_view {
        ActionType::View
    } else {
        ActionType::NoAction
    }
}

/// How a call reaches a function.
pub open spec fn connection_type_of(f: FunctionInfoV) -> ConnectionType {
    if f.is_event {
        ConnectionType::Emission
    } else if f.is_trait_impl {
        ConnectionType::CrossContractConnection
    } else {
        ConnectionType::DirectConnection
    }
}

/// A record with the given name whose facets are all unset.
pub open spec fn blank_info(name: Seq<char>) -> FunctionInfoV {
    FunctionInfoV {
        name,
        is_public: false,
        is_trait_impl: false,
        is_init: false,
        is_payable: false,
        is_view: false,
        is_mutable: false,
        is_process: false,
        is_private_cccalls: false,
        is_out_of_contract_scope: false,
        is_event: false,
    }
}

impl FunctionInfo {
    /// A record with the given name whose facets are all unset.
    pub fn named(name: String) -> (r: FunctionInfo)
        ensures
            r@ == blank_info(name@),
            r.inner_calls is None,
    {
        FunctionInfo {
            name,
            is_public: false,
            is_trait_impl: false,
            is_init: false,
            is_payable: false,
            is_view: false,
            is_mutable: false,
            is_process: false,
            is_private_cccalls: false,
            is_out_of_contract_scope: false,
            is_event: false,
            inner_calls: None,
        }
    }

    /// A copy of the record without its resolved calls.
    pub fn flat_copy(&self) -> (r: FunctionInfo)
        ensures
            r@ == self@,
            r.inner_calls is None,
    {
        FunctionInfo {
            name: self.name.clone(),
            is_public: self.is_public,
            is_trait_impl: self.is_trait_impl,
            is_init: self.is_init,
            is_payable: self.is_payable,
            is_view: self.is_view,
            is_mutable: self.is_mutable,
            is_process: self.is_process,
            is_private_cccalls: self.is_private_cccalls,
            is_out_of_contract_scope: self.is_out_of_contract_scope,
            is_event: self.is_event,
            inner_calls: None,
        }
    }

    pub fn scope_type(&self) -> (r: ScopeType)
        ensures
            r == scope_of(self@),
    {
        if self.is_public && !self.is_init && !self.is_payable {
            ScopeType::Public
        } else if !self.is_public {
            ScopeType::Private
        } else if self.is_trait_impl {
            ScopeType::Trait
        } else if self.is_init {
            ScopeType::Initializer
        } else {
            ScopeType::Payable
        }
    }

    pub fn action_type(&self) -> (r: ActionType)
        ensures
            r == action_of(self@),
    {
        if self.is_event {
            ActionType::Event
        } else if self.is_mutable {
            ActionType::Mutation
        } else if self.is_process {
            ActionType::Process
        } else if self.is_view {
            ActionType::View
        } else {
            ActionType::NoAction
        }
    }

    pub fn connection_type(&self) -> (r: ConnectionType)
        ensures
            r == connection_type_of(self@),
    {
        if self.is_event {
            ConnectionType::Emission
        } else if self.is_trait_impl {
            ConnectionType::CrossContractConnection
        } else {
            ConnectionType::DirectConnection
        }
    }
}

} // verus!
