//! The classified hierarchy: nodes for functions and the connections between
//! them, owned as a tree.
use vstd::prelude::*;

verus! {

/// Who may call a function.
#[derive(Debug, Clone, Copy, PartialEq, Eq)]
pub enum ScopeType {
    Private,
    Public,
    Trait,
    Payable,
    Initializer,
    Contract,
}

/// What a function does to the state.
#[derive(Debug, Clone, Copy, PartialEq, Eq)]
pub enum ActionType {
    Mutation,
    View,
    Process,
    Event,
    /// No action could be told; written `None` in the markup.
    NoAction,
}

/// How a caller reaches its callee.
#[derive(Debug, Clone, Copy, PartialEq, Eq)]
pub enum ConnectionType {
    DirectConnection,
    CrossContractConnection,
    Emission,
}

impl ScopeType {
    pub open spec fn name(self) -> Seq<char> {
        match self {
            ScopeType::Private => "Private"@,
            ScopeType::Public => "Public"@,
            ScopeType::Trait => "Trait"@,
            ScopeType::Payable => "Payable"@,
            ScopeType::Initializer => "Initializer"@,
            ScopeType::Contract => "Contract"@,
        }
    }

    pub fn as_str(&self) -> (r: &'static str)
        ensures
            r@ == self.name(),
    {
        match self {
            ScopeType::Private => "Private",
            ScopeType::Public => "Public",
            ScopeType::Trait => "Trait",
            ScopeType::Payable => "Payable",
            ScopeType::Initializer => "Initializer",
            ScopeType::Contract => "Contract",
        }
    }
}

impl ActionType {
    pub open spec fn name(self) -> Seq<char> {
        match self {
            ActionType::Mutation => "Mutation"@,
            ActionType::View => "View"@,
            ActionType::Process => "Process"@,
            ActionType::Event => "Event"@,
            ActionType::NoAction => "None"@,
        }
    }

    pub fn as_str(&self) -> (r: &'static str)
        ensures
            r@ == self.name(),
    {
        match self {
            ActionType::Mutation => "Mutation",
            ActionType::View => "View",
            ActionType::Process => "Process",
            ActionType::Event => "Event",
            ActionType::NoAction => "None",
        }
    }
}

/// A function in the hierarchy, with the calls it makes.
pub struct Node {
    pub name: String,
    pub scope: ScopeType,
    pub action: ActionType,
    pub connections: Vec<Connection>,
}

/// A call from the node that owns it to the node it holds.
pub struct Connection {
    pub connection_type: ConnectionType,
    pub node: Node,
}

/// The value of a node.
pub struct NodeV {
    pub name: Seq<char>,
    pub scope: ScopeType,
    pub action: ActionType,
    pub connections: Seq<ConnV>,
}

/// The value of a connection.
pub struct ConnV {
    pub connection_type: ConnectionType,
    pub node: NodeV,
}

pub open spec fn node_view(n: Node) -> NodeV
    decreases n,
{
    NodeV {
        name: n.name@,
        scope: n.scope,
        action: n.action,
        connections: conns_view(n.connections@),
    }
}

pub open spec fn conns_view(cs: Seq<Connection>) -> Seq<ConnV>
    decreases cs,
{
    if cs.len() == 0 {
        Seq::empty()
    } else {
        seq![ConnV { connection_type: cs[0].connection_type, node: node_view(cs[0].node) }]
            + conns_view(cs.subrange(1, cs.len() as int))
    }
}

impl View for Node {
    type V = NodeV;

    open spec fn view(&self) -> NodeV {
        node_view(*self)
    }
}

impl View for Connection {
    type V = ConnV;

    open spec fn view(&self) -> ConnV {
        ConnV { connection_type: self.connection_type, node: node_view(self.node) }
    }
}

} // verus!
