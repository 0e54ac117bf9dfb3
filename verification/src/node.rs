//! Service node identity, advertised state and capabilities.

use vstd::prelude::*;

use crate::foundation::Metadata;

verus! {

/// The stable identifier of one server process.
#[derive(Clone, Copy, Debug, PartialEq, Eq, Hash, Structural)]
pub struct NodeId {
    pub value: u128,
}

impl NodeId {
    /// The identifier with the given numeric value.
    pub fn from_u128(value: u128) -> (id: Self)
        ensures
            id.value == value,
    {
        NodeId { value }
    }
}

/// The state a node advertises to the registry.
#[derive(Clone, Copy, Debug, PartialEq, Eq, Hash, Structural)]
pub enum NodeState {
    Starting,
    Ready,
    Draining,
    Offline,
}

/// A named capability a node offers.
#[derive(Debug, PartialEq, Eq)]
pub struct Capability {
    pub name: String,
}

impl View for Capability {
    type V = Seq<char>;

    open spec fn view(&self) -> Seq<char> {
        self.name@
    }
}

impl Capability {
    /// The capability with the given name.
    pub fn new(name: &str) -> (c: Self)
        ensures
            c@ == name@,
    {
        Capability { name: name.to_owned() }
    }

    /// The capability's name.
    pub fn as_str(&self) -> (s: &str)
        ensures
            s@ == self@,
    {
        self.name.as_str()
    }
}

impl Clone for Capability {
    fn clone(&self) -> (c: Self)
        ensures
            c@ == self@,
    {
        Capability { name: self.name.clone() }
    }
}

/// The abstract content of a node record.
pub struct NodeView {
    pub id: u128,
    pub metadata: Seq<(Seq<char>, Seq<char>)>,
    pub state: NodeState,
    pub capabilities: Seq<Seq<char>>,
}

/// The abstract content of a list of capabilities.
pub open spec fn capability_names(c: Seq<Capability>) -> Seq<Seq<char>> {
    c.map_values(|x: Capability| x@)
}

/// What a node advertises about itself to the registry.
#[derive(Debug, PartialEq, Eq)]
pub struct Node {
    pub id: NodeId,
    pub metadata: Metadata,
    pub state: NodeState,
    pub capabilities: Vec<Capability>,
}

impl View for Node {
    type V = NodeView;

    open spec fn view(&self) -> NodeView {
        NodeView {
            id: self.id.value,
            metadata: self.metadata@,
            state: self.state,
            capabilities: capability_names(self.capabilities@),
        }
    }
}

/// Copies a list of capabilities.
pub fn copy_capabilities(c: &Vec<Capability>) -> (out: Vec<Capability>)
    ensures
        capability_names(out@) == capability_names(c@),
{
    let mut out: Vec<Capability> = Vec::new();
    let mut i: usize = 0;
    while i < c.len()
        invariant
            i <= c.len(),
            capability_names(out@) == capability_names(c@).subrange(0, i as int),
        decreases c.len() - i,
    {
        let ghost before = out@;
        out.push(c[i].clone());
        assert(capability_names(out@) =~= capability_names(before).push(c@[i as int]@));
        assert(capability_names(c@).subrange(0, i + 1) =~= capability_names(c@).subrange(
            0,
            i as int,
        ).push(c@[i as int]@));
        i = i + 1;
    }
    assert(capability_names(c@).subrange(0, c.len() as int) =~= capability_names(c@));
    out
}

impl Node {
    /// A node record made of the given parts.
    pub fn new(id: NodeId, metadata: Metadata, state: NodeState, capabilities: Vec<Capability>) -> (n: Self)
        ensures
            n@ == (NodeView {
                id: id.value,
                metadata: metadata@,
                state,
                capabilities: capability_names(capabilities@),
            }),
    {
        Node { id, metadata, state, capabilities }
    }

    /// The node's identifier.
    pub fn id(&self) -> (r: &NodeId)
        ensures
            r.value == self@.id,
    {
        &self.id
    }

    /// The node's metadata.
    pub fn metadata(&self) -> (r: &Metadata)
        ensures
            r@ == self@.metadata,
    {
        &self.metadata
    }

    /// The state the node advertises.
    pub fn state(&self) -> (r: NodeState)
        ensures
            r == self@.state,
    {
        self.state
    }

    /// The capabilities the node offers.
    pub fn capabilities(&self) -> (r: &[Capability])
        ensures
            capability_names(r@) == self@.capabilities,
    {
        self.capabilities.as_slice()
    }

    /// The same node advertising `state`.
    pub fn with_state(&self, state: NodeState) -> (n: Node)
        ensures
            n@ == (NodeView { state, ..self@ }),
    {
        Node {
            id: self.id,
            metadata: self.metadata.clone(),
            state,
            capabilities: copy_capabilities(&self.capabilities),
        }
    }
}

impl Clone for Node {
    fn clone(&self) -> (n: Self)
        ensures
            n@ == self@,
    {
        self.with_state(self.state)
    }
}

} // verus!
