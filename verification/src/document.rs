//! The document that paint servers live in, as far as resolving them needs it:
//! an arena of nodes, each with an optional identifier, an optional element
//! and a list of children.
//!
//! Nodes are referred to in two ways. A `NodeHandle` is a position in the
//! arena; it keeps no node alive and is only meaningful for the document it
//! came from. An identifier is the text by which one element names another.

use crate::gradient::Gradient;
use crate::gradient::NodeStop;
use crate::pattern::Pattern;
use vstd::prelude::*;

verus! {

/// The largest number of elements that may be looked up by reference while
/// one document is rendered.
pub const MAX_REFERENCED_ELEMENTS: usize = 500_000;

/// The position of a node in its document's arena.
#[derive(Debug, Clone, Copy, PartialEq, Eq, Structural)]
pub struct NodeHandle(pub usize);

/// What a node is, where it is an element.
#[derive(Debug)]
pub enum Element {
    Pattern(Pattern),
    /// A linear or radial gradient, with the attributes that it states.
    Gradient(Gradient),
    /// A colour stop of a gradient.
    Stop(NodeStop),
    /// Any other element.
    Other,
}

/// A node of the document.
#[derive(Debug)]
pub struct NodeData {
    /// The identifier by which other elements refer to this node.
    pub id: Option<String>,
    /// The element, or nothing for character data and the like.
    pub element: Option<Element>,
    /// The children, in document order.
    pub children: Vec<NodeHandle>,
    /// Whether the node's attributes could not be read.
    pub in_error: bool,
}

/// A document: its nodes, each at the position that its handle names.
#[derive(Debug)]
pub struct Document {
    pub nodes: Vec<NodeData>,
}

/// Why a reference to a node could not be followed.
#[derive(Debug, Clone, PartialEq, Eq)]
pub enum AcquireError {
    /// No node carries the identifier.
    LinkNotFound(String),
    /// The identifier names a node of the wrong kind.
    InvalidLinkType(String),
    /// The chain of references comes back to a node it has already visited.
    CircularReference(NodeHandle),
    /// More elements were looked up than the limit allows.
    MaxReferencesExceeded,
}

/// The nodes visited while one chain of references is followed.
#[derive(Debug, Clone)]
pub struct NodeStack(pub Vec<NodeHandle>);

/// Looks nodes up by identifier on behalf of one rendering, and counts the
/// lookups against a limit.
#[derive(Debug, Clone)]
pub struct AcquiredNodes<'i> {
    pub document: &'i Document,
    pub num_elements_acquired: usize,
    pub max_references: usize,
}

impl Document {
    /// Whether `node` is a node of this document.
    pub open spec fn contains(self, node: NodeHandle) -> bool {
        node.0 < self.nodes.len()
    }

    /// The element at `node`, if `node` is in the document and is an element.
    pub open spec fn spec_element(self, node: NodeHandle) -> Option<Element> {
        if self.contains(node) {
            self.nodes[node.0 as int].element
        } else {
            None
        }
    }

    /// Whether `node` is in this document and its attributes could not be read.
    pub open spec fn spec_is_in_error(self, node: NodeHandle) -> bool {
        self.contains(node) && self.nodes[node.0 as int].in_error
    }

    /// The children of `node`, or none where `node` is not in this document.
    pub open spec fn spec_children(self, node: NodeHandle) -> Seq<NodeHandle> {
        if self.contains(node) {
            self.nodes[node.0 as int].children@
        } else {
            Seq::empty()
        }
    }

    /// Whether `node` is an element of this document.
    pub open spec fn spec_is_element(self, node: NodeHandle) -> bool {
        self.spec_element(node) is Some
    }

    /// Whether the node at position `i` carries the identifier `id`.
    pub open spec fn has_id(self, i: int, id: Seq<char>) -> bool {
        &&& 0 <= i < self.nodes.len()
        &&& self.nodes[i].id matches Some(name)
        &&& name@ == id
    }

    /// Whether the node at position `i` is the first to carry `id`.
    pub open spec fn is_first_with_id(self, i: int, id: Seq<char>) -> bool {
        &&& self.has_id(i, id)
        &&& forall|j: int| 0 <= j < i ==> !self.has_id(j, id)
    }

    /// The first node that carries the identifier `id`, if any does.
    pub open spec fn spec_lookup_node(self, id: Seq<char>) -> Option<NodeHandle> {
        if exists|i: int| self.is_first_with_id(i, id) {
            Some(NodeHandle((choose|i: int| self.is_first_with_id(i, id)) as usize))
        } else {
            None
        }
    }

    /// Whether one of the children of `node` is an element.
    pub open spec fn has_element_children(self, node: NodeHandle) -> bool {
        &&& self.contains(node)
        &&& exists|k: int|
            0 <= k < self.nodes[node.0 as int].children.len() && self.spec_is_element(
                #[trigger] self.nodes[node.0 as int].children[k],
            )
    }

    /// A document without nodes.
    pub fn new() -> (document: Document)
        ensures
            document.nodes@ == Seq::<NodeData>::empty(),
    {
        Document { nodes: Vec::new() }
    }

    /// Adds a node at the end of the arena and returns its handle.
    pub fn add_node(&mut self, data: NodeData) -> (node: NodeHandle)
        ensures
            node.0 == old(self).nodes.len(),
            final(self).nodes@ == old(self).nodes@.push(data),
    {
        let index: usize = self.nodes.len();
        self.nodes.push(data);
        NodeHandle(index)
    }

    /// The element at `node`.
    pub fn element(&self, node: NodeHandle) -> (element: Option<&Element>)
        ensures
            match element {
                Some(e) => self.spec_element(node) == Some(*e),
                None => self.spec_element(node) is None,
            },
    {
        if node.0 < self.nodes.len() {
            self.nodes[node.0].element.as_ref()
        } else {
            None
        }
    }

    /// Whether `node` is in this document and its attributes could not be read.
    pub fn is_in_error(&self, node: NodeHandle) -> (yes: bool)
        ensures
            yes == self.spec_is_in_error(node),
    {
        node.0 < self.nodes.len() && self.nodes[node.0].in_error
    }

    /// Whether `node` is an element of this document.
    pub fn is_element(&self, node: NodeHandle) -> (yes: bool)
        ensures
            yes == self.spec_is_element(node),
    {
        if node.0 < self.nodes.len() {
            self.nodes[node.0].element.is_some()
        } else {
            false
        }
    }

    /// The first node that carries the identifier `id`.
    pub fn lookup_node(&self, id: &String) -> (found: Option<NodeHandle>)
        ensures
            found == self.spec_lookup_node(id@),
    {
        let mut i: usize = 0;
        while i < self.nodes.len()
            invariant
                i <= self.nodes.len(),
                forall|j: int| 0 <= j < i ==> !self.has_id(j, id@),
            decreases self.nodes.len() - i,
        {
            let carries = match &self.nodes[i].id {
                Some(name) => *name == *id,
                None => false,
            };
            if carries {
                proof {
                    lemma_first_with_id_is_unique(*self, i as int, id@);
                }
                return Some(NodeHandle(i));
            }
            i = i + 1;
        }
        None
    }
}

/// At most one node is the first to carry an identifier.
pub proof fn lemma_first_with_id_is_unique(document: Document, i: int, id: Seq<char>)
    requires
        document.is_first_with_id(i, id),
    ensures
        document.spec_lookup_node(id) == Some(NodeHandle(i as usize)),
{
    let c = choose|k: int| document.is_first_with_id(k, id);
    assert(document.is_first_with_id(c, id));
    if c < i {
        assert(!document.has_id(c, id));
    }
    if i < c {
        assert(!document.has_id(i, id));
    }
}

impl NodeStack {
    pub fn new() -> (stack: NodeStack)
        ensures
            stack.0@ == Seq::<NodeHandle>::empty(),
    {
        NodeStack(Vec::new())
    }

    pub fn push(&mut self, node: NodeHandle)
        ensures
            final(self).0@ == old(self).0@.push(node),
    {
        self.0.push(node);
    }

    /// Whether `node` has been pushed.
    pub fn contains(&self, node: NodeHandle) -> (found: bool)
        ensures
            found == self.0@.contains(node),
    {
        let mut i: usize = 0;
        while i < self.0.len()
            invariant
                i <= self.0.len(),
                forall|j: int| 0 <= j < i ==> self.0@[j] != node,
            decreases self.0.len() - i,
        {
            if self.0[i] == node {
                return true;
            }
            i = i + 1;
        }
        false
    }
}

impl<'i> AcquiredNodes<'i> {
    /// What looking up `id` gives, where the limit has not been reached: the
    /// first node that carries the identifier, provided that it is an
    /// element.
    pub open spec fn spec_lookup(self, id: String) -> Result<NodeHandle, AcquireError> {
        match self.document.spec_lookup_node(id@) {
            None => Err(AcquireError::LinkNotFound(id)),
            Some(node) => if self.document.spec_is_element(node) {
                Ok(node)
            } else {
                Err(AcquireError::InvalidLinkType(id))
            },
        }
    }

    /// What acquiring `id` gives.
    pub open spec fn spec_acquire(self, id: String) -> Result<NodeHandle, AcquireError> {
        if self.num_elements_acquired >= self.max_references {
            Err(AcquireError::MaxReferencesExceeded)
        } else {
            self.spec_lookup(id)
        }
    }

    /// The state after one more call of `acquire`: the call is counted unless
    /// the limit had been reached.
    pub open spec fn after_acquire(self) -> AcquiredNodes<'i> {
        if self.num_elements_acquired >= self.max_references {
            self
        } else {
            AcquiredNodes {
                document: self.document,
                num_elements_acquired: (self.num_elements_acquired + 1) as usize,
                max_references: self.max_references,
            }
        }
    }

    /// Starts counting at zero, with the usual limit.
    pub fn new(document: &'i Document) -> (acquired: AcquiredNodes<'i>)
        ensures
            acquired.document == document,
            acquired.num_elements_acquired == 0,
            acquired.max_references == MAX_REFERENCED_ELEMENTS,
    {
        AcquiredNodes { document, num_elements_acquired: 0, max_references: MAX_REFERENCED_ELEMENTS }
    }

    /// Starts counting at zero, with a limit of `max_references` lookups.
    pub fn with_limit(document: &'i Document, max_references: usize) -> (acquired: AcquiredNodes<
        'i,
    >)
        ensures
            acquired.document == document,
            acquired.num_elements_acquired == 0,
            acquired.max_references == max_references,
    {
        AcquiredNodes { document, num_elements_acquired: 0, max_references }
    }

    /// Looks up the element that `node_id` names.
    ///
    /// Fails with `MaxReferencesExceeded` once `max_references` lookups have
    /// been made, with `LinkNotFound` where no node carries the identifier,
    /// and with `InvalidLinkType` where the node is not an element.
    pub fn acquire(&mut self, node_id: &String) -> (acquired: Result<NodeHandle, AcquireError>)
        ensures
            acquired == old(self).spec_acquire(*node_id),
            *final(self) == old(self).after_acquire(),
    {
        if self.num_elements_acquired >= self.max_references {
            return Err(AcquireError::MaxReferencesExceeded);
        }
        self.num_elements_acquired = self.num_elements_acquired + 1;
        match self.document.lookup_node(node_id) {
            None => Err(AcquireError::LinkNotFound(node_id.clone())),
            Some(node) => {
                if self.document.is_element(node) {
                    Ok(node)
                } else {
                    Err(AcquireError::InvalidLinkType(node_id.clone()))
                }
            },
        }
    }
}

} // verus!
