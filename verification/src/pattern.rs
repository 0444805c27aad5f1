//! The `pattern` element: how a pattern that leaves attributes out is
//! completed from the patterns it refers to, and how a completed pattern is
//! laid out for an object that it paints.

use crate::coord_units::CoordUnits;
use crate::coord_units::Frame;
use crate::coord_units::PatternContentUnits;
use crate::coord_units::PatternUnits;
use crate::document::AcquireError;
use crate::document::AcquiredNodes;
use crate::document::Document;
use crate::document::Element;
use crate::document::NodeHandle;
use crate::document::NodeStack;
use crate::geometry::AspectRatio;
use crate::geometry::BoundingBox;
use crate::geometry::Transform;
use crate::geometry::ViewBox;
use crate::length::Length;
use crate::length::LengthDir;
use crate::util::clone_fallback_name;
use crate::util::fallback_to;
use crate::util::spec_fallback_to;
use once_cell::sync::OnceCell;
use vstd::prelude::*;

verus! {

/// The attributes of a pattern, each of them stated or not.
#[derive(Debug, Clone, Copy, PartialEq, Eq, Structural)]
pub struct Common {
    pub units: Option<PatternUnits>,
    pub content_units: Option<PatternContentUnits>,
    /// Not stated; or stated, and then either absent or present.
    pub vbox: Option<Option<ViewBox>>,
    pub preserve_aspect_ratio: Option<AspectRatio>,
    pub transform: Option<Transform>,
    pub x: Option<Length>,
    pub y: Option<Length>,
    pub width: Option<Length>,
    pub height: Option<Length>,
}

/// A pattern while it is being resolved, with the reference that is to be
/// followed next.
#[derive(Debug, Clone)]
pub struct Unresolved {
    pub pattern: UnresolvedPattern,
    pub fallback: Option<String>,
}

/// Which node provides the content of a pattern, while the pattern is being
/// resolved.
#[derive(Debug, Clone, Copy, PartialEq, Eq, Structural)]
pub enum UnresolvedChildren {
    /// No node with child elements has been found so far.
    Unresolved,
    /// No node in the whole chain of references has child elements.
    ResolvedEmpty,
    /// The node whose child elements are the content.
    WithChildren(NodeHandle),
}

/// Which node provides the content of a resolved pattern.
#[derive(Debug, Clone, Copy, PartialEq, Eq, Structural)]
pub enum Children {
    Empty,
    /// The node whose child elements are the content.
    WithChildren(NodeHandle),
}

/// A pattern while it is being resolved: an attribute that is `None` has not
/// been stated by any pattern looked at so far.
#[derive(Debug, Clone, Copy, PartialEq, Eq, Structural)]
pub struct UnresolvedPattern {
    pub common: Common,
    pub children: UnresolvedChildren,
}

/// A pattern with every attribute in place.
#[derive(Debug, Clone, Copy, PartialEq, Eq, Structural)]
pub struct ResolvedPattern {
    pub units: PatternUnits,
    pub content_units: PatternContentUnits,
    pub vbox: Option<ViewBox>,
    pub preserve_aspect_ratio: AspectRatio,
    pub transform: Transform,
    pub x: Length,
    pub y: Length,
    pub width: Length,
    pub height: Length,
    /// The node whose child elements are the pattern's content.
    pub children: Children,
}

/// What a pattern's content is drawn in.
#[derive(Debug, Clone, Copy, PartialEq, Eq, Structural)]
pub enum ContentFrame {
    /// The view box, fitted into the tile as the aspect ratio rule says.
    ViewBox(ViewBox, AspectRatio),
    /// The coordinate system that the content units name.
    Units(Frame),
}

/// A resolved pattern laid out for one painted object: what the tile
/// rectangle and the transforms of tile and content are to be computed from.
/// The lengths of the tile rectangle are in the frame `tile`.
#[derive(Debug, Clone, Copy, PartialEq, Eq, Structural)]
pub struct UserSpacePattern {
    pub x: Length,
    pub y: Length,
    pub width: Length,
    pub height: Length,
    pub tile: Frame,
    pub transform: Transform,
    pub content: ContentFrame,
    pub node_with_children: NodeHandle,
}

/// A `pattern` element as it stands in the document, with the result of
/// resolving it once that has been done.
#[derive(Debug)]
pub struct Pattern {
    pub common: Common,
    pub fallback: Option<String>,
    pub resolved: OnceCell<ResolvedPattern>,
}

/// `sync::OnceCell` of the `once_cell` crate: a cell that is empty or holds
/// one value.
#[verifier::external_type_specification]
#[verifier::external_body]
#[verifier::reject_recursive_types(T)]
pub struct ExOnceCell<T>(OnceCell<T>);

/// What a cell holds: nothing, or the one value it was given. The wrappers
/// below say of each method what it does to this.
pub uninterp spec fn cell_value(cell: OnceCell<ResolvedPattern>) -> Option<ResolvedPattern>;

/// Calls `OnceCell::new`, which makes a cell that holds nothing.
#[verifier::external_body]
fn cell_new() -> (cell: OnceCell<ResolvedPattern>)
    ensures
        cell_value(cell) is None,
{
    OnceCell::new()
}

/// Calls `OnceCell::get`, which gives what the cell holds, and copies it.
#[verifier::external_body]
fn cell_get(cell: &OnceCell<ResolvedPattern>) -> (value: Option<ResolvedPattern>)
    ensures
        value == cell_value(*cell),
{
    cell.get().copied()
}

/// Calls `OnceCell::set`, which gives `value` to a cell that holds nothing and
/// succeeds, and leaves a cell that holds a value as it is and fails. Returns
/// whether it succeeded.
#[verifier::external_body]
fn cell_set(cell: &mut OnceCell<ResolvedPattern>, value: ResolvedPattern) -> (taken: bool)
    ensures
        taken == (cell_value(*old(cell)) is None),
        cell_value(*final(cell)) == (if taken {
            Some(value)
        } else {
            cell_value(*old(cell))
        }),
{
    cell.set(value).is_ok()
}

impl Common {
    /// The attributes of a pattern that states nothing.
    pub open spec fn spec_default() -> Common {
        Common {
            units: None,
            content_units: None,
            vbox: None,
            preserve_aspect_ratio: None,
            transform: None,
            x: None,
            y: None,
            width: None,
            height: None,
        }
    }

    /// Whether every attribute is stated.
    pub open spec fn spec_is_resolved(self) -> bool {
        &&& self.units is Some
        &&& self.content_units is Some
        &&& self.vbox is Some
        &&& self.preserve_aspect_ratio is Some
        &&& self.transform is Some
        &&& self.x is Some
        &&& self.y is Some
        &&& self.width is Some
        &&& self.height is Some
    }

    /// These attributes, each one that is not stated taken from `fallback`.
    pub open spec fn spec_resolve_from_fallback(self, fallback: Common) -> Common {
        Common {
            units: spec_fallback_to(self.units, fallback.units),
            content_units: spec_fallback_to(self.content_units, fallback.content_units),
            vbox: spec_fallback_to(self.vbox, fallback.vbox),
            preserve_aspect_ratio: spec_fallback_to(
                self.preserve_aspect_ratio,
                fallback.preserve_aspect_ratio,
            ),
            transform: spec_fallback_to(self.transform, fallback.transform),
            x: spec_fallback_to(self.x, fallback.x),
            y: spec_fallback_to(self.y, fallback.y),
            width: spec_fallback_to(self.width, fallback.width),
            height: spec_fallback_to(self.height, fallback.height),
        }
    }

    /// The value of each attribute that no pattern states: the tile in
    /// fractions of the bounding box, the content in user space, no view box,
    /// the view box centred and kept inside, no transform, and a tile of no
    /// size at the origin.
    pub open spec fn defaults() -> Common {
        Common {
            units: Some(PatternUnits(CoordUnits::ObjectBoundingBox)),
            content_units: Some(PatternContentUnits(CoordUnits::UserSpaceOnUse)),
            vbox: Some(None),
            preserve_aspect_ratio: Some(AspectRatio::spec_default()),
            transform: Some(Transform::spec_identity()),
            x: Some(Length::spec_zero(LengthDir::Horizontal)),
            y: Some(Length::spec_zero(LengthDir::Vertical)),
            width: Some(Length::spec_zero(LengthDir::Horizontal)),
            height: Some(Length::spec_zero(LengthDir::Vertical)),
        }
    }

    /// These attributes, each one that is not stated given its default.
    pub open spec fn spec_resolve_from_defaults(self) -> Common {
        self.spec_resolve_from_fallback(Common::defaults())
    }

    pub fn is_resolved(&self) -> (resolved: bool)
        ensures
            resolved == self.spec_is_resolved(),
    {
        self.units.is_some() && self.content_units.is_some() && self.vbox.is_some()
            && self.preserve_aspect_ratio.is_some() && self.transform.is_some() && self.x.is_some()
            && self.y.is_some() && self.width.is_some() && self.height.is_some()
    }

    pub fn resolve_from_fallback(&self, fallback: &Common) -> (merged: Common)
        ensures
            merged == self.spec_resolve_from_fallback(*fallback),
    {
        Common {
            units: fallback_to(self.units, fallback.units),
            content_units: fallback_to(self.content_units, fallback.content_units),
            vbox: fallback_to(self.vbox, fallback.vbox),
            preserve_aspect_ratio: fallback_to(
                self.preserve_aspect_ratio,
                fallback.preserve_aspect_ratio,
            ),
            transform: fallback_to(self.transform, fallback.transform),
            x: fallback_to(self.x, fallback.x),
            y: fallback_to(self.y, fallback.y),
            width: fallback_to(self.width, fallback.width),
            height: fallback_to(self.height, fallback.height),
        }
    }

    pub fn resolve_from_defaults(&self) -> (filled: Common)
        ensures
            filled == self.spec_resolve_from_defaults(),
            filled.spec_is_resolved(),
    {
        Common {
            units: fallback_to(self.units, Some(PatternUnits::default())),
            content_units: fallback_to(self.content_units, Some(PatternContentUnits::default())),
            vbox: fallback_to(self.vbox, Some(None)),
            preserve_aspect_ratio: fallback_to(
                self.preserve_aspect_ratio,
                Some(AspectRatio::default()),
            ),
            transform: fallback_to(self.transform, Some(Transform::default())),
            x: fallback_to(self.x, Some(Length::zero(LengthDir::Horizontal))),
            y: fallback_to(self.y, Some(Length::zero(LengthDir::Vertical))),
            width: fallback_to(self.width, Some(Length::zero(LengthDir::Horizontal))),
            height: fallback_to(self.height, Some(Length::zero(LengthDir::Vertical))),
        }
    }
}

impl Default for Common {
    /// No attribute is stated.
    fn default() -> (common: Common)
        ensures
            common == Common::spec_default(),
    {
        Common {
            units: None,
            content_units: None,
            vbox: None,
            preserve_aspect_ratio: None,
            transform: None,
            x: None,
            y: None,
            width: None,
            height: None,
        }
    }
}

impl UnresolvedChildren {
    /// The node itself where it has a child element, else nothing yet.
    pub open spec fn spec_from_node(document: Document, node: NodeHandle) -> UnresolvedChildren {
        if document.has_element_children(node) {
            UnresolvedChildren::WithChildren(node)
        } else {
            UnresolvedChildren::Unresolved
        }
    }

    pub open spec fn spec_is_resolved(self) -> bool {
        !(self is Unresolved)
    }

    /// Whether `self` can take `fallback` in: one of the two names a node, or
    /// neither has been resolved.
    pub open spec fn can_resolve_from(self, fallback: UnresolvedChildren) -> bool {
        ||| self is WithChildren
        ||| fallback is WithChildren
        ||| (self is Unresolved && fallback is Unresolved)
    }

    /// The node that `self` names, else the one that `fallback` names, else
    /// `self`.
    pub open spec fn spec_resolve_from_fallback(
        self,
        fallback: UnresolvedChildren,
    ) -> UnresolvedChildren {
        if self is WithChildren {
            self
        } else if fallback is WithChildren {
            fallback
        } else {
            self
        }
    }

    pub open spec fn spec_resolve_from_defaults(self) -> UnresolvedChildren {
        if self is Unresolved {
            UnresolvedChildren::ResolvedEmpty
        } else {
            self
        }
    }

    pub open spec fn spec_to_resolved(self) -> Children {
        match self {
            UnresolvedChildren::WithChildren(node) => Children::WithChildren(node),
            _ => Children::Empty,
        }
    }

    /// Looks whether `node` has a child that is an element.
    pub fn from_node(document: &Document, node: NodeHandle) -> (children: UnresolvedChildren)
        ensures
            children == UnresolvedChildren::spec_from_node(*document, node),
    {
        if node.0 >= document.nodes.len() {
            return UnresolvedChildren::Unresolved;
        }
        let kids = &document.nodes[node.0].children;
        let mut k: usize = 0;
        while k < kids.len()
            invariant
                document.contains(node),
                kids == &document.nodes[node.0 as int].children,
                k <= kids.len(),
                forall|j: int| 0 <= j < k ==> !document.spec_is_element(#[trigger] kids[j]),
            decreases kids.len() - k,
        {
            if document.is_element(kids[k]) {
                return UnresolvedChildren::WithChildren(node);
            }
            k = k + 1;
        }
        UnresolvedChildren::Unresolved
    }

    pub fn is_resolved(&self) -> (resolved: bool)
        ensures
            resolved == self.spec_is_resolved(),
    {
        !matches!(*self, UnresolvedChildren::Unresolved)
    }

    /// If either side names a node, that node; the own one first. If neither
    /// has been resolved, the result has not been either.
    pub fn resolve_from_fallback(&self, fallback: &UnresolvedChildren) -> (merged:
        UnresolvedChildren)
        requires
            self.can_resolve_from(*fallback),
        ensures
            merged == self.spec_resolve_from_fallback(*fallback),
    {
        match (self, fallback) {
            (UnresolvedChildren::WithChildren(wc), _) => UnresolvedChildren::WithChildren(*wc),
            (_, UnresolvedChildren::WithChildren(wc)) => UnresolvedChildren::WithChildren(*wc),
            (_, _) => UnresolvedChildren::Unresolved,
        }
    }

    /// What has not been resolved becomes empty.
    pub fn resolve_from_defaults(&self) -> (filled: UnresolvedChildren)
        ensures
            filled == self.spec_resolve_from_defaults(),
            filled.spec_is_resolved(),
    {
        match *self {
            UnresolvedChildren::Unresolved => UnresolvedChildren::ResolvedEmpty,
            _ => *self,
        }
    }

    pub fn to_resolved(&self) -> (children: Children)
        requires
            self.spec_is_resolved(),
        ensures
            children == self.spec_to_resolved(),
    {
        match *self {
            UnresolvedChildren::WithChildren(wc) => Children::WithChildren(wc),
            _ => Children::Empty,
        }
    }
}

impl UnresolvedPattern {
    pub open spec fn spec_is_resolved(self) -> bool {
        self.common.spec_is_resolved() && self.children.spec_is_resolved()
    }

    pub open spec fn spec_into_resolved(self) -> ResolvedPattern {
        ResolvedPattern {
            units: self.common.units.unwrap(),
            content_units: self.common.content_units.unwrap(),
            vbox: self.common.vbox.unwrap(),
            preserve_aspect_ratio: self.common.preserve_aspect_ratio.unwrap(),
            transform: self.common.transform.unwrap(),
            x: self.common.x.unwrap(),
            y: self.common.y.unwrap(),
            width: self.common.width.unwrap(),
            height: self.common.height.unwrap(),
            children: self.children.spec_to_resolved(),
        }
    }

    pub open spec fn spec_resolve_from_fallback(self, fallback: UnresolvedPattern) -> UnresolvedPattern {
        UnresolvedPattern {
            common: self.common.spec_resolve_from_fallback(fallback.common),
            children: self.children.spec_resolve_from_fallback(fallback.children),
        }
    }

    pub open spec fn spec_resolve_from_defaults(self) -> UnresolvedPattern {
        UnresolvedPattern {
            common: self.common.spec_resolve_from_defaults(),
            children: self.children.spec_resolve_from_defaults(),
        }
    }

    /// The pattern with every attribute taken out of its `Option`.
    pub fn into_resolved(self) -> (resolved: ResolvedPattern)
        requires
            self.spec_is_resolved(),
        ensures
            resolved == self.spec_into_resolved(),
    {
        ResolvedPattern {
            units: self.common.units.unwrap(),
            content_units: self.common.content_units.unwrap(),
            vbox: self.common.vbox.unwrap(),
            preserve_aspect_ratio: self.common.preserve_aspect_ratio.unwrap(),
            transform: self.common.transform.unwrap(),
            x: self.common.x.unwrap(),
            y: self.common.y.unwrap(),
            width: self.common.width.unwrap(),
            height: self.common.height.unwrap(),
            children: self.children.to_resolved(),
        }
    }

    /// Whether every attribute is stated and the content has been settled.
    pub fn is_resolved(&self) -> (resolved: bool)
        ensures
            resolved == self.spec_is_resolved(),
    {
        self.common.is_resolved() && self.children.is_resolved()
    }

    /// Takes from `fallback` each attribute that is not stated here. What is
    /// stated here stays.
    pub fn resolve_from_fallback(&self, fallback: &UnresolvedPattern) -> (merged: UnresolvedPattern)
        requires
            self.children.can_resolve_from(fallback.children),
        ensures
            merged == self.spec_resolve_from_fallback(*fallback),
    {
        UnresolvedPattern {
            common: self.common.resolve_from_fallback(&fallback.common),
            children: self.children.resolve_from_fallback(&fallback.children),
        }
    }

    /// Gives each attribute that is not stated its default, and settles the
    /// content as empty where no node has been found for it.
    pub fn resolve_from_defaults(&self) -> (filled: UnresolvedPattern)
        ensures
            filled == self.spec_resolve_from_defaults(),
            filled.spec_is_resolved(),
    {
        UnresolvedPattern {
            common: self.common.resolve_from_defaults(),
            children: self.children.resolve_from_defaults(),
        }
    }
}

impl ResolvedPattern {
    pub open spec fn spec_node_with_children(self) -> Option<NodeHandle> {
        match self.children {
            Children::Empty => None,
            Children::WithChildren(node) => Some(node),
        }
    }

    /// What the content is drawn in: the view box where there is one, else the
    /// frame of the content units, which needs a bounding box where the units
    /// refer to one.
    pub open spec fn spec_content_frame(self, bbox: BoundingBox) -> Option<ContentFrame> {
        match self.vbox {
            Some(vbox) => Some(ContentFrame::ViewBox(vbox, self.preserve_aspect_ratio)),
            None => match self.content_units.0.spec_frame(bbox) {
                Some(frame) => Some(ContentFrame::Units(frame)),
                None => None,
            },
        }
    }

    /// The layout for an object with the bounding box `bbox`. There is none
    /// where the pattern has no content, and none where the tile or the
    /// content is measured against a bounding box that the object lacks.
    pub open spec fn spec_to_user_space(self, bbox: BoundingBox) -> Option<UserSpacePattern> {
        match (
            self.spec_node_with_children(),
            self.units.0.spec_frame(bbox),
            self.spec_content_frame(bbox),
        ) {
            (Some(node), Some(tile), Some(content)) => Some(
                UserSpacePattern {
                    x: self.x,
                    y: self.y,
                    width: self.width,
                    height: self.height,
                    tile,
                    transform: self.transform,
                    content,
                    node_with_children: node,
                },
            ),
            _ => None,
        }
    }

    /// The node whose child elements are the content, if there is content.
    pub fn node_with_children(&self) -> (node: Option<NodeHandle>)
        ensures
            node == self.spec_node_with_children(),
    {
        match self.children {
            Children::Empty => None,
            Children::WithChildren(wc) => Some(wc),
        }
    }

    /// Lays the pattern out for an object with the bounding box `bbox`.
    ///
    /// Returns `None`, which stands for nothing to paint, exactly where the
    /// pattern has no content, or where its tile or its content is measured
    /// against the bounding box and the object has none.
    pub fn to_user_space(&self, bbox: &BoundingBox) -> (layout: Option<UserSpacePattern>)
        ensures
            layout == self.spec_to_user_space(*bbox),
            self.children is Empty ==> layout is None,
            layout is None <==> (self.children is Empty || (bbox.rect is None && (self.units.0
                is ObjectBoundingBox || (self.vbox is None && self.content_units.0
                is ObjectBoundingBox)))),
    {
        let node_with_children = match self.node_with_children() {
            Some(node) => node,
            None => { return None; },
        };
        let tile = match self.units.0.frame(bbox) {
            Some(frame) => frame,
            None => { return None; },
        };
        let content = match self.vbox {
            Some(vbox) => ContentFrame::ViewBox(vbox, self.preserve_aspect_ratio),
            None => match self.content_units.0.frame(bbox) {
                Some(frame) => ContentFrame::Units(frame),
                None => { return None; },
            },
        };
        Some(
            UserSpacePattern {
                x: self.x,
                y: self.y,
                width: self.width,
                height: self.height,
                tile,
                transform: self.transform,
                content,
                node_with_children,
            },
        )
    }
}

/// What resolving gives, and the state in which it leaves the lookups.
///
/// `pattern` is what has been put together so far, `fallback` the reference to
/// follow next, `stack` the nodes followed so far. A pattern that is complete
/// is the result. One that is not and has no reference left is completed from
/// the defaults; so is one whose reference names no node, or a node that is
/// not an element. A reference to a node that has been followed before is an
/// error, and so is one to an element that is no pattern, and one that would
/// be a lookup beyond the limit. A reference to a pattern not seen before
/// adds what that pattern states and goes on with that pattern's reference.
pub open spec fn spec_resolve_chain(
    acquired: AcquiredNodes,
    pattern: UnresolvedPattern,
    fallback: Option<String>,
    stack: Seq<NodeHandle>,
) -> (Result<ResolvedPattern, AcquireError>, AcquiredNodes)
    decreases acquired.max_references - acquired.num_elements_acquired,
{
    if pattern.spec_is_resolved() {
        (Ok(pattern.spec_into_resolved()), acquired)
    } else {
        match fallback {
            None => (Ok(pattern.spec_resolve_from_defaults().spec_into_resolved()), acquired),
            Some(node_id) => match acquired.spec_acquire(node_id) {
                Err(AcquireError::MaxReferencesExceeded) => (
                    Err(AcquireError::MaxReferencesExceeded),
                    acquired.after_acquire(),
                ),
                Err(_) => (
                    Ok(pattern.spec_resolve_from_defaults().spec_into_resolved()),
                    acquired.after_acquire(),
                ),
                Ok(node) => if stack.contains(node) {
                    (Err(AcquireError::CircularReference(node)), acquired.after_acquire())
                } else {
                    match acquired.document.spec_element(node) {
                        Some(Element::Pattern(p)) => spec_resolve_chain(
                            acquired.after_acquire(),
                            pattern.spec_resolve_from_fallback(
                                p.spec_get_unresolved(*acquired.document, node).pattern,
                            ),
                            p.fallback,
                            stack.push(node),
                        ),
                        _ => (Err(AcquireError::InvalidLinkType(node_id)), acquired.after_acquire()),
                    }
                },
            },
        }
    }
}

impl Pattern {
    /// The pattern at `node` as resolving starts from it: its own attributes,
    /// the node as its content if the node has a child element, and its own
    /// reference to follow.
    pub open spec fn spec_get_unresolved(self, document: Document, node: NodeHandle) -> Unresolved {
        Unresolved {
            pattern: UnresolvedPattern {
                common: self.common,
                children: UnresolvedChildren::spec_from_node(document, node),
            },
            fallback: self.fallback,
        }
    }

    /// What resolving this pattern, which stands at `node`, gives where
    /// nothing has been kept from an earlier call.
    pub open spec fn spec_init_resolved(self, node: NodeHandle, acquired: AcquiredNodes) -> (
        Result<ResolvedPattern, AcquireError>,
        AcquiredNodes,
    ) {
        spec_resolve_chain(
            acquired,
            self.spec_get_unresolved(*acquired.document, node).pattern,
            self.fallback,
            Seq::empty(),
        )
    }

    /// The resolved pattern that an earlier call of `resolve` has kept, if
    /// one has.
    pub open spec fn kept(self) -> Option<ResolvedPattern> {
        cell_value(self.resolved)
    }

    /// What `resolve` returns: what an earlier call has kept, else what
    /// resolving anew gives.
    pub open spec fn spec_resolve(self, node: NodeHandle, acquired: AcquiredNodes) -> (
        Result<ResolvedPattern, AcquireError>,
        AcquiredNodes,
    ) {
        match self.kept() {
            Some(kept) => (Ok(kept), acquired),
            None => self.spec_init_resolved(node, acquired),
        }
    }

    /// What the pattern keeps after a call of `resolve`: what it kept before,
    /// else the result of that call where it succeeded.
    pub open spec fn kept_after_resolve(self, node: NodeHandle, acquired: AcquiredNodes) -> Option<
        ResolvedPattern,
    > {
        match self.spec_resolve(node, acquired).0 {
            Ok(resolved) => Some(resolved),
            Err(_) => None,
        }
    }

    /// A pattern that states nothing, refers to nothing and has not been
    /// resolved.
    pub fn new() -> (pattern: Pattern)
        ensures
            pattern.common == Common::spec_default(),
            pattern.fallback is None,
            pattern.kept() is None,
    {
        Pattern { common: Common::default(), fallback: None, resolved: cell_new() }
    }

    pub fn get_unresolved(&self, document: &Document, node: NodeHandle) -> (unresolved: Unresolved)
        ensures
            unresolved == self.spec_get_unresolved(*document, node),
    {
        let pattern = UnresolvedPattern {
            common: self.common,
            children: UnresolvedChildren::from_node(document, node),
        };
        Unresolved { pattern, fallback: clone_fallback_name(&self.fallback) }
    }

    /// Resolves the pattern, which stands at `node`, by following its chain
    /// of references.
    pub fn init_resolved(&self, node: NodeHandle, acquired_nodes: &mut AcquiredNodes<'_>) -> (result:
        Result<ResolvedPattern, AcquireError>)
        ensures
            (result, *final(acquired_nodes)) == self.spec_init_resolved(node, *old(acquired_nodes)),
    {
        let Unresolved { pattern, fallback } = self.get_unresolved(acquired_nodes.document, node);
        let mut pattern = pattern;
        let mut fallback = fallback;
        let mut stack = NodeStack::new();

        while !pattern.is_resolved()
            invariant
                !(pattern.children is ResolvedEmpty),
                spec_resolve_chain(*acquired_nodes, pattern, fallback, stack.0@)
                    == self.spec_init_resolved(node, *old(acquired_nodes)),
            decreases acquired_nodes.max_references - acquired_nodes.num_elements_acquired,
        {
            let node_id = match &fallback {
                Some(node_id) => node_id,
                None => {
                    return Ok(pattern.resolve_from_defaults().into_resolved());
                },
            };
            match acquired_nodes.acquire(node_id) {
                Ok(acquired_node) => {
                    if stack.contains(acquired_node) {
                        return Err(AcquireError::CircularReference(acquired_node));
                    }
                    match acquired_nodes.document.element(acquired_node) {
                        Some(Element::Pattern(p)) => {
                            let unresolved = p.get_unresolved(
                                acquired_nodes.document,
                                acquired_node,
                            );
                            pattern = pattern.resolve_from_fallback(&unresolved.pattern);
                            fallback = unresolved.fallback;
                            stack.push(acquired_node);
                        },
                        _ => {
                            return Err(AcquireError::InvalidLinkType(node_id.clone()));
                        },
                    }
                },
                Err(AcquireError::MaxReferencesExceeded) => {
                    return Err(AcquireError::MaxReferencesExceeded);
                },
                Err(_) => {
                    return Ok(pattern.resolve_from_defaults().into_resolved());
                },
            }
        }

        Ok(pattern.into_resolved())
    }
}

impl Pattern {
    /// The resolved pattern that an earlier call of `resolve` has kept, if
    /// one has.
    pub fn get_resolved(&self) -> (kept: Option<ResolvedPattern>)
        ensures
            kept == self.kept(),
    {
        cell_get(&self.resolved)
    }

    /// The resolved pattern: the one that an earlier call has kept, else the
    /// one that following the chain of references from `node` gives, which is
    /// then kept. A failure is returned and nothing is kept.
    pub fn resolve(&mut self, node: NodeHandle, acquired_nodes: &mut AcquiredNodes<'_>) -> (result:
        Result<ResolvedPattern, AcquireError>)
        ensures
            (result, *final(acquired_nodes)) == old(self).spec_resolve(node, *old(acquired_nodes)),
            final(self).common == old(self).common,
            final(self).fallback == old(self).fallback,
            final(self).kept() == old(self).kept_after_resolve(
                node,
                *old(acquired_nodes),
            ),
    {
        match cell_get(&self.resolved) {
            Some(kept) => Ok(kept),
            None => match self.init_resolved(node, acquired_nodes) {
                Ok(resolved) => {
                    let _ = cell_set(&mut self.resolved, resolved);
                    Ok(resolved)
                },
                Err(e) => Err(e),
            },
        }
    }
}

/// Resolving is done once. Let `after` be a pattern as a successful call of
/// `resolve` on `before` has left it. Then every later call on it, for
/// whatever node and in whatever state of the lookups, returns the result of
/// that first call and makes no lookup.
pub proof fn resolve_is_memoized(
    before: Pattern,
    after: Pattern,
    node: NodeHandle,
    acquired: AcquiredNodes,
    later_node: NodeHandle,
    later: AcquiredNodes,
)
    requires
        before.spec_resolve(node, acquired).0 is Ok,
        after.kept() == before.kept_after_resolve(node, acquired),
    ensures
        after.spec_resolve(later_node, later) == (before.spec_resolve(node, acquired).0, later),
        after.kept_after_resolve(later_node, later) == after.kept(),
{
}

/// A chain of references that runs in a circle fails. Let `a` and `b` be two
/// patterns that refer to each other, and let them together leave an
/// attribute out or have no content. Then resolving the first of them fails
/// with the second as the node at which the circle closes, provided that
/// three lookups are within the limit.
pub proof fn two_patterns_in_a_circle_fail(
    acquired: AcquiredNodes,
    a: NodeHandle,
    b: NodeHandle,
    pattern_a: Pattern,
    pattern_b: Pattern,
    id_a: String,
    id_b: String,
)
    requires
        a != b,
        acquired.document.spec_lookup_node(id_a@) == Some(a),
        acquired.document.spec_lookup_node(id_b@) == Some(b),
        acquired.document.spec_element(a) == Some(Element::Pattern(pattern_a)),
        acquired.document.spec_element(b) == Some(Element::Pattern(pattern_b)),
        pattern_a.fallback == Some(id_b),
        pattern_b.fallback == Some(id_a),
        !pattern_a.spec_get_unresolved(*acquired.document, a).pattern.spec_resolve_from_fallback(
            pattern_b.spec_get_unresolved(*acquired.document, b).pattern,
        ).spec_is_resolved(),
        acquired.num_elements_acquired + 3 <= acquired.max_references,
    ensures
        pattern_a.spec_init_resolved(a, acquired).0 == Err::<ResolvedPattern, AcquireError>(
            AcquireError::CircularReference(b),
        ),
{
    let document = *acquired.document;
    let own = pattern_a.spec_get_unresolved(document, a).pattern;
    let other = pattern_b.spec_get_unresolved(document, b).pattern;
    let both = own.spec_resolve_from_fallback(other);
    let once = acquired.after_acquire();
    let twice = once.after_acquire();
    let first: Seq<NodeHandle> = Seq::empty().push(b);
    let second = first.push(a);
    assert(!Seq::<NodeHandle>::empty().contains(b));
    assert(first[0] == b);
    assert(!first.contains(a));
    assert(second[0] == b);
    assert(second.contains(b));
    assert(both.spec_resolve_from_fallback(own) == both);
    assert(spec_resolve_chain(twice, both, Some(id_b), second).0 == Err::<
        ResolvedPattern,
        AcquireError,
    >(AcquireError::CircularReference(b)));
    assert(spec_resolve_chain(once, both, Some(id_a), first) == spec_resolve_chain(
        twice,
        both,
        Some(id_b),
        second,
    ));
    assert(spec_resolve_chain(acquired, own, Some(id_b), Seq::empty()) == spec_resolve_chain(
        once,
        both,
        Some(id_a),
        first,
    ));
}

/// The nodes whose patterns resolving takes attributes from, in the order in
/// which it follows them: the chain of references as far as it is followed.
pub open spec fn spec_chain(
    acquired: AcquiredNodes,
    pattern: UnresolvedPattern,
    fallback: Option<String>,
    stack: Seq<NodeHandle>,
) -> Seq<NodeHandle>
    decreases acquired.max_references - acquired.num_elements_acquired,
{
    if pattern.spec_is_resolved() {
        Seq::empty()
    } else {
        match fallback {
            None => Seq::empty(),
            Some(node_id) => match acquired.spec_acquire(node_id) {
                Err(_) => Seq::empty(),
                Ok(node) => if stack.contains(node) {
                    Seq::empty()
                } else {
                    match acquired.document.spec_element(node) {
                        Some(Element::Pattern(p)) => seq![node] + spec_chain(
                            acquired.after_acquire(),
                            pattern.spec_resolve_from_fallback(
                                p.spec_get_unresolved(*acquired.document, node).pattern,
                            ),
                            p.fallback,
                            stack.push(node),
                        ),
                        _ => Seq::empty(),
                    }
                },
            },
        }
    }
}

/// The attributes that the pattern at `node` states. A node that is no
/// pattern states nothing.
pub open spec fn stated_at(document: Document, node: NodeHandle) -> Common {
    match document.spec_element(node) {
        Some(Element::Pattern(p)) => p.common,
        _ => Common::spec_default(),
    }
}

/// `common`, completed from the patterns at `chain` one after the other.
pub open spec fn completed_along(document: Document, common: Common, chain: Seq<NodeHandle>) -> Common
    decreases chain.len(),
{
    if chain.len() == 0 {
        common
    } else {
        completed_along(
            document,
            common.spec_resolve_from_fallback(stated_at(document, chain[0])),
            chain.drop_first(),
        )
    }
}

/// The first of `own` and the nodes of `chain` that has a child element.
pub open spec fn first_with_children(
    document: Document,
    own: UnresolvedChildren,
    chain: Seq<NodeHandle>,
) -> UnresolvedChildren
    decreases chain.len(),
{
    if chain.len() == 0 {
        own
    } else {
        first_with_children(
            document,
            own.spec_resolve_from_fallback(
                UnresolvedChildren::spec_from_node(document, chain[0]),
            ),
            chain.drop_first(),
        )
    }
}

/// The first to state an attribute wins. Where resolving succeeds, each
/// attribute of the result is the one that the pattern itself states, else
/// the one stated by the first pattern along its chain of references that
/// states it, else the default; and the content is that of the first of them
/// that has a child element, else empty.
pub proof fn first_writer_wins(
    acquired: AcquiredNodes,
    pattern: UnresolvedPattern,
    fallback: Option<String>,
    stack: Seq<NodeHandle>,
)
    requires
        !(pattern.children is ResolvedEmpty),
        spec_resolve_chain(acquired, pattern, fallback, stack).0 is Ok,
    ensures
        spec_resolve_chain(acquired, pattern, fallback, stack).0 == Ok::<
            ResolvedPattern,
            AcquireError,
        >(
            (UnresolvedPattern {
                common: completed_along(
                    *acquired.document,
                    pattern.common,
                    spec_chain(acquired, pattern, fallback, stack),
                ),
                children: first_with_children(
                    *acquired.document,
                    pattern.children,
                    spec_chain(acquired, pattern, fallback, stack),
                ),
            }).spec_resolve_from_defaults().spec_into_resolved(),
        ),
    decreases acquired.max_references - acquired.num_elements_acquired,
{
    let document = *acquired.document;
    let chain = spec_chain(acquired, pattern, fallback, stack);
    if pattern.spec_is_resolved() {
        assert(pattern.spec_resolve_from_defaults() == pattern);
    } else {
        match fallback {
            None => {},
            Some(node_id) => match acquired.spec_acquire(node_id) {
                Err(_) => {},
                Ok(node) => if stack.contains(node) {
                } else {
                    match acquired.document.spec_element(node) {
                        Some(Element::Pattern(p)) => {
                            let merged = pattern.spec_resolve_from_fallback(
                                p.spec_get_unresolved(document, node).pattern,
                            );
                            let rest = spec_chain(
                                acquired.after_acquire(),
                                merged,
                                p.fallback,
                                stack.push(node),
                            );
                            first_writer_wins(
                                acquired.after_acquire(),
                                merged,
                                p.fallback,
                                stack.push(node),
                            );
                            assert(chain == seq![node] + rest);
                            assert(chain[0] == node);
                            assert(chain.drop_first() == rest);
                            assert(stated_at(document, node) == p.common);
                        },
                        _ => {},
                    }
                },
            },
        }
    }
}

/// A pattern without content paints nothing. Where neither the pattern nor
/// any pattern along its chain of references has a child element, resolving
/// it, where that succeeds, gives a pattern with empty content, and no
/// layout comes of it for any object.
pub proof fn no_children_in_chain_paints_nothing(
    acquired: AcquiredNodes,
    pattern: UnresolvedPattern,
    fallback: Option<String>,
    stack: Seq<NodeHandle>,
    bbox: BoundingBox,
)
    requires
        pattern.children is Unresolved,
        forall|i: int|
            0 <= i < spec_chain(acquired, pattern, fallback, stack).len()
                ==> !acquired.document.has_element_children(
                #[trigger] spec_chain(acquired, pattern, fallback, stack)[i],
            ),
        spec_resolve_chain(acquired, pattern, fallback, stack).0 is Ok,
    ensures
        spec_resolve_chain(acquired, pattern, fallback, stack).0.unwrap().children is Empty,
        spec_resolve_chain(acquired, pattern, fallback, stack).0.unwrap().spec_to_user_space(bbox)
            is None,
{
    let chain = spec_chain(acquired, pattern, fallback, stack);
    first_writer_wins(acquired, pattern, fallback, stack);
    lemma_no_children_stays_unresolved(*acquired.document, pattern.children, chain);
}

proof fn lemma_no_children_stays_unresolved(
    document: Document,
    own: UnresolvedChildren,
    chain: Seq<NodeHandle>,
)
    requires
        own is Unresolved,
        forall|i: int| 0 <= i < chain.len() ==> !document.has_element_children(#[trigger] chain[i]),
    ensures
        first_with_children(document, own, chain) is Unresolved,
    decreases chain.len(),
{
    if chain.len() > 0 {
        assert(!document.has_element_children(chain[0]));
        let rest = chain.drop_first();
        assert forall|i: int| 0 <= i < rest.len() implies !document.has_element_children(
            #[trigger] rest[i],
        ) by {
            assert(rest[i] == chain[i + 1]);
        }
        lemma_no_children_stays_unresolved(
            document,
            own.spec_resolve_from_fallback(UnresolvedChildren::spec_from_node(document, chain[0])),
            rest,
        );
    }
}

impl Default for Pattern {
    fn default() -> (pattern: Pattern)
        ensures
            pattern.common == Common::spec_default(),
            pattern.fallback is None,
            pattern.kept() is None,
    {
        Pattern::new()
    }
}

/// An attribute of a `pattern` element with its value, as far as the element
/// reads it.
#[derive(Debug, Clone, PartialEq, Eq)]
pub enum PatternAttribute {
    PatternUnits(PatternUnits),
    PatternContentUnits(PatternContentUnits),
    ViewBox(ViewBox),
    PreserveAspectRatio(AspectRatio),
    PatternTransform(Transform),
    /// `href`, with the identifier it refers to.
    Href(String),
    /// `xlink:href`, with the identifier it refers to.
    XlinkHref(String),
    X(Length),
    Y(Length),
    Width(Length),
    Height(Length),
    /// One of the attributes above with a value that it cannot have.
    Invalid,
    /// Any other attribute.
    Other,
}

/// An attribute had a value that it cannot have.
#[derive(Debug, Clone, Copy, PartialEq, Eq, Structural)]
pub struct ElementError {
    /// The position of the attribute among those of the element.
    pub attribute: usize,
}

/// The reference of an element after one more `href` or `xlink:href` has been
/// read: `href` always takes the place of what was there, `xlink:href` only
/// the place of nothing.
pub open spec fn spec_set_href(xlink: bool, dest: Option<String>, href: String) -> Option<String> {
    if dest is None || !xlink {
        Some(href)
    } else {
        dest
    }
}

/// Reads one `href` or `xlink:href`.
pub fn set_href(xlink: bool, dest: &mut Option<String>, href: String)
    ensures
        *final(dest) == spec_set_href(xlink, *old(dest), href),
{
    if dest.is_none() || !xlink {
        *dest = Some(href);
    }
}

/// What a pattern states and refers to after one valid attribute has been
/// read.
pub open spec fn after_attribute(common: Common, fallback: Option<String>, attr: PatternAttribute) -> (
    Common,
    Option<String>,
) {
    match attr {
        PatternAttribute::PatternUnits(v) => (Common { units: Some(v), ..common }, fallback),
        PatternAttribute::PatternContentUnits(v) => (
            Common { content_units: Some(v), ..common },
            fallback,
        ),
        PatternAttribute::ViewBox(v) => (Common { vbox: Some(Some(v)), ..common }, fallback),
        PatternAttribute::PreserveAspectRatio(v) => (
            Common { preserve_aspect_ratio: Some(v), ..common },
            fallback,
        ),
        PatternAttribute::PatternTransform(v) => (Common { transform: Some(v), ..common }, fallback),
        PatternAttribute::Href(id) => (common, spec_set_href(false, fallback, id)),
        PatternAttribute::XlinkHref(id) => (common, spec_set_href(true, fallback, id)),
        PatternAttribute::X(v) => (Common { x: Some(v), ..common }, fallback),
        PatternAttribute::Y(v) => (Common { y: Some(v), ..common }, fallback),
        PatternAttribute::Width(v) => (Common { width: Some(v), ..common }, fallback),
        PatternAttribute::Height(v) => (Common { height: Some(v), ..common }, fallback),
        PatternAttribute::Invalid => (common, fallback),
        PatternAttribute::Other => (common, fallback),
    }
}

/// What a pattern states and refers to after its attributes have been read
/// one after the other, up to the first invalid one.
pub open spec fn after_attributes(
    common: Common,
    fallback: Option<String>,
    attrs: Seq<PatternAttribute>,
) -> (Common, Option<String>)
    decreases attrs.len(),
{
    if attrs.len() == 0 || attrs[0] is Invalid {
        (common, fallback)
    } else {
        let (c, f) = after_attribute(common, fallback, attrs[0]);
        after_attributes(c, f, attrs.drop_first())
    }
}

impl Pattern {
    /// Reads the element's attributes in their order. A later value of an
    /// attribute takes the place of an earlier one, except that `xlink:href`
    /// does not take the place of a reference that is there. Reading stops at
    /// the first invalid attribute, which is the error; what was read before
    /// it stays.
    pub fn set_attributes(&mut self, attrs: &Vec<PatternAttribute>) -> (result: Result<
        (),
        ElementError,
    >)
        ensures
            (final(self).common, final(self).fallback) == after_attributes(
                old(self).common,
                old(self).fallback,
                attrs@,
            ),
            final(self).kept() == old(self).kept(),
            match result {
                Ok(_) => forall|i: int| 0 <= i < attrs.len() ==> !(attrs[i] is Invalid),
                Err(e) => {
                    &&& e.attribute < attrs.len()
                    &&& attrs[e.attribute as int] is Invalid
                    &&& forall|i: int| 0 <= i < e.attribute ==> !(attrs[i] is Invalid)
                },
            },
    {
        let mut i: usize = 0;
        assert(attrs@.skip(0) == attrs@);
        while i < attrs.len()
            invariant
                i <= attrs.len(),
                self.kept() == old(self).kept(),
                after_attributes(self.common, self.fallback, attrs@.skip(i as int))
                    == after_attributes(old(self).common, old(self).fallback, attrs@),
                forall|j: int| 0 <= j < i ==> !(attrs[j] is Invalid),
            decreases attrs.len() - i,
        {
            proof {
                let rest = attrs@.skip(i as int);
                assert(rest[0] == attrs[i as int]);
                assert(rest.drop_first() == attrs@.skip(i + 1));
            }
            match &attrs[i] {
                PatternAttribute::PatternUnits(v) => {
                    self.common.units = Some(*v);
                },
                PatternAttribute::PatternContentUnits(v) => {
                    self.common.content_units = Some(*v);
                },
                PatternAttribute::ViewBox(v) => {
                    self.common.vbox = Some(Some(*v));
                },
                PatternAttribute::PreserveAspectRatio(v) => {
                    self.common.preserve_aspect_ratio = Some(*v);
                },
                PatternAttribute::PatternTransform(v) => {
                    self.common.transform = Some(*v);
                },
                PatternAttribute::Href(id) => {
                    set_href(false, &mut self.fallback, id.clone());
                },
                PatternAttribute::XlinkHref(id) => {
                    set_href(true, &mut self.fallback, id.clone());
                },
                PatternAttribute::X(v) => {
                    self.common.x = Some(*v);
                },
                PatternAttribute::Y(v) => {
                    self.common.y = Some(*v);
                },
                PatternAttribute::Width(v) => {
                    self.common.width = Some(*v);
                },
                PatternAttribute::Height(v) => {
                    self.common.height = Some(*v);
                },
                PatternAttribute::Invalid => {
                    return Err(ElementError { attribute: i });
                },
                PatternAttribute::Other => {},
            }
            i = i + 1;
        }
        Ok(())
    }
}

} // verus!
