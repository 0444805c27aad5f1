//! Linear and radial gradients: how a gradient that leaves attributes out is
//! completed from the gradients it refers to, how its colour stops are
//! gathered, and what a completed gradient hands to the renderer.

use crate::coord_units::CoordUnits;
use crate::coord_units::Frame;
use crate::coord_units::PaintServerUnits;
use crate::document::AcquireError;
use crate::document::AcquiredNodes;
use crate::document::Document;
use crate::document::Element;
use crate::document::NodeHandle;
use crate::document::NodeStack;
use crate::geometry::BoundingBox;
use crate::geometry::Transform;
use crate::length::Length;
use crate::length::LengthDir;
use crate::number::Number;
use crate::util::clone_fallback_name;
use crate::util::fallback_to;
use crate::util::spec_fallback_to;
use vstd::prelude::*;

verus! {

/// A colour at a place along the gradient. The colour is packed as red,
/// green, blue and alpha, red in the highest byte.
#[derive(Debug, Clone, Copy, PartialEq, Eq, Structural)]
pub struct ColorStop {
    pub offset: Number,
    pub rgba: u32,
}

/// A `stop` element: the offset and colour that it states.
#[derive(Debug, Clone, Copy, PartialEq, Eq, Structural)]
pub struct NodeStop {
    pub offset: Number,
    pub rgba: u32,
}

/// How a gradient goes on beyond its ends.
#[derive(Debug, Clone, Copy, PartialEq, Eq, Structural)]
pub enum Extend {
    /// Nothing is painted beyond the ends.
    Transparent,
    Repeat,
    Reflect,
    /// The colour at each end goes on.
    Pad,
}

/// The attributes that linear and radial gradients share, each of them stated
/// or not, and the name of the gradient to complete them from.
#[derive(Debug)]
pub struct GradientCommon {
    pub units: Option<PaintServerUnits>,
    pub affine: Option<Transform>,
    pub spread: Option<Extend>,
    pub fallback: Option<String>,
    pub stops: Option<Vec<ColorStop>>,
}

/// The attributes of one kind of gradient, each of them stated or not.
#[derive(Debug, Clone, Copy, PartialEq, Eq, Structural)]
pub enum GradientVariant {
    Linear { x1: Option<Length>, y1: Option<Length>, x2: Option<Length>, y2: Option<Length> },
    Radial {
        cx: Option<Length>,
        cy: Option<Length>,
        r: Option<Length>,
        fx: Option<Length>,
        fy: Option<Length>,
    },
}

/// A gradient.
#[derive(Debug)]
pub struct Gradient {
    pub common: GradientCommon,
    pub variant: GradientVariant,
}

/// The shared attributes of a gradient, as contracts speak of them.
pub struct GradientCommonView {
    pub units: Option<PaintServerUnits>,
    pub affine: Option<Transform>,
    pub spread: Option<Extend>,
    pub fallback: Option<String>,
    pub stops: Option<Seq<ColorStop>>,
}

/// A gradient, as contracts speak of it.
pub struct GradientView {
    pub common: GradientCommonView,
    pub variant: GradientVariant,
}

impl View for GradientCommon {
    type V = GradientCommonView;

    open spec fn view(&self) -> GradientCommonView {
        GradientCommonView {
            units: self.units,
            affine: self.affine,
            spread: self.spread,
            fallback: self.fallback,
            stops: match self.stops {
                Some(stops) => Some(stops@),
                None => None,
            },
        }
    }
}

impl View for Gradient {
    type V = GradientView;

    open spec fn view(&self) -> GradientView {
        GradientView { common: self.common@, variant: self.variant }
    }
}

/// Whether no stop lies before the stop in front of it.
pub open spec fn is_monotonic(stops: Seq<ColorStop>) -> bool {
    forall|i: int| 0 < i < stops.len() ==> !(#[trigger] stops[i - 1]).offset.spec_gt(stops[i].offset)
}

/// The offset of the last stop, or zero where there is no stop.
pub open spec fn last_offset(stops: Seq<ColorStop>) -> Number {
    if stops.len() > 0 {
        stops.last().offset
    } else {
        Number { bits: 0 }
    }
}

/// `stops` with one more stop at `offset`, or where `offset` is less than the
/// last offset, at the last offset.
pub open spec fn with_stop(stops: Seq<ColorStop>, offset: Number, rgba: u32) -> Seq<ColorStop> {
    let last = last_offset(stops);
    stops.push(
        ColorStop {
            offset: if last.spec_gt(offset) {
                last
            } else {
                offset
            },
            rgba,
        },
    )
}

impl GradientCommonView {
    pub open spec fn spec_is_resolved(self) -> bool {
        &&& self.units is Some
        &&& self.affine is Some
        &&& self.spread is Some
        &&& self.stops is Some
    }

    /// Each attribute that is not stated gets its default: the bounding box
    /// as units, no transform, padding beyond the ends, and no stops. No
    /// reference is left to follow.
    pub open spec fn spec_resolve_from_defaults(self) -> GradientCommonView {
        GradientCommonView {
            units: spec_fallback_to(self.units, Some(PaintServerUnits::ObjectBoundingBox)),
            affine: spec_fallback_to(self.affine, Some(Transform::spec_identity())),
            spread: spec_fallback_to(self.spread, Some(Extend::Pad)),
            fallback: None,
            stops: spec_fallback_to(self.stops, Some(Seq::empty())),
        }
    }

    /// Each attribute that is not stated is taken from `fallback`, and the
    /// reference to follow next is that of `fallback`.
    pub open spec fn spec_resolve_from_fallback(
        self,
        fallback: GradientCommonView,
    ) -> GradientCommonView {
        GradientCommonView {
            units: spec_fallback_to(self.units, fallback.units),
            affine: spec_fallback_to(self.affine, fallback.affine),
            spread: spec_fallback_to(self.spread, fallback.spread),
            fallback: fallback.fallback,
            stops: spec_fallback_to(self.stops, fallback.stops),
        }
    }

    /// The stops that are there, or none, with one more.
    pub open spec fn spec_add_color_stop(self, offset: Number, rgba: u32) -> GradientCommonView {
        GradientCommonView {
            stops: Some(
                with_stop(
                    match self.stops {
                        Some(stops) => stops,
                        None => Seq::empty(),
                    },
                    offset,
                    rgba,
                ),
            ),
            ..self
        }
    }
}

impl GradientVariant {
    pub open spec fn spec_is_resolved(self) -> bool {
        match self {
            GradientVariant::Linear { x1, y1, x2, y2 } => {
                x1 is Some && y1 is Some && x2 is Some && y2 is Some
            },
            GradientVariant::Radial { cx, cy, r, fx, fy } => {
                cx is Some && cy is Some && r is Some && fx is Some && fy is Some
            },
        }
    }

    /// A linear gradient runs from 0% to 100% horizontally unless stated. A
    /// radial one has its centre at 50% and a radius of 50% unless stated,
    /// and its focus, unless stated, at its centre as it then is.
    pub open spec fn spec_resolve_from_defaults(self) -> GradientVariant {
        match self {
            GradientVariant::Linear { x1, y1, x2, y2 } => GradientVariant::Linear {
                x1: spec_fallback_to(x1, Some(Length::spec_no_part(LengthDir::Horizontal))),
                y1: spec_fallback_to(y1, Some(Length::spec_no_part(LengthDir::Vertical))),
                x2: spec_fallback_to(x2, Some(Length::spec_whole(LengthDir::Horizontal))),
                y2: spec_fallback_to(y2, Some(Length::spec_no_part(LengthDir::Vertical))),
            },
            GradientVariant::Radial { cx, cy, r, fx, fy } => {
                let center_x = spec_fallback_to(cx, Some(Length::spec_half(LengthDir::Horizontal)));
                let center_y = spec_fallback_to(cy, Some(Length::spec_half(LengthDir::Vertical)));
                GradientVariant::Radial {
                    cx: center_x,
                    cy: center_y,
                    r: spec_fallback_to(r, Some(Length::spec_half(LengthDir::Both))),
                    fx: spec_fallback_to(fx, center_x),
                    fy: spec_fallback_to(fy, center_y),
                }
            },
        }
    }

    /// Each attribute that is not stated is taken from `fallback` where that
    /// is a gradient of the same kind. From one of the other kind nothing is
    /// taken.
    pub open spec fn spec_resolve_from_fallback(self, fallback: GradientVariant) -> GradientVariant {
        match (self, fallback) {
            (
                GradientVariant::Linear { x1, y1, x2, y2 },
                GradientVariant::Linear { x1: x1f, y1: y1f, x2: x2f, y2: y2f },
            ) => GradientVariant::Linear {
                x1: spec_fallback_to(x1, x1f),
                y1: spec_fallback_to(y1, y1f),
                x2: spec_fallback_to(x2, x2f),
                y2: spec_fallback_to(y2, y2f),
            },
            (
                GradientVariant::Radial { cx, cy, r, fx, fy },
                GradientVariant::Radial { cx: cxf, cy: cyf, r: rf, fx: fxf, fy: fyf },
            ) => GradientVariant::Radial {
                cx: spec_fallback_to(cx, cxf),
                cy: spec_fallback_to(cy, cyf),
                r: spec_fallback_to(r, rf),
                fx: spec_fallback_to(fx, fxf),
                fy: spec_fallback_to(fy, fyf),
            },
            _ => self,
        }
    }

    pub fn is_resolved(&self) -> (resolved: bool)
        ensures
            resolved == self.spec_is_resolved(),
    {
        match *self {
            GradientVariant::Linear { x1, y1, x2, y2 } => {
                x1.is_some() && y1.is_some() && x2.is_some() && y2.is_some()
            },
            GradientVariant::Radial { cx, cy, r, fx, fy } => {
                cx.is_some() && cy.is_some() && r.is_some() && fx.is_some() && fy.is_some()
            },
        }
    }

    pub fn resolve_from_defaults(&mut self)
        ensures
            *final(self) == old(self).spec_resolve_from_defaults(),
            final(self).spec_is_resolved(),
    {
        match *self {
            GradientVariant::Linear { x1, y1, x2, y2 } => {
                *self = GradientVariant::Linear {
                    x1: fallback_to(x1, Some(Length::no_part(LengthDir::Horizontal))),
                    y1: fallback_to(y1, Some(Length::no_part(LengthDir::Vertical))),
                    x2: fallback_to(x2, Some(Length::whole(LengthDir::Horizontal))),
                    y2: fallback_to(y2, Some(Length::no_part(LengthDir::Vertical))),
                };
            },
            GradientVariant::Radial { cx, cy, r, fx, fy } => {
                let center_x = fallback_to(cx, Some(Length::half(LengthDir::Horizontal)));
                let center_y = fallback_to(cy, Some(Length::half(LengthDir::Vertical)));
                *self = GradientVariant::Radial {
                    cx: center_x,
                    cy: center_y,
                    r: fallback_to(r, Some(Length::half(LengthDir::Both))),
                    fx: fallback_to(fx, center_x),
                    fy: fallback_to(fy, center_y),
                };
            },
        }
    }

    pub fn resolve_from_fallback(&mut self, fallback: &GradientVariant)
        ensures
            *final(self) == old(self).spec_resolve_from_fallback(*fallback),
    {
        match (*self, *fallback) {
            (
                GradientVariant::Linear { x1, y1, x2, y2 },
                GradientVariant::Linear { x1: x1f, y1: y1f, x2: x2f, y2: y2f },
            ) => {
                *self = GradientVariant::Linear {
                    x1: fallback_to(x1, x1f),
                    y1: fallback_to(y1, y1f),
                    x2: fallback_to(x2, x2f),
                    y2: fallback_to(y2, y2f),
                };
            },
            (
                GradientVariant::Radial { cx, cy, r, fx, fy },
                GradientVariant::Radial { cx: cxf, cy: cyf, r: rf, fx: fxf, fy: fyf },
            ) => {
                *self = GradientVariant::Radial {
                    cx: fallback_to(cx, cxf),
                    cy: fallback_to(cy, cyf),
                    r: fallback_to(r, rf),
                    fx: fallback_to(fx, fxf),
                    fy: fallback_to(fy, fyf),
                };
            },
            _ => {},
        }
    }
}

impl GradientView {
    pub open spec fn spec_is_resolved(self) -> bool {
        self.common.spec_is_resolved() && self.variant.spec_is_resolved()
    }

    pub open spec fn spec_resolve_from_defaults(self) -> GradientView {
        GradientView {
            common: self.common.spec_resolve_from_defaults(),
            variant: self.variant.spec_resolve_from_defaults(),
        }
    }

    pub open spec fn spec_resolve_from_fallback(self, fallback: GradientView) -> GradientView {
        GradientView {
            common: self.common.spec_resolve_from_fallback(fallback.common),
            variant: self.variant.spec_resolve_from_fallback(fallback.variant),
        }
    }

    pub open spec fn spec_add_color_stop(self, offset: Number, rgba: u32) -> GradientView {
        GradientView { common: self.common.spec_add_color_stop(offset, rgba), ..self }
    }
}

/// A copy of a list of stops.
fn copy_stops(stops: &Vec<ColorStop>) -> (copy: Vec<ColorStop>)
    ensures
        copy@ == stops@,
{
    let mut copy: Vec<ColorStop> = Vec::new();
    let mut i: usize = 0;
    while i < stops.len()
        invariant
            i <= stops.len(),
            copy@ == stops@.take(i as int),
        decreases stops.len() - i,
    {
        copy.push(stops[i]);
        assert(stops@.take(i as int).push(stops@[i as int]) == stops@.take(i + 1));
        i = i + 1;
    }
    assert(stops@.take(stops.len() as int) == stops@);
    copy
}

impl GradientCommon {
    pub fn new(
        units: Option<PaintServerUnits>,
        affine: Option<Transform>,
        spread: Option<Extend>,
        fallback: Option<String>,
        stops: Option<Vec<ColorStop>>,
    ) -> (common: GradientCommon)
        ensures
            common == (GradientCommon { units, affine, spread, fallback, stops }),
    {
        GradientCommon { units, affine, spread, fallback, stops }
    }

    pub fn clone_stops(&self) -> (stops: Option<Vec<ColorStop>>)
        ensures
            match stops {
                Some(copy) => self@.stops == Some(copy@),
                None => self@.stops is None,
            },
    {
        match &self.stops {
            Some(stops) => Some(copy_stops(stops)),
            None => None,
        }
    }

    pub fn is_resolved(&self) -> (resolved: bool)
        ensures
            resolved == self@.spec_is_resolved(),
    {
        self.units.is_some() && self.affine.is_some() && self.spread.is_some()
            && self.stops.is_some()
    }

    pub fn resolve_from_defaults(&mut self)
        ensures
            final(self)@ == old(self)@.spec_resolve_from_defaults(),
            final(self)@.spec_is_resolved(),
    {
        self.units = fallback_to(self.units, Some(PaintServerUnits::default()));
        self.affine = fallback_to(self.affine, Some(Transform::identity()));
        self.spread = fallback_to(self.spread, Some(Extend::Pad));
        let stops = self.stops.take();
        self.stops = fallback_to(stops, Some(Vec::new()));
        self.fallback = None;
    }

    pub fn resolve_from_fallback(&mut self, fallback: &GradientCommon)
        ensures
            final(self)@ == old(self)@.spec_resolve_from_fallback(fallback@),
    {
        self.units = fallback_to(self.units, fallback.units);
        self.affine = fallback_to(self.affine, fallback.affine);
        self.spread = fallback_to(self.spread, fallback.spread);
        let stops = self.stops.take();
        self.stops = fallback_to(stops, fallback.clone_stops());
        self.fallback = clone_fallback_name(&fallback.fallback);
    }

    /// Adds a stop behind the stops that are there. A stop does not come
    /// before the one in front of it: an offset that is less than the last
    /// offset, or than zero where this is the first stop, is raised to it.
    pub fn add_color_stop(&mut self, offset: Number, rgba: u32)
        ensures
            final(self)@ == old(self)@.spec_add_color_stop(offset, rgba),
            old(self)@.stops is Some && is_monotonic(old(self)@.stops.unwrap()) ==> is_monotonic(
                final(self)@.stops.unwrap(),
            ),
            old(self)@.stops is None ==> is_monotonic(final(self)@.stops.unwrap()),
    {
        let mut stops: Vec<ColorStop> = match self.stops.take() {
            Some(stops) => stops,
            None => Vec::new(),
        };
        let mut last_offset: Number = Number::zero();
        if stops.len() > 0 {
            last_offset = stops[stops.len() - 1].offset;
        }
        let mut offset = offset;
        if last_offset.gt(offset) {
            offset = last_offset;
        }
        proof {
            crate::number::gt_is_asymmetric(last_offset, last_offset);
        }
        stops.push(ColorStop { offset, rgba });
        self.stops = Some(stops);
    }
}

impl Clone for GradientCommon {
    fn clone(&self) -> (copy: GradientCommon)
        ensures
            copy@ == self@,
    {
        GradientCommon {
            units: self.units,
            affine: self.affine,
            spread: self.spread,
            fallback: clone_fallback_name(&self.fallback),
            stops: self.clone_stops(),
        }
    }
}

impl Gradient {
    pub fn new(common: GradientCommon, variant: GradientVariant) -> (gradient: Gradient)
        ensures
            gradient == (Gradient { common, variant }),
    {
        Gradient { common, variant }
    }

    /// Whether every attribute is stated and the stops are known.
    pub fn is_resolved(&self) -> (resolved: bool)
        ensures
            resolved == self@.spec_is_resolved(),
    {
        self.common.is_resolved() && self.variant.is_resolved()
    }

    /// Gives each attribute that is not stated its default.
    pub fn resolve_from_defaults(&mut self)
        ensures
            final(self)@ == old(self)@.spec_resolve_from_defaults(),
            final(self)@.spec_is_resolved(),
    {
        self.common.resolve_from_defaults();
        self.variant.resolve_from_defaults();
    }

    /// Takes from `fallback` each attribute that is not stated here. What is
    /// stated here stays.
    pub fn resolve_from_fallback(&mut self, fallback: &Gradient)
        ensures
            final(self)@ == old(self)@.spec_resolve_from_fallback(fallback@),
    {
        self.common.resolve_from_fallback(&fallback.common);
        self.variant.resolve_from_fallback(&fallback.variant);
    }

    pub fn add_color_stop(&mut self, offset: Number, rgba: u32)
        ensures
            final(self)@ == old(self)@.spec_add_color_stop(offset, rgba),
            old(self)@.common.stops is Some && is_monotonic(old(self)@.common.stops.unwrap())
                ==> is_monotonic(final(self)@.common.stops.unwrap()),
            old(self)@.common.stops is None ==> is_monotonic(final(self)@.common.stops.unwrap()),
    {
        self.common.add_color_stop(offset, rgba);
    }
}

impl Clone for Gradient {
    fn clone(&self) -> (copy: Gradient)
        ensures
            copy@ == self@,
    {
        Gradient { common: self.common.clone(), variant: self.variant }
    }
}

/// `gradient` with the stops that the nodes `kids` state, in their order.
/// A node that is not a stop is passed over. A stop whose attributes could not
/// be read ends the list: neither it nor any stop behind it is added.
pub open spec fn with_stops_from(document: Document, kids: Seq<NodeHandle>, gradient: GradientView) -> GradientView
    decreases kids.len(),
{
    if kids.len() == 0 {
        gradient
    } else {
        match document.spec_element(kids[0]) {
            Some(Element::Stop(stop)) => if document.spec_is_in_error(kids[0]) {
                gradient
            } else {
                with_stops_from(
                    document,
                    kids.drop_first(),
                    gradient.spec_add_color_stop(stop.offset, stop.rgba),
                )
            },
            _ => with_stops_from(document, kids.drop_first(), gradient),
        }
    }
}

/// The gradient that stands at `node`: the attributes that the element
/// states, with the stops that its children state. There is none where
/// `node` is not a gradient.
pub open spec fn spec_gradient_from_node(document: Document, node: NodeHandle) -> Option<GradientView> {
    match document.spec_element(node) {
        Some(Element::Gradient(gradient)) => Some(
            with_stops_from(document, document.spec_children(node), gradient@),
        ),
        _ => None,
    }
}

/// Adds to `gradient` the colour stops among the children of `node`.
pub fn gradient_add_color_stops_from_node(gradient: &mut Gradient, document: &Document, node: NodeHandle)
    ensures
        final(gradient)@ == with_stops_from(*document, document.spec_children(node), old(gradient)@),
{
    if node.0 >= document.nodes.len() {
        return ;
    }
    let kids = &document.nodes[node.0].children;
    let mut k: usize = 0;
    assert(kids@.skip(0) == kids@);
    while k < kids.len()
        invariant
            k <= kids.len(),
            kids@ == document.spec_children(node),
            with_stops_from(*document, kids@.skip(k as int), gradient@) == with_stops_from(
                *document,
                kids@,
                old(gradient)@,
            ),
        decreases kids.len() - k,
    {
        let child = kids[k];
        proof {
            let rest = kids@.skip(k as int);
            assert(rest[0] == child);
            assert(rest.drop_first() == kids@.skip(k + 1));
        }
        match document.element(child) {
            Some(Element::Stop(stop)) => {
                if document.is_in_error(child) {
                    return ;
                }
                gradient.add_color_stop(stop.offset, stop.rgba);
            },
            _ => {},
        }
        k = k + 1;
    }
}

/// The gradient that stands at `node`, with its stops.
pub fn gradient_from_node(document: &Document, node: NodeHandle) -> (gradient: Option<Gradient>)
    ensures
        match gradient {
            Some(g) => spec_gradient_from_node(*document, node) == Some(g@),
            None => spec_gradient_from_node(*document, node) is None,
        },
{
    match document.element(node) {
        Some(Element::Gradient(stated)) => {
            let mut gradient = stated.clone();
            gradient_add_color_stops_from_node(&mut gradient, document, node);
            Some(gradient)
        },
        _ => None,
    }
}

/// Where the fallbacks of a gradient come from: the document, by name. It
/// remembers the nodes that it has handed out.
#[derive(Debug)]
pub struct NodeFallbackSource {
    pub acquired_nodes: NodeStack,
}

/// What `get_fallback` gives for the reference `name`, and the state in which
/// it leaves the lookups and the nodes handed out.
///
/// A lookup beyond the limit is an error, and so is a reference to a node
/// that has been handed out before. A reference that names no node, or a node
/// that is not an element, gives no gradient. Any other node is remembered,
/// and gives its gradient where it is one.
pub open spec fn spec_get_fallback(acquired: AcquiredNodes, stack: Seq<NodeHandle>, name: String) -> (
    Result<Option<GradientView>, AcquireError>,
    AcquiredNodes,
    Seq<NodeHandle>,
) {
    match acquired.spec_acquire(name) {
        Err(AcquireError::MaxReferencesExceeded) => (
            Err(AcquireError::MaxReferencesExceeded),
            acquired.after_acquire(),
            stack,
        ),
        Err(_) => (Ok(None), acquired.after_acquire(), stack),
        Ok(node) => if stack.contains(node) {
            (Err(AcquireError::CircularReference(node)), acquired.after_acquire(), stack)
        } else {
            (
                Ok(spec_gradient_from_node(*acquired.document, node)),
                acquired.after_acquire(),
                stack.push(node),
            )
        },
    }
}

/// What resolving `gradient` gives, and the state in which it leaves the
/// lookups and the nodes handed out.
///
/// A gradient that is complete is the result. One that is not and has no
/// reference left is completed from the defaults; so is one whose reference
/// gives no gradient. A reference that gives a gradient adds what that
/// gradient states, and resolving goes on with that gradient's reference.
pub open spec fn spec_resolve_gradient(
    acquired: AcquiredNodes,
    stack: Seq<NodeHandle>,
    gradient: GradientView,
) -> (Result<GradientView, AcquireError>, AcquiredNodes, Seq<NodeHandle>)
    decreases acquired.max_references - acquired.num_elements_acquired,
{
    if gradient.spec_is_resolved() {
        (Ok(gradient), acquired, stack)
    } else {
        match gradient.common.fallback {
            None => (Ok(gradient.spec_resolve_from_defaults()), acquired, stack),
            Some(name) => {
                let (found, acquired_after, stack_after) = spec_get_fallback(acquired, stack, name);
                match found {
                    Err(e) => (Err(e), acquired_after, stack_after),
                    Ok(None) => (
                        Ok(gradient.spec_resolve_from_defaults()),
                        acquired_after,
                        stack_after,
                    ),
                    Ok(Some(fallback)) => spec_resolve_gradient(
                        acquired_after,
                        stack_after,
                        gradient.spec_resolve_from_fallback(fallback),
                    ),
                }
            },
        }
    }
}

impl NodeFallbackSource {
    pub fn new() -> (source: NodeFallbackSource)
        ensures
            source.acquired_nodes.0@ == Seq::<NodeHandle>::empty(),
    {
        NodeFallbackSource { acquired_nodes: NodeStack::new() }
    }

    /// The gradient that the reference `name` leads to, if it leads to one.
    pub fn get_fallback(&mut self, acquired: &mut AcquiredNodes<'_>, name: &String) -> (found: Result<
        Option<Gradient>,
        AcquireError,
    >)
        ensures
            *final(acquired) == spec_get_fallback(*old(acquired), old(self).acquired_nodes.0@, *name).1,
            final(self).acquired_nodes.0@ == spec_get_fallback(
                *old(acquired),
                old(self).acquired_nodes.0@,
                *name,
            ).2,
            match found {
                Ok(Some(gradient)) => spec_get_fallback(
                    *old(acquired),
                    old(self).acquired_nodes.0@,
                    *name,
                ).0 == Ok::<Option<GradientView>, AcquireError>(Some(gradient@)),
                Ok(None) => spec_get_fallback(*old(acquired), old(self).acquired_nodes.0@, *name).0
                    == Ok::<Option<GradientView>, AcquireError>(None),
                Err(e) => spec_get_fallback(*old(acquired), old(self).acquired_nodes.0@, *name).0
                    == Err::<Option<GradientView>, AcquireError>(e),
            },
    {
        match acquired.acquire(name) {
            Err(AcquireError::MaxReferencesExceeded) => Err(AcquireError::MaxReferencesExceeded),
            Err(_) => Ok(None),
            Ok(fallback_node) => {
                if self.acquired_nodes.contains(fallback_node) {
                    return Err(AcquireError::CircularReference(fallback_node));
                }
                self.acquired_nodes.push(fallback_node);
                Ok(gradient_from_node(acquired.document, fallback_node))
            },
        }
    }
}

/// Completes `gradient` by following its chain of references.
///
/// The result is `gradient` with each attribute that it does not state taken
/// from the first gradient along the chain that states it, and from the
/// defaults where none does. It fails where the chain comes back to a node it
/// has passed, and where it would take more lookups than the limit allows.
pub fn resolve_gradient(
    gradient: &Gradient,
    fallback_source: &mut NodeFallbackSource,
    acquired: &mut AcquiredNodes<'_>,
) -> (result: Result<Gradient, AcquireError>)
    ensures
        *final(acquired) == spec_resolve_gradient(
            *old(acquired),
            old(fallback_source).acquired_nodes.0@,
            gradient@,
        ).1,
        final(fallback_source).acquired_nodes.0@ == spec_resolve_gradient(
            *old(acquired),
            old(fallback_source).acquired_nodes.0@,
            gradient@,
        ).2,
        match result {
            Ok(resolved) => resolved@.spec_is_resolved() && spec_resolve_gradient(
                *old(acquired),
                old(fallback_source).acquired_nodes.0@,
                gradient@,
            ).0 == Ok::<GradientView, AcquireError>(resolved@),
            Err(e) => spec_resolve_gradient(
                *old(acquired),
                old(fallback_source).acquired_nodes.0@,
                gradient@,
            ).0 == Err::<GradientView, AcquireError>(e),
        },
{
    let mut result = gradient.clone();

    while !result.is_resolved()
        invariant
            spec_resolve_gradient(*acquired, fallback_source.acquired_nodes.0@, result@)
                == spec_resolve_gradient(
                *old(acquired),
                old(fallback_source).acquired_nodes.0@,
                gradient@,
            ),
        decreases acquired.max_references - acquired.num_elements_acquired,
    {
        let opt_fallback = match &result.common.fallback {
            Some(fallback_name) => match fallback_source.get_fallback(acquired, fallback_name) {
                Ok(found) => found,
                Err(e) => {
                    return Err(e);
                },
            },
            None => None,
        };
        match opt_fallback {
            Some(fallback_gradient) => {
                result.resolve_from_fallback(&fallback_gradient);
            },
            None => {
                result.resolve_from_defaults();
                return Ok(result);
            },
        }
    }

    Ok(result)
}

/// Adding a stop keeps the stops in order: no stop lies before the one in
/// front of it.
pub proof fn add_color_stop_keeps_order(stops: Seq<ColorStop>, offset: Number, rgba: u32)
    requires
        is_monotonic(stops),
    ensures
        is_monotonic(with_stop(stops, offset, rgba)),
        with_stop(stops, offset, rgba).len() == stops.len() + 1,
        !last_offset(stops).spec_gt(with_stop(stops, offset, rgba).last().offset),
{
    crate::number::gt_is_asymmetric(last_offset(stops), last_offset(stops));
}

/// The stops gathered from a node are in order, whatever offsets the stops of
/// the document state.
pub proof fn stops_from_nodes_are_in_order(document: Document, kids: Seq<NodeHandle>, gradient: GradientView)
    requires
        gradient.common.stops matches Some(stops) ==> is_monotonic(stops),
    ensures
        with_stops_from(document, kids, gradient).common.stops matches Some(stops) ==> is_monotonic(
            stops,
        ),
    decreases kids.len(),
{
    if kids.len() > 0 {
        match document.spec_element(kids[0]) {
            Some(Element::Stop(stop)) => {
                if !document.spec_is_in_error(kids[0]) {
                    let before = match gradient.common.stops {
                        Some(stops) => stops,
                        None => Seq::empty(),
                    };
                    add_color_stop_keeps_order(before, stop.offset, stop.rgba);
                    stops_from_nodes_are_in_order(
                        document,
                        kids.drop_first(),
                        gradient.spec_add_color_stop(stop.offset, stop.rgba),
                    );
                }
            },
            _ => {
                stops_from_nodes_are_in_order(document, kids.drop_first(), gradient);
            },
        }
    }
}

impl GradientView {
    /// Whether `later` states everything that `self` states, with the same
    /// values, and is a gradient of the same kind.
    pub open spec fn is_kept_in(self, later: GradientView) -> bool {
        &&& self.common.units is Some ==> later.common.units == self.common.units
        &&& self.common.affine is Some ==> later.common.affine == self.common.affine
        &&& self.common.spread is Some ==> later.common.spread == self.common.spread
        &&& self.common.stops is Some ==> later.common.stops == self.common.stops
        &&& match (self.variant, later.variant) {
            (
                GradientVariant::Linear { x1, y1, x2, y2 },
                GradientVariant::Linear { x1: x1l, y1: y1l, x2: x2l, y2: y2l },
            ) => {
                &&& x1 is Some ==> x1l == x1
                &&& y1 is Some ==> y1l == y1
                &&& x2 is Some ==> x2l == x2
                &&& y2 is Some ==> y2l == y2
            },
            (
                GradientVariant::Radial { cx, cy, r, fx, fy },
                GradientVariant::Radial { cx: cxl, cy: cyl, r: rl, fx: fxl, fy: fyl },
            ) => {
                &&& cx is Some ==> cxl == cx
                &&& cy is Some ==> cyl == cy
                &&& r is Some ==> rl == r
                &&& fx is Some ==> fxl == fx
                &&& fy is Some ==> fyl == fy
            },
            _ => false,
        }
    }
}

/// What a gradient states is never replaced. Where resolving succeeds, the
/// result is complete, is of the same kind as the gradient, and has every
/// attribute that the gradient states with the value that it states.
pub proof fn resolving_keeps_what_is_stated(
    acquired: AcquiredNodes,
    stack: Seq<NodeHandle>,
    gradient: GradientView,
)
    requires
        spec_resolve_gradient(acquired, stack, gradient).0 is Ok,
    ensures
        spec_resolve_gradient(acquired, stack, gradient).0.unwrap().spec_is_resolved(),
        gradient.is_kept_in(spec_resolve_gradient(acquired, stack, gradient).0.unwrap()),
    decreases acquired.max_references - acquired.num_elements_acquired,
{
    if !gradient.spec_is_resolved() {
        match gradient.common.fallback {
            None => {},
            Some(name) => {
                let (found, acquired_after, stack_after) = spec_get_fallback(acquired, stack, name);
                match found {
                    Ok(Some(fallback)) => {
                        resolving_keeps_what_is_stated(
                            acquired_after,
                            stack_after,
                            gradient.spec_resolve_from_fallback(fallback),
                        );
                    },
                    _ => {},
                }
            },
        }
    }
}

/// A chain of references that runs in a circle fails. Let `a` and `b` be two
/// gradients that refer to each other, and let them together leave an
/// attribute out or have no stops. Then resolving the first of them fails
/// with the second as the node at which the circle closes, provided that
/// three lookups are within the limit.
pub proof fn two_gradients_in_a_circle_fail(
    acquired: AcquiredNodes,
    a: NodeHandle,
    b: NodeHandle,
    gradient_a: GradientView,
    gradient_b: GradientView,
    id_a: String,
    id_b: String,
)
    requires
        a != b,
        acquired.document.spec_lookup_node(id_a@) == Some(a),
        acquired.document.spec_lookup_node(id_b@) == Some(b),
        spec_gradient_from_node(*acquired.document, a) == Some(gradient_a),
        spec_gradient_from_node(*acquired.document, b) == Some(gradient_b),
        gradient_a.common.fallback == Some(id_b),
        gradient_b.common.fallback == Some(id_a),
        !gradient_a.spec_resolve_from_fallback(gradient_b).spec_is_resolved(),
        acquired.num_elements_acquired + 3 <= acquired.max_references,
    ensures
        spec_resolve_gradient(acquired, Seq::empty(), gradient_a).0 == Err::<
            GradientView,
            AcquireError,
        >(AcquireError::CircularReference(b)),
{
    let both = gradient_a.spec_resolve_from_fallback(gradient_b);
    let again = both.spec_resolve_from_fallback(gradient_a);
    let once = acquired.after_acquire();
    let twice = once.after_acquire();
    let first: Seq<NodeHandle> = Seq::empty().push(b);
    let second = first.push(a);
    assert(!Seq::<NodeHandle>::empty().contains(b));
    assert(first[0] == b);
    assert(!first.contains(a));
    assert(second[0] == b);
    assert(second.contains(b));
    assert(!again.spec_is_resolved());
    assert(again.common.fallback == Some(id_b));
    assert(spec_get_fallback(twice, second, id_b).0 == Err::<Option<GradientView>, AcquireError>(
        AcquireError::CircularReference(b),
    ));
    assert(spec_resolve_gradient(twice, second, again).0 == Err::<GradientView, AcquireError>(
        AcquireError::CircularReference(b),
    ));
    assert(spec_get_fallback(once, first, id_a) == (
        Ok::<Option<GradientView>, AcquireError>(Some(gradient_a)),
        twice,
        second,
    ));
    assert(spec_resolve_gradient(once, first, both) == spec_resolve_gradient(twice, second, again));
    assert(spec_get_fallback(acquired, Seq::empty(), id_b) == (
        Ok::<Option<GradientView>, AcquireError>(Some(gradient_b)),
        once,
        first,
    ));
    assert(spec_resolve_gradient(acquired, Seq::empty(), gradient_a) == spec_resolve_gradient(
        once,
        first,
        both,
    ));
}

/// A colour stop as the renderer takes it. `alpha` is the stop's alpha times
/// the opacity of the painted element, so 255 * 255 stands for opaque.
#[derive(Debug, Clone, Copy, PartialEq, Eq, Structural)]
pub struct PaintStop {
    pub offset: Number,
    pub red: u8,
    pub green: u8,
    pub blue: u8,
    pub alpha: u32,
}

/// A stop with its colour unpacked and its alpha multiplied by `opacity`.
pub open spec fn spec_paint_stop(stop: ColorStop, opacity: u8) -> PaintStop {
    PaintStop {
        offset: stop.offset,
        red: (stop.rgba / 0x100_0000) as u8,
        green: ((stop.rgba / 0x1_0000) % 0x100) as u8,
        blue: ((stop.rgba / 0x100) % 0x100) as u8,
        alpha: ((stop.rgba % 0x100) * opacity) as u32,
    }
}

fn paint_stop(stop: &ColorStop, opacity: u8) -> (paint: PaintStop)
    ensures
        paint == spec_paint_stop(*stop, opacity),
{
    let rgba: u32 = stop.rgba;
    let red: u32 = (rgba >> 24) & 0xff;
    let green: u32 = (rgba >> 16) & 0xff;
    let blue: u32 = (rgba >> 8) & 0xff;
    let alpha: u32 = rgba & 0xff;
    assert(red == rgba / 0x100_0000 && green == (rgba / 0x1_0000) % 0x100 && blue == (rgba / 0x100)
        % 0x100 && alpha == rgba % 0x100 && red < 256 && alpha < 256) by (bit_vector)
        requires
            red == (rgba >> 24) & 0xff,
            green == (rgba >> 16) & 0xff,
            blue == (rgba >> 8) & 0xff,
            alpha == rgba & 0xff,
    ;
    assert(alpha * opacity <= 255 * 255) by (nonlinear_arith)
        requires
            0 <= alpha <= 255,
            0 <= opacity <= 255,
    ;
    PaintStop {
        offset: stop.offset,
        red: red as u8,
        green: green as u8,
        blue: blue as u8,
        alpha: alpha * (opacity as u32),
    }
}

/// The lengths of a resolved gradient.
#[derive(Debug, Clone, Copy, PartialEq, Eq, Structural)]
pub enum GradientGeometry {
    /// The two ends of the axis.
    Linear { x1: Length, y1: Length, x2: Length, y2: Length },
    /// The centre, the radius and the focus as stated. A focus outside the
    /// circle is moved onto it by the renderer.
    Radial { cx: Length, cy: Length, r: Length, fx: Length, fy: Length },
}

/// A resolved gradient laid out for one painted object: what the renderer
/// computes the gradient's coordinates and colours from. The lengths are in
/// `frame`.
#[derive(Debug)]
pub struct UserSpaceGradient {
    pub geometry: GradientGeometry,
    pub frame: Frame,
    pub affine: Transform,
    pub spread: Extend,
    pub stops: Vec<PaintStop>,
}

impl PaintServerUnits {
    pub open spec fn spec_coord_units(self) -> CoordUnits {
        match self {
            PaintServerUnits::UserSpaceOnUse => CoordUnits::UserSpaceOnUse,
            PaintServerUnits::ObjectBoundingBox => CoordUnits::ObjectBoundingBox,
        }
    }

    pub fn coord_units(self) -> (units: CoordUnits)
        ensures
            units == self.spec_coord_units(),
    {
        match self {
            PaintServerUnits::UserSpaceOnUse => CoordUnits::UserSpaceOnUse,
            PaintServerUnits::ObjectBoundingBox => CoordUnits::ObjectBoundingBox,
        }
    }
}

impl GradientVariant {
    /// The lengths of a variant in which every length is stated.
    pub open spec fn spec_geometry(self) -> GradientGeometry {
        match self {
            GradientVariant::Linear { x1, y1, x2, y2 } => GradientGeometry::Linear {
                x1: x1.unwrap(),
                y1: y1.unwrap(),
                x2: x2.unwrap(),
                y2: y2.unwrap(),
            },
            GradientVariant::Radial { cx, cy, r, fx, fy } => GradientGeometry::Radial {
                cx: cx.unwrap(),
                cy: cy.unwrap(),
                r: r.unwrap(),
                fx: fx.unwrap(),
                fy: fy.unwrap(),
            },
        }
    }

    pub fn geometry(&self) -> (geometry: GradientGeometry)
        requires
            self.spec_is_resolved(),
        ensures
            geometry == self.spec_geometry(),
    {
        match *self {
            GradientVariant::Linear { x1, y1, x2, y2 } => GradientGeometry::Linear {
                x1: x1.unwrap(),
                y1: y1.unwrap(),
                x2: x2.unwrap(),
                y2: y2.unwrap(),
            },
            GradientVariant::Radial { cx, cy, r, fx, fy } => GradientGeometry::Radial {
                cx: cx.unwrap(),
                cy: cy.unwrap(),
                r: r.unwrap(),
                fx: fx.unwrap(),
                fy: fy.unwrap(),
            },
        }
    }
}

impl Gradient {
    /// Appends the gradient's stops to `pattern`, each with its colour
    /// unpacked and its alpha multiplied by `opacity`.
    pub fn add_color_stops_to_pattern(&self, pattern: &mut Vec<PaintStop>, opacity: u8)
        requires
            self@.common.stops is Some,
        ensures
            final(pattern)@ == old(pattern)@ + self@.common.stops.unwrap().map_values(
                |stop: ColorStop| spec_paint_stop(stop, opacity),
            ),
    {
        let stops = self.common.stops.as_ref().unwrap();
        let ghost painted = stops@.map_values(|stop: ColorStop| spec_paint_stop(stop, opacity));
        let mut i: usize = 0;
        assert(painted.take(0) == Seq::<PaintStop>::empty());
        while i < stops.len()
            invariant
                i <= stops.len(),
                painted == stops@.map_values(|stop: ColorStop| spec_paint_stop(stop, opacity)),
                pattern@ == old(pattern)@ + painted.take(i as int),
            decreases stops.len() - i,
        {
            pattern.push(paint_stop(&stops[i], opacity));
            assert(painted.take(i as int).push(painted[i as int]) == painted.take(i + 1));
            i = i + 1;
        }
        assert(painted.take(stops.len() as int) == painted);
    }

    /// Lays the gradient out for an object with the bounding box `bbox`,
    /// painted with `opacity`.
    ///
    /// Returns `None`, which stands for nothing to paint, exactly where the
    /// gradient is measured against the bounding box and the object has
    /// none.
    pub fn to_user_space(&self, opacity: u8, bbox: &BoundingBox) -> (layout: Option<
        UserSpaceGradient,
    >)
        requires
            self@.spec_is_resolved(),
        ensures
            layout is None <==> (self.common.units == Some(PaintServerUnits::ObjectBoundingBox)
                && bbox.rect is None),
            layout matches Some(g) ==> {
                &&& Some(g.frame) == self.common.units.unwrap().spec_coord_units().spec_frame(*bbox)
                &&& g.geometry == self.variant.spec_geometry()
                &&& g.affine == self.common.affine.unwrap()
                &&& g.spread == self.common.spread.unwrap()
                &&& g.stops@ == self@.common.stops.unwrap().map_values(
                    |stop: ColorStop| spec_paint_stop(stop, opacity),
                )
            },
    {
        let frame = match self.common.units.unwrap().coord_units().frame(bbox) {
            Some(frame) => frame,
            None => {
                return None;
            },
        };
        let mut stops: Vec<PaintStop> = Vec::new();
        self.add_color_stops_to_pattern(&mut stops, opacity);
        assert(stops@ == self@.common.stops.unwrap().map_values(
            |stop: ColorStop| spec_paint_stop(stop, opacity),
        ));
        Some(
            UserSpaceGradient {
                geometry: self.variant.geometry(),
                frame,
                affine: self.common.affine.unwrap(),
                spread: self.common.spread.unwrap(),
                stops,
            },
        )
    }
}

/// The units that a truth value stands for: the bounding box for every value
/// but zero.
pub fn paint_server_units_from_gboolean(v: i32) -> (units: PaintServerUnits)
    ensures
        units == (if v != 0 {
            PaintServerUnits::ObjectBoundingBox
        } else {
            PaintServerUnits::UserSpaceOnUse
        }),
{
    if v != 0 {
        PaintServerUnits::ObjectBoundingBox
    } else {
        PaintServerUnits::UserSpaceOnUse
    }
}

/// The units that an optional truth value stands for.
pub open spec fn spec_units_from(obj_bbox: Option<i32>) -> Option<PaintServerUnits> {
    match obj_bbox {
        Some(v) => Some(
            if v != 0 {
                PaintServerUnits::ObjectBoundingBox
            } else {
                PaintServerUnits::UserSpaceOnUse
            },
        ),
        None => None,
    }
}

fn units_from(obj_bbox: Option<i32>) -> (units: Option<PaintServerUnits>)
    ensures
        units == spec_units_from(obj_bbox),
{
    match obj_bbox {
        Some(v) => Some(paint_server_units_from_gboolean(v)),
        None => None,
    }
}

/// A linear gradient with the attributes given, and without stops so far.
pub fn gradient_linear_new(
    x1: Option<Length>,
    y1: Option<Length>,
    x2: Option<Length>,
    y2: Option<Length>,
    obj_bbox: Option<i32>,
    affine: Option<Transform>,
    spread: Option<Extend>,
    fallback_name: Option<String>,
) -> (gradient: Gradient)
    ensures
        gradient@ == (GradientView {
            common: GradientCommonView {
                units: spec_units_from(obj_bbox),
                affine,
                spread,
                fallback: fallback_name,
                stops: None,
            },
            variant: GradientVariant::Linear { x1, y1, x2, y2 },
        }),
{
    Gradient::new(
        GradientCommon::new(units_from(obj_bbox), affine, spread, fallback_name, None),
        GradientVariant::Linear { x1, y1, x2, y2 },
    )
}

/// A radial gradient with the attributes given, and without stops so far.
pub fn gradient_radial_new(
    cx: Option<Length>,
    cy: Option<Length>,
    r: Option<Length>,
    fx: Option<Length>,
    fy: Option<Length>,
    obj_bbox: Option<i32>,
    affine: Option<Transform>,
    spread: Option<Extend>,
    fallback_name: Option<String>,
) -> (gradient: Gradient)
    ensures
        gradient@ == (GradientView {
            common: GradientCommonView {
                units: spec_units_from(obj_bbox),
                affine,
                spread,
                fallback: fallback_name,
                stops: None,
            },
            variant: GradientVariant::Radial { cx, cy, r, fx, fy },
        }),
{
    Gradient::new(
        GradientCommon::new(units_from(obj_bbox), affine, spread, fallback_name, None),
        GradientVariant::Radial { cx, cy, r, fx, fy },
    )
}

/// Resolves `gradient` and lays it out for an object with the bounding box
/// `bbox`, painted with `opacity`.
///
/// Fails as `resolve_gradient` does. Where resolving succeeds, the layout is
/// that of the resolved gradient, and `None` where that gradient is measured
/// against a bounding box that the object lacks.
pub fn gradient_resolve_fallbacks_and_set_pattern(
    gradient: &Gradient,
    acquired: &mut AcquiredNodes<'_>,
    opacity: u8,
    bbox: &BoundingBox,
) -> (result: Result<Option<UserSpaceGradient>, AcquireError>)
    ensures
        *final(acquired) == spec_resolve_gradient(*old(acquired), Seq::empty(), gradient@).1,
        match spec_resolve_gradient(*old(acquired), Seq::empty(), gradient@).0 {
            Err(e) => result == Err::<Option<UserSpaceGradient>, AcquireError>(e),
            Ok(resolved) => {
                &&& result is Ok
                &&& result.unwrap() is None <==> (resolved.common.units == Some(
                    PaintServerUnits::ObjectBoundingBox,
                ) && bbox.rect is None)
                &&& result.unwrap() matches Some(g) ==> {
                    &&& Some(g.frame) == resolved.common.units.unwrap().spec_coord_units().spec_frame(
                        *bbox,
                    )
                    &&& g.geometry == resolved.variant.spec_geometry()
                    &&& g.affine == resolved.common.affine.unwrap()
                    &&& g.spread == resolved.common.spread.unwrap()
                    &&& g.stops@ == resolved.common.stops.unwrap().map_values(
                        |stop: ColorStop| spec_paint_stop(stop, opacity),
                    )
                }
            },
        },
{
    let mut fallback_source = NodeFallbackSource::new();
    match resolve_gradient(gradient, &mut fallback_source, acquired) {
        Ok(resolved) => Ok(resolved.to_user_space(opacity, bbox)),
        Err(e) => Err(e),
    }
}

} // verus!
