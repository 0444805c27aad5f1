//! The `image` element.

use crate::geometry::AspectRatio;
use crate::length::Length;
use crate::pattern::set_href;
use crate::pattern::spec_set_href;
use vstd::prelude::*;

verus! {

/// An attribute of an `image` element with its value, as far as the element
/// reads it.
#[derive(Debug, Clone, PartialEq, Eq)]
pub enum ImageAttribute {
    /// `preserveAspectRatio`, with its value, or with nothing where the value
    /// is none that the attribute can have.
    PreserveAspectRatio(Option<AspectRatio>),
    Href(String),
    XlinkHref(String),
    /// `path`, which some old documents have in place of `href`.
    Path(String),
    /// Any other attribute.
    Other,
}

/// The `image` element.
#[derive(Debug)]
pub struct Image {
    pub aspect: AspectRatio,
    pub href: Option<String>,
}

/// A length, or the word `auto`.
#[derive(Debug, Clone, Copy, PartialEq, Eq, Structural)]
pub enum LengthOrAuto {
    Length(Length),
    Auto,
}

/// The properties of an element that drawing an image reads.
#[derive(Debug, Clone, Copy, PartialEq, Eq, Structural)]
pub struct ImageValues {
    pub x: Length,
    pub y: Length,
    pub width: LengthOrAuto,
    pub height: LengthOrAuto,
    pub is_visible: bool,
}

/// What an address leads to.
#[derive(Debug, Clone, Copy, PartialEq, Eq, Structural)]
pub enum Resource {
    /// A raster image of so many pixels.
    Image { width: i32, height: i32 },
    /// Another document.
    Document,
}

/// One side of the rectangle that an image is drawn into: a length, or where
/// the property says `auto`, as many user units as the image has pixels.
#[derive(Debug, Clone, Copy, PartialEq, Eq, Structural)]
pub enum Extent {
    Length(Length),
    Pixels(i32),
}

/// An image ready to be drawn: the rectangle starts at `(x, y)` and has the
/// extents given.
#[derive(Debug, Clone, Copy, PartialEq, Eq, Structural)]
pub struct ImageLayer {
    pub x: Length,
    pub y: Length,
    pub width: Extent,
    pub height: Extent,
    pub aspect: AspectRatio,
    pub is_visible: bool,
}

/// What an image is after one attribute has been read. A bad value of
/// `preserveAspectRatio` changes nothing. `href` and `path` take the place of
/// an address that is there, `xlink:href` only the place of none.
pub open spec fn after_attribute(aspect: AspectRatio, href: Option<String>, attr: ImageAttribute) -> (
    AspectRatio,
    Option<String>,
) {
    match attr {
        ImageAttribute::PreserveAspectRatio(Some(v)) => (v, href),
        ImageAttribute::PreserveAspectRatio(None) => (aspect, href),
        ImageAttribute::Href(url) => (aspect, spec_set_href(false, href, url)),
        ImageAttribute::XlinkHref(url) => (aspect, spec_set_href(true, href, url)),
        ImageAttribute::Path(url) => (aspect, spec_set_href(false, href, url)),
        ImageAttribute::Other => (aspect, href),
    }
}

/// What an image is after its attributes have been read one after the other.
pub open spec fn after_attributes(aspect: AspectRatio, href: Option<String>, attrs: Seq<ImageAttribute>) -> (
    AspectRatio,
    Option<String>,
)
    decreases attrs.len(),
{
    if attrs.len() == 0 {
        (aspect, href)
    } else {
        let (a, h) = after_attribute(aspect, href, attrs[0]);
        after_attributes(a, h, attrs.drop_first())
    }
}

impl LengthOrAuto {
    /// The length, or the number of pixels where there is none.
    pub open spec fn spec_extent(self, pixels: i32) -> Extent {
        match self {
            LengthOrAuto::Length(l) => Extent::Length(l),
            LengthOrAuto::Auto => Extent::Pixels(pixels),
        }
    }

    pub fn extent(self, pixels: i32) -> (extent: Extent)
        ensures
            extent == self.spec_extent(pixels),
    {
        match self {
            LengthOrAuto::Length(l) => Extent::Length(l),
            LengthOrAuto::Auto => Extent::Pixels(pixels),
        }
    }
}

impl Image {
    /// What drawing the image from a surface of `width` by `height` pixels
    /// puts on the page.
    pub open spec fn spec_draw_from_surface(self, width: i32, height: i32, values: ImageValues) -> ImageLayer {
        ImageLayer {
            x: values.x,
            y: values.y,
            width: values.width.spec_extent(width),
            height: values.height.spec_extent(height),
            aspect: self.aspect,
            is_visible: values.is_visible,
        }
    }

    /// What drawing the image from what its address led to puts on the page.
    pub open spec fn spec_draw_from_url<E>(self, resource: Result<Resource, E>, values: ImageValues) -> Option<
        ImageLayer,
    > {
        match resource {
            Ok(Resource::Image { width, height }) => Some(
                self.spec_draw_from_surface(width, height, values),
            ),
            _ => None,
        }
    }

    /// Reads the element's attributes in their order.
    pub fn set_attributes(&mut self, attrs: &Vec<ImageAttribute>)
        ensures
            (final(self).aspect, final(self).href) == after_attributes(
                old(self).aspect,
                old(self).href,
                attrs@,
            ),
    {
        let mut i: usize = 0;
        assert(attrs@.skip(0) == attrs@);
        while i < attrs.len()
            invariant
                i <= attrs.len(),
                after_attributes(self.aspect, self.href, attrs@.skip(i as int)) == after_attributes(
                    old(self).aspect,
                    old(self).href,
                    attrs@,
                ),
            decreases attrs.len() - i,
        {
            proof {
                let rest = attrs@.skip(i as int);
                assert(rest[0] == attrs[i as int]);
                assert(rest.drop_first() == attrs@.skip(i + 1));
            }
            match &attrs[i] {
                ImageAttribute::PreserveAspectRatio(Some(v)) => {
                    self.aspect = *v;
                },
                ImageAttribute::PreserveAspectRatio(None) => {},
                ImageAttribute::Href(url) => {
                    set_href(false, &mut self.href, url.clone());
                },
                ImageAttribute::XlinkHref(url) => {
                    set_href(true, &mut self.href, url.clone());
                },
                ImageAttribute::Path(url) => {
                    set_href(false, &mut self.href, url.clone());
                },
                ImageAttribute::Other => {},
            }
            i = i + 1;
        }
    }

    /// The address to draw the image from. An image without one draws
    /// nothing.
    pub fn draw(&self) -> (url: Option<&String>)
        ensures
            match url {
                Some(u) => self.href == Some(*u),
                None => self.href is None,
            },
    {
        self.href.as_ref()
    }

    /// Draws what the image's address led to: a raster image is laid out, and
    /// an address that led nowhere draws nothing. An address that leads to
    /// another document is not provided for.
    pub fn draw_from_url<E>(&self, resource: &Result<Resource, E>, values: &ImageValues) -> (layer:
        Option<ImageLayer>)
        requires
            !(resource matches Ok(Resource::Document)),
        ensures
            layer == self.spec_draw_from_url(*resource, *values),
            layer is Some <==> resource is Ok,
    {
        match resource {
            Ok(Resource::Image { width, height }) => Some(
                self.draw_from_surface(*width, *height, values),
            ),
            _ => None,
        }
    }

    /// Lays the image out: it starts at the `x` and `y` of the element, and
    /// each side that the element leaves to `auto` is as long as the surface
    /// has pixels on that side.
    pub fn draw_from_surface(&self, width: i32, height: i32, values: &ImageValues) -> (layer:
        ImageLayer)
        ensures
            layer == self.spec_draw_from_surface(width, height, *values),
    {
        ImageLayer {
            x: values.x,
            y: values.y,
            width: values.width.extent(width),
            height: values.height.extent(height),
            aspect: self.aspect,
            is_visible: values.is_visible,
        }
    }
}

impl Default for Image {
    fn default() -> (image: Image)
        ensures
            image.aspect == AspectRatio::spec_default(),
            image.href is None,
    {
        Image { aspect: AspectRatio::default(), href: None }
    }
}

} // verus!
