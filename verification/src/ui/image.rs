use vstd::prelude::*;
use crate::base::Color;
use crate::ui::element::{Element, ElementWeak};

verus! {

/// Where an image's pixels come from.
#[derive(Clone, Debug, PartialEq, Eq)]
pub enum ImageSource {
    Empty,
    /// An image file at the given path.
    Path(String),
    /// An SVG document given by its bytes.
    Svg(Vec<u8>),
}

/// An image to paint, with the colour that tints it.
pub struct ImageObject {
    pub source: ImageSource,
    pub color: Color,
}

impl ImageObject {
    pub fn none() -> (r: Self)
        ensures
            r.source == ImageSource::Empty,
            r.color == Color(0),
    {
        ImageObject { source: ImageSource::Empty, color: Color(0) }
    }

    pub fn new(path: &str) -> (r: Self)
        ensures
            r.source matches ImageSource::Path(p) && p@ == path@,
            r.color == Color(0),
    {
        ImageObject { source: ImageSource::Path(String::from_str(path)), color: Color(0) }
    }

    pub fn from_svg_bytes(svg: &[u8]) -> (r: Self)
        ensures
            r.source matches ImageSource::Svg(b) && b@ == svg@,
            r.color == Color(0),
    {
        ImageObject { source: ImageSource::Svg(vstd::slice::slice_to_vec(svg)), color: Color(0) }
    }

    /// Sets the tint colour; says whether it changed.
    pub fn set_color(&mut self, color: Color) -> (changed: bool)
        ensures
            changed == (old(self).color != color),
            final(self).color == color,
            final(self).source == old(self).source,
    {
        if self.color != color {
            self.color = color;
            true
        } else {
            false
        }
    }
}

/// What an image element hands to layout and painting.
pub struct ImageDelegate {
    pub element: ElementWeak,
    pub img: ImageObject,
}

impl ImageDelegate {
    /// Tints the image with the text colour that the element's style
    /// resolved to.
    pub fn after_style_resolved(&mut self, color: Color)
        ensures
            final(self).img.color == color,
            final(self).img.source == old(self).img.source,
            final(self).element == old(self).element,
    {
        let _ = self.img.set_color(color);
    }
}

/// An image element.
pub struct Image {
    pub el: Element,
    pub src: String,
    pub img: ImageObject,
}

impl Image {
    /// Shows the image file at `src`.
    pub fn set_src(&mut self, src: String)
        ensures
            final(self).img.source matches ImageSource::Path(p) && p@ == src@,
            final(self).img.color == old(self).el.color,
            final(self).src == old(self).src,
            final(self).el.layout_dirty,
            final(self).el.paint_dirty,
            final(self).el.id == old(self).el.id,
            final(self).el.color == old(self).el.color,
            final(self).el.appended_styles == old(self).el.appended_styles,
    {
        self.update_img(ImageObject::new(src.as_str()));
    }

    /// Shows the SVG document given by its bytes.
    pub fn set_src_svg_raw(&mut self, svg: &[u8])
        ensures
            final(self).img.source matches ImageSource::Svg(b) && b@ == svg@,
            final(self).img.color == old(self).el.color,
            final(self).src == old(self).src,
            final(self).el.layout_dirty,
            final(self).el.paint_dirty,
            final(self).el.id == old(self).el.id,
            final(self).el.color == old(self).el.color,
            final(self).el.appended_styles == old(self).el.appended_styles,
    {
        self.update_img(ImageObject::from_svg_bytes(svg));
    }

    /// Shows `img`, tinted with the element's text colour, and asks for a
    /// new layout.
    fn update_img(&mut self, img: ImageObject)
        ensures
            final(self).img.source == img.source,
            final(self).img.color == old(self).el.color,
            final(self).src == old(self).src,
            final(self).el.layout_dirty,
            final(self).el.paint_dirty,
            final(self).el.id == old(self).el.id,
            final(self).el.color == old(self).el.color,
            final(self).el.appended_styles == old(self).el.appended_styles,
    {
        let mut img = img;
        let _ = img.set_color(self.el.color);
        self.img = img;
        self.el.mark_dirty(true);
    }

    /// An empty image element.
    pub fn create(id: u32) -> (r: Self)
        ensures
            r.el.id == id,
            r.el.tag@ == "image"@,
            r.el.children@.len() == 0,
            r.el.style is None,
            r.src@.len() == 0,
            r.img.source == ImageSource::Empty,
            r.el.appended_styles@.len() == 0,
    {
        let element = Element::new(id, "image");
        Image { el: element, src: String::new(), img: ImageObject::none() }
    }

    pub fn append_style(&mut self, style: crate::style::parsed_styles::ParsedStyles)
        ensures
            final(self).el.appended_styles@ == old(self).el.appended_styles@.push(style),
            final(self).el.id == old(self).el.id,
            final(self).el.style == old(self).el.style,
            final(self).img == old(self).img,
            final(self).src == old(self).src,
    {
        self.el.append_style(style);
    }
}

} // verus!
