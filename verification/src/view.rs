//! The displayed view as data: which renderer and which picture a given
//! counter value selects, and the container that holds the two widgets.
//!
//! A host mirrors `Container` onto the toolkit's widget tree: one drawing
//! surface bound to the named renderer, one image surface bound to the named
//! picture's file path.

use vstd::prelude::*;

verus! {

/// Which shape renderer a drawing surface is bound to.
#[derive(Clone, Copy, Debug, PartialEq, Eq, Structural)]
pub enum Renderer {
    /// The arc, circle and ellipse of `render::multi_shape_seq`.
    MultiShape,
    /// The one filled circle of `render::single_circle_seq`.
    SingleCircle,
}

/// Which picture an image surface displays.
#[derive(Clone, Copy, Debug, PartialEq, Eq, Structural)]
pub enum ImageFile {
    /// Paul Klee, "Revolution of the Viaduct".
    Viaduct,
    /// M. C. Escher, gecko.
    Gecko,
}

/// One child of the container.
#[derive(Clone, Copy, Debug, PartialEq, Eq, Structural)]
pub enum Widget {
    /// A drawing surface bound to the given renderer.
    DrawingSurface(Renderer),
    /// An image surface displaying the given picture.
    ImageSurface(ImageFile),
}

/// The renderer that a counter value selects: even counters show the
/// multi-shape view, odd counters the single circle.
pub open spec fn renderer_for(counter: int) -> Renderer {
    if counter % 2 == 0 {
        Renderer::MultiShape
    } else {
        Renderer::SingleCircle
    }
}

/// The picture that a counter value selects: even counters show the
/// viaduct, odd counters the gecko.
pub open spec fn image_for(counter: int) -> ImageFile {
    if counter % 2 == 0 {
        ImageFile::Viaduct
    } else {
        ImageFile::Gecko
    }
}

/// The two children that a counter value selects: a drawing surface, then
/// an image surface, both chosen by the counter's parity.
pub open spec fn view_children(counter: int) -> Seq<Widget> {
    seq![
        Widget::DrawingSurface(renderer_for(counter)),
        Widget::ImageSurface(image_for(counter)),
    ]
}

/// The renderer that a counter value selects, matching `renderer_for`.
pub fn renderer_for_counter(counter: u64) -> (r: Renderer)
    ensures
        r == renderer_for(counter as int),
{
    if counter % 2 == 0 {
        Renderer::MultiShape
    } else {
        Renderer::SingleCircle
    }
}

/// The picture that a counter value selects, matching `image_for`.
pub fn image_for_counter(counter: u64) -> (img: ImageFile)
    ensures
        img == image_for(counter as int),
{
    if counter % 2 == 0 {
        ImageFile::Viaduct
    } else {
        ImageFile::Gecko
    }
}

/// The relative file path of a picture.
pub open spec fn image_path_spec(img: ImageFile) -> Seq<char> {
    match img {
        ImageFile::Viaduct => "testdata/paul-klee-revolution-of-the-viaduct.jpeg"@,
        ImageFile::Gecko => "testdata/maurits-cornelis-escher-gecko.jpeg"@,
    }
}

/// The relative file path of a picture, matching `image_path_spec`.
pub fn image_path(img: ImageFile) -> (path: &'static str)
    ensures
        path@ == image_path_spec(img),
{
    match img {
        ImageFile::Viaduct => "testdata/paul-klee-revolution-of-the-viaduct.jpeg",
        ImageFile::Gecko => "testdata/maurits-cornelis-escher-gecko.jpeg",
    }
}

/// The vertical stack of displayed widgets.
#[derive(Debug)]
pub struct Container {
    /// The children, top to bottom.
    pub children: Vec<Widget>,
}

impl Container {
    /// An empty container, as freshly constructed by the toolkit.
    pub fn new() -> (c: Container)
        ensures
            c.children@ == Seq::<Widget>::empty(),
    {
        Container { children: Vec::new() }
    }

    /// Remove every current child, first child first, then append the
    /// drawing surface and the image surface that `counter` selects.
    pub fn rebuild(&mut self, counter: u64)
        ensures
            final(self).children@ == view_children(counter as int),
            final(self).children@.len() == 2,
    {
        while self.children.len() > 0
            decreases self.children@.len(),
        {
            self.children.remove(0);
        }
        self.children.push(Widget::DrawingSurface(renderer_for_counter(counter)));
        self.children.push(Widget::ImageSurface(image_for_counter(counter)));
        proof {
            assert(self.children@ =~= view_children(counter as int));
        }
    }
}

} // verus!
