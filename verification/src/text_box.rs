use vstd::prelude::*;
use crate::align::{Horizontal, Vertical};
use crate::layout::{MAX_DIM, Placement, Viewport, compute, placement_spec};

verus! {

/// Default font size (and padding proxy) of a text box, in whole pixels.
pub const DEFAULT_SIZE: i64 = 100;

/// Configuration for one text label: its content, its font size (which also
/// serves as the padding from the viewport edges), and the alignment pair.
pub struct TextBox {
    pub text: String,
    pub size: i64,
    pub halign: Horizontal,
    pub valign: Vertical,
}

impl TextBox {
    /// A text box is well formed when its size is non-negative and bounded.
    pub open spec fn wf(self) -> bool {
        0 <= self.size <= MAX_DIM
    }

    /// A new text box with the given content and the default size and
    /// alignments.
    pub fn new(text: String) -> (r: TextBox)
        ensures
            r.text == text,
            r.size == DEFAULT_SIZE,
            r.halign == Horizontal::Center,
            r.valign == Vertical::Middle,
            r.wf(),
    {
        TextBox { text, size: DEFAULT_SIZE, halign: Horizontal::Center, valign: Vertical::Middle }
    }

    /// The same text box with the horizontal alignment replaced.
    pub fn halign(self, halign: Horizontal) -> (r: TextBox)
        ensures
            r.text == self.text,
            r.size == self.size,
            r.halign == halign,
            r.valign == self.valign,
    {
        TextBox { halign, ..self }
    }

    /// The same text box with the vertical alignment replaced.
    pub fn valign(self, valign: Vertical) -> (r: TextBox)
        ensures
            r.text == self.text,
            r.size == self.size,
            r.halign == self.halign,
            r.valign == valign,
    {
        TextBox { valign, ..self }
    }

    /// Where this text box goes within the given viewport: the calculator
    /// applied to its own size and alignments.
    pub fn placement(&self, viewport: Viewport) -> (r: Option<Placement>)
        requires
            viewport.wf(),
            self.wf(),
        ensures
            r == placement_spec(viewport, self.size as int, self.halign, self.valign),
            (r is Some) <==> !viewport.is_degenerate(),
            r matches Some(p) ==> p.wf(),
    {
        compute(viewport, self.size, self.halign, self.valign)
    }

    /// The wrapping bounds handed to the text layout engine: the viewport
    /// shrunk by the font size on each axis, in whole pixels.  The result may
    /// be negative when the size exceeds the viewport.
    pub fn wrap_bounds(&self, viewport: Viewport) -> (r: (i64, i64))
        requires
            viewport.wf(),
            self.wf(),
        ensures
            r.0 == viewport.w - self.size,
            r.1 == viewport.h - self.size,
    {
        (viewport.w - self.size, viewport.h - self.size)
    }
}

impl Default for TextBox {
    /// An empty text box: no content, default size, centered both ways.
    fn default() -> (r: Self)
        ensures
            r.text@ == Seq::<char>::empty(),
            r.size == DEFAULT_SIZE,
            r.halign == Horizontal::Center,
            r.valign == Vertical::Middle,
            r.wf(),
    {
        TextBox {
            text: String::new(),
            size: DEFAULT_SIZE,
            halign: Horizontal::Center,
            valign: Vertical::Middle,
        }
    }
}

} // verus!
