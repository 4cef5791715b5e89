//! Describing a framebuffer before it is made.

use vstd::prelude::*;

verus! {

/// The colour attachments that a framebuffer is to be made with: for each of
/// the thirty-two attachment points, the width and height of its texture.
pub struct FrameBufferBuilder {
    color_attachments: [Option<(u32, u32)>; 32],
}

impl View for FrameBufferBuilder {
    type V = Seq<Option<(u32, u32)>>;

    /// The size asked for at each attachment point; thirty-two entries.
    closed spec fn view(&self) -> Self::V {
        self.color_attachments@
    }
}

impl FrameBufferBuilder {
    /// A builder that asks for no attachment.
    pub fn new() -> (builder: Self)
        ensures
            builder@.len() == 32,
            forall|i: int| 0 <= i < 32 ==> builder@[i] is None,
    {
        FrameBufferBuilder { color_attachments: [None;32] }
    }

    /// Asks for a texture of `width` by `height` at `color_attachment`. What
    /// was asked for at that point before is replaced.
    pub fn with_texture_attachment(self, width: u32, height: u32, color_attachment: usize) -> (builder:
        Self)
        requires
            color_attachment < 32,
        ensures
            builder@ == self@.update(color_attachment as int, Some((width, height))),
    {
        let mut builder = self;
        builder.color_attachments[color_attachment] = Some((width, height));
        builder
    }

    /// The size asked for at `color_attachment`, if any.
    pub fn attachment(&self, color_attachment: usize) -> (size: Option<(u32, u32)>)
        ensures
            self@.len() == 32,
            size == if color_attachment < 32 {
                self@[color_attachment as int]
            } else {
                None
            },
    {
        if color_attachment < 32 {
            self.color_attachments[color_attachment]
        } else {
            None
        }
    }
}

} // verus!
