//! Anything that can append its own draw commands to a frame's recorder.

use vstd::prelude::*;

use crate::renderpass::CmdBuffer;

verus! {

/// One drawable piece of content: given the frame's command recorder, it
/// appends the commands that draw it.
pub trait Drawable {
    fn draw(&mut self, command_buffer: &mut CmdBuffer);
}

} // verus!
