use vstd::prelude::*;

use crate::color::Color;

verus! {

/// One shape-fill command issued to a drawing surface.
#[derive(Clone, Copy, Debug, PartialEq, Eq, Structural)]
pub enum DrawCommand {
    /// Fill the rectangle at `(x, y)` of the given size with `color`.
    FillRect { x: i32, y: i32, width: i32, height: i32, color: Color },
}

/// A drawing surface that records, in order, the commands issued to it.
/// Whoever owns the real surface replays them there.
pub struct Canvas {
    commands: Vec<DrawCommand>,
}

impl View for Canvas {
    type V = Seq<DrawCommand>;

    closed spec fn view(&self) -> Seq<DrawCommand> {
        self.commands@
    }
}

impl Canvas {
    /// A canvas with nothing drawn on it.
    pub fn new() -> (c: Canvas)
        ensures
            c@ == Seq::<DrawCommand>::empty(),
    {
        Canvas { commands: Vec::new() }
    }

    /// Fills a rectangle: records one `FillRect` command after the others.
    pub fn fill_rect(&mut self, x: i32, y: i32, width: i32, height: i32, color: Color)
        ensures
            final(self)@ == old(self)@.push(DrawCommand::FillRect { x, y, width, height, color }),
    {
        self.commands.push(DrawCommand::FillRect { x, y, width, height, color });
    }

    /// The commands issued so far, oldest first.
    pub fn commands(&self) -> (r: &Vec<DrawCommand>)
        ensures
            r@ == self@,
    {
        &self.commands
    }

    /// Gives up the canvas and returns its commands, oldest first.
    pub fn into_commands(self) -> (r: Vec<DrawCommand>)
        ensures
            r@ == self@,
    {
        self.commands
    }
}

} // verus!
