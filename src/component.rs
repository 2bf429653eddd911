use vstd::prelude::*;

use crate::canvas::{Canvas, DrawCommand};

verus! {

/// Something that can be drawn: it issues shape-fill commands to a canvas
/// and keeps no hold on the canvas afterwards.
pub trait Component {
    /// The commands that one `render` call issues, in order.
    spec fn spec_draw(&self) -> Seq<DrawCommand>;

    /// Issues this component's commands after those already on the canvas.
    fn render(&self, canvas: &mut Canvas)
        ensures
            final(canvas)@ == old(canvas)@ + self.spec_draw(),
    ;
}

/// A boxed component draws as the component it holds.
impl<C: Component + ?Sized> Component for Box<C> {
    open spec fn spec_draw(&self) -> Seq<DrawCommand> {
        (**self).spec_draw()
    }

    fn render(&self, canvas: &mut Canvas) {
        (**self).render(canvas);
    }
}

/// The commands that drawing `items` in sequence order issues: later
/// components draw over earlier ones.
pub open spec fn draw_all<C: Component>(items: Seq<C>) -> Seq<DrawCommand>
    decreases items.len(),
{
    if items.len() == 0 {
        Seq::empty()
    } else {
        draw_all(items.drop_last()) + items.last().spec_draw()
    }
}

} // verus!
