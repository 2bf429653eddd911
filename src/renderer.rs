use vstd::prelude::*;

use crate::canvas::{Canvas, DrawCommand};
use crate::component::{draw_all, Component};

verus! {

/// The unit invoked once per repaint. A renderer may keep state of its own
/// and change it from one frame to the next.
pub trait Renderer: Sized {
    /// The commands that the next `render` call issues, given the renderer
    /// as it stands.
    spec fn frame(&self) -> Seq<DrawCommand>;

    /// Whether `after` is what this renderer may have become once it has
    /// drawn a frame.
    spec fn advances_to(&self, after: Self) -> bool;

    /// Draws one frame after what is already on the canvas.
    fn render(&mut self, canvas: &mut Canvas)
        ensures
            final(canvas)@ == old(canvas)@ + old(self).frame(),
            old(self).advances_to(*final(self)),
    ;
}

/// A renderer that draws nothing.
pub struct EmptyRenderer;

impl Renderer for EmptyRenderer {
    open spec fn frame(&self) -> Seq<DrawCommand> {
        Seq::empty()
    }

    open spec fn advances_to(&self, after: Self) -> bool {
        true
    }

    fn render(&mut self, canvas: &mut Canvas) {
        proof {
            assert(canvas@ + Seq::<DrawCommand>::empty() =~= canvas@);
        }
    }
}

/// An ordered list of components draws each of them in sequence order.
impl<C: Component> Renderer for Vec<C> {
    open spec fn frame(&self) -> Seq<DrawCommand> {
        draw_all(self@)
    }

    /// Drawing leaves the list as it was.
    open spec fn advances_to(&self, after: Self) -> bool {
        after@ == self@
    }

    fn render(&mut self, canvas: &mut Canvas) {
        let n = self.len();
        let mut i: usize = 0;
        proof {
            assert(self@.take(0) =~= Seq::<C>::empty());
            assert(canvas@ + Seq::<DrawCommand>::empty() =~= canvas@);
        }
        while i < n
            invariant
                n == self@.len(),
                self@ == old(self)@,
                0 <= i <= n,
                canvas@ == old(canvas)@ + draw_all(self@.take(i as int)),
            decreases n - i,
        {
            let ghost before = canvas@;
            self[i].render(canvas);
            proof {
                let items = self@.take(i as int + 1);
                assert(items.drop_last() =~= self@.take(i as int));
                assert(items.last() == self@[i as int]);
                assert(canvas@ =~= old(canvas)@ + draw_all(items));
            }
            i = i + 1;
        }
        proof {
            assert(self@.take(n as int) =~= self@);
        }
    }
}

} // verus!
