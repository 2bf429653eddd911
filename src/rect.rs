use vstd::prelude::*;

use crate::canvas::{Canvas, DrawCommand};
use crate::color::Color;
use crate::component::{draw_all, Component};

verus! {

/// A filled rectangle.
pub struct Rect {
    x: i32,
    y: i32,
    width: i32,
    height: i32,
    color: Color,
}

impl Rect {
    /// The fill command that stands for this rectangle.
    pub closed spec fn fill(&self) -> DrawCommand {
        DrawCommand::FillRect {
            x: self.x,
            y: self.y,
            width: self.width,
            height: self.height,
            color: self.color,
        }
    }

    /// A rectangle at `(x, y)` of the given size, filled with `color`.
    pub fn new(x: i32, y: i32, width: i32, height: i32, color: Color) -> (r: Self)
        ensures
            r.fill() == (DrawCommand::FillRect { x, y, width, height, color }),
    {
        Self { x, y, width, height, color }
    }
}

impl Component for Rect {
    open spec fn spec_draw(&self) -> Seq<DrawCommand> {
        seq![self.fill()]
    }

    fn render(&self, canvas: &mut Canvas) {
        canvas.fill_rect(self.x, self.y, self.width, self.height, self.color);
        proof {
            assert(seq![self.fill()] =~= Seq::empty().push(self.fill()));
        }
    }
}

/// A list of rectangles draws one fill per rectangle, in list order.
pub proof fn lemma_rects_draw_in_order(items: Seq<Rect>)
    ensures
        draw_all(items).len() == items.len(),
        forall|i: int| 0 <= i < items.len() ==> #[trigger] draw_all(items)[i] == items[i].fill(),
    decreases items.len(),
{
    if items.len() > 0 {
        let init = items.drop_last();
        lemma_rects_draw_in_order(init);
        assert forall|i: int| 0 <= i < items.len() implies #[trigger] draw_all(items)[i]
            == items[i].fill() by {
            if i < items.len() - 1 {
                assert(draw_all(items)[i] == draw_all(init)[i]);
                assert(init[i] == items[i]);
            }
        }
    }
}

} // verus!
