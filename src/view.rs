use vstd::prelude::*;

use crate::geometry::{box_at_origin, rect_from_size, Rect, Size2};

verus! {

/// A request to the engine's view, carried out by the host in order.
#[derive(Clone, Copy, Debug, PartialEq, Eq, Structural)]
pub enum ViewCommand {
    Focus,
    MoveResize(Rect),
    RaiseToTop(bool),
}

/// The delegate of the one view: it answers the ready-to-show notification.
#[derive(Clone, Copy, Debug, PartialEq, Eq, Structural)]
pub struct Web {
    pub shown: bool,
}

/// The commands that show a view for the first time on a surface of `logical` size.
pub open spec fn show_commands(logical: Size2) -> Seq<ViewCommand> {
    seq![ViewCommand::Focus, ViewCommand::MoveResize(box_at_origin(logical)), ViewCommand::RaiseToTop(true)]
}

/// The delegate after one ready-to-show report, and the commands it yields.
pub open spec fn ready_spec(w: Web, logical: Size2) -> (Web, Seq<ViewCommand>) {
    if w.shown {
        (w, Seq::empty())
    } else {
        (Web { shown: true }, show_commands(logical))
    }
}

impl Web {
    pub fn new() -> (r: Self)
        ensures
            !r.shown,
    {
        Web { shown: false }
    }

    /// The engine reports the view ready to show. The first time, the view is
    /// focused, placed over the host's current logical size and raised, in that
    /// order; any later report is ignored.
    pub fn notify_ready_to_show(&mut self, logical: Size2) -> (r: Vec<ViewCommand>)
        ensures
            (*final(self), r@) == ready_spec(*old(self), logical),
    {
        if self.shown {
            Vec::new()
        } else {
            self.shown = true;
            vec![ViewCommand::Focus, ViewCommand::MoveResize(rect_from_size(logical)), ViewCommand::RaiseToTop(true)]
        }
    }
}

/// Ready-to-show takes effect once per view: of two reports in a row, the
/// first shows the view and the second yields no commands.
pub proof fn lemma_shown_once(w: Web, first: Size2, second: Size2)
    requires
        !w.shown,
    ensures
        ready_spec(w, first).1 == show_commands(first),
        ready_spec(ready_spec(w, first).0, second).1 == Seq::<ViewCommand>::empty(),
        ready_spec(ready_spec(w, first).0, second).0 == ready_spec(w, first).0,
{
}

} // verus!
