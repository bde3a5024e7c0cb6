//! The host window operations each command asks the host runtime to perform.

use vstd::prelude::*;

use crate::overlay::OverlayWindow;
use crate::overlay::spec_hide;
use crate::overlay::spec_show;
use crate::overlay::spec_toggle;

verus! {

/// One operation the controller asks the host runtime to perform on the
/// overlay window.
#[derive(Clone, Copy, PartialEq, Eq, Structural, Debug)]
pub enum HostOp {
    /// Make the window visible.
    Show,
    /// Give the window keyboard focus.
    SetFocus,
    /// Make the window invisible.
    Hide,
}

/// The operations the show command performs: nothing for an absent window,
/// show followed by focus for a present one. Presence is all the command
/// reads, so it is all the plan depends on.
pub open spec fn spec_show_ops(present: bool) -> Seq<HostOp> {
    if present {
        seq![HostOp::Show, HostOp::SetFocus]
    } else {
        Seq::empty()
    }
}

/// The operations the hide command performs: nothing for an absent window,
/// hide for a present one. Presence is all the command reads, so it is all
/// the plan depends on.
pub open spec fn spec_hide_ops(present: bool) -> Seq<HostOp> {
    if present {
        seq![HostOp::Hide]
    } else {
        Seq::empty()
    }
}

/// The operations the toggle command performs: nothing for an absent window
/// (the command fails instead), hide for a visible one, show followed by
/// focus for a hidden one.
pub open spec fn spec_toggle_ops(w: OverlayWindow) -> Seq<HostOp> {
    match w {
        OverlayWindow::Absent => Seq::empty(),
        OverlayWindow::Present { visible } => if visible {
            seq![HostOp::Hide]
        } else {
            seq![HostOp::Show, HostOp::SetFocus]
        },
    }
}

/// The operations to ask of the host for the show command, in order, given
/// whether the lookup found the window.
pub fn show_ops(present: bool) -> (r: Vec<HostOp>)
    ensures
        r@ == spec_show_ops(present),
{
    let mut ops: Vec<HostOp> = Vec::new();
    if present {
        ops.push(HostOp::Show);
        ops.push(HostOp::SetFocus);
    }
    proof {
        assert(ops@ =~= spec_show_ops(present));
    }
    ops
}

/// The operations to ask of the host for the hide command, in order, given
/// whether the lookup found the window.
pub fn hide_ops(present: bool) -> (r: Vec<HostOp>)
    ensures
        r@ == spec_hide_ops(present),
{
    let mut ops: Vec<HostOp> = Vec::new();
    if present {
        ops.push(HostOp::Hide);
    }
    proof {
        assert(ops@ =~= spec_hide_ops(present));
    }
    ops
}

/// The operations to ask of the host for the toggle command, in order.
pub fn toggle_ops(w: OverlayWindow) -> (r: Vec<HostOp>)
    ensures
        r@ == spec_toggle_ops(w),
{
    let mut ops: Vec<HostOp> = Vec::new();
    match w {
        OverlayWindow::Absent => {},
        OverlayWindow::Present { visible } => {
            if visible {
                ops.push(HostOp::Hide);
            } else {
                ops.push(HostOp::Show);
                ops.push(HostOp::SetFocus);
            }
        },
    }
    proof {
        assert(ops@ =~= spec_toggle_ops(w));
    }
    ops
}

/// The window after the host performs one operation: showing makes a present
/// window visible, hiding makes it invisible, focusing changes nothing that
/// the controller reads; an absent window has nothing to operate on.
pub open spec fn spec_apply_op(w: OverlayWindow, op: HostOp) -> OverlayWindow {
    match w {
        OverlayWindow::Absent => OverlayWindow::Absent,
        OverlayWindow::Present { .. } => match op {
            HostOp::Show => OverlayWindow::Present { visible: true },
            HostOp::SetFocus => w,
            HostOp::Hide => OverlayWindow::Present { visible: false },
        },
    }
}

/// The window after the host performs a sequence of operations, in order.
pub open spec fn spec_apply_ops(w: OverlayWindow, ops: Seq<HostOp>) -> OverlayWindow
    decreases ops.len(),
{
    if ops.len() == 0 {
        w
    } else {
        spec_apply_ops(spec_apply_op(w, ops[0]), ops.subrange(1, ops.len() as int))
    }
}

/// Law: performing the operations the show command plans takes the window to
/// exactly the state the show command's semantics describe.
pub proof fn lemma_show_ops_apply(w: OverlayWindow)
    ensures
        spec_apply_ops(w, spec_show_ops(w is Present)) == spec_show(w),
{
    reveal_with_fuel(spec_apply_ops, 3);
    if w is Present {
        assert(spec_show_ops(true).subrange(1, 2) =~= seq![HostOp::SetFocus]);
        assert(spec_show_ops(true).subrange(1, 2).subrange(1, 1) =~= Seq::<HostOp>::empty());
    }
}

/// Law: performing the operations the hide command plans takes the window to
/// exactly the state the hide command's semantics describe.
pub proof fn lemma_hide_ops_apply(w: OverlayWindow)
    ensures
        spec_apply_ops(w, spec_hide_ops(w is Present)) == spec_hide(w),
{
    reveal_with_fuel(spec_apply_ops, 2);
    if w is Present {
        assert(spec_hide_ops(true).subrange(1, 1) =~= Seq::<HostOp>::empty());
    }
}

/// Law: performing the operations the toggle command plans takes the window
/// to exactly the state the toggle command's semantics describe.
pub proof fn lemma_toggle_ops_apply(w: OverlayWindow)
    ensures
        spec_apply_ops(w, spec_toggle_ops(w)) == spec_toggle(w),
{
    reveal_with_fuel(spec_apply_ops, 3);
    match w {
        OverlayWindow::Absent => {},
        OverlayWindow::Present { visible } => {
            if visible {
                assert(spec_toggle_ops(w).subrange(1, 1) =~= Seq::<HostOp>::empty());
            } else {
                assert(spec_toggle_ops(w).subrange(1, 2) =~= seq![HostOp::SetFocus]);
                assert(spec_toggle_ops(w).subrange(1, 2).subrange(1, 1) =~= Seq::<HostOp>::empty());
            }
        },
    }
}

} // verus!
