//! The dev-tooling self-test: in a debug build the shell opens the
//! diagnostics panel against the main window and immediately closes it again,
//! proving the panel is wired up. The windowing layer performs the panel
//! operations; this module computes the plan and guarantees it leaves the
//! panel closed.

use vstd::prelude::*;

use crate::profile::BuildProfile;

verus! {

/// The diagnostics panel is either closed or open.
#[derive(Clone, Copy, PartialEq, Eq, Structural, Debug)]
pub enum PanelState {
    Closed,
    Open,
}

/// One operation the windowing layer can perform on the panel.
#[derive(Clone, Copy, PartialEq, Eq, Structural, Debug)]
pub enum PanelOp {
    OpenPanel,
    ClosePanel,
}

/// The panel state after one operation.
pub open spec fn apply_op(s: PanelState, op: PanelOp) -> PanelState {
    match op {
        PanelOp::OpenPanel => PanelState::Open,
        PanelOp::ClosePanel => PanelState::Closed,
    }
}

/// The panel state after a sequence of operations, applied in order.
pub open spec fn panel_after(s: PanelState, ops: Seq<PanelOp>) -> PanelState
    decreases ops.len(),
{
    if ops.len() == 0 {
        s
    } else {
        panel_after(apply_op(s, ops.first()), ops.drop_first())
    }
}

/// Scoped acquisition with guaranteed release: a plan whose last operation
/// closes the panel leaves the panel closed, whatever happened before.
pub proof fn lemma_close_last(s: PanelState, ops: Seq<PanelOp>)
    requires
        ops.len() > 0,
        ops.last() == PanelOp::ClosePanel,
    ensures
        panel_after(s, ops) is Closed,
    decreases ops.len(),
{
    if ops.len() == 1 {
        assert(ops.first() == PanelOp::ClosePanel);
        assert(ops.drop_first() =~= Seq::<PanelOp>::empty());
        assert(panel_after(PanelState::Closed, Seq::<PanelOp>::empty()) is Closed);
        assert(panel_after(s, ops) == panel_after(PanelState::Closed, ops.drop_first()));
    } else {
        assert(ops.drop_first().last() == ops.last());
        lemma_close_last(apply_op(s, ops.first()), ops.drop_first());
    }
}

/// The self-test plan for a build profile: open then immediately close in a
/// debug build, nothing at all in a release build. Either way the plan ends
/// with the panel closed.
pub fn selftest_ops(profile: BuildProfile) -> (ops: Vec<PanelOp>)
    ensures
        profile is Debug ==> ops@ == seq![PanelOp::OpenPanel, PanelOp::ClosePanel],
        profile is Release ==> ops@ == Seq::<PanelOp>::empty(),
        panel_after(PanelState::Closed, ops@) is Closed,
{
    let mut v: Vec<PanelOp> = Vec::new();
    if profile.is_debug() {
        v.push(PanelOp::OpenPanel);
        v.push(PanelOp::ClosePanel);
        proof {
            assert(v@ =~= seq![PanelOp::OpenPanel, PanelOp::ClosePanel]);
            lemma_close_last(PanelState::Closed, v@);
        }
    } else {
        proof {
            assert(v@ =~= Seq::<PanelOp>::empty());
        }
    }
    v
}

} // verus!
