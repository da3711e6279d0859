//! The row of labels that is on display.

use crate::display::{labels_for, render, DisplaySpec, DisplaySpecView, Label, LabelView};
use crate::workspace::{Workspace, WorkspaceView};
use vstd::prelude::*;

verus! {

/// What a [`Panel`] holds: how it shows snapshots, and the labels that it
/// shows now.
pub struct PanelView {
    pub spec: DisplaySpecView,
    pub labels: Seq<LabelView>,
}

impl PanelView {
    /// The panel once it has been given the snapshot `list` to show: the
    /// labels are those of `list`, and of `list` alone.
    pub open spec fn showing(self, list: Seq<WorkspaceView>) -> PanelView {
        PanelView { spec: self.spec, labels: labels_for(self.spec, list) }
    }
}

/// The bar's row of labels, together with the way in which it shows
/// snapshots. The way is fixed when the panel is made.
#[derive(Debug)]
pub struct Panel {
    spec: DisplaySpec,
    labels: Vec<Label>,
}

impl View for Panel {
    type V = PanelView;

    closed spec fn view(&self) -> PanelView {
        PanelView { spec: self.spec@, labels: self.labels.deep_view() }
    }
}

impl Panel {
    /// A panel that shows nothing yet.
    pub fn new(spec: DisplaySpec) -> (panel: Panel)
        ensures
            panel@.spec == spec@,
            panel@.labels == Seq::<LabelView>::empty(),
    {
        let labels: Vec<Label> = Vec::new();
        assert(labels.deep_view() =~= Seq::<LabelView>::empty());
        Panel { spec, labels }
    }

    /// Shows the snapshot `list` in place of whatever was shown before.
    ///
    /// Each snapshot stands for the whole state: none of the labels that were
    /// there before stays, whether or not its workspace is in `list`.
    pub fn show(&mut self, list: &Vec<Workspace>)
        ensures
            final(self)@ == old(self)@.showing(list.deep_view()),
    {
        self.labels = render(list, &self.spec);
    }

    /// The labels on display, from the first to the last.
    pub fn labels(&self) -> (labels: &Vec<Label>)
        ensures
            labels.deep_view() == self@.labels,
    {
        &self.labels
    }

    /// The way in which the panel shows snapshots.
    pub fn spec(&self) -> (spec: &DisplaySpec)
        ensures
            spec@ == self@.spec,
    {
        &self.spec
    }
}

/// What a panel shows after a snapshot depends on the snapshot and on the way
/// of showing, and on nothing that was shown before.
pub proof fn lemma_show_replaces(first: PanelView, second: PanelView, list: Seq<WorkspaceView>)
    requires
        first.spec == second.spec,
    ensures
        first.showing(list) == second.showing(list),
{
}

/// Showing the same snapshot twice leaves the panel as showing it once does:
/// no label is there twice, and none is left over.
pub proof fn lemma_show_idempotent(panel: PanelView, list: Seq<WorkspaceView>)
    ensures
        panel.showing(list).showing(list) == panel.showing(list),
        panel.showing(list).labels.len() == labels_for(panel.spec, list).len(),
{
}

/// Of two snapshots shown one after the other, only the later one is on
/// display.
pub proof fn lemma_show_forgets(
    panel: PanelView,
    earlier: Seq<WorkspaceView>,
    later: Seq<WorkspaceView>,
)
    ensures
        panel.showing(earlier).showing(later) == panel.showing(later),
{
}

/// The panel once it has been given a run of snapshots to show, one after
/// the other.
pub open spec fn showing_all(panel: PanelView, lists: Seq<Seq<WorkspaceView>>) -> PanelView
    decreases lists.len(),
{
    if lists.len() == 0 {
        panel
    } else {
        showing_all(panel, lists.drop_last()).showing(lists.last())
    }
}

/// However many snapshots a panel has been given, it shows the last of them
/// and nothing of the others, in the way in which it was made to show them.
pub proof fn lemma_latest_snapshot_is_shown(panel: PanelView, lists: Seq<Seq<WorkspaceView>>)
    ensures
        showing_all(panel, lists).spec == panel.spec,
        lists.len() > 0 ==> showing_all(panel, lists) == panel.showing(lists.last()),
    decreases lists.len(),
{
    if lists.len() > 0 {
        lemma_latest_snapshot_is_shown(panel, lists.drop_last());
    }
}

} // verus!
