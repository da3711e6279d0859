//! From a snapshot of workspaces to the row of labels that shows it.

use crate::decimal::{decimal, decimal_string};
use crate::icons::IconMap;
use crate::protocol::Command;
use crate::workspace::{Workspace, WorkspaceView};
use vstd::prelude::*;

verus! {

/// One entry of an ordered display filter: the workspace called `name` is
/// shown at this place, as `icon` where one is given and by its name
/// otherwise.
#[derive(Debug, PartialEq, Eq)]
pub struct DisplayEntry {
    pub name: String,
    pub icon: Option<String>,
}

/// What a [`DisplayEntry`] holds, as sequences of characters.
pub struct DisplayEntryView {
    pub name: Seq<char>,
    pub icon: Option<Seq<char>>,
}

impl View for DisplayEntry {
    type V = DisplayEntryView;

    open spec fn view(&self) -> DisplayEntryView {
        DisplayEntryView {
            name: self.name@,
            icon: match self.icon {
                Some(i) => Some(i@),
                None => None,
            },
        }
    }
}

impl DeepView for DisplayEntry {
    type V = DisplayEntryView;

    open spec fn deep_view(&self) -> DisplayEntryView {
        self@
    }
}

impl Clone for DisplayEntry {
    fn clone(&self) -> (copy: Self)
        ensures
            copy@ == self@,
    {
        DisplayEntry {
            name: self.name.clone(),
            icon: match &self.icon {
                Some(i) => Some(i.clone()),
                None => None,
            },
        }
    }
}

/// How snapshots are to be shown. The two ways exclude each other.
#[derive(Debug)]
pub enum DisplaySpec {
    /// Every workspace is shown, in the order in which the compositor lists
    /// them; the mapping only chooses the text.
    Mapping(IconMap),
    /// Only the workspaces that the entries name are shown, in the order of
    /// the entries.
    Filter(Vec<DisplayEntry>),
}

/// What a [`DisplaySpec`] holds.
pub enum DisplaySpecView {
    Mapping(Map<Seq<char>, Seq<char>>),
    Filter(Seq<DisplayEntryView>),
}

impl View for DisplaySpec {
    type V = DisplaySpecView;

    open spec fn view(&self) -> DisplaySpecView {
        match self {
            DisplaySpec::Mapping(icons) => DisplaySpecView::Mapping(icons@),
            DisplaySpec::Filter(entries) => DisplaySpecView::Filter(entries.deep_view()),
        }
    }
}

impl Default for DisplaySpec {
    /// Without any configuration every workspace is shown under its own name
    /// or number.
    fn default() -> (spec: DisplaySpec)
        ensures
            spec@ == DisplaySpecView::Mapping(Map::empty()),
    {
        DisplaySpec::Mapping(IconMap::new())
    }
}

impl Clone for DisplaySpec {
    fn clone(&self) -> (copy: Self)
        ensures
            copy@ == self@,
    {
        match self {
            DisplaySpec::Mapping(icons) => DisplaySpec::Mapping(icons.clone()),
            DisplaySpec::Filter(entries) => {
                let mut copy: Vec<DisplayEntry> = Vec::new();
                let mut i: usize = 0;
                while i < entries.len()
                    invariant
                        i <= entries.len(),
                        copy.len() == i,
                        forall|k: int| 0 <= k < i ==> copy@[k]@ == entries@[k]@,
                    decreases entries.len() - i,
                {
                    copy.push(entries[i].clone());
                    i += 1;
                }
                assert(copy.deep_view() =~= entries.deep_view());
                DisplaySpec::Filter(copy)
            },
        }
    }
}

/// One button of the bar: the text it shows, whether it is drawn as the
/// focused one, and the workspace that a click on it asks for.
#[derive(Debug, PartialEq, Eq)]
pub struct Label {
    pub workspace_id: u64,
    pub text: String,
    pub focused: bool,
}

/// What a [`Label`] holds, with its text as a sequence of characters.
pub struct LabelView {
    pub workspace_id: u64,
    pub text: Seq<char>,
    pub focused: bool,
}

impl View for Label {
    type V = LabelView;

    open spec fn view(&self) -> LabelView {
        LabelView { workspace_id: self.workspace_id, text: self.text@, focused: self.focused }
    }
}

impl DeepView for Label {
    type V = LabelView;

    open spec fn deep_view(&self) -> LabelView {
        self@
    }
}

impl Clone for Label {
    fn clone(&self) -> (copy: Self)
        ensures
            copy@ == self@,
    {
        Label { workspace_id: self.workspace_id, text: self.text.clone(), focused: self.focused }
    }
}

/// The mouse button that switches workspaces: the primary one.
pub const PRIMARY_BUTTON: u32 = 1;

impl Label {
    /// What a press of mouse button `button` on the label asks for: a switch
    /// to the label's workspace for the primary button, nothing for any
    /// other.
    pub fn pressed(&self, button: u32) -> (command: Option<Command>)
        ensures
            button == PRIMARY_BUTTON ==> command == Some(
                (Command::FocusWorkspace { id: self.workspace_id }),
            ),
            button != PRIMARY_BUTTON ==> command is None,
    {
        if button == PRIMARY_BUTTON {
            Some(Command::FocusWorkspace { id: self.workspace_id })
        } else {
            None
        }
    }
}

/// The text by which a workspace is known: its name, or for a workspace
/// without a name the decimal numeral of its identifier.
pub open spec fn display_key(w: WorkspaceView) -> Seq<char> {
    match w.name {
        Some(n) => n,
        None => decimal(w.id as nat),
    }
}

/// The label of one workspace under an icon mapping: the icon that the
/// mapping gives its key, or the key itself where it gives none.
pub open spec fn mapped_label(icons: Map<Seq<char>, Seq<char>>, w: WorkspaceView) -> LabelView {
    let key = display_key(w);
    LabelView {
        workspace_id: w.id,
        text: if icons.dom().contains(key) {
            icons[key]
        } else {
            key
        },
        focused: w.is_active,
    }
}

/// The labels of a snapshot under an icon mapping: one for each workspace,
/// in the snapshot's own order.
pub open spec fn mapped_labels(
    icons: Map<Seq<char>, Seq<char>>,
    list: Seq<WorkspaceView>,
) -> Seq<LabelView> {
    Seq::new(list.len(), |i: int| mapped_label(icons, list[i]))
}

/// The first workspace of a snapshot that is called `name`.
pub open spec fn find_named(list: Seq<WorkspaceView>, name: Seq<char>) -> Option<WorkspaceView>
    decreases list.len(),
{
    if list.len() == 0 {
        None
    } else {
        match find_named(list.drop_last(), name) {
            Some(w) => Some(w),
            None => if list.last().name == Some(name) {
                Some(list.last())
            } else {
                None
            },
        }
    }
}

/// The label that a filter entry gives the workspace it names.
pub open spec fn entry_label(w: WorkspaceView, entry: DisplayEntryView) -> LabelView {
    LabelView {
        workspace_id: w.id,
        text: match entry.icon {
            Some(icon) => icon,
            None => entry.name,
        },
        focused: w.is_active,
    }
}

/// The labels of a snapshot under an ordered filter: entry by entry, the
/// label of the first workspace that the entry names, and nothing for an
/// entry that names none.
pub open spec fn filtered_labels(
    list: Seq<WorkspaceView>,
    entries: Seq<DisplayEntryView>,
) -> Seq<LabelView>
    decreases entries.len(),
{
    if entries.len() == 0 {
        Seq::empty()
    } else {
        let before = filtered_labels(list, entries.drop_last());
        match find_named(list, entries.last().name) {
            Some(w) => before.push(entry_label(w, entries.last())),
            None => before,
        }
    }
}

/// The labels that show a snapshot.
pub open spec fn labels_for(spec: DisplaySpecView, list: Seq<WorkspaceView>) -> Seq<LabelView> {
    match spec {
        DisplaySpecView::Mapping(icons) => mapped_labels(icons, list),
        DisplaySpecView::Filter(entries) => filtered_labels(list, entries),
    }
}

/// A workspace that was found in the first `n` places stays the one found
/// however far the search goes on.
pub proof fn lemma_find_named_settles(list: Seq<WorkspaceView>, name: Seq<char>, n: int)
    requires
        0 <= n <= list.len(),
        find_named(list.take(n), name) is Some,
    ensures
        find_named(list, name) == find_named(list.take(n), name),
    decreases list.len() - n,
{
    if n < list.len() {
        assert(list.take(n + 1).drop_last() =~= list.take(n));
        lemma_find_named_settles(list, name, n + 1);
    } else {
        assert(list.take(n) =~= list);
    }
}

/// The first workspace of `list` that is called `name`, if there is one.
pub fn first_named<'a>(list: &'a Vec<Workspace>, name: &String) -> (found: Option<&'a Workspace>)
    ensures
        match found {
            Some(w) => find_named(list.deep_view(), name@) == Some(w@),
            None => find_named(list.deep_view(), name@) is None,
        },
{
    let ghost views = list.deep_view();
    let mut i: usize = 0;
    while i < list.len()
        invariant
            i <= list.len(),
            views == list.deep_view(),
            find_named(views.take(i as int), name@) is None,
        decreases list.len() - i,
    {
        assert(views.take(i + 1).drop_last() =~= views.take(i as int));
        let hit = match &list[i].name {
            Some(n) => *n == *name,
            None => false,
        };
        if hit {
            proof {
                lemma_find_named_settles(views, name@, i + 1);
            }
            return Some(&list[i]);
        }
        i += 1;
    }
    assert(views.take(i as int) =~= views);
    None
}

/// The labels of a snapshot under an icon mapping.
pub fn render_mapped(list: &Vec<Workspace>, icons: &IconMap) -> (labels: Vec<Label>)
    ensures
        labels.deep_view() == mapped_labels(icons@, list.deep_view()),
{
    let mut labels: Vec<Label> = Vec::new();
    let mut i: usize = 0;
    while i < list.len()
        invariant
            i <= list.len(),
            labels.len() == i,
            forall|k: int| 0 <= k < i ==> labels@[k]@ == mapped_label(icons@, list@[k]@),
        decreases list.len() - i,
    {
        let w = &list[i];
        let key = match &w.name {
            Some(n) => n.clone(),
            None => decimal_string(w.id),
        };
        let text = match icons.get(&key) {
            Some(icon) => icon.clone(),
            None => key,
        };
        labels.push(Label { workspace_id: w.id, text, focused: w.is_active });
        i += 1;
    }
    assert(labels.deep_view() =~= mapped_labels(icons@, list.deep_view()));
    labels
}

/// The labels of a snapshot under an ordered filter.
pub fn render_filtered(list: &Vec<Workspace>, entries: &Vec<DisplayEntry>) -> (labels: Vec<Label>)
    ensures
        labels.deep_view() == filtered_labels(list.deep_view(), entries.deep_view()),
{
    let ghost shown = entries.deep_view();
    let mut labels: Vec<Label> = Vec::new();
    let mut i: usize = 0;
    while i < entries.len()
        invariant
            i <= entries.len(),
            shown == entries.deep_view(),
            labels.deep_view() == filtered_labels(list.deep_view(), shown.take(i as int)),
        decreases entries.len() - i,
    {
        let ghost before = labels.deep_view();
        assert(shown.take(i + 1).drop_last() =~= shown.take(i as int));
        let entry = &entries[i];
        match first_named(list, &entry.name) {
            Some(w) => {
                let text = match &entry.icon {
                    Some(icon) => icon.clone(),
                    None => entry.name.clone(),
                };
                labels.push(Label { workspace_id: w.id, text, focused: w.is_active });
                assert(labels.deep_view() =~= before.push(entry_label(w@, entry@)));
            },
            None => {},
        }
        i += 1;
    }
    assert(shown.take(i as int) =~= shown);
    labels
}

/// The labels that show the snapshot `list` under `spec`.
pub fn render(list: &Vec<Workspace>, spec: &DisplaySpec) -> (labels: Vec<Label>)
    ensures
        labels.deep_view() == labels_for(spec@, list.deep_view()),
{
    match spec {
        DisplaySpec::Mapping(icons) => render_mapped(list, icons),
        DisplaySpec::Filter(entries) => render_filtered(list, entries),
    }
}

} // verus!
