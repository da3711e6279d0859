//! What holds of the labels of every snapshot.

use crate::decimal::decimal;
use crate::display::{
    display_key, entry_label, filtered_labels, find_named, mapped_label, mapped_labels,
    DisplayEntryView, LabelView,
};
use crate::workspace::WorkspaceView;
use vstd::prelude::*;

verus! {

/// The identifiers of the workspaces of a snapshot, in its order.
pub open spec fn workspace_ids(list: Seq<WorkspaceView>) -> Seq<u64> {
    Seq::new(list.len(), |i: int| list[i].id)
}

/// The identifiers that a row of labels stands for, in its order.
pub open spec fn label_ids(labels: Seq<LabelView>) -> Seq<u64> {
    Seq::new(labels.len(), |i: int| labels[i].workspace_id)
}

/// Each identifier is smaller than the one after it.
pub open spec fn ascending(ids: Seq<u64>) -> bool {
    forall|i: int, j: int| 0 <= i < j < ids.len() ==> ids[i] < ids[j]
}

/// The search for a name finds the first workspace that bears it, and finds
/// none only if no workspace bears it.
pub proof fn lemma_find_named_is_first(list: Seq<WorkspaceView>, name: Seq<char>)
    ensures
        match find_named(list, name) {
            Some(w) => exists|k: int|
                0 <= k < list.len() && #[trigger] list[k] == w && w.name == Some(name) && forall|
                    j: int,
                | 0 <= j < k ==> (#[trigger] list[j]).name != Some(name),
            None => forall|k: int| 0 <= k < list.len() ==> (#[trigger] list[k]).name != Some(name),
        },
    decreases list.len(),
{
    if list.len() > 0 {
        let front = list.drop_last();
        lemma_find_named_is_first(front, name);
        match find_named(front, name) {
            Some(w) => {
                let k = choose|k: int|
                    0 <= k < front.len() && #[trigger] front[k] == w && w.name == Some(name)
                        && forall|j: int| 0 <= j < k ==> (#[trigger] front[j]).name != Some(name);
                assert(list[k] == w);
                assert forall|j: int| 0 <= j < k implies (#[trigger] list[j]).name != Some(
                    name,
                ) by {
                    assert(front[j].name != Some(name));
                }
            },
            None => {
                assert forall|j: int| 0 <= j < list.len() - 1 implies (#[trigger] list[j]).name
                    != Some(name) by {
                    assert(front[j].name != Some(name));
                }
                if list.last().name == Some(name) {
                    assert(list[list.len() - 1] == list.last());
                }
            },
        }
    }
}

/// The places, within an ordered filter, of the entries that name a
/// workspace of the snapshot.
pub open spec fn shown_entries(list: Seq<WorkspaceView>, entries: Seq<DisplayEntryView>) -> Seq<
    int,
>
    decreases entries.len(),
{
    if entries.len() == 0 {
        Seq::empty()
    } else {
        let before = shown_entries(list, entries.drop_last());
        if find_named(list, entries.last().name) is Some {
            before.push(entries.len() - 1)
        } else {
            before
        }
    }
}

/// Under an ordered filter the labels follow the filter, not the snapshot:
/// there is one label for each entry that names a workspace, the labels stand
/// in the order of their entries, and each shows the first workspace that its
/// entry names, with the entry's text.
pub proof fn lemma_filter_follows_entries(
    list: Seq<WorkspaceView>,
    entries: Seq<DisplayEntryView>,
)
    ensures
        filtered_labels(list, entries).len() == shown_entries(list, entries).len(),
        filtered_labels(list, entries).len() <= entries.len(),
        forall|a: int|
            0 <= a < shown_entries(list, entries).len() ==> 0 <= #[trigger] shown_entries(
                list,
                entries,
            )[a] < entries.len(),
        forall|a: int, b: int|
            0 <= a < b < shown_entries(list, entries).len() ==> #[trigger] shown_entries(
                list,
                entries,
            )[a] < #[trigger] shown_entries(list, entries)[b],
        forall|a: int|
            0 <= a < shown_entries(list, entries).len() ==> find_named(
                list,
                entries[#[trigger] shown_entries(list, entries)[a]].name,
            ) is Some,
        forall|a: int|
            0 <= a < filtered_labels(list, entries).len() ==> #[trigger] filtered_labels(
                list,
                entries,
            )[a] == entry_label(
                find_named(list, entries[shown_entries(list, entries)[a]].name).unwrap(),
                entries[shown_entries(list, entries)[a]],
            ),
        forall|j: int|
            0 <= j < entries.len() && find_named(list, (#[trigger] entries[j]).name) is Some
                ==> shown_entries(list, entries).contains(j),
    decreases entries.len(),
{
    if entries.len() > 0 {
        let front = entries.drop_last();
        let last = entries.len() - 1;
        lemma_filter_follows_entries(list, front);
        let shown = shown_entries(list, entries);
        let labels = filtered_labels(list, entries);
        let shown_front = shown_entries(list, front);
        assert forall|a: int| 0 <= a < shown_front.len() implies shown[a] == shown_front[a]
            && shown[a] < last by {}
        assert forall|a: int| 0 <= a < shown.len() implies find_named(
            list,
            entries[#[trigger] shown[a]].name,
        ) is Some by {
            if a < shown_front.len() {
                assert(entries[shown[a]] == front[shown_front[a]]);
            } else {
                assert(entries[last] == entries.last());
            }
        }
        assert forall|a: int| 0 <= a < labels.len() implies #[trigger] labels[a] == entry_label(
            find_named(list, entries[shown[a]].name).unwrap(),
            entries[shown[a]],
        ) by {
            if a < shown_front.len() {
                assert(entries[shown[a]] == front[shown_front[a]]);
                assert(labels[a] == filtered_labels(list, front)[a]);
            } else {
                assert(entries[last] == entries.last());
            }
        }
        assert forall|j: int|
            0 <= j < entries.len() && find_named(
                list,
                (#[trigger] entries[j]).name,
            ) is Some implies shown.contains(j) by {
            if j < last {
                assert(front[j] == entries[j]);
                let a = choose|a: int| 0 <= a < shown_front.len() && shown_front[a] == j;
                assert(shown[a] == j);
            } else {
                assert(shown[shown.len() - 1] == j);
            }
        }
    }
}

/// Under an ordered filter only workspaces whose name stands in the filter
/// are shown: every label belongs to a workspace of the snapshot that an
/// entry names.
pub proof fn lemma_filter_shows_only_named(
    list: Seq<WorkspaceView>,
    entries: Seq<DisplayEntryView>,
    a: int,
)
    requires
        0 <= a < filtered_labels(list, entries).len(),
    ensures
        exists|j: int, k: int|
            0 <= j < entries.len() && 0 <= k < list.len() && (#[trigger] list[k]).name == Some(
                (#[trigger] entries[j]).name,
            ) && filtered_labels(list, entries)[a].workspace_id == list[k].id
                && filtered_labels(list, entries)[a].focused == list[k].is_active,
{
    lemma_filter_follows_entries(list, entries);
    let label = filtered_labels(list, entries)[a];
    let j = shown_entries(list, entries)[a];
    assert(0 <= j < entries.len());
    assert(find_named(list, entries[j].name) is Some);
    assert(label == entry_label(find_named(list, entries[j].name).unwrap(), entries[j]));
    lemma_find_named_is_first(list, entries[j].name);
    let w = find_named(list, entries[j].name).unwrap();
    let k = choose|k: int|
        0 <= k < list.len() && #[trigger] list[k] == w && w.name == Some(entries[j].name)
            && forall|i: int| 0 <= i < k ==> (#[trigger] list[i]).name != Some(entries[j].name);
    assert(list[k].name == Some(entries[j].name));
}

/// A workspace without a name is never shown under an ordered filter.
pub proof fn lemma_filter_omits_unnamed(
    list: Seq<WorkspaceView>,
    entries: Seq<DisplayEntryView>,
    a: int,
    k: int,
)
    requires
        0 <= a < filtered_labels(list, entries).len(),
        0 <= k < list.len(),
        list[k].name is None,
        forall|i: int| 0 <= i < list.len() && i != k ==> (#[trigger] list[i]).id != list[k].id,
    ensures
        filtered_labels(list, entries)[a].workspace_id != list[k].id,
{
    lemma_filter_shows_only_named(list, entries, a);
}

/// Under an icon mapping every workspace is shown, in the order in which the
/// compositor lists them, whatever the mapping holds.
pub proof fn lemma_mapping_keeps_order(icons: Map<Seq<char>, Seq<char>>, list: Seq<WorkspaceView>)
    ensures
        mapped_labels(icons, list).len() == list.len(),
        label_ids(mapped_labels(icons, list)) == workspace_ids(list),
        forall|i: int|
            0 <= i < list.len() ==> (#[trigger] mapped_labels(icons, list)[i]).focused
                == list[i].is_active,
        ascending(workspace_ids(list)) ==> ascending(label_ids(mapped_labels(icons, list))),
{
    assert(label_ids(mapped_labels(icons, list)) =~= workspace_ids(list));
}

/// Two icon mappings show the same workspaces in the same order; they can
/// differ in the texts alone.
pub proof fn lemma_mapping_order_ignores_icons(
    first: Map<Seq<char>, Seq<char>>,
    second: Map<Seq<char>, Seq<char>>,
    list: Seq<WorkspaceView>,
)
    ensures
        label_ids(mapped_labels(first, list)) == label_ids(mapped_labels(second, list)),
{
    lemma_mapping_keeps_order(first, list);
    lemma_mapping_keeps_order(second, list);
}

/// A workspace whose key the mapping does not hold is shown by its name, or
/// by the numeral of its identifier where it has no name; one whose key the
/// mapping holds is shown by the icon.
pub proof fn lemma_mapping_falls_back(icons: Map<Seq<char>, Seq<char>>, w: WorkspaceView)
    ensures
        !icons.dom().contains(display_key(w)) ==> match w.name {
            Some(name) => mapped_label(icons, w).text == name,
            None => mapped_label(icons, w).text == decimal(w.id as nat),
        },
        icons.dom().contains(display_key(w)) ==> mapped_label(icons, w).text == icons[display_key(
            w,
        )],
{
}

} // verus!
