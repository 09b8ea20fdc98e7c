//! What a catalogue holds after any run of additions and removals.

use crate::config::{
    has_label, is_first_with_label, labels_unique, lemma_remove_keeps_unique, with_added,
    with_removed, ServerView,
};
use vstd::prelude::*;

verus! {

/// One request to change a catalogue.
pub ghost enum Edit {
    /// Add this profile.
    Add(ServerView),
    /// Remove the profile with this label.
    Remove(Seq<char>),
}

/// The catalogue after one request.
pub open spec fn edited(servers: Seq<ServerView>, edit: Edit) -> Seq<ServerView> {
    match edit {
        Edit::Add(server) => with_added(servers, server),
        Edit::Remove(label) => with_removed(servers, label),
    }
}

/// The catalogue after a run of requests on an empty one.
pub open spec fn replay(edits: Seq<Edit>) -> Seq<ServerView>
    decreases edits.len(),
{
    if edits.len() == 0 {
        Seq::<ServerView>::empty()
    } else {
        edited(replay(edits.drop_last()), edits.last())
    }
}

/// For each profile of the catalogue after a run of requests, the place in
/// the run of the request that added it.
pub open spec fn origins(edits: Seq<Edit>) -> Seq<int>
    decreases edits.len(),
{
    if edits.len() == 0 {
        Seq::<int>::empty()
    } else {
        let before = replay(edits.drop_last());
        let earlier = origins(edits.drop_last());
        match edits.last() {
            Edit::Add(server) => if has_label(before, server.label) {
                earlier
            } else {
                earlier.push(edits.len() - 1)
            },
            Edit::Remove(label) => if has_label(before, label) {
                earlier.remove(choose|i: int| is_first_with_label(before, label, i))
            } else {
                earlier
            },
        }
    }
}

/// After any run of additions and removals on an empty catalogue, no label
/// occurs twice, and the profiles stand in the order in which they were
/// added: each was put there by an addition of the run, no removal of its
/// label came after that addition, and of two profiles the one listed first
/// was added first.
pub proof fn lemma_insertion_order(edits: Seq<Edit>)
    ensures
        labels_unique(replay(edits)),
        origins(edits).len() == replay(edits).len(),
        forall|i: int|
            0 <= i < replay(edits).len() ==> 0 <= (#[trigger] origins(edits)[i]) < edits.len()
                && edits[origins(edits)[i]] == Edit::Add(replay(edits)[i]),
        forall|i: int, j: int|
            0 <= i < j < replay(edits).len() ==> (#[trigger] origins(edits)[i]) < (
            #[trigger] origins(edits)[j]),
        forall|i: int, k: int|
            0 <= i < replay(edits).len() && origins(edits)[i] < k < edits.len() ==> (
            #[trigger] edits[k]) != Edit::Remove((#[trigger] replay(edits)[i]).label),
    decreases edits.len(),
{
    if edits.len() > 0 {
        let prev = edits.drop_last();
        let before = replay(prev);
        let earlier = origins(prev);
        let after = replay(edits);
        let now = origins(edits);
        let last = edits.len() - 1;
        lemma_insertion_order(prev);
        assert forall|k: int| 0 <= k < last implies prev[k] == edits[k] by {}
        match edits.last() {
            Edit::Add(server) => {
                if has_label(before, server.label) {
                    assert(after == before);
                    assert(now == earlier);
                    assert forall|i: int, k: int|
                        0 <= i < after.len() && now[i] < k < edits.len() implies (
                    #[trigger] edits[k]) != Edit::Remove((#[trigger] after[i]).label) by {
                        if k < last {
                            assert(prev[k] != Edit::Remove(before[i].label));
                        }
                    }
                } else {
                    assert(after == before.push(server));
                    assert(now == earlier.push(last));
                    assert forall|i: int, j: int| 0 <= i < j < after.len() implies (
                    #[trigger] after[i]).label != (#[trigger] after[j]).label by {
                        if j < before.len() {
                            assert(before[i].label != before[j].label);
                        } else {
                            assert(before[i].label != server.label);
                        }
                    }
                    assert forall|i: int| 0 <= i < after.len() implies 0 <= (#[trigger] now[i])
                        < edits.len() && edits[now[i]] == Edit::Add(after[i]) by {
                        if i < before.len() {
                            assert(0 <= earlier[i] < prev.len());
                        }
                    }
                    assert forall|i: int, j: int| 0 <= i < j < after.len() implies (
                    #[trigger] now[i]) < (#[trigger] now[j]) by {
                        if j < before.len() {
                            assert(earlier[i] < earlier[j]);
                        } else {
                            assert(0 <= earlier[i] < prev.len());
                        }
                    }
                    assert forall|i: int, k: int|
                        0 <= i < after.len() && now[i] < k < edits.len() implies (
                    #[trigger] edits[k]) != Edit::Remove((#[trigger] after[i]).label) by {
                        if i < before.len() && k < last {
                            assert(prev[k] != Edit::Remove(before[i].label));
                        }
                    }
                }
            },
            Edit::Remove(label) => {
                if has_label(before, label) {
                    let w = choose|i: int| 0 <= i < before.len() && (#[trigger] before[i]).label
                        == label;
                    lemma_first_exists(before, label, w);
                    let f = choose|i: int| is_first_with_label(before, label, i);
                    assert(after == before.remove(f));
                    assert(now == earlier.remove(f));
                    lemma_remove_keeps_unique(before, label, f);
                    assert forall|i: int| 0 <= i < after.len() implies 0 <= (#[trigger] now[i])
                        < edits.len() && edits[now[i]] == Edit::Add(after[i]) by {
                        let i0 = if i < f {
                            i
                        } else {
                            i + 1
                        };
                        assert(now[i] == earlier[i0]);
                        assert(after[i] == before[i0]);
                        assert(0 <= earlier[i0] < prev.len());
                    }
                    assert forall|i: int, j: int| 0 <= i < j < after.len() implies (
                    #[trigger] now[i]) < (#[trigger] now[j]) by {
                        let i0 = if i < f {
                            i
                        } else {
                            i + 1
                        };
                        let j0 = if j < f {
                            j
                        } else {
                            j + 1
                        };
                        assert(now[i] == earlier[i0]);
                        assert(now[j] == earlier[j0]);
                        assert(earlier[i0] < earlier[j0]);
                    }
                    assert forall|i: int, k: int|
                        0 <= i < after.len() && now[i] < k < edits.len() implies (
                    #[trigger] edits[k]) != Edit::Remove((#[trigger] after[i]).label) by {
                        let i0 = if i < f {
                            i
                        } else {
                            i + 1
                        };
                        assert(now[i] == earlier[i0]);
                        assert(after[i] == before[i0]);
                        if k < last {
                            assert(prev[k] != Edit::Remove(before[i0].label));
                        } else {
                            assert(after[i].label != label);
                        }
                    }
                } else {
                    assert(after == before);
                    assert(now == earlier);
                    assert forall|i: int, k: int|
                        0 <= i < after.len() && now[i] < k < edits.len() implies (
                    #[trigger] edits[k]) != Edit::Remove((#[trigger] after[i]).label) by {
                        if k < last {
                            assert(prev[k] != Edit::Remove(before[i].label));
                        } else {
                            assert(before[i].label != label);
                        }
                    }
                }
            },
        }
    }
}

/// Where some profile carries a label, one of them is the first to.
pub proof fn lemma_first_exists(servers: Seq<ServerView>, label: Seq<char>, witness: int)
    requires
        0 <= witness < servers.len(),
        servers[witness].label == label,
    ensures
        exists|i: int| is_first_with_label(servers, label, i),
    decreases witness,
{
    if forall|j: int| 0 <= j < witness ==> (#[trigger] servers[j]).label != label {
        assert(is_first_with_label(servers, label, witness));
    } else {
        let j = choose|j: int| 0 <= j < witness && (#[trigger] servers[j]).label == label;
        lemma_first_exists(servers, label, j);
    }
}

} // verus!
