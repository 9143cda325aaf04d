use vstd::prelude::*;

use crate::filter::{Entry, FilterConfig, admits, listed};
use crate::nav::{Command, NavView, Step, after, after_all, decide, refreshed};

verus! {

/// Each entry occurs in a listing exactly as often as among the directory's
/// children when the filters admit it, and not at all otherwise.
pub proof fn lemma_listed_counts(children: Seq<Entry>, f: FilterConfig)
    ensures
        forall|e: Entry| #[trigger]
            listed(children, f).to_multiset().count(e) == if admits(f, e) {
                children.to_multiset().count(e)
            } else {
                0
            },
    decreases children.len(),
{
    broadcast use vstd::seq_lib::group_to_multiset_ensures;

    let pred = |e: Entry| admits(f, e);
    if children.len() == 0 {
        reveal(Seq::filter);
        assert(listed(children, f) =~= Seq::<Entry>::empty());
        assert forall|e: Entry| #[trigger] listed(children, f).to_multiset().count(e) == 0 by {
            assert(!listed(children, f).contains(e));
        }
        assert forall|e: Entry| #[trigger] children.to_multiset().count(e) == 0 by {
            assert(!children.contains(e));
        }
    } else {
        let d = children.drop_last();
        let x = children.last();
        lemma_listed_counts(d, f);
        assert(children == d.push(x));
        reveal(Seq::filter);
        assert(listed(children, f) == if pred(x) {
            listed(d, f).push(x)
        } else {
            listed(d, f)
        });
    }
}

/// A listing holds exactly the directory's children that satisfy
/// (hidden implies `show_hidden`) and (directory or `show_files`).
pub proof fn lemma_listed_members(children: Seq<Entry>, f: FilterConfig)
    ensures
        forall|e: Entry| #[trigger]
            listed(children, f).contains(e) <==> (children.contains(e) && admits(f, e)),
{
    broadcast use vstd::seq_lib::group_to_multiset_ensures;

    lemma_listed_counts(children, f);
    assert forall|e: Entry| #[trigger]
        listed(children, f).contains(e) <==> (children.contains(e) && admits(f, e)) by {
        assert(listed(children, f).to_multiset().count(e) > 0 <==> listed(children, f).contains(e));
        assert(children.to_multiset().count(e) > 0 <==> children.contains(e));
    }
}

/// Listing the same directory twice, whose children may come in another
/// order the second time, gives listings of equal membership and length.
pub proof fn lemma_listing_repeatable(first: Seq<Entry>, second: Seq<Entry>, f: FilterConfig)
    requires
        first.to_multiset() == second.to_multiset(),
    ensures
        listed(first, f).to_multiset() == listed(second, f).to_multiset(),
        listed(first, f).len() == listed(second, f).len(),
        forall|e: Entry| #[trigger] listed(first, f).contains(e) <==> listed(second, f).contains(e),
{
    broadcast use vstd::seq_lib::group_to_multiset_ensures;

    lemma_listed_counts(first, f);
    lemma_listed_counts(second, f);
    assert(listed(first, f).to_multiset() =~= listed(second, f).to_multiset());
    assert(listed(first, f).len() == listed(first, f).to_multiset().len());
    assert(listed(second, f).len() == listed(second, f).to_multiset().len());
    assert forall|e: Entry| #[trigger] listed(first, f).contains(e) <==> listed(second, f).contains(e) by {
        assert(listed(first, f).to_multiset().count(e) > 0 <==> listed(first, f).contains(e));
        assert(listed(second, f).to_multiset().count(e) > 0 <==> listed(second, f).contains(e));
    }
}

/// One command, with whatever its listing gave, keeps the selection valid.
pub proof fn lemma_command_keeps_selection_valid(
    v: NavView,
    cmd: Command,
    listing: Option<Seq<Entry>>,
)
    requires
        v.wf(),
    ensures
        after(v, cmd, listing).wf(),
{
}

/// After any sequence of commands, each with whatever its listing gave, the
/// selection is absent when there are no entries and a valid index otherwise.
pub proof fn lemma_commands_keep_selection_valid(
    v: NavView,
    cmds: Seq<Command>,
    listings: Seq<Option<Seq<Entry>>>,
)
    requires
        v.wf(),
    ensures
        after_all(v, cmds, listings).wf(),
    decreases cmds.len(),
{
    if cmds.len() > 0 && listings.len() > 0 {
        lemma_command_keeps_selection_valid(v, cmds[0], listings[0]);
        lemma_commands_keep_selection_valid(
            after(v, cmds[0], listings[0]),
            cmds.drop_first(),
            listings.drop_first(),
        );
    }
}

/// Descending into a directory that cannot be listed leaves the path, and
/// the whole state, as they were.
pub proof fn lemma_failed_descend_rolls_back(v: NavView)
    ensures
        after(v, Command::Descend, None) == v,
        after(v, Command::Descend, None).path == v.path,
{
}

/// Toggling hidden entries twice over an unchanged directory brings back the
/// same entries, path and filters.
pub proof fn lemma_toggle_hidden_twice(v: NavView, children: Seq<Entry>)
    requires
        v.wf(),
        v.entries == listed(children, v.filters),
    ensures
        after(after(v, Command::ToggleHidden, Some(children)), Command::ToggleHidden, Some(children)).entries
            == v.entries,
        after(after(v, Command::ToggleHidden, Some(children)), Command::ToggleHidden, Some(children)).path
            == v.path,
        after(after(v, Command::ToggleHidden, Some(children)), Command::ToggleHidden, Some(children)).filters
            == v.filters,
{
    let once = after(v, Command::ToggleHidden, Some(children));
    assert(once == refreshed(v.path, children, v.filters.toggled_hidden_spec()));
    assert(once.filters.toggled_hidden_spec() == v.filters);
}

/// Ascending from the root asks for nothing and changes nothing.
pub proof fn lemma_ascend_at_root(v: NavView, listing: Option<Seq<Entry>>)
    requires
        v.path.len() == 0,
    ensures
        decide(v, Command::Ascend) == Step::Stay,
        after(v, Command::Ascend, listing) == v,
{
}

/// Descending with nothing selected asks for nothing and changes nothing.
pub proof fn lemma_descend_without_selection(v: NavView, listing: Option<Seq<Entry>>)
    requires
        v.selected is None,
    ensures
        decide(v, Command::Descend) == Step::Stay,
        after(v, Command::Descend, listing) == v,
{
}

} // verus!
