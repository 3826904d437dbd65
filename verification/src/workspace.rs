//! The workspace: the scratch directory of one invocation, and its purge.
//!
//! A purge removes the files of the workspace and leaves its
//! subdirectories alone.

use vstd::prelude::*;

verus! {

/// One entry of the workspace directory.
#[derive(Debug)]
pub struct WorkspaceEntry {
    pub name: String,
    pub is_file: bool,
}

/// An entry as a plain value.
pub struct EntryModel {
    pub name: Seq<char>,
    pub is_file: bool,
}

impl View for WorkspaceEntry {
    type V = EntryModel;

    open spec fn view(&self) -> EntryModel {
        EntryModel { name: self.name@, is_file: self.is_file }
    }
}

/// The entries of `entries` as plain values, in order.
pub open spec fn entry_models(entries: Seq<WorkspaceEntry>) -> Seq<EntryModel> {
    entries.map_values(|e: WorkspaceEntry| e@)
}

/// The texts of `names`, in order.
pub open spec fn name_texts(names: Seq<String>) -> Seq<Seq<char>> {
    names.map_values(|n: String| n@)
}

/// The path of the workspace directory.
pub open spec fn workspace_dir_text() -> Seq<char> {
    "./tmp"@
}

/// The names that a purge removes: those of the files, in the order of
/// the entries.
pub open spec fn purge_list(entries: Seq<EntryModel>) -> Seq<Seq<char>>
    decreases entries.len(),
{
    if entries.len() == 0 {
        Seq::empty()
    } else {
        let before = purge_list(entries.drop_last());
        if entries.last().is_file {
            before.push(entries.last().name)
        } else {
            before
        }
    }
}

/// The workspace after a purge: the entries that are no files, in order.
pub open spec fn after_purge(entries: Seq<EntryModel>) -> Seq<EntryModel>
    decreases entries.len(),
{
    if entries.len() == 0 {
        Seq::empty()
    } else {
        let before = after_purge(entries.drop_last());
        if entries.last().is_file {
            before
        } else {
            before.push(entries.last())
        }
    }
}

/// The path of the workspace directory, relative to where the program runs.
pub fn workspace_dir() -> (r: String)
    ensures
        r@ == workspace_dir_text(),
{
    String::from_str("./tmp")
}

/// Names what a purge of a workspace with these entries removes: every
/// file and no directory, in the order of the entries.
pub fn purge_targets(entries: &Vec<WorkspaceEntry>) -> (targets: Vec<String>)
    ensures
        name_texts(targets@) == purge_list(entry_models(entries@)),
{
    let ghost models = entry_models(entries@);
    let mut targets: Vec<String> = Vec::new();
    let mut i: usize = 0;
    assert(name_texts(targets@) =~= purge_list(models.take(0)));
    while i < entries.len()
        invariant
            i <= entries.len(),
            models == entry_models(entries@),
            name_texts(targets@) == purge_list(models.take(i as int)),
        decreases entries.len() - i,
    {
        let ghost names = name_texts(targets@);
        proof {
            assert(models.take(i + 1).drop_last() =~= models.take(i as int));
            assert(models.take(i + 1).last() == entries@[i as int]@);
        }
        if entries[i].is_file {
            let name = entries[i].name.clone();
            targets.push(name);
            assert(name_texts(targets@) =~= names.push(entries@[i as int].name@));
        }
        i = i + 1;
    }
    assert(models.take(entries.len() as int) =~= models);
    targets
}

/// A purge of an empty workspace removes nothing and leaves it empty.
pub proof fn lemma_purge_of_empty_workspace()
    ensures
        purge_list(Seq::empty()) == Seq::<Seq<char>>::empty(),
        after_purge(Seq::empty()) == Seq::<EntryModel>::empty(),
{
}

/// A purge leaves no file behind.
pub proof fn lemma_purge_leaves_no_file(entries: Seq<EntryModel>)
    ensures
        forall|i: int|
            0 <= i < after_purge(entries).len() ==> !(#[trigger] after_purge(entries)[i]).is_file,
    decreases entries.len(),
{
    if entries.len() > 0 {
        let front = after_purge(entries.drop_last());
        lemma_purge_leaves_no_file(entries.drop_last());
        assert forall|i: int| 0 <= i < after_purge(entries).len() implies !(
        #[trigger] after_purge(entries)[i]).is_file by {
            if i < front.len() {
                assert(after_purge(entries)[i] == front[i]);
            }
        }
    }
}

/// A purge is idempotent: after one purge a second removes nothing and
/// leaves the workspace as the first left it.
pub proof fn lemma_purge_is_idempotent(entries: Seq<EntryModel>)
    ensures
        purge_list(after_purge(entries)) == Seq::<Seq<char>>::empty(),
        after_purge(after_purge(entries)) == after_purge(entries),
    decreases entries.len(),
{
    if entries.len() > 0 {
        let front = entries.drop_last();
        lemma_purge_is_idempotent(front);
        if !entries.last().is_file {
            let kept = after_purge(front).push(entries.last());
            assert(kept.drop_last() =~= after_purge(front));
            assert(kept.last() == entries.last());
        }
    }
}

} // verus!
