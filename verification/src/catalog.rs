//! The tools that are installed beside the host: one directory per tool
//! under `tools`, seen from where the host stands.

use vstd::prelude::*;
use crate::host::{Listed, ListedView, Reply, ReplyView, Step, StepView};
use crate::text::join2;

verus! {

/// The directory that is listed, relative to where the host stands.
pub open spec fn tools_root() -> Seq<char> {
    "tools"@
}

/// Whether an entry stands for a tool: a directory whose name is text.
pub open spec fn names_tool(entry: ListedView) -> bool {
    entry matches ListedView::Entry { name, is_dir } && is_dir && name is Some
}

/// The tools among the entries of a listing, in the listing's order, or the
/// complaint about the first entry that could not be read.
pub open spec fn tools_of(entries: Seq<ListedView>) -> Result<Seq<Seq<char>>, Seq<char>>
    decreases entries.len(),
{
    if entries.len() == 0 {
        Ok(Seq::empty())
    } else {
        match tools_of(entries.drop_last()) {
            Err(message) => Err(message),
            Ok(names) => match entries.last() {
                ListedView::Unreadable(why) => Err("Failed to read directory entry: "@ + why),
                ListedView::Entry { name: Some(name), is_dir: true } => Ok(names.push(name)),
                ListedView::Entry { .. } => Ok(names),
            },
        }
    }
}

/// The entry at `i` is the first of the listing that could not be read.
pub open spec fn first_unreadable(entries: Seq<ListedView>, i: int) -> bool {
    &&& 0 <= i < entries.len()
    &&& entries[i] is Unreadable
    &&& forall|j: int| 0 <= j < i ==> !(#[trigger] entries[j] is Unreadable)
}

/// A listing is refused exactly when one of its entries could not be read,
/// and the complaint is then about the first such entry.
pub proof fn lemma_tools_refused(entries: Seq<ListedView>)
    ensures
        tools_of(entries) is Err <==> exists|i: int|
            0 <= i < entries.len() && #[trigger] entries[i] is Unreadable,
        tools_of(entries) matches Err(message) ==> exists|i: int| #[trigger]
            first_unreadable(entries, i) && message == "Failed to read directory entry: "@
                + entries[i]->Unreadable_0,
    decreases entries.len(),
{
    if entries.len() > 0 {
        let front = entries.drop_last();
        lemma_tools_refused(front);
        assert forall|i: int| 0 <= i < front.len() implies front[i] == entries[i] by {}
        if tools_of(front) is Err {
            let i = choose|i: int| #[trigger]
                first_unreadable(front, i) && tools_of(front)->Err_0
                    == "Failed to read directory entry: "@ + front[i]->Unreadable_0;
            assert(entries[i] is Unreadable);
            assert forall|j: int| 0 <= j < i implies !(#[trigger] entries[j] is Unreadable) by {
                assert(front[j] == entries[j]);
            }
            assert(first_unreadable(entries, i));
        } else {
            assert forall|j: int| 0 <= j < front.len() implies !(#[trigger] entries[j]
                is Unreadable) by {
                assert(front[j] == entries[j]);
            }
            if entries.last() is Unreadable {
                assert(first_unreadable(entries, entries.len() - 1));
            }
        }
    }
}

/// A listing that is accepted gives the names of exactly the entries that
/// stand for tools, in the listing's order.
pub proof fn lemma_tools_accepted(entries: Seq<ListedView>)
    ensures
        tools_of(entries) matches Ok(names) ==> names == entries.filter(
            |entry: ListedView| names_tool(entry),
        ).map_values(|entry: ListedView| entry->name->Some_0),
    decreases entries.len(),
{
    let keep = |entry: ListedView| names_tool(entry);
    let name = |entry: ListedView| entry->name->Some_0;
    if entries.len() == 0 {
        assert(entries.filter(keep) =~= Seq::empty()) by {
            reveal(Seq::filter);
        }
        assert(entries.filter(keep).map_values(name) =~= Seq::empty());
    } else {
        let front = entries.drop_last();
        lemma_tools_accepted(front);
        if tools_of(entries) is Ok {
            assert(entries =~= front.push(entries.last()));
            front.lemma_filter_push(entries.last(), keep);
            if names_tool(entries.last()) {
                front.filter(keep).lemma_push_map_commute(name, entries.last());
            }
        }
    }
}

/// A look at the installed tools under way.
pub enum Catalog {
    /// The host was asked whether the tools directory exists.
    Looking,
    /// The host was asked to list the tools directory.
    Reading,
}

/// A look at the installed tools after a step: under way, or ended with the
/// tools' identifiers.
pub enum CatalogProgress {
    Continue(Catalog),
    Finished(Result<Vec<String>, String>),
}

pub enum CatalogProgressView {
    Continue(Catalog),
    Finished(Result<Seq<Seq<char>>, Seq<char>>),
}

impl View for CatalogProgress {
    type V = CatalogProgressView;

    open spec fn view(&self) -> CatalogProgressView {
        match self {
            CatalogProgress::Continue(catalog) => CatalogProgressView::Continue(*catalog),
            CatalogProgress::Finished(Ok(names)) => CatalogProgressView::Finished(
                Ok(names.deep_view()),
            ),
            CatalogProgress::Finished(Err(message)) => CatalogProgressView::Finished(
                Err(message@),
            ),
        }
    }
}

/// The step that the host owes a look at the installed tools.
pub open spec fn catalog_pending_of(catalog: Catalog) -> StepView {
    match catalog {
        Catalog::Looking => StepView::Probe(tools_root()),
        Catalog::Reading => StepView::List(tools_root()),
    }
}

/// A look at the installed tools after the host's reply. Where there is no
/// tools directory there are no tools, and that is no error. A directory
/// that cannot be listed is one. A reply that does not answer the pending
/// step leaves the look where it is.
pub open spec fn catalog_next_of(catalog: Catalog, reply: ReplyView) -> CatalogProgressView {
    match (catalog, reply) {
        (Catalog::Looking, ReplyView::Exists(false)) => CatalogProgressView::Finished(
            Ok(Seq::empty()),
        ),
        (Catalog::Looking, ReplyView::Exists(true)) => CatalogProgressView::Continue(
            Catalog::Reading,
        ),
        (Catalog::Reading, ReplyView::Failed(why)) => CatalogProgressView::Finished(
            Err("Failed to read tools directory: "@ + why),
        ),
        (Catalog::Reading, ReplyView::Listing(entries)) => CatalogProgressView::Finished(
            tools_of(entries),
        ),
        _ => CatalogProgressView::Continue(catalog),
    }
}

/// Once a listing is refused, nothing that follows changes the complaint.
proof fn lemma_refusal_persists(entries: Seq<ListedView>, k: int)
    requires
        0 <= k <= entries.len(),
        tools_of(entries.take(k)) is Err,
    ensures
        tools_of(entries) == tools_of(entries.take(k)),
    decreases entries.len() - k,
{
    if k == entries.len() {
        assert(entries.take(k) =~= entries);
    } else {
        assert(entries.take(k + 1).drop_last() =~= entries.take(k));
        lemma_refusal_persists(entries, k + 1);
    }
}

/// The tools among the entries of a listing.
pub fn tools_in(entries: &Vec<Listed>) -> (tools: Result<Vec<String>, String>)
    ensures
        match tools {
            Ok(names) => tools_of(entries.deep_view()) == Ok::<Seq<Seq<char>>, Seq<char>>(
                names.deep_view(),
            ),
            Err(message) => tools_of(entries.deep_view()) == Err::<Seq<Seq<char>>, Seq<char>>(
                message@,
            ),
        },
{
    let ghost all = entries.deep_view();
    let mut names: Vec<String> = Vec::new();
    let mut i: usize = 0;
    assert(names.deep_view() =~= Seq::<Seq<char>>::empty());
    assert(all.take(0) =~= Seq::<ListedView>::empty());
    while i < entries.len()
        invariant
            all == entries.deep_view(),
            i <= entries.len(),
            tools_of(all.take(i as int)) == Ok::<Seq<Seq<char>>, Seq<char>>(names.deep_view()),
        decreases entries.len() - i,
    {
        let ghost found = names.deep_view();
        assert(all.take(i + 1).drop_last() =~= all.take(i as int));
        assert(all.take(i + 1).last() == entries[i as int]@);
        match &entries[i] {
            Listed::Unreadable(why) => {
                let message = join2("Failed to read directory entry: ", why.as_str());
                proof {
                    lemma_refusal_persists(all, i + 1);
                }
                return Err(message);
            },
            Listed::Entry { name, is_dir } => {
                if *is_dir {
                    if let Some(name) = name {
                        names.push(name.clone());
                        assert(names.deep_view() =~= found.push(name@));
                    }
                }
            },
        }
        i = i + 1;
    }
    assert(all.take(i as int) =~= all);
    Ok(names)
}

impl Catalog {
    /// The step that the host owes this look.
    pub fn pending(&self) -> (step: Step)
        ensures
            step@ == catalog_pending_of(*self),
    {
        match self {
            Catalog::Looking => Step::Probe("tools".to_owned()),
            Catalog::Reading => Step::List("tools".to_owned()),
        }
    }

    /// Takes the host's reply to the pending step and moves on.
    pub fn step(self, reply: Reply) -> (progress: CatalogProgress)
        ensures
            progress@ == catalog_next_of(self, reply@),
    {
        match (self, reply) {
            (Catalog::Looking, Reply::Exists(exists)) => {
                if exists {
                    CatalogProgress::Continue(Catalog::Reading)
                } else {
                    let none: Vec<String> = Vec::new();
                    assert(none.deep_view() =~= Seq::<Seq<char>>::empty());
                    CatalogProgress::Finished(Ok(none))
                }
            },
            (Catalog::Reading, Reply::Failed(why)) => CatalogProgress::Finished(
                Err(join2("Failed to read tools directory: ", why.as_str())),
            ),
            (Catalog::Reading, Reply::Listing(entries)) => CatalogProgress::Finished(
                tools_in(&entries),
            ),
            (catalog, _) => CatalogProgress::Continue(catalog),
        }
    }
}

/// Begins a look at the installed tools.
pub fn get_available_tools() -> (catalog: Catalog)
    ensures
        catalog == Catalog::Looking,
{
    Catalog::Looking
}

} // verus!
