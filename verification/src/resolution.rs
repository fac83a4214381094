//! What the search for a script comes to on a given disk.
//!
//! An invocation only ever sees the host's replies. Here the replies are
//! those of a host that does as it is told on a disk that lets it, and the
//! search is followed from its first step to the point where the script is
//! run or the invocation ends.

use vstd::prelude::*;
use crate::host::{ReplyView, StepView};
use crate::invocation::{
    launch_of, next_of, pending_of, places_tried, start_of, ProgressView, ResolutionView,
    StageView, ToolRunView,
};
use crate::locations::{home_of, location, EnvironmentView, Tier};
use crate::scripts::{base_name, embedded_source, EmbeddedScriptView};
use crate::text::{lemma_occurs_between, lemma_occurs_within, occurs_in, path_debug};

verus! {

/// A disk as the search sees it: the content of every file, by path, and how
/// many files were written so far.
pub struct Disk {
    pub files: Map<Seq<char>, Seq<char>>,
    pub writes: nat,
}

impl Disk {
    /// A file exists at `path`.
    pub open spec fn holds(self, path: Seq<char>) -> bool {
        self.files.dom().contains(path)
    }

    /// The disk after `content` was written to `path`.
    pub open spec fn written(self, path: Seq<char>, content: Seq<char>) -> Disk {
        Disk { files: self.files.insert(path, content), writes: self.writes + 1 }
    }
}

/// The disk after a step that is the disk's to answer, and the reply to it.
/// Probing and creating directories leave the files as they are. Listing a
/// directory and running a process are no steps of the search.
pub open spec fn perform(disk: Disk, step: StepView) -> Option<(Disk, ReplyView)> {
    match step {
        StepView::Probe(path) => Some((disk, ReplyView::Exists(disk.holds(path)))),
        StepView::CreateDir(_) => Some((disk, ReplyView::Done)),
        StepView::Write { path, content } => Some((disk.written(path, content), ReplyView::Done)),
        StepView::List(_) => None,
        StepView::Run(_) => None,
    }
}

/// An upper bound on the steps that the search still takes.
pub open spec fn steps_left(run: ToolRunView) -> nat {
    match run {
        ToolRunView::Running(_) => 0,
        ToolRunView::Resolving(r) => match r.stage {
            StageView::Probing { tier, .. } => (9 - tier.rank()) as nat,
            StageView::Preparing { .. } => 3,
            StageView::Checking { .. } => 2,
            StageView::Installing { .. } => 1,
        },
    }
}

/// The search followed on `disk` from `run` on: the invocation at the point
/// where its script is run or where it has ended, and the disk as the search
/// left it.
pub open spec fn resolve_on(run: ToolRunView, disk: Disk) -> (ProgressView, Disk)
    decreases steps_left(run),
{
    match perform(disk, pending_of(run)) {
        None => (ProgressView::Continue(run), disk),
        Some((after, reply)) => match next_of(run, reply) {
            ProgressView::Continue(next) => resolve_on(next, after),
            ProgressView::Finished(result) => (ProgressView::Finished(result), after),
        },
    }
}

/// The search of a whole invocation on `disk`, from its beginning.
pub open spec fn resolution_of(start: ProgressView, disk: Disk) -> (ProgressView, Disk) {
    match start {
        ProgressView::Continue(run) => resolve_on(run, disk),
        ProgressView::Finished(_) => (start, disk),
    }
}

/// No tier from `from` up to, and without, `until` holds the script.
pub open spec fn absent_between(r: ResolutionView, disk: Disk, from: Tier, until: nat) -> bool {
    forall|t: Tier| from.rank() <= t.rank() < until ==> !disk.holds(#[trigger] r.candidate(t))
}

/// Once the script is to be run, the search is over.
proof fn lemma_launch_is_final(
    script: Seq<char>,
    home: Seq<char>,
    params: serde_json::Value,
    disk: Disk,
)
    ensures
        resolution_of(launch_of(script, home, params), disk) == (
            launch_of(script, home, params),
            disk,
        ),
{
}

/// A search that stands at tier `from` and finds the script first in `tier`
/// runs the script from there and writes nothing.
proof fn lemma_probing_finds_first(r: ResolutionView, disk: Disk, from: Tier, tier: Tier)
    requires
        r.stage matches StageView::Probing { tier: at, .. } && at == from,
        from.rank() <= tier.rank(),
        disk.holds(r.candidate(tier)),
        absent_between(r, disk, from, tier.rank()),
    ensures
        resolve_on(ToolRunView::Resolving(r), disk) == (
            launch_of(r.candidate(tier), r.home, r.params),
            disk,
        ),
    decreases tier.rank() - from.rank(),
{
    let carried = r.stage->carried;
    if from.rank() == tier.rank() {
        assert(from == tier);
        lemma_launch_is_final(r.candidate(tier), r.home, r.params, disk);
    } else {
        assert(!disk.holds(r.candidate(from)));
        let next = from.following()->Some_0;
        let moved = r.at(StageView::Probing { tier: next, carried });
        assert(moved.candidate(tier) == r.candidate(tier));
        assert forall|t: Tier| next.rank() <= t.rank() < tier.rank() implies !disk.holds(
            #[trigger] moved.candidate(t),
        ) by {
            assert(moved.candidate(t) == r.candidate(t));
        }
        lemma_probing_finds_first(moved, disk, next, tier);
    }
}

/// A search that stands at tier `from` and finds the script in no tier.
proof fn lemma_probing_finds_nothing(r: ResolutionView, disk: Disk, from: Tier)
    requires
        r.stage matches StageView::Probing { tier: at, .. } && at == from,
        absent_between(r, disk, from, 6),
        !disk.holds(r.target()),
    ensures
        resolve_on(ToolRunView::Resolving(r), disk) == match r.stage->carried {
            Some(source) => (
                launch_of(r.target(), r.home, r.params),
                disk.written(r.target(), source),
            ),
            None => (ProgressView::Finished(Err(r.not_found_report())), disk),
        },
    decreases 6 - from.rank(),
{
    let carried = r.stage->carried;
    assert(!disk.holds(r.candidate(from)));
    match from.following() {
        Some(next) => {
            let moved = r.at(StageView::Probing { tier: next, carried });
            assert forall|t: Tier| next.rank() <= t.rank() < 6 implies !disk.holds(
                #[trigger] moved.candidate(t),
            ) by {
                assert(moved.candidate(t) == r.candidate(t));
            }
            lemma_probing_finds_nothing(moved, disk, next);
            assert(moved.target() == r.target());
            assert(moved.not_found_report() == r.not_found_report());
        },
        None => {
            match carried {
                Some(source) => {
                    let preparing = r.at(StageView::Preparing { source });
                    let checking = r.at(StageView::Checking { source });
                    let installing = r.at(StageView::Installing { source });
                    assert(preparing.target() == r.target());
                    assert(checking.target() == r.target());
                    assert(installing.target() == r.target());
                    lemma_launch_is_final(
                        r.target(),
                        r.home,
                        r.params,
                        disk.written(r.target(), source),
                    );
                    assert(resolve_on(ToolRunView::Resolving(installing), disk) == (
                        launch_of(r.target(), r.home, r.params),
                        disk.written(r.target(), source),
                    ));
                    assert(resolve_on(ToolRunView::Resolving(checking), disk) == resolve_on(
                        ToolRunView::Resolving(installing),
                        disk,
                    ));
                    assert(resolve_on(ToolRunView::Resolving(preparing), disk) == resolve_on(
                        ToolRunView::Resolving(checking),
                        disk,
                    ));
                },
                None => {},
            }
        },
    }
}

/// The search of an invocation that begins with a known executable.
pub open spec fn search_of(
    tool: Seq<char>,
    params: serde_json::Value,
    environment: EnvironmentView,
    scripts: Seq<EmbeddedScriptView>,
) -> ResolutionView
    recommends
        environment.exe is Some,
{
    ResolutionView {
        tool,
        base: base_name(tool),
        params,
        exe_path: environment.exe->Some_0.path,
        exe_dir: environment.exe->Some_0.dir,
        home: home_of(environment.home),
        stage: StageView::Probing {
            tier: Tier::Packaged,
            carried: embedded_source(scripts, tool, base_name(tool)),
        },
    }
}

/// Priority: the script is run from the first tier, in search order, that
/// holds it, whatever the tiers after it hold, and the search writes
/// nothing. With the disk unchanged, searching again gives the same.
pub proof fn lemma_first_tier_wins(
    tool: Seq<char>,
    params: serde_json::Value,
    environment: EnvironmentView,
    scripts: Seq<EmbeddedScriptView>,
    disk: Disk,
    tier: Tier,
)
    requires
        environment.exe is Some,
        disk.holds(search_of(tool, params, environment, scripts).candidate(tier)),
        forall|t: Tier|
            t.rank() < tier.rank() ==> !disk.holds(
                #[trigger] search_of(tool, params, environment, scripts).candidate(t),
            ),
    ensures
        resolution_of(start_of(tool, params, environment, scripts), disk) == (
            launch_of(
                location(
                    tier,
                    environment.exe->Some_0.dir,
                    home_of(environment.home),
                    tool,
                    base_name(tool),
                ),
                home_of(environment.home),
                params,
            ),
            disk,
        ),
{
    let r = search_of(tool, params, environment, scripts);
    lemma_probing_finds_first(r, disk, Tier::Packaged, tier);
}

/// A script that stands in exactly one tier is run from there, whichever
/// tier that is, and a search that is made again on the disk that the first
/// one left comes to the same.
pub proof fn lemma_only_tier_wins(
    tool: Seq<char>,
    params: serde_json::Value,
    environment: EnvironmentView,
    scripts: Seq<EmbeddedScriptView>,
    disk: Disk,
    tier: Tier,
)
    requires
        environment.exe is Some,
        forall|t: Tier|
            disk.holds(#[trigger] search_of(tool, params, environment, scripts).candidate(t))
                <==> t == tier,
    ensures
        ({
            let start = start_of(tool, params, environment, scripts);
            let first = resolution_of(start, disk);
            &&& first == (
                launch_of(
                    search_of(tool, params, environment, scripts).candidate(tier),
                    home_of(environment.home),
                    params,
                ),
                disk,
            )
            &&& resolution_of(start, first.1) == first
        }),
{
    lemma_first_tier_wins(tool, params, environment, scripts, disk, tier);
}

/// Of the two tiers that hold the script, the one searched first is run.
pub proof fn lemma_higher_tier_wins(
    tool: Seq<char>,
    params: serde_json::Value,
    environment: EnvironmentView,
    scripts: Seq<EmbeddedScriptView>,
    disk: Disk,
    higher: Tier,
    lower: Tier,
)
    requires
        environment.exe is Some,
        higher.rank() < lower.rank(),
        forall|t: Tier|
            disk.holds(#[trigger] search_of(tool, params, environment, scripts).candidate(t))
                <==> t == higher || t == lower,
    ensures
        resolution_of(start_of(tool, params, environment, scripts), disk) == (
            launch_of(
                search_of(tool, params, environment, scripts).candidate(higher),
                home_of(environment.home),
                params,
            ),
            disk,
        ),
{
    lemma_first_tier_wins(tool, params, environment, scripts, disk, higher);
}

/// The first tier, in search order, that holds the script on `disk`.
proof fn lemma_some_tier_is_first(r: ResolutionView, disk: Disk, held: Tier) -> (first: Tier)
    requires
        disk.holds(r.candidate(held)),
    ensures
        disk.holds(r.candidate(first)),
        forall|t: Tier| t.rank() < first.rank() ==> !disk.holds(#[trigger] r.candidate(t)),
{
    if disk.holds(r.candidate(Tier::Packaged)) {
        Tier::Packaged
    } else if disk.holds(r.candidate(Tier::UserLocal)) {
        Tier::UserLocal
    } else if disk.holds(r.candidate(Tier::AppImageUsr)) {
        Tier::AppImageUsr
    } else if disk.holds(r.candidate(Tier::AppImageShare)) {
        Tier::AppImageShare
    } else if disk.holds(r.candidate(Tier::System)) {
        Tier::System
    } else {
        Tier::Development
    }
}

/// Installation: where no tier holds the script and the bridge carries it,
/// the search writes exactly one file, the carried source at the user-local
/// tier's place, and runs the script from there. A second search on the disk
/// so left runs the same script and leaves the disk as it is: it writes
/// nothing, so the installed file is never written over.
pub proof fn lemma_installs_once(
    tool: Seq<char>,
    params: serde_json::Value,
    environment: EnvironmentView,
    scripts: Seq<EmbeddedScriptView>,
    disk: Disk,
    source: Seq<char>,
)
    requires
        environment.exe is Some,
        embedded_source(scripts, tool, base_name(tool)) == Some(source),
        forall|t: Tier|
            !disk.holds(#[trigger] search_of(tool, params, environment, scripts).candidate(t)),
    ensures
        ({
            let start = start_of(tool, params, environment, scripts);
            let target = search_of(tool, params, environment, scripts).target();
            let launched = launch_of(target, home_of(environment.home), params);
            let installed = disk.written(target, source);
            &&& resolution_of(start, disk) == (launched, installed)
            &&& installed.files.dom() == disk.files.dom().insert(target)
            &&& installed.files[target] == source
            &&& resolution_of(start, installed) == (launched, installed)
        }),
{
    let r = search_of(tool, params, environment, scripts);
    let target = r.target();
    let installed = disk.written(target, source);
    lemma_probing_finds_nothing(r, disk, Tier::Packaged);
    assert(installed.files.dom() =~= disk.files.dom().insert(target));
    let first = lemma_some_tier_is_first(r, installed, Tier::UserLocal);
    assert(r.candidate(first) == target) by {
        if r.candidate(first) != target {
            assert(disk.holds(r.candidate(first)));
        }
    }
    lemma_probing_finds_first(r, installed, Tier::Packaged, first);
}

/// The invocation owes the host a write to `path`.
pub open spec fn owes_write_to(run: ToolRunView, path: Seq<char>) -> bool {
    pending_of(run) matches StepView::Write { path: place, .. } && place == path
}

/// Nothing is written over, whatever the host replies: an invocation comes
/// to owe a write to a path only by the host's word that nothing stands
/// there.
pub proof fn lemma_writes_only_where_absent(
    run: ToolRunView,
    reply: ReplyView,
    next: ToolRunView,
    path: Seq<char>,
)
    requires
        next_of(run, reply) == ProgressView::Continue(next),
        owes_write_to(next, path),
    ensures
        (next == run && owes_write_to(run, path)) || (pending_of(run) == StepView::Probe(path)
            && reply == ReplyView::Exists(false)),
{
}

/// No invocation begins by owing a write.
pub proof fn lemma_begins_without_write(
    tool: Seq<char>,
    params: serde_json::Value,
    environment: EnvironmentView,
    scripts: Seq<EmbeddedScriptView>,
    path: Seq<char>,
)
    ensures
        start_of(tool, params, environment, scripts) matches ProgressView::Continue(first)
            ==> !owes_write_to(first, path),
{
}

/// Failure: where no tier holds the script and the bridge does not carry it,
/// the invocation ends, having written nothing, with an error that names the
/// tool and every place that was tried.
pub proof fn lemma_not_found(
    tool: Seq<char>,
    params: serde_json::Value,
    environment: EnvironmentView,
    scripts: Seq<EmbeddedScriptView>,
    disk: Disk,
)
    requires
        environment.exe is Some,
        embedded_source(scripts, tool, base_name(tool)) is None,
        forall|t: Tier|
            !disk.holds(#[trigger] search_of(tool, params, environment, scripts).candidate(t)),
    ensures
        ({
            let r = search_of(tool, params, environment, scripts);
            &&& resolution_of(start_of(tool, params, environment, scripts), disk) == (
                ProgressView::Finished(Err(r.not_found_report())),
                disk,
            )
            &&& occurs_in(tool, r.not_found_report())
            &&& forall|t: Tier| occurs_in(#[trigger] r.candidate(t), r.not_found_report())
        }),
{
    let r = search_of(tool, params, environment, scripts);
    lemma_probing_finds_nothing(r, disk, Tier::Packaged);
    lemma_report_names_all(r);
}

/// The error of a script that is nowhere names the tool and every place
/// that was tried.
pub proof fn lemma_report_names_all(r: ResolutionView)
    ensures
        occurs_in(r.tool, r.not_found_report()),
        forall|t: Tier| occurs_in(#[trigger] r.candidate(t), r.not_found_report()),
{
    let report = r.not_found_report();
    let head = "Python script not found. Tried multiple locations for "@;
    let places = places_tried(r.tool, r.base, r.exe_dir, r.home);
    let tail = ". Current exe: "@ + path_debug(r.exe_path);
    lemma_occurs_between(head, r.tool, "/"@ + r.base + ".py: "@ + places + tail);
    assert(report =~= head + r.tool + ("/"@ + r.base + ".py: "@ + places + tail));

    let sep = ", "@;
    let p0 = r.candidate(Tier::Packaged);
    let p1 = p0 + sep + r.candidate(Tier::UserLocal);
    let p2 = p1 + sep + r.candidate(Tier::AppImageUsr);
    let p3 = p2 + sep + r.candidate(Tier::AppImageShare);
    let p4 = p3 + sep + r.candidate(Tier::System);
    let p5 = p4 + sep + r.candidate(Tier::Development);
    assert(places == p5);
    lemma_occurs_between(Seq::empty(), p0, Seq::empty());
    assert(p0 =~= Seq::empty() + p0 + Seq::empty());
    lemma_occurs_between(p0 + sep, r.candidate(Tier::UserLocal), Seq::empty());
    assert(p1 =~= p0 + sep + r.candidate(Tier::UserLocal) + Seq::empty());
    lemma_occurs_between(p1 + sep, r.candidate(Tier::AppImageUsr), Seq::empty());
    assert(p2 =~= p1 + sep + r.candidate(Tier::AppImageUsr) + Seq::empty());
    lemma_occurs_between(p2 + sep, r.candidate(Tier::AppImageShare), Seq::empty());
    assert(p3 =~= p2 + sep + r.candidate(Tier::AppImageShare) + Seq::empty());
    lemma_occurs_between(p3 + sep, r.candidate(Tier::System), Seq::empty());
    assert(p4 =~= p3 + sep + r.candidate(Tier::System) + Seq::empty());
    lemma_occurs_between(p4 + sep, r.candidate(Tier::Development), Seq::empty());
    assert(p5 =~= p4 + sep + r.candidate(Tier::Development) + Seq::empty());
    lemma_occurs_within(Seq::empty(), p0, sep + r.candidate(Tier::UserLocal));
    assert(p1 =~= Seq::empty() + p0 + (sep + r.candidate(Tier::UserLocal)));
    lemma_occurs_within(Seq::empty(), p1, sep + r.candidate(Tier::AppImageUsr));
    assert(p2 =~= Seq::empty() + p1 + (sep + r.candidate(Tier::AppImageUsr)));
    lemma_occurs_within(Seq::empty(), p2, sep + r.candidate(Tier::AppImageShare));
    assert(p3 =~= Seq::empty() + p2 + (sep + r.candidate(Tier::AppImageShare)));
    lemma_occurs_within(Seq::empty(), p3, sep + r.candidate(Tier::System));
    assert(p4 =~= Seq::empty() + p3 + (sep + r.candidate(Tier::System)));
    lemma_occurs_within(Seq::empty(), p4, sep + r.candidate(Tier::Development));
    assert(p5 =~= Seq::empty() + p4 + (sep + r.candidate(Tier::Development)));
    lemma_occurs_within(head + r.tool + "/"@ + r.base + ".py: "@, places, tail);
    assert(report =~= head + r.tool + "/"@ + r.base + ".py: "@ + places + tail);
    assert forall|t: Tier| occurs_in(#[trigger] r.candidate(t), report) by {
        match t {
            Tier::Packaged => {},
            Tier::UserLocal => {},
            Tier::AppImageUsr => {},
            Tier::AppImageShare => {},
            Tier::System => {},
            Tier::Development => {},
        }
    }
}

} // verus!
