//! Laws of whole runs, proved over the step models: what a run commands while
//! it consumes a trace of events. A trace is admissible when each event
//! reports on the command the machine issued last (`single_trace_ok`,
//! `workspace_trace_ok`).
use vstd::prelude::*;
use crate::discovery::decode_ls_output;
use crate::error::ErrModel;
use crate::pipeline::CmdModel;
use crate::pipeline::EventModel;
use crate::pipeline::SinglePhaseModel;
use crate::pipeline::SingleRunModel;
use crate::pipeline::WorkspacePhaseModel;
use crate::pipeline::WorkspaceRunModel;
use crate::pipeline::member_dirs_model;
use crate::pipeline::single_fits;
use crate::pipeline::single_step_model;
use crate::pipeline::single_wf;
use crate::pipeline::workspace_advance_model;
use crate::pipeline::workspace_fits;
use crate::pipeline::workspace_step_model;
use crate::pipeline::workspace_wf;
use crate::paths::joined;

verus! {

/// Each event of the trace fits the phase the run has reached by then.
pub open spec fn single_trace_ok(m: SingleRunModel, evs: Seq<EventModel>) -> bool
    decreases evs.len(),
{
    evs.len() == 0 || (single_fits(m, evs[0]) && single_trace_ok(
        single_step_model(m, evs[0]).0,
        evs.drop_first(),
    ))
}

/// All commands a single-module run issues while consuming `evs` from `m`.
pub open spec fn single_run_cmds(m: SingleRunModel, evs: Seq<EventModel>) -> Seq<CmdModel>
    decreases evs.len(),
{
    if evs.len() == 0 {
        Seq::<CmdModel>::empty()
    } else {
        let step = single_step_model(m, evs[0]);
        let rest = single_run_cmds(step.0, evs.drop_first());
        match step.1 {
            Some(c) => seq![c] + rest,
            None => rest,
        }
    }
}

/// Each event of the trace fits the phase the workspace run has reached.
pub open spec fn workspace_trace_ok(m: WorkspaceRunModel, evs: Seq<EventModel>) -> bool
    decreases evs.len(),
{
    evs.len() == 0 || (workspace_fits(m, evs[0]) && workspace_trace_ok(
        workspace_step_model(m, evs[0]).0,
        evs.drop_first(),
    ))
}

/// All commands a workspace run issues while consuming `evs` from `m`.
pub open spec fn workspace_run_cmds(m: WorkspaceRunModel, evs: Seq<EventModel>) -> Seq<CmdModel>
    decreases evs.len(),
{
    if evs.len() == 0 {
        Seq::<CmdModel>::empty()
    } else {
        let step = workspace_step_model(m, evs[0]);
        let rest = workspace_run_cmds(step.0, evs.drop_first());
        match step.1 {
            Some(c) => seq![c] + rest,
            None => rest,
        }
    }
}

/// The run a single-module machine has reached after consuming `evs`.
pub open spec fn single_run_end(m: SingleRunModel, evs: Seq<EventModel>) -> SingleRunModel
    decreases evs.len(),
{
    if evs.len() == 0 {
        m
    } else {
        single_run_end(single_step_model(m, evs[0]).0, evs.drop_first())
    }
}

/// The run a workspace machine has reached after consuming `evs`.
pub open spec fn workspace_run_end(m: WorkspaceRunModel, evs: Seq<EventModel>) -> WorkspaceRunModel
    decreases evs.len(),
{
    if evs.len() == 0 {
        m
    } else {
        workspace_run_end(workspace_step_model(m, evs[0]).0, evs.drop_first())
    }
}

/// Once a single-module run is past its export phase, it never again asks for
/// an export, whatever events follow.
pub proof fn lemma_single_no_export_from(m: SingleRunModel, evs: Seq<EventModel>)
    requires
        single_trace_ok(m, evs),
        !(m.phase is Loading),
        !(m.phase is Exporting),
    ensures
        forall|i: int|
            0 <= i < single_run_cmds(m, evs).len() ==> !(#[trigger] single_run_cmds(m, evs)[i]
                is Export),
    decreases evs.len(),
{
    if evs.len() > 0 {
        let ev = evs[0];
        let step = single_step_model(m, ev);
        assert(!(step.0.phase is Loading));
        assert(!(step.0.phase is Exporting));
        lemma_single_no_export_from(step.0, evs.drop_first());
        let rest = single_run_cmds(step.0, evs.drop_first());
        match step.1 {
            Some(c) => {
                assert(!(c is Export));
                assert forall|i: int| 0 <= i < single_run_cmds(m, evs).len() implies !(
                #[trigger] single_run_cmds(m, evs)[i] is Export) by {
                    if i > 0 {
                        assert(single_run_cmds(m, evs)[i] == rest[i - 1]);
                    }
                }
            },
            None => {
                assert(single_run_cmds(m, evs) == rest);
            },
        }
    }
}

/// For a manifest with a missing or empty dependency list, the run invokes
/// the outside export operation zero times: the load step records no failure,
/// goes straight to discovery, and no later step asks for an export either.
pub proof fn theorem_empty_deps_export_nothing(
    m: SingleRunModel,
    deps: Seq<Seq<char>>,
    evs: Seq<EventModel>,
)
    requires
        m.phase is Loading,
        deps.len() == 0,
        single_trace_ok(m, seq![EventModel::ModuleLoaded { outcome: Ok(deps) }] + evs),
    ensures
        single_step_model(m, EventModel::ModuleLoaded { outcome: Ok(deps) }).0.phase
            is Listing,
        forall|i: int|
            0 <= i < single_run_cmds(
                m,
                seq![EventModel::ModuleLoaded { outcome: Ok(deps) }] + evs,
            ).len() ==> !(#[trigger] single_run_cmds(
                m,
                seq![EventModel::ModuleLoaded { outcome: Ok(deps) }] + evs,
            )[i] is Export),
{
    let ev0 = EventModel::ModuleLoaded { outcome: Ok(deps) };
    let full = seq![ev0] + evs;
    assert(full[0] == ev0);
    assert(full.drop_first() =~= evs);
    let step = single_step_model(m, ev0);
    assert(step.0.phase is Listing);
    assert(step.1 == Some(CmdModel::LsFiles { path: m.buf_dir }));
    lemma_single_no_export_from(step.0, evs);
    let rest = single_run_cmds(step.0, evs);
    assert forall|i: int| 0 <= i < single_run_cmds(m, full).len() implies !(
    #[trigger] single_run_cmds(m, full)[i] is Export) by {
        if i > 0 {
            assert(single_run_cmds(m, full)[i] == rest[i - 1]);
        }
    }
}

/// From cleanup on, a single-module run issues no further command at all: a
/// failure aborts everything except the staging directory's removal, which
/// was already commanded when cleanup began.
pub proof fn lemma_single_nothing_after_cleanup(m: SingleRunModel, evs: Seq<EventModel>)
    requires
        single_trace_ok(m, evs),
        m.phase is Cleaning || m.phase is Finished,
    ensures
        single_run_cmds(m, evs).len() == 0,
    decreases evs.len(),
{
    if evs.len() > 0 {
        let step = single_step_model(m, evs[0]);
        lemma_single_nothing_after_cleanup(step.0, evs.drop_first());
    }
}

/// Cleanup is never skipped: whichever step first leaves the working phases
/// for cleanup, the command it issues is the removal of this run's staging
/// directory — on the failure paths just as on the success path.
pub proof fn lemma_single_cleanup_always_commanded(m: SingleRunModel, ev: EventModel)
    requires
        single_wf(m),
        single_fits(m, ev),
        !(m.phase is Cleaning),
        single_step_model(m, ev).0.phase is Cleaning,
    ensures
        single_step_model(m, ev).1 == Some(CmdModel::Remove { path: m.export_dir }),
{
}

/// Removal failure is never surfaced: a run finishes with exactly the outcome
/// recorded when cleanup began. The removal attempt's own result has no
/// bearing — the event reporting it does not even carry one — so a run whose
/// compiler step succeeded reports success even if the directory persists.
pub proof fn lemma_single_removal_never_surfaced(m: SingleRunModel, failure: Option<ErrModel>)
    requires
        m.phase == (SinglePhaseModel::Cleaning { failure }),
    ensures
        single_step_model(m, EventModel::Removed).0.phase == (SinglePhaseModel::Finished {
            failure,
        }),
        single_step_model(m, EventModel::Removed).1 is None,
{
}

/// The workspace counterparts of the two cleanup laws above.
pub proof fn lemma_workspace_cleanup_always_commanded(m: WorkspaceRunModel, ev: EventModel)
    requires
        workspace_wf(m),
        workspace_fits(m, ev),
        !(m.phase is Cleaning),
        workspace_step_model(m, ev).0.phase is Cleaning,
    ensures
        workspace_step_model(m, ev).1 == Some(CmdModel::Remove { path: m.export_dir }),
{
}

/// `k` reports of a successful export.
pub open spec fn success_events(k: int) -> Seq<EventModel> {
    Seq::new(k as nat, |i: int| EventModel::DepExported { failure: None })
}

/// While a single module's exports keep succeeding, the run commands them one
/// after the other in manifest order, and after the last it asks for
/// discovery.
proof fn lemma_single_export_segment(
    m: SingleRunModel,
    deps: Seq<Seq<char>>,
    next: int,
    rest: Seq<EventModel>,
)
    requires
        0 <= next < deps.len(),
        m.phase == (SinglePhaseModel::Exporting { deps, next }),
    ensures
        single_run_cmds(m, success_events(deps.len() - next) + rest) == Seq::new(
            (deps.len() - next - 1) as nat,
            |i: int| CmdModel::Export { dep: deps[next + 1 + i], out_dir: m.export_dir },
        ) + seq![CmdModel::LsFiles { path: m.buf_dir }] + single_run_cmds(
            SingleRunModel {
                buf_dir: m.buf_dir,
                export_dir: m.export_dir,
                phase: SinglePhaseModel::Listing,
            },
            rest,
        ),
        single_run_end(m, success_events(deps.len() - next) + rest) == single_run_end(
            SingleRunModel {
                buf_dir: m.buf_dir,
                export_dir: m.export_dir,
                phase: SinglePhaseModel::Listing,
            },
            rest,
        ),
    decreases deps.len() - next,
{
    let k = deps.len() - next;
    let evs = success_events(k) + rest;
    assert(evs[0] == EventModel::DepExported { failure: None });
    assert(evs.drop_first() =~= success_events(k - 1) + rest);
    let step = single_step_model(m, evs[0]);
    let ml = SingleRunModel {
        buf_dir: m.buf_dir,
        export_dir: m.export_dir,
        phase: SinglePhaseModel::Listing,
    };
    if next + 1 < deps.len() {
        let m2 = step.0;
        assert(m2.phase == (SinglePhaseModel::Exporting { deps, next: next + 1 }));
        assert(step.1 == Some(CmdModel::Export { dep: deps[next + 1], out_dir: m.export_dir }));
        lemma_single_export_segment(m2, deps, next + 1, rest);
        let inner = Seq::new(
            (deps.len() - next - 2) as nat,
            |i: int| CmdModel::Export { dep: deps[next + 2 + i], out_dir: m.export_dir },
        );
        let whole = Seq::new(
            (deps.len() - next - 1) as nat,
            |i: int| CmdModel::Export { dep: deps[next + 1 + i], out_dir: m.export_dir },
        );
        assert(seq![CmdModel::Export { dep: deps[next + 1], out_dir: m.export_dir }] + (inner
            + seq![CmdModel::LsFiles { path: m.buf_dir }] + single_run_cmds(ml, rest)) =~= whole
            + seq![CmdModel::LsFiles { path: m.buf_dir }] + single_run_cmds(ml, rest));
    } else {
        assert(k == 1);
        assert(step.0 == ml);
        assert(step.1 == Some(CmdModel::LsFiles { path: m.buf_dir }));
        assert(evs.drop_first() =~= rest);
        let whole = Seq::new(
            0 as nat,
            |i: int| CmdModel::Export { dep: deps[next + 1 + i], out_dir: m.export_dir },
        );
        assert(single_run_cmds(m, evs) =~= whole + seq![CmdModel::LsFiles { path: m.buf_dir }]
            + single_run_cmds(ml, rest));
    }
}

/// The events of a single-module run in which every step succeeds: the
/// manifest yields `deps`, each export succeeds, discovery prints `out`, the
/// compiler succeeds, and the staging removal is attempted.
pub open spec fn single_success_trace(deps: Seq<Seq<char>>, out: Seq<char>) -> Seq<EventModel> {
    seq![EventModel::ModuleLoaded { outcome: Ok(deps) }] + success_events(deps.len() as int)
        + seq![
        EventModel::ProtosListed { outcome: Ok(out) },
        EventModel::CompileFinished { failure: None },
        EventModel::Removed,
    ]
}

/// What such a run commands, in order: every export, into the one staging
/// directory, in manifest order; one discovery scoped to the module; one
/// compile, handed the decoded listing and the module-first search paths; and
/// the staging cleanup, though nothing failed.
pub open spec fn single_success_cmds(
    bd: Seq<char>,
    ed: Seq<char>,
    deps: Seq<Seq<char>>,
    out: Seq<char>,
) -> Seq<CmdModel> {
    Seq::new(deps.len(), |i: int| CmdModel::Export { dep: deps[i], out_dir: ed }) + seq![
        CmdModel::LsFiles { path: bd },
        CmdModel::Compile { protos: decode_ls_output(out), search_dirs: seq![bd, ed] },
        CmdModel::Remove { path: ed },
    ]
}

/// A fully successful single-module run performs exactly the documented
/// sequence — exports in manifest order, one discovery, one compile, one
/// unconditional cleanup — and finishes reporting success.
pub proof fn theorem_single_run_success(
    bd: Seq<char>,
    ed: Seq<char>,
    deps: Seq<Seq<char>>,
    out: Seq<char>,
)
    requires
        deps.len() > 0,
    ensures
        single_run_cmds(
            SingleRunModel { buf_dir: bd, export_dir: ed, phase: SinglePhaseModel::Loading },
            single_success_trace(deps, out),
        ) == single_success_cmds(bd, ed, deps, out),
        single_run_end(
            SingleRunModel { buf_dir: bd, export_dir: ed, phase: SinglePhaseModel::Loading },
            single_success_trace(deps, out),
        ).phase == (SinglePhaseModel::Finished { failure: None }),
{
    let m0 = SingleRunModel { buf_dir: bd, export_dir: ed, phase: SinglePhaseModel::Loading };
    let ev0 = EventModel::ModuleLoaded { outcome: Ok(deps) };
    let tail3 = seq![
        EventModel::ProtosListed { outcome: Ok(out) },
        EventModel::CompileFinished { failure: None },
        EventModel::Removed,
    ];
    let full = single_success_trace(deps, out);
    assert(full[0] == ev0);
    assert(full.drop_first() =~= success_events(deps.len() as int) + tail3);

    // the manifest is loaded; the first export is commanded
    let s0 = single_step_model(m0, ev0);
    let m1 = s0.0;
    assert(m1.phase == (SinglePhaseModel::Exporting { deps, next: 0 }));
    assert(s0.1 == Some(CmdModel::Export { dep: deps[0], out_dir: ed }));

    // the remaining exports, then discovery
    lemma_single_export_segment(m1, deps, 0, tail3);
    let ml = SingleRunModel { buf_dir: bd, export_dir: ed, phase: SinglePhaseModel::Listing };

    // discovery, compile, cleanup, finish
    let s1 = single_step_model(ml, tail3[0]);
    let mc = s1.0;
    assert(mc.phase is Compiling);
    assert(s1.1 == Some(
        CmdModel::Compile { protos: decode_ls_output(out), search_dirs: seq![bd, ed] },
    ));
    assert(tail3.drop_first() =~= seq![
        EventModel::CompileFinished { failure: None },
        EventModel::Removed,
    ]);
    let s2 = single_step_model(mc, EventModel::CompileFinished { failure: None });
    let mk = s2.0;
    assert(mk.phase == (SinglePhaseModel::Cleaning { failure: None }));
    assert(s2.1 == Some(CmdModel::Remove { path: ed }));
    assert((seq![EventModel::CompileFinished { failure: None }, EventModel::Removed]).drop_first()
        =~= seq![EventModel::Removed]);
    let s3 = single_step_model(mk, EventModel::Removed);
    assert(s3.0.phase == (SinglePhaseModel::Finished { failure: None }));
    assert(s3.1 is None);
    assert((seq![EventModel::Removed]).drop_first() =~= Seq::<EventModel>::empty());
    assert(single_run_cmds(s3.0, Seq::<EventModel>::empty()) =~= Seq::<CmdModel>::empty());
    assert(single_run_cmds(mk, seq![EventModel::Removed]) =~= Seq::<CmdModel>::empty());
    assert(single_run_cmds(
        mc,
        seq![EventModel::CompileFinished { failure: None }, EventModel::Removed],
    ) =~= seq![CmdModel::Remove { path: ed }]);
    assert(single_run_cmds(ml, tail3) =~= seq![
        CmdModel::Compile { protos: decode_ls_output(out), search_dirs: seq![bd, ed] },
        CmdModel::Remove { path: ed },
    ]);

    // assemble
    let a_rest = Seq::new(
        (deps.len() - 1) as nat,
        |i: int| CmdModel::Export { dep: deps[1 + i], out_dir: ed },
    );
    assert(single_run_cmds(m1, success_events(deps.len() as int) + tail3) == a_rest + seq![
        CmdModel::LsFiles { path: bd },
    ] + single_run_cmds(ml, tail3));
    assert(single_run_cmds(m0, full) =~= seq![CmdModel::Export { dep: deps[0], out_dir: ed }]
        + single_run_cmds(m1, success_events(deps.len() as int) + tail3));
    assert(seq![CmdModel::Export { dep: deps[0], out_dir: ed }] + a_rest =~= Seq::new(
        deps.len(),
        |i: int| CmdModel::Export { dep: deps[i], out_dir: ed },
    ));
    assert(single_run_cmds(m0, full) =~= single_success_cmds(bd, ed, deps, out));

    // the end state: finished, reporting success
    assert(single_run_end(s3.0, Seq::<EventModel>::empty()) == s3.0);
    assert(single_run_end(mk, seq![EventModel::Removed]) == s3.0);
    assert(single_run_end(
        mc,
        seq![EventModel::CompileFinished { failure: None }, EventModel::Removed],
    ) == s3.0);
    assert(single_run_end(ml, tail3) == s3.0);
    assert(single_run_end(m0, full) == s3.0);
}

/// While a member's exports keep succeeding, the run commands them one after
/// the other in manifest order, and after the last it moves past the member.
proof fn lemma_export_segment(
    m: WorkspaceRunModel,
    dirs: Seq<Seq<char>>,
    cur: int,
    deps: Seq<Seq<char>>,
    next: int,
    rest: Seq<EventModel>,
)
    requires
        0 <= cur < dirs.len(),
        0 <= next < deps.len(),
        m.phase == (WorkspacePhaseModel::Exporting { dirs, cur, deps, next }),
    ensures
        workspace_run_cmds(m, success_events(deps.len() - next) + rest) == Seq::new(
            (deps.len() - next - 1) as nat,
            |i: int| CmdModel::Export { dep: deps[next + 1 + i], out_dir: m.export_dir },
        ) + (match workspace_advance_model(m, dirs, cur).1 {
            Some(c) => seq![c],
            None => Seq::<CmdModel>::empty(),
        }) + workspace_run_cmds(workspace_advance_model(m, dirs, cur).0, rest),
        workspace_run_end(m, success_events(deps.len() - next) + rest) == workspace_run_end(
            workspace_advance_model(m, dirs, cur).0,
            rest,
        ),
    decreases deps.len() - next,
{
    let k = deps.len() - next;
    let evs = success_events(k) + rest;
    assert(evs[0] == EventModel::DepExported { failure: None });
    assert(evs.drop_first() =~= success_events(k - 1) + rest);
    let step = workspace_step_model(m, evs[0]);
    if next + 1 < deps.len() {
        let m2 = step.0;
        assert(m2.phase == (WorkspacePhaseModel::Exporting { dirs, cur, deps, next: next + 1 }));
        assert(step.1 == Some(CmdModel::Export { dep: deps[next + 1], out_dir: m.export_dir }));
        lemma_export_segment(m2, dirs, cur, deps, next + 1, rest);
        assert(workspace_advance_model(m2, dirs, cur) == workspace_advance_model(m, dirs, cur));
        let adv = match workspace_advance_model(m, dirs, cur).1 {
            Some(c) => seq![c],
            None => Seq::<CmdModel>::empty(),
        };
        let restcmds = workspace_run_cmds(workspace_advance_model(m, dirs, cur).0, rest);
        let inner = Seq::new(
            (deps.len() - next - 2) as nat,
            |i: int| CmdModel::Export { dep: deps[next + 2 + i], out_dir: m.export_dir },
        );
        assert(workspace_run_cmds(m2, evs.drop_first()) == inner + adv + restcmds);
        let whole = Seq::new(
            (deps.len() - next - 1) as nat,
            |i: int| CmdModel::Export { dep: deps[next + 1 + i], out_dir: m.export_dir },
        );
        assert(seq![CmdModel::Export { dep: deps[next + 1], out_dir: m.export_dir }] + (inner + adv
            + restcmds) =~= whole + adv + restcmds);
    } else {
        assert(k == 1);
        assert(step == workspace_advance_model(m, dirs, cur));
        assert(evs.drop_first() =~= rest);
        let whole = Seq::new(
            0 as nat,
            |i: int| CmdModel::Export { dep: deps[next + 1 + i], out_dir: m.export_dir },
        );
        let adv = match workspace_advance_model(m, dirs, cur).1 {
            Some(c) => seq![c],
            None => Seq::<CmdModel>::empty(),
        };
        let restcmds = workspace_run_cmds(workspace_advance_model(m, dirs, cur).0, rest);
        assert(workspace_run_cmds(m, evs) =~= whole + adv + restcmds);
    }
}

/// The events of a workspace run over members `[a, b]` in which every load
/// and every export of `a` succeeds and `b`'s first export fails with `e`.
pub open spec fn two_member_fail_trace(
    a: Seq<char>,
    b: Seq<char>,
    deps_a: Seq<Seq<char>>,
    deps_b: Seq<Seq<char>>,
    e: ErrModel,
) -> Seq<EventModel> {
    seq![
        EventModel::WorkspaceLoaded { outcome: Ok(seq![a, b]) },
        EventModel::ModuleLoaded { outcome: Ok(deps_a) },
    ] + success_events(deps_a.len() as int) + seq![
        EventModel::ModuleLoaded { outcome: Ok(deps_b) },
        EventModel::DepExported { failure: Some(e) },
    ]
}

/// What such a run commands: `a`'s manifest load, then every one of `a`'s
/// exports in manifest order, then `b`'s manifest load and `b`'s first
/// export, and after the failure nothing but the staging cleanup.
pub open spec fn two_member_fail_cmds(
    ws: Seq<char>,
    ed: Seq<char>,
    a: Seq<char>,
    b: Seq<char>,
    deps_a: Seq<Seq<char>>,
    deps_b: Seq<Seq<char>>,
) -> Seq<CmdModel> {
    seq![CmdModel::LoadModule { path: joined(joined(ws, a), "buf.yaml"@) }] + Seq::new(
        deps_a.len(),
        |i: int| CmdModel::Export { dep: deps_a[i], out_dir: ed },
    ) + seq![
        CmdModel::LoadModule { path: joined(joined(ws, b), "buf.yaml"@) },
        CmdModel::Export { dep: deps_b[0], out_dir: ed },
        CmdModel::Remove { path: ed },
    ]
}

/// For a workspace with members `[a, b]` where `b`'s export fails: every one
/// of `a`'s exports was commanded, in order, before `b` was even loaded; the
/// failing step commands nothing but the removal of the staging directory —
/// no rollback of what `a`'s exports wrote into it — and the run records
/// exactly `b`'s error as its outcome.
pub proof fn theorem_workspace_fail_fast_keeps_earlier_exports(
    ws: Seq<char>,
    ed: Seq<char>,
    a: Seq<char>,
    b: Seq<char>,
    deps_a: Seq<Seq<char>>,
    deps_b: Seq<Seq<char>>,
    e: ErrModel,
)
    requires
        deps_a.len() > 0,
        deps_b.len() > 0,
    ensures
        workspace_run_cmds(
            WorkspaceRunModel { workspace_dir: ws, export_dir: ed, phase: WorkspacePhaseModel::Loading },
            two_member_fail_trace(a, b, deps_a, deps_b, e),
        ) == two_member_fail_cmds(ws, ed, a, b, deps_a, deps_b),
        workspace_run_end(
            WorkspaceRunModel { workspace_dir: ws, export_dir: ed, phase: WorkspacePhaseModel::Loading },
            two_member_fail_trace(a, b, deps_a, deps_b, e),
        ).phase == (WorkspacePhaseModel::Cleaning { failure: Some(e) }),
{
    let m0 = WorkspaceRunModel {
        workspace_dir: ws,
        export_dir: ed,
        phase: WorkspacePhaseModel::Loading,
    };
    let members = seq![a, b];
    let dirs = member_dirs_model(ws, members);
    assert(dirs.len() == 2);
    assert(dirs[0] == joined(ws, a));
    assert(dirs[1] == joined(ws, b));
    let ev0 = EventModel::WorkspaceLoaded { outcome: Ok(members) };
    let ev1 = EventModel::ModuleLoaded { outcome: Ok(deps_a) };
    let evb = EventModel::ModuleLoaded { outcome: Ok(deps_b) };
    let evf = EventModel::DepExported { failure: Some(e) };
    let la = deps_a.len() as int;
    let tail2 = seq![evb, evf];
    let full = two_member_fail_trace(a, b, deps_a, deps_b, e);

    // step 0: the workspace manifest is loaded
    assert(full[0] == ev0);
    let s0 = workspace_step_model(m0, ev0);
    let m1 = s0.0;
    assert(m1.phase == (WorkspacePhaseModel::LoadingMember { dirs, cur: 0 }));
    assert(s0.1 == Some(CmdModel::LoadModule { path: joined(joined(ws, a), "buf.yaml"@) }));
    assert(full.drop_first() =~= seq![ev1] + success_events(la) + tail2);

    // step 1: member a's manifest is loaded; its first export is commanded
    let s1 = workspace_step_model(m1, ev1);
    let m2 = s1.0;
    assert(m2.phase == (WorkspacePhaseModel::Exporting { dirs, cur: 0, deps: deps_a, next: 0 }));
    assert(s1.1 == Some(CmdModel::Export { dep: deps_a[0], out_dir: ed }));
    assert((seq![ev1] + success_events(la) + tail2).drop_first() =~= success_events(la) + tail2);

    // member a's exports all succeed; then member b's manifest is commanded
    lemma_export_segment(m2, dirs, 0, deps_a, 0, tail2);
    let adv = workspace_advance_model(m2, dirs, 0);
    let m3 = adv.0;
    assert(m3.phase == (WorkspacePhaseModel::LoadingMember { dirs, cur: 1 }));
    assert(adv.1 == Some(CmdModel::LoadModule { path: joined(joined(ws, b), "buf.yaml"@) }));

    // member b: load succeeds, its first export is commanded and fails
    assert(tail2[0] == evb);
    let s3 = workspace_step_model(m3, evb);
    let m4 = s3.0;
    assert(m4.phase == (WorkspacePhaseModel::Exporting { dirs, cur: 1, deps: deps_b, next: 0 }));
    assert(s3.1 == Some(CmdModel::Export { dep: deps_b[0], out_dir: ed }));
    assert(tail2.drop_first() =~= seq![evf]);
    let s4 = workspace_step_model(m4, evf);
    assert(s4.0.phase == (WorkspacePhaseModel::Cleaning { failure: Some(e) }));
    assert(s4.1 == Some(CmdModel::Remove { path: ed }));
    assert((seq![evf]).drop_first() =~= Seq::<EventModel>::empty());
    assert(workspace_run_cmds(s4.0, Seq::<EventModel>::empty()) =~= Seq::<CmdModel>::empty());
    assert(workspace_run_cmds(m4, seq![evf]) =~= seq![CmdModel::Remove { path: ed }]);
    assert(workspace_run_cmds(m3, tail2) =~= seq![
        CmdModel::Export { dep: deps_b[0], out_dir: ed },
        CmdModel::Remove { path: ed },
    ]);

    // assemble the whole command sequence
    let a_rest = Seq::new(
        (deps_a.len() - 1) as nat,
        |i: int| CmdModel::Export { dep: deps_a[1 + i], out_dir: ed },
    );
    assert(workspace_run_cmds(m2, success_events(la) + tail2) == a_rest + seq![
        CmdModel::LoadModule { path: joined(joined(ws, b), "buf.yaml"@) },
    ] + workspace_run_cmds(m3, tail2));
    assert(workspace_run_cmds(m1, seq![ev1] + success_events(la) + tail2) =~= seq![
        CmdModel::Export { dep: deps_a[0], out_dir: ed },
    ] + workspace_run_cmds(m2, success_events(la) + tail2));
    assert(workspace_run_cmds(m0, full) =~= seq![
        CmdModel::LoadModule { path: joined(joined(ws, a), "buf.yaml"@) },
    ] + workspace_run_cmds(m1, seq![ev1] + success_events(la) + tail2));
    assert(seq![CmdModel::Export { dep: deps_a[0], out_dir: ed }] + a_rest =~= Seq::new(
        deps_a.len(),
        |i: int| CmdModel::Export { dep: deps_a[i], out_dir: ed },
    ));
    assert(workspace_run_cmds(m0, full) =~= two_member_fail_cmds(ws, ed, a, b, deps_a, deps_b));

    // the end state: cleanup pending, with exactly b's error recorded
    assert(workspace_run_end(s4.0, Seq::<EventModel>::empty()) == s4.0);
    assert(workspace_run_end(m4, seq![evf]) == s4.0);
    assert(workspace_run_end(m3, tail2) == s4.0);
    assert(workspace_run_end(m2, success_events(la) + tail2) == s4.0);
    assert(workspace_run_end(m1, seq![ev1] + success_events(la) + tail2) == s4.0);
    assert(workspace_run_end(m0, full) == s4.0);
}

/// The events of a workspace run over members `[a, b]` in which every step
/// succeeds: each member's manifest yields its dependency list, every export
/// succeeds, discovery prints `out`, the compiler succeeds, and the staging
/// removal is attempted.
pub open spec fn two_member_success_trace(
    a: Seq<char>,
    b: Seq<char>,
    deps_a: Seq<Seq<char>>,
    deps_b: Seq<Seq<char>>,
    out: Seq<char>,
) -> Seq<EventModel> {
    seq![
        EventModel::WorkspaceLoaded { outcome: Ok(seq![a, b]) },
        EventModel::ModuleLoaded { outcome: Ok(deps_a) },
    ] + success_events(deps_a.len() as int) + seq![EventModel::ModuleLoaded { outcome: Ok(deps_b) }]
        + success_events(deps_b.len() as int) + seq![
        EventModel::ProtosListed { outcome: Ok(out) },
        EventModel::CompileFinished { failure: None },
        EventModel::Removed,
    ]
}

/// What such a run commands, in order: each member's manifest load followed
/// by its exports, members and exports both in manifest order, all into the
/// one shared staging directory; one discovery scoped to the workspace as a
/// whole; one compile, handed the decoded listing and the staging-first
/// search paths; and the unconditional staging cleanup.
pub open spec fn two_member_success_cmds(
    ws: Seq<char>,
    ed: Seq<char>,
    a: Seq<char>,
    b: Seq<char>,
    deps_a: Seq<Seq<char>>,
    deps_b: Seq<Seq<char>>,
    out: Seq<char>,
) -> Seq<CmdModel> {
    seq![CmdModel::LoadModule { path: joined(joined(ws, a), "buf.yaml"@) }] + Seq::new(
        deps_a.len(),
        |i: int| CmdModel::Export { dep: deps_a[i], out_dir: ed },
    ) + seq![CmdModel::LoadModule { path: joined(joined(ws, b), "buf.yaml"@) }] + Seq::new(
        deps_b.len(),
        |i: int| CmdModel::Export { dep: deps_b[i], out_dir: ed },
    ) + seq![
        CmdModel::LsFiles { path: ws },
        CmdModel::Compile {
            protos: decode_ls_output(out),
            search_dirs: seq![ed, joined(ws, a), joined(ws, b)],
        },
        CmdModel::Remove { path: ed },
    ]
}

/// A fully successful workspace run performs exactly the documented sequence
/// — members strictly one after the other, one discovery, one compile with
/// the staging directory searched before the members, one unconditional
/// cleanup — and finishes reporting success.
pub proof fn theorem_workspace_run_success(
    ws: Seq<char>,
    ed: Seq<char>,
    a: Seq<char>,
    b: Seq<char>,
    deps_a: Seq<Seq<char>>,
    deps_b: Seq<Seq<char>>,
    out: Seq<char>,
)
    requires
        deps_a.len() > 0,
        deps_b.len() > 0,
    ensures
        workspace_run_cmds(
            WorkspaceRunModel { workspace_dir: ws, export_dir: ed, phase: WorkspacePhaseModel::Loading },
            two_member_success_trace(a, b, deps_a, deps_b, out),
        ) == two_member_success_cmds(ws, ed, a, b, deps_a, deps_b, out),
        workspace_run_end(
            WorkspaceRunModel { workspace_dir: ws, export_dir: ed, phase: WorkspacePhaseModel::Loading },
            two_member_success_trace(a, b, deps_a, deps_b, out),
        ).phase == (WorkspacePhaseModel::Finished { failure: None }),
{
    let m0 = WorkspaceRunModel {
        workspace_dir: ws,
        export_dir: ed,
        phase: WorkspacePhaseModel::Loading,
    };
    let members = seq![a, b];
    let dirs = member_dirs_model(ws, members);
    assert(dirs.len() == 2);
    assert(dirs[0] == joined(ws, a));
    assert(dirs[1] == joined(ws, b));
    let ev0 = EventModel::WorkspaceLoaded { outcome: Ok(members) };
    let ev1 = EventModel::ModuleLoaded { outcome: Ok(deps_a) };
    let evb = EventModel::ModuleLoaded { outcome: Ok(deps_b) };
    let la = deps_a.len() as int;
    let lb = deps_b.len() as int;
    let tail3 = seq![
        EventModel::ProtosListed { outcome: Ok(out) },
        EventModel::CompileFinished { failure: None },
        EventModel::Removed,
    ];
    let full = two_member_success_trace(a, b, deps_a, deps_b, out);
    let rest_b = success_events(lb) + tail3;
    let rest_a = seq![evb] + rest_b;

    // the workspace manifest is loaded; member a's manifest is commanded
    assert(full[0] == ev0);
    let s0 = workspace_step_model(m0, ev0);
    let m1 = s0.0;
    assert(m1.phase == (WorkspacePhaseModel::LoadingMember { dirs, cur: 0 }));
    assert(s0.1 == Some(CmdModel::LoadModule { path: joined(joined(ws, a), "buf.yaml"@) }));
    assert(full.drop_first() =~= seq![ev1] + success_events(la) + rest_a);

    // member a is loaded; its exports run in order, then member b is loaded
    let s1 = workspace_step_model(m1, ev1);
    let m2 = s1.0;
    assert(m2.phase == (WorkspacePhaseModel::Exporting { dirs, cur: 0, deps: deps_a, next: 0 }));
    assert(s1.1 == Some(CmdModel::Export { dep: deps_a[0], out_dir: ed }));
    assert((seq![ev1] + success_events(la) + rest_a).drop_first() =~= success_events(la) + rest_a);
    lemma_export_segment(m2, dirs, 0, deps_a, 0, rest_a);
    let adv_a = workspace_advance_model(m2, dirs, 0);
    let m3 = adv_a.0;
    assert(m3.phase == (WorkspacePhaseModel::LoadingMember { dirs, cur: 1 }));
    assert(adv_a.1 == Some(CmdModel::LoadModule { path: joined(joined(ws, b), "buf.yaml"@) }));

    // member b is loaded; its exports run in order, then discovery
    assert(rest_a[0] == evb);
    assert(rest_a.drop_first() =~= rest_b);
    let s3 = workspace_step_model(m3, evb);
    let m4 = s3.0;
    assert(m4.phase == (WorkspacePhaseModel::Exporting { dirs, cur: 1, deps: deps_b, next: 0 }));
    assert(s3.1 == Some(CmdModel::Export { dep: deps_b[0], out_dir: ed }));
    lemma_export_segment(m4, dirs, 1, deps_b, 0, tail3);
    let adv_b = workspace_advance_model(m4, dirs, 1);
    let m5 = adv_b.0;
    assert(m5.phase == (WorkspacePhaseModel::Listing { dirs }));
    assert(adv_b.1 == Some(CmdModel::LsFiles { path: ws }));

    // discovery, compile, cleanup, finish
    let s5 = workspace_step_model(m5, tail3[0]);
    let m6 = s5.0;
    assert(m6.phase is Compiling);
    assert(seq![ed] + dirs =~= seq![ed, joined(ws, a), joined(ws, b)]);
    assert(s5.1 == Some(
        CmdModel::Compile {
            protos: decode_ls_output(out),
            search_dirs: seq![ed, joined(ws, a), joined(ws, b)],
        },
    ));
    assert(tail3.drop_first() =~= seq![
        EventModel::CompileFinished { failure: None },
        EventModel::Removed,
    ]);
    let s6 = workspace_step_model(m6, EventModel::CompileFinished { failure: None });
    let m7 = s6.0;
    assert(m7.phase == (WorkspacePhaseModel::Cleaning { failure: None }));
    assert(s6.1 == Some(CmdModel::Remove { path: ed }));
    assert((seq![EventModel::CompileFinished { failure: None }, EventModel::Removed]).drop_first()
        =~= seq![EventModel::Removed]);
    let s7 = workspace_step_model(m7, EventModel::Removed);
    assert(s7.0.phase == (WorkspacePhaseModel::Finished { failure: None }));
    assert(s7.1 is None);
    assert((seq![EventModel::Removed]).drop_first() =~= Seq::<EventModel>::empty());
    assert(workspace_run_cmds(s7.0, Seq::<EventModel>::empty()) =~= Seq::<CmdModel>::empty());
    assert(workspace_run_cmds(m7, seq![EventModel::Removed]) =~= Seq::<CmdModel>::empty());
    assert(workspace_run_cmds(
        m6,
        seq![EventModel::CompileFinished { failure: None }, EventModel::Removed],
    ) =~= seq![CmdModel::Remove { path: ed }]);
    assert(workspace_run_cmds(m5, tail3) =~= seq![
        CmdModel::Compile {
            protos: decode_ls_output(out),
            search_dirs: seq![ed, joined(ws, a), joined(ws, b)],
        },
        CmdModel::Remove { path: ed },
    ]);

    // assemble the whole command sequence
    let a_rest = Seq::new(
        (deps_a.len() - 1) as nat,
        |i: int| CmdModel::Export { dep: deps_a[1 + i], out_dir: ed },
    );
    let b_rest = Seq::new(
        (deps_b.len() - 1) as nat,
        |i: int| CmdModel::Export { dep: deps_b[1 + i], out_dir: ed },
    );
    assert(workspace_run_cmds(m4, success_events(lb) + tail3) == b_rest + seq![
        CmdModel::LsFiles { path: ws },
    ] + workspace_run_cmds(m5, tail3));
    assert(workspace_run_cmds(m3, rest_a) =~= seq![CmdModel::Export { dep: deps_b[0], out_dir: ed }]
        + workspace_run_cmds(m4, success_events(lb) + tail3));
    assert(workspace_run_cmds(m2, success_events(la) + rest_a) == a_rest + seq![
        CmdModel::LoadModule { path: joined(joined(ws, b), "buf.yaml"@) },
    ] + workspace_run_cmds(m3, rest_a));
    assert(workspace_run_cmds(m1, seq![ev1] + success_events(la) + rest_a) =~= seq![
        CmdModel::Export { dep: deps_a[0], out_dir: ed },
    ] + workspace_run_cmds(m2, success_events(la) + rest_a));
    assert(workspace_run_cmds(m0, full) =~= seq![
        CmdModel::LoadModule { path: joined(joined(ws, a), "buf.yaml"@) },
    ] + workspace_run_cmds(m1, seq![ev1] + success_events(la) + rest_a));
    assert(seq![CmdModel::Export { dep: deps_a[0], out_dir: ed }] + a_rest =~= Seq::new(
        deps_a.len(),
        |i: int| CmdModel::Export { dep: deps_a[i], out_dir: ed },
    ));
    assert(seq![CmdModel::Export { dep: deps_b[0], out_dir: ed }] + b_rest =~= Seq::new(
        deps_b.len(),
        |i: int| CmdModel::Export { dep: deps_b[i], out_dir: ed },
    ));
    assert(workspace_run_cmds(m0, full) =~= two_member_success_cmds(
        ws,
        ed,
        a,
        b,
        deps_a,
        deps_b,
        out,
    ));

    // the end state: finished, reporting success
    assert(workspace_run_end(s7.0, Seq::<EventModel>::empty()) == s7.0);
    assert(workspace_run_end(m7, seq![EventModel::Removed]) == s7.0);
    assert(workspace_run_end(
        m6,
        seq![EventModel::CompileFinished { failure: None }, EventModel::Removed],
    ) == s7.0);
    assert(workspace_run_end(m5, tail3) == s7.0);
    assert(workspace_run_end(m4, success_events(lb) + tail3) == s7.0);
    assert(workspace_run_end(m3, rest_a) == s7.0);
    assert(workspace_run_end(m2, success_events(la) + rest_a) == s7.0);
    assert(workspace_run_end(m1, seq![ev1] + success_events(la) + rest_a) == s7.0);
    assert(workspace_run_end(m0, full) == s7.0);
}

pub proof fn lemma_workspace_removal_never_surfaced(
    m: WorkspaceRunModel,
    failure: Option<ErrModel>,
)
    requires
        m.phase == (WorkspacePhaseModel::Cleaning { failure }),
    ensures
        workspace_step_model(m, EventModel::Removed).0.phase == (WorkspacePhaseModel::Finished {
            failure,
        }),
        workspace_step_model(m, EventModel::Removed).1 is None,
{
}

} // verus!
