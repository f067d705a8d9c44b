//! The pipeline itself, as a step machine. A run owns a freshly named staging
//! directory, and proceeds by exchanging commands and events with a thin
//! driver: every step consumes the event reporting how the last command went
//! and decides the next command. Commands are performed by the driver (file
//! reads, subprocess invocations, the downstream compiler); every decision —
//! order of exports, fail-fast on the first failure, unconditional cleanup of
//! the staging directory on every exit path — is made and verified here.
//!
//! Each step is specified against a mathematical model of the machine
//! (`single_step_model`, `workspace_step_model`), so that properties of whole
//! runs can be stated and proved over traces of events.
use vstd::prelude::*;
use vstd::pervasive::unreached;
use crate::discovery::decode_ls_files;
use crate::discovery::decode_ls_output;
use crate::error::ErrModel;
use crate::error::TonicBufBuildError;
use crate::manifest::BufWorkYaml;
use crate::manifest::BufYaml;
use crate::paths::for_single_module;
use crate::paths::for_workspace;
use crate::paths::join_path;
use crate::paths::joined;

verus! {

// ---------------------------------------------------------------------------
// Commands and events, with their models
// ---------------------------------------------------------------------------
/// The model of a command: what the driver is asked to do next.
pub enum CmdModel {
    /// Read and parse the module manifest at `path`.
    LoadModule { path: Seq<char> },
    /// Read and parse the workspace manifest at `path`.
    LoadWorkspace { path: Seq<char> },
    /// Invoke the outside export operation for `dep`, writing into `out_dir`.
    Export { dep: Seq<char>, out_dir: Seq<char> },
    /// Invoke the outside listing operation scoped to `path`.
    LsFiles { path: Seq<char> },
    /// Hand the discovered files and the ordered search paths to the
    /// downstream compiler.
    Compile { protos: Seq<Seq<char>>, search_dirs: Seq<Seq<char>> },
    /// Attempt to remove the staging directory; failure is never surfaced.
    Remove { path: Seq<char> },
}

/// A command for the driver.
pub enum Command {
    LoadModule { path: String },
    LoadWorkspace { path: String },
    Export { dep: String, out_dir: String },
    LsFiles { path: String },
    Compile { protos: Vec<String>, search_dirs: Vec<String> },
    Remove { path: String },
}

impl View for Command {
    type V = CmdModel;

    open spec fn view(&self) -> CmdModel {
        match self {
            Command::LoadModule { path } => CmdModel::LoadModule { path: path@ },
            Command::LoadWorkspace { path } => CmdModel::LoadWorkspace { path: path@ },
            Command::Export { dep, out_dir } => CmdModel::Export { dep: dep@, out_dir: out_dir@ },
            Command::LsFiles { path } => CmdModel::LsFiles { path: path@ },
            Command::Compile { protos, search_dirs } => CmdModel::Compile {
                protos: protos.deep_view(),
                search_dirs: search_dirs.deep_view(),
            },
            Command::Remove { path } => CmdModel::Remove { path: path@ },
        }
    }
}

pub open spec fn opt_cmd_model(c: Option<Command>) -> Option<CmdModel> {
    match c {
        Some(c) => Some(c@),
        None => None,
    }
}

pub open spec fn opt_err_model(e: Option<TonicBufBuildError>) -> Option<ErrModel> {
    match e {
        Some(e) => Some(e@),
        None => None,
    }
}

/// The model of an event: how the last command went.
pub enum EventModel {
    /// The module manifest was loaded (`Ok` holds its normalized dependency
    /// list), or could not be read or parsed.
    ModuleLoaded { outcome: Result<Seq<Seq<char>>, ErrModel> },
    /// The workspace manifest was loaded (`Ok` holds its member directories).
    WorkspaceLoaded { outcome: Result<Seq<Seq<char>>, ErrModel> },
    /// One export operation finished; `None` is success.
    DepExported { failure: Option<ErrModel> },
    /// The listing operation finished; `Ok` holds its raw decoded text.
    ProtosListed { outcome: Result<Seq<char>, ErrModel> },
    /// The downstream compiler finished; `Some` holds the cause text.
    CompileFinished { failure: Option<Seq<char>> },
    /// Removal of the staging directory was attempted; its result is
    /// deliberately not reported.
    Removed,
}

/// An event the driver reports back.
pub enum Event {
    ModuleLoaded { outcome: Result<BufYaml, TonicBufBuildError> },
    WorkspaceLoaded { outcome: Result<BufWorkYaml, TonicBufBuildError> },
    DepExported { failure: Option<TonicBufBuildError> },
    ProtosListed { outcome: Result<String, TonicBufBuildError> },
    CompileFinished { failure: Option<String> },
    Removed,
}

impl View for Event {
    type V = EventModel;

    open spec fn view(&self) -> EventModel {
        match self {
            Event::ModuleLoaded { outcome } => EventModel::ModuleLoaded {
                outcome: match outcome {
                    Ok(b) => Ok(b@),
                    Err(e) => Err(e@),
                },
            },
            Event::WorkspaceLoaded { outcome } => EventModel::WorkspaceLoaded {
                outcome: match outcome {
                    Ok(w) => Ok(w@),
                    Err(e) => Err(e@),
                },
            },
            Event::DepExported { failure } => EventModel::DepExported {
                failure: match failure {
                    Some(e) => Some(e@),
                    None => None,
                },
            },
            Event::ProtosListed { outcome } => EventModel::ProtosListed {
                outcome: match outcome {
                    Ok(s) => Ok(s@),
                    Err(e) => Err(e@),
                },
            },
            Event::CompileFinished { failure } => EventModel::CompileFinished {
                failure: match failure {
                    Some(s) => Some(s@),
                    None => None,
                },
            },
            Event::Removed => EventModel::Removed,
        }
    }
}

// ---------------------------------------------------------------------------
// The single-module machine
// ---------------------------------------------------------------------------
/// The model of a single-module run's phase.
pub enum SinglePhaseModel {
    Loading,
    Exporting { deps: Seq<Seq<char>>, next: int },
    Listing,
    Compiling,
    Cleaning { failure: Option<ErrModel> },
    Finished { failure: Option<ErrModel> },
}

/// The model of a single-module run.
pub struct SingleRunModel {
    pub buf_dir: Seq<char>,
    pub export_dir: Seq<char>,
    pub phase: SinglePhaseModel,
}

/// The phase of a single-module run.
pub enum SinglePhase {
    Loading,
    Exporting { deps: Vec<String>, next: usize },
    Listing,
    Compiling,
    Cleaning { failure: Option<TonicBufBuildError> },
    Finished { failure: Option<TonicBufBuildError> },
}

/// A single-module run: the module directory, the staging directory this run
/// exclusively owns, and the phase reached so far.
pub struct SingleModuleRun {
    pub buf_dir: String,
    pub export_dir: String,
    pub phase: SinglePhase,
}

impl View for SinglePhase {
    type V = SinglePhaseModel;

    open spec fn view(&self) -> SinglePhaseModel {
        match self {
            SinglePhase::Loading => SinglePhaseModel::Loading,
            SinglePhase::Exporting { deps, next } => SinglePhaseModel::Exporting {
                deps: deps.deep_view(),
                next: *next as int,
            },
            SinglePhase::Listing => SinglePhaseModel::Listing,
            SinglePhase::Compiling => SinglePhaseModel::Compiling,
            SinglePhase::Cleaning { failure } => SinglePhaseModel::Cleaning {
                failure: match failure {
                    Some(e) => Some(e@),
                    None => None,
                },
            },
            SinglePhase::Finished { failure } => SinglePhaseModel::Finished {
                failure: match failure {
                    Some(e) => Some(e@),
                    None => None,
                },
            },
        }
    }
}

impl View for SingleModuleRun {
    type V = SingleRunModel;

    open spec fn view(&self) -> SingleRunModel {
        SingleRunModel { buf_dir: self.buf_dir@, export_dir: self.export_dir@, phase: self.phase@ }
    }
}

/// Well-formedness: a pending export always points at a dependency.
pub open spec fn single_wf(m: SingleRunModel) -> bool {
    m.phase matches SinglePhaseModel::Exporting { deps, next } ==> 0 <= next < deps.len()
}

/// Which event each phase awaits: exactly the report on the command the
/// machine issued last.
pub open spec fn single_fits(m: SingleRunModel, ev: EventModel) -> bool {
    match ev {
        EventModel::ModuleLoaded { .. } => m.phase is Loading,
        EventModel::WorkspaceLoaded { .. } => false,
        EventModel::DepExported { .. } => m.phase is Exporting,
        EventModel::ProtosListed { .. } => m.phase is Listing,
        EventModel::CompileFinished { .. } => m.phase is Compiling,
        EventModel::Removed => m.phase is Cleaning,
    }
}

/// Entering cleanup: whatever happened, the one staging directory of this
/// run is to be removed, and the failure (if any) is recorded unchanged.
pub open spec fn single_cleanup_model(m: SingleRunModel, failure: Option<ErrModel>) -> (
    SingleRunModel,
    Option<CmdModel>,
) {
    (
        SingleRunModel {
            buf_dir: m.buf_dir,
            export_dir: m.export_dir,
            phase: SinglePhaseModel::Cleaning { failure },
        },
        Some(CmdModel::Remove { path: m.export_dir }),
    )
}

/// The single-module step relation: from the phase reached so far and the
/// event reporting on the last command, the next phase and the next command.
/// Failures abort the remainder of the run immediately: the only command
/// issued after one is the staging-directory cleanup.
pub open spec fn single_step_model(m: SingleRunModel, ev: EventModel) -> (
    SingleRunModel,
    Option<CmdModel>,
) {
    match ev {
        EventModel::ModuleLoaded { outcome } => match outcome {
            Ok(deps) => if deps.len() == 0 {
                (
                    SingleRunModel {
                        buf_dir: m.buf_dir,
                        export_dir: m.export_dir,
                        phase: SinglePhaseModel::Listing,
                    },
                    Some(CmdModel::LsFiles { path: m.buf_dir }),
                )
            } else {
                (
                    SingleRunModel {
                        buf_dir: m.buf_dir,
                        export_dir: m.export_dir,
                        phase: SinglePhaseModel::Exporting { deps, next: 0 },
                    },
                    Some(CmdModel::Export { dep: deps[0], out_dir: m.export_dir }),
                )
            },
            Err(e) => single_cleanup_model(m, Some(e)),
        },
        EventModel::WorkspaceLoaded { .. } => (m, None),
        EventModel::DepExported { failure } => match m.phase {
            SinglePhaseModel::Exporting { deps, next } => match failure {
                Some(e) => single_cleanup_model(m, Some(e)),
                None => if next + 1 < deps.len() {
                    (
                        SingleRunModel {
                            buf_dir: m.buf_dir,
                            export_dir: m.export_dir,
                            phase: SinglePhaseModel::Exporting { deps, next: next + 1 },
                        },
                        Some(CmdModel::Export { dep: deps[next + 1], out_dir: m.export_dir }),
                    )
                } else {
                    (
                        SingleRunModel {
                            buf_dir: m.buf_dir,
                            export_dir: m.export_dir,
                            phase: SinglePhaseModel::Listing,
                        },
                        Some(CmdModel::LsFiles { path: m.buf_dir }),
                    )
                },
            },
            _ => (m, None),
        },
        EventModel::ProtosListed { outcome } => match outcome {
            Ok(out) => (
                SingleRunModel {
                    buf_dir: m.buf_dir,
                    export_dir: m.export_dir,
                    phase: SinglePhaseModel::Compiling,
                },
                Some(
                    CmdModel::Compile {
                        protos: decode_ls_output(out),
                        search_dirs: seq![m.buf_dir, m.export_dir],
                    },
                ),
            ),
            Err(e) => single_cleanup_model(m, Some(e)),
        },
        EventModel::CompileFinished { failure } => match failure {
            Some(cause) => single_cleanup_model(
                m,
                Some(ErrModel { message: "error running tonic build"@, cause: Some(cause) }),
            ),
            None => single_cleanup_model(m, None),
        },
        EventModel::Removed => match m.phase {
            SinglePhaseModel::Cleaning { failure } => (
                SingleRunModel {
                    buf_dir: m.buf_dir,
                    export_dir: m.export_dir,
                    phase: SinglePhaseModel::Finished { failure },
                },
                None,
            ),
            _ => (m, None),
        },
    }
}

/// Begins a single-module run: the first command loads the module manifest
/// that lies in the module directory.
pub fn start_single_module(buf_dir: String, export_dir: String) -> (r: (SingleModuleRun, Command))
    ensures
        r.0@ == (SingleRunModel {
            buf_dir: buf_dir@,
            export_dir: export_dir@,
            phase: SinglePhaseModel::Loading,
        }),
        single_wf(r.0@),
        r.1@ == (CmdModel::LoadModule { path: joined(buf_dir@, "buf.yaml"@) }),
{
    let path = join_path(buf_dir.as_str(), "buf.yaml");
    (
        SingleModuleRun { buf_dir, export_dir, phase: SinglePhase::Loading },
        Command::LoadModule { path },
    )
}

fn single_cleanup(buf_dir: String, export_dir: String, failure: Option<TonicBufBuildError>) -> (r:
    (SingleModuleRun, Option<Command>))
    ensures
        (r.0@, opt_cmd_model(r.1)) == single_cleanup_model(
            SingleRunModel { buf_dir: buf_dir@, export_dir: export_dir@, phase: SinglePhaseModel::Loading },
            opt_err_model(failure),
        ),
{
    let path = export_dir.clone();
    (
        SingleModuleRun { buf_dir, export_dir, phase: SinglePhase::Cleaning { failure } },
        Some(Command::Remove { path }),
    )
}

/// One step of a single-module run: consumes the event reporting on the last
/// command and returns the run with its new phase, and the next command, if
/// any. The result is exactly what the model `single_step_model` says.
pub fn single_step(run: SingleModuleRun, ev: Event) -> (r: (SingleModuleRun, Option<Command>))
    requires
        single_wf(run@),
        single_fits(run@, ev@),
    ensures
        r.0@ == single_step_model(run@, ev@).0,
        opt_cmd_model(r.1) == single_step_model(run@, ev@).1,
        single_wf(r.0@),
{
    let SingleModuleRun { buf_dir, export_dir, phase } = run;
    match ev {
        Event::ModuleLoaded { outcome } => match outcome {
            Ok(b) => {
                if b.deps.len() == 0 {
                    let cmd = Command::LsFiles { path: buf_dir.clone() };
                    (
                        SingleModuleRun { buf_dir, export_dir, phase: SinglePhase::Listing },
                        Some(cmd),
                    )
                } else {
                    let dep = b.deps[0].clone();
                    let cmd = Command::Export { dep, out_dir: export_dir.clone() };
                    (
                        SingleModuleRun {
                            buf_dir,
                            export_dir,
                            phase: SinglePhase::Exporting { deps: b.deps, next: 0 },
                        },
                        Some(cmd),
                    )
                }
            },
            Err(e) => single_cleanup(buf_dir, export_dir, Some(e)),
        },
        Event::WorkspaceLoaded { .. } => unreached(),
        Event::DepExported { failure } => match phase {
            SinglePhase::Exporting { deps, next } => match failure {
                Some(e) => single_cleanup(buf_dir, export_dir, Some(e)),
                None => {
                    let len = deps.len();
                    proof {
                        assert(deps.deep_view().len() == deps@.len());
                        assert((next as int) < deps.deep_view().len());
                        assert(next < len);
                    }
                    if next + 1 < len {
                        let dep = deps[next + 1].clone();
                        let cmd = Command::Export { dep, out_dir: export_dir.clone() };
                        (
                            SingleModuleRun {
                                buf_dir,
                                export_dir,
                                phase: SinglePhase::Exporting { deps, next: next + 1 },
                            },
                            Some(cmd),
                        )
                    } else {
                        let cmd = Command::LsFiles { path: buf_dir.clone() };
                        (
                            SingleModuleRun { buf_dir, export_dir, phase: SinglePhase::Listing },
                            Some(cmd),
                        )
                    }
                },
            },
            _ => unreached(),
        },
        Event::ProtosListed { outcome } => match outcome {
            Ok(out) => {
                let protos = decode_ls_files(out.as_str());
                let search_dirs = for_single_module(buf_dir.as_str(), export_dir.as_str());
                let cmd = Command::Compile { protos, search_dirs };
                (SingleModuleRun { buf_dir, export_dir, phase: SinglePhase::Compiling }, Some(cmd))
            },
            Err(e) => single_cleanup(buf_dir, export_dir, Some(e)),
        },
        Event::CompileFinished { failure } => match failure {
            Some(cause) => {
                let e = TonicBufBuildError::new("error running tonic build", cause.as_str());
                single_cleanup(buf_dir, export_dir, Some(e))
            },
            None => single_cleanup(buf_dir, export_dir, None),
        },
        Event::Removed => match phase {
            SinglePhase::Cleaning { failure } => (
                SingleModuleRun { buf_dir, export_dir, phase: SinglePhase::Finished { failure } },
                None,
            ),
            _ => unreached(),
        },
    }
}

/// The outcome of a finished run: success, or the first error encountered.
/// Whether the staging directory's removal succeeded plays no part.
pub fn single_result(run: SingleModuleRun) -> (r: Result<(), TonicBufBuildError>)
    requires
        run@.phase is Finished,
    ensures
        run@.phase matches SinglePhaseModel::Finished { failure } ==> match r {
            Ok(_) => failure is None,
            Err(e) => failure == Some(e@),
        },
{
    match run.phase {
        SinglePhase::Finished { failure } => match failure {
            None => Ok(()),
            Some(e) => Err(e),
        },
        _ => unreached(),
    }
}

// ---------------------------------------------------------------------------
// The workspace machine
// ---------------------------------------------------------------------------
/// The directory of each workspace member, in manifest-declared order: the
/// member's relative path joined below the workspace directory.
pub open spec fn member_dirs_model(workspace_dir: Seq<char>, members: Seq<Seq<char>>) -> Seq<
    Seq<char>,
> {
    Seq::new(members.len(), |i: int| joined(workspace_dir, members[i]))
}

/// Computes, in manifest-declared order, the directory of each member the
/// workspace export pass visits. The pass itself — loading each member's
/// module manifest and exporting its dependencies into the one shared staging
/// directory — is driven step by step by the workspace run.
pub fn export_all_from_workspace(buf_work: &BufWorkYaml, workspace_dir: &str) -> (dirs: Vec<String>)
    ensures
        dirs.deep_view() == member_dirs_model(workspace_dir@, buf_work@),
{
    let mut dirs: Vec<String> = Vec::new();
    let mut i: usize = 0;
    while i < buf_work.directories.len()
        invariant
            0 <= i <= buf_work.directories@.len(),
            dirs.deep_view() == member_dirs_model(workspace_dir@, buf_work@).take(i as int),
        decreases buf_work.directories@.len() - i,
    {
        let ghost old_dv = dirs.deep_view();
        let ghost old_rv = dirs@;
        let d = join_path(workspace_dir, buf_work.directories[i].as_str());
        dirs.push(d);
        proof {
            let whole = member_dirs_model(workspace_dir@, buf_work@);
            let target = whole.take(i as int + 1);
            assert(whole.len() == buf_work.directories@.len());
            assert(old_dv.len() == i as int);
            assert(old_dv.len() == old_rv.len());
            assert forall|k: int| 0 <= k < dirs.deep_view().len() implies dirs.deep_view()[k]
                == target[k] by {
                assert(dirs.deep_view()[k] == dirs@[k].deep_view());
                if k < old_rv.len() {
                    assert(dirs@[k] == old_rv[k]);
                    assert(old_dv[k] == old_rv[k].deep_view());
                    assert(old_dv[k] == whole.take(i as int)[k]);
                } else {
                    assert(k == i as int);
                    assert(dirs@[k].deep_view() == joined(workspace_dir@, buf_work@[i as int]));
                    assert(target[k] == whole[i as int]);
                }
            }
            assert(dirs.deep_view() =~= target);
        }
        i = i + 1;
    }
    proof {
        assert(member_dirs_model(workspace_dir@, buf_work@).take(buf_work.directories@.len() as int)
            =~= member_dirs_model(workspace_dir@, buf_work@));
    }
    dirs
}

/// The model of a workspace run's phase.
pub enum WorkspacePhaseModel {
    Loading,
    LoadingMember { dirs: Seq<Seq<char>>, cur: int },
    Exporting { dirs: Seq<Seq<char>>, cur: int, deps: Seq<Seq<char>>, next: int },
    Listing { dirs: Seq<Seq<char>> },
    Compiling,
    Cleaning { failure: Option<ErrModel> },
    Finished { failure: Option<ErrModel> },
}

/// The model of a workspace run.
pub struct WorkspaceRunModel {
    pub workspace_dir: Seq<char>,
    pub export_dir: Seq<char>,
    pub phase: WorkspacePhaseModel,
}

/// The phase of a workspace run.
pub enum WorkspacePhase {
    Loading,
    LoadingMember { dirs: Vec<String>, cur: usize },
    Exporting { dirs: Vec<String>, cur: usize, deps: Vec<String>, next: usize },
    Listing { dirs: Vec<String> },
    Compiling,
    Cleaning { failure: Option<TonicBufBuildError> },
    Finished { failure: Option<TonicBufBuildError> },
}

/// A workspace run: the workspace directory, the one staging directory all
/// member exports share, and the phase reached so far.
pub struct WorkspaceRun {
    pub workspace_dir: String,
    pub export_dir: String,
    pub phase: WorkspacePhase,
}

impl View for WorkspacePhase {
    type V = WorkspacePhaseModel;

    open spec fn view(&self) -> WorkspacePhaseModel {
        match self {
            WorkspacePhase::Loading => WorkspacePhaseModel::Loading,
            WorkspacePhase::LoadingMember { dirs, cur } => WorkspacePhaseModel::LoadingMember {
                dirs: dirs.deep_view(),
                cur: *cur as int,
            },
            WorkspacePhase::Exporting { dirs, cur, deps, next } => WorkspacePhaseModel::Exporting {
                dirs: dirs.deep_view(),
                cur: *cur as int,
                deps: deps.deep_view(),
                next: *next as int,
            },
            WorkspacePhase::Listing { dirs } => WorkspacePhaseModel::Listing {
                dirs: dirs.deep_view(),
            },
            WorkspacePhase::Compiling => WorkspacePhaseModel::Compiling,
            WorkspacePhase::Cleaning { failure } => WorkspacePhaseModel::Cleaning {
                failure: match failure {
                    Some(e) => Some(e@),
                    None => None,
                },
            },
            WorkspacePhase::Finished { failure } => WorkspacePhaseModel::Finished {
                failure: match failure {
                    Some(e) => Some(e@),
                    None => None,
                },
            },
        }
    }
}

impl View for WorkspaceRun {
    type V = WorkspaceRunModel;

    open spec fn view(&self) -> WorkspaceRunModel {
        WorkspaceRunModel {
            workspace_dir: self.workspace_dir@,
            export_dir: self.export_dir@,
            phase: self.phase@,
        }
    }
}

/// Well-formedness: a member or export in progress always points at one.
pub open spec fn workspace_wf(m: WorkspaceRunModel) -> bool {
    &&& m.phase matches WorkspacePhaseModel::LoadingMember { dirs, cur } ==> 0 <= cur < dirs.len()
    &&& m.phase matches WorkspacePhaseModel::Exporting { dirs, cur, deps, next } ==> 0 <= cur
        < dirs.len() && 0 <= next < deps.len()
}

/// Which event each phase awaits.
pub open spec fn workspace_fits(m: WorkspaceRunModel, ev: EventModel) -> bool {
    match ev {
        EventModel::ModuleLoaded { .. } => m.phase is LoadingMember,
        EventModel::WorkspaceLoaded { .. } => m.phase is Loading,
        EventModel::DepExported { .. } => m.phase is Exporting,
        EventModel::ProtosListed { .. } => m.phase is Listing,
        EventModel::CompileFinished { .. } => m.phase is Compiling,
        EventModel::Removed => m.phase is Cleaning,
    }
}

/// Entering cleanup, as in a single-module run.
pub open spec fn workspace_cleanup_model(m: WorkspaceRunModel, failure: Option<ErrModel>) -> (
    WorkspaceRunModel,
    Option<CmdModel>,
) {
    (
        WorkspaceRunModel {
            workspace_dir: m.workspace_dir,
            export_dir: m.export_dir,
            phase: WorkspacePhaseModel::Cleaning { failure },
        },
        Some(CmdModel::Remove { path: m.export_dir }),
    )
}

/// Moving past a fully processed member: to the next member's manifest, or,
/// after the last, to discovery — which is performed once, scoped to the
/// workspace directory as a whole.
pub open spec fn workspace_advance_model(
    m: WorkspaceRunModel,
    dirs: Seq<Seq<char>>,
    cur: int,
) -> (WorkspaceRunModel, Option<CmdModel>) {
    if cur + 1 < dirs.len() {
        (
            WorkspaceRunModel {
                workspace_dir: m.workspace_dir,
                export_dir: m.export_dir,
                phase: WorkspacePhaseModel::LoadingMember { dirs, cur: cur + 1 },
            },
            Some(CmdModel::LoadModule { path: joined(dirs[cur + 1], "buf.yaml"@) }),
        )
    } else {
        (
            WorkspaceRunModel {
                workspace_dir: m.workspace_dir,
                export_dir: m.export_dir,
                phase: WorkspacePhaseModel::Listing { dirs },
            },
            Some(CmdModel::LsFiles { path: m.workspace_dir }),
        )
    }
}

/// The workspace step relation. Members are processed strictly sequentially,
/// in manifest-declared order, each member's dependencies exported into the
/// one shared staging directory; the first failure of any member aborts the
/// remaining members (fail-fast), leaving what was already exported in place
/// — the only command issued after a failure is the staging cleanup.
pub open spec fn workspace_step_model(m: WorkspaceRunModel, ev: EventModel) -> (
    WorkspaceRunModel,
    Option<CmdModel>,
) {
    match ev {
        EventModel::WorkspaceLoaded { outcome } => match outcome {
            Ok(members) => {
                let dirs = member_dirs_model(m.workspace_dir, members);
                if dirs.len() == 0 {
                    (
                        WorkspaceRunModel {
                            workspace_dir: m.workspace_dir,
                            export_dir: m.export_dir,
                            phase: WorkspacePhaseModel::Listing { dirs },
                        },
                        Some(CmdModel::LsFiles { path: m.workspace_dir }),
                    )
                } else {
                    (
                        WorkspaceRunModel {
                            workspace_dir: m.workspace_dir,
                            export_dir: m.export_dir,
                            phase: WorkspacePhaseModel::LoadingMember { dirs, cur: 0 },
                        },
                        Some(CmdModel::LoadModule { path: joined(dirs[0], "buf.yaml"@) }),
                    )
                }
            },
            Err(e) => workspace_cleanup_model(m, Some(e)),
        },
        EventModel::ModuleLoaded { outcome } => match m.phase {
            WorkspacePhaseModel::LoadingMember { dirs, cur } => match outcome {
                Ok(deps) => if deps.len() == 0 {
                    workspace_advance_model(m, dirs, cur)
                } else {
                    (
                        WorkspaceRunModel {
                            workspace_dir: m.workspace_dir,
                            export_dir: m.export_dir,
                            phase: WorkspacePhaseModel::Exporting { dirs, cur, deps, next: 0 },
                        },
                        Some(CmdModel::Export { dep: deps[0], out_dir: m.export_dir }),
                    )
                },
                Err(e) => workspace_cleanup_model(m, Some(e)),
            },
            _ => (m, None),
        },
        EventModel::DepExported { failure } => match m.phase {
            WorkspacePhaseModel::Exporting { dirs, cur, deps, next } => match failure {
                Some(e) => workspace_cleanup_model(m, Some(e)),
                None => if next + 1 < deps.len() {
                    (
                        WorkspaceRunModel {
                            workspace_dir: m.workspace_dir,
                            export_dir: m.export_dir,
                            phase: WorkspacePhaseModel::Exporting {
                                dirs,
                                cur,
                                deps,
                                next: next + 1,
                            },
                        },
                        Some(CmdModel::Export { dep: deps[next + 1], out_dir: m.export_dir }),
                    )
                } else {
                    workspace_advance_model(m, dirs, cur)
                },
            },
            _ => (m, None),
        },
        EventModel::ProtosListed { outcome } => match m.phase {
            WorkspacePhaseModel::Listing { dirs } => match outcome {
                Ok(out) => (
                    WorkspaceRunModel {
                        workspace_dir: m.workspace_dir,
                        export_dir: m.export_dir,
                        phase: WorkspacePhaseModel::Compiling,
                    },
                    Some(
                        CmdModel::Compile {
                            protos: decode_ls_output(out),
                            search_dirs: seq![m.export_dir] + dirs,
                        },
                    ),
                ),
                Err(e) => workspace_cleanup_model(m, Some(e)),
            },
            _ => (m, None),
        },
        EventModel::CompileFinished { failure } => match failure {
            Some(cause) => workspace_cleanup_model(
                m,
                Some(ErrModel { message: "error running tonic build"@, cause: Some(cause) }),
            ),
            None => workspace_cleanup_model(m, None),
        },
        EventModel::Removed => match m.phase {
            WorkspacePhaseModel::Cleaning { failure } => (
                WorkspaceRunModel {
                    workspace_dir: m.workspace_dir,
                    export_dir: m.export_dir,
                    phase: WorkspacePhaseModel::Finished { failure },
                },
                None,
            ),
            _ => (m, None),
        },
    }
}

/// Begins a workspace run: the first command loads the workspace manifest
/// that lies in the workspace directory.
pub fn start_workspace(workspace_dir: String, export_dir: String) -> (r: (WorkspaceRun, Command))
    ensures
        r.0@ == (WorkspaceRunModel {
            workspace_dir: workspace_dir@,
            export_dir: export_dir@,
            phase: WorkspacePhaseModel::Loading,
        }),
        workspace_wf(r.0@),
        r.1@ == (CmdModel::LoadWorkspace { path: joined(workspace_dir@, "buf.work.yaml"@) }),
{
    let path = join_path(workspace_dir.as_str(), "buf.work.yaml");
    (
        WorkspaceRun { workspace_dir, export_dir, phase: WorkspacePhase::Loading },
        Command::LoadWorkspace { path },
    )
}

fn workspace_cleanup(
    workspace_dir: String,
    export_dir: String,
    failure: Option<TonicBufBuildError>,
) -> (r: (WorkspaceRun, Option<Command>))
    ensures
        (r.0@, opt_cmd_model(r.1)) == workspace_cleanup_model(
            WorkspaceRunModel {
                workspace_dir: workspace_dir@,
                export_dir: export_dir@,
                phase: WorkspacePhaseModel::Loading,
            },
            opt_err_model(failure),
        ),
{
    let path = export_dir.clone();
    (
        WorkspaceRun { workspace_dir, export_dir, phase: WorkspacePhase::Cleaning { failure } },
        Some(Command::Remove { path }),
    )
}

fn workspace_advance(
    workspace_dir: String,
    export_dir: String,
    dirs: Vec<String>,
    cur: usize,
) -> (r: (WorkspaceRun, Option<Command>))
    requires
        cur < dirs.deep_view().len(),
    ensures
        (r.0@, opt_cmd_model(r.1)) == workspace_advance_model(
            WorkspaceRunModel {
                workspace_dir: workspace_dir@,
                export_dir: export_dir@,
                phase: WorkspacePhaseModel::Loading,
            },
            dirs.deep_view(),
            cur as int,
        ),
        workspace_wf(r.0@),
{
    let len = dirs.len();
    proof {
        assert(dirs.deep_view().len() == dirs@.len());
    }
    if cur + 1 < len {
        let path = join_path(dirs[cur + 1].as_str(), "buf.yaml");
        (
            WorkspaceRun {
                workspace_dir,
                export_dir,
                phase: WorkspacePhase::LoadingMember { dirs, cur: cur + 1 },
            },
            Some(Command::LoadModule { path }),
        )
    } else {
        let cmd = Command::LsFiles { path: workspace_dir.clone() };
        (
            WorkspaceRun { workspace_dir, export_dir, phase: WorkspacePhase::Listing { dirs } },
            Some(cmd),
        )
    }
}

/// One step of a workspace run, exactly as `workspace_step_model` says.
pub fn workspace_step(run: WorkspaceRun, ev: Event) -> (r: (WorkspaceRun, Option<Command>))
    requires
        workspace_wf(run@),
        workspace_fits(run@, ev@),
    ensures
        r.0@ == workspace_step_model(run@, ev@).0,
        opt_cmd_model(r.1) == workspace_step_model(run@, ev@).1,
        workspace_wf(r.0@),
{
    let WorkspaceRun { workspace_dir, export_dir, phase } = run;
    match ev {
        Event::WorkspaceLoaded { outcome } => match outcome {
            Ok(w) => {
                let dirs = export_all_from_workspace(&w, workspace_dir.as_str());
                if dirs.len() == 0 {
                    let cmd = Command::LsFiles { path: workspace_dir.clone() };
                    (
                        WorkspaceRun {
                            workspace_dir,
                            export_dir,
                            phase: WorkspacePhase::Listing { dirs },
                        },
                        Some(cmd),
                    )
                } else {
                    let path = join_path(dirs[0].as_str(), "buf.yaml");
                    (
                        WorkspaceRun {
                            workspace_dir,
                            export_dir,
                            phase: WorkspacePhase::LoadingMember { dirs, cur: 0 },
                        },
                        Some(Command::LoadModule { path }),
                    )
                }
            },
            Err(e) => workspace_cleanup(workspace_dir, export_dir, Some(e)),
        },
        Event::ModuleLoaded { outcome } => match phase {
            WorkspacePhase::LoadingMember { dirs, cur } => match outcome {
                Ok(b) => {
                    if b.deps.len() == 0 {
                        workspace_advance(workspace_dir, export_dir, dirs, cur)
                    } else {
                        let dep = b.deps[0].clone();
                        let cmd = Command::Export { dep, out_dir: export_dir.clone() };
                        (
                            WorkspaceRun {
                                workspace_dir,
                                export_dir,
                                phase: WorkspacePhase::Exporting {
                                    dirs,
                                    cur,
                                    deps: b.deps,
                                    next: 0,
                                },
                            },
                            Some(cmd),
                        )
                    }
                },
                Err(e) => workspace_cleanup(workspace_dir, export_dir, Some(e)),
            },
            _ => unreached(),
        },
        Event::DepExported { failure } => match phase {
            WorkspacePhase::Exporting { dirs, cur, deps, next } => match failure {
                Some(e) => workspace_cleanup(workspace_dir, export_dir, Some(e)),
                None => {
                    let len = deps.len();
                    proof {
                        assert(deps.deep_view().len() == deps@.len());
                        assert((next as int) < deps.deep_view().len());
                        assert(next < len);
                    }
                    if next + 1 < len {
                        let dep = deps[next + 1].clone();
                        let cmd = Command::Export { dep, out_dir: export_dir.clone() };
                        (
                            WorkspaceRun {
                                workspace_dir,
                                export_dir,
                                phase: WorkspacePhase::Exporting {
                                    dirs,
                                    cur,
                                    deps,
                                    next: next + 1,
                                },
                            },
                            Some(cmd),
                        )
                    } else {
                        workspace_advance(workspace_dir, export_dir, dirs, cur)
                    }
                },
            },
            _ => unreached(),
        },
        Event::ProtosListed { outcome } => match phase {
            WorkspacePhase::Listing { dirs } => match outcome {
                Ok(out) => {
                    let protos = decode_ls_files(out.as_str());
                    let search_dirs = for_workspace(export_dir.as_str(), &dirs);
                    let cmd = Command::Compile { protos, search_dirs };
                    (
                        WorkspaceRun { workspace_dir, export_dir, phase: WorkspacePhase::Compiling },
                        Some(cmd),
                    )
                },
                Err(e) => workspace_cleanup(workspace_dir, export_dir, Some(e)),
            },
            _ => unreached(),
        },
        Event::CompileFinished { failure } => match failure {
            Some(cause) => {
                let e = TonicBufBuildError::new("error running tonic build", cause.as_str());
                workspace_cleanup(workspace_dir, export_dir, Some(e))
            },
            None => workspace_cleanup(workspace_dir, export_dir, None),
        },
        Event::Removed => match phase {
            WorkspacePhase::Cleaning { failure } => (
                WorkspaceRun {
                    workspace_dir,
                    export_dir,
                    phase: WorkspacePhase::Finished { failure },
                },
                None,
            ),
            _ => unreached(),
        },
    }
}

/// The outcome of a finished workspace run: success, or the first error
/// encountered. Whether the staging directory's removal succeeded plays no
/// part.
pub fn workspace_result(run: WorkspaceRun) -> (r: Result<(), TonicBufBuildError>)
    requires
        run@.phase is Finished,
    ensures
        run@.phase matches WorkspacePhaseModel::Finished { failure } ==> match r {
            Ok(_) => failure is None,
            Err(e) => failure == Some(e@),
        },
{
    match run.phase {
        WorkspacePhase::Finished { failure } => match failure {
            None => Ok(()),
            Some(e) => Err(e),
        },
        _ => unreached(),
    }
}

} // verus!
