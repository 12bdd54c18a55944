//! The compile pipeline: a strictly sequential state machine that ties
//! detection, planning, toolchain invocation and artifact collection
//! together.  The machine owns every decision; the embedding program owns
//! every effect.  It reads the current state, performs the one action it
//! asks for — create a directory, probe for a tool, run it, check a file,
//! copy a file — and reports what happened through the matching event
//! method.  Any failure at any stage moves to the terminal `Failed` state;
//! there is no retry.

use vstd::prelude::*;
use crate::artifacts::{ArtifactCollector, CopyStep, CopyStepV};
use crate::command_runner::{tool_missing_msg, ToolOutcome, ToolOutcomeV};
use crate::compiler::{BuildPlan, BuildPlanV, BuildSystemHandler};
use crate::config::AppConfig;
use crate::emscripten_runner::{direct_plan, tool_failed_msg, EmscriptenRunner};
use crate::library_handlers::{selected_handler, LibraryHandler};
use crate::probe::ProjectProbe;
use crate::{Error, ErrorV};

verus! {

/// Where the pipeline stands.  Each non-terminal state names exactly one
/// action the embedding program must perform next.
pub enum PipelineState {
    /// Create the output directory; a failure is a `FileSystem` error.
    EnsuringOutputDir { path: String, outcome: Result<BuildPlan, Error> },
    /// Create the plan's directory at `idx`.
    EnsuringDirs { plan: BuildPlan, idx: usize },
    /// Probe the search path for the tool of the invocation at `idx`.
    ProbingTool { plan: BuildPlan, idx: usize },
    /// Run the invocation at `idx`.
    AwaitingTool { plan: BuildPlan, idx: usize },
    /// Check that the planned artifacts exist.
    CheckingArtifacts { plan: BuildPlan },
    /// Perform the copy at `idx`.
    Copying { steps: Vec<CopyStep>, idx: usize },
    /// The run succeeded.
    Done,
    /// The run failed; the first error aborted it.
    Failed { error: Error },
}

/// Ghost model of a `PipelineState`.
#[verifier::ext_equal]
pub enum PipelineStateV {
    EnsuringOutputDir { path: Seq<char>, outcome: Result<BuildPlanV, ErrorV> },
    EnsuringDirs { plan: BuildPlanV, idx: int },
    ProbingTool { plan: BuildPlanV, idx: int },
    AwaitingTool { plan: BuildPlanV, idx: int },
    CheckingArtifacts { plan: BuildPlanV },
    Copying { steps: Seq<CopyStepV>, idx: int },
    Done,
    Failed { error: ErrorV },
}

impl View for PipelineState {
    type V = PipelineStateV;

    open spec fn view(&self) -> PipelineStateV {
        match self {
            PipelineState::EnsuringOutputDir { path, outcome } => {
                PipelineStateV::EnsuringOutputDir {
                    path: path@,
                    outcome: match outcome {
                        Ok(p) => Ok(p@),
                        Err(e) => Err(e@),
                    },
                }
            },
            PipelineState::EnsuringDirs { plan, idx } => PipelineStateV::EnsuringDirs {
                plan: plan@,
                idx: *idx as int,
            },
            PipelineState::ProbingTool { plan, idx } => PipelineStateV::ProbingTool {
                plan: plan@,
                idx: *idx as int,
            },
            PipelineState::AwaitingTool { plan, idx } => PipelineStateV::AwaitingTool {
                plan: plan@,
                idx: *idx as int,
            },
            PipelineState::CheckingArtifacts { plan } => PipelineStateV::CheckingArtifacts {
                plan: plan@,
            },
            PipelineState::Copying { steps, idx } => PipelineStateV::Copying {
                steps: steps@.map_values(|s: CopyStep| s@),
                idx: *idx as int,
            },
            PipelineState::Done => PipelineStateV::Done,
            PipelineState::Failed { error } => PipelineStateV::Failed { error: error@ },
        }
    }
}

/// The message of an invalid project path.
pub open spec fn bad_project_path_msg(path: Seq<char>) -> Seq<char> {
    "Project path "@ + path + " does not exist or is not a directory."@
}

/// What the pipeline decides to build, before any effect: the selected
/// library handler's plan when one matches, else the detected build
/// system's plan, else the detection failure.
pub open spec fn pipeline_decision(c: &AppConfig, probe: &ProjectProbe) -> Result<
    BuildPlanV,
    ErrorV,
> {
    match selected_handler(probe) {
        Some(k) => match k.spec_compile(c, probe) {
            Ok(p) => Ok(p),
            Err(m) => Err(ErrorV::Compilation(m)),
        },
        None => {
            if crate::compiler::cmake_marker(probe) {
                Ok(crate::cmake_handler::cmake_plan(c, probe))
            } else if crate::compiler::make_marker(probe) {
                Ok(crate::make_handler::make_plan(c, probe))
            } else {
                match crate::compiler::pick_direct_source(probe) {
                    Some(p) => Ok(direct_plan(c, probe, p)),
                    None => Err(ErrorV::Detection(crate::compiler::no_build_system_msg())),
                }
            }
        },
    }
}

/// The initial state: an invalid project path fails at once with a
/// `Config` error; otherwise the output directory is created first and the
/// decision is carried along.
pub open spec fn pipeline_init(c: &AppConfig, probe: &ProjectProbe) -> PipelineStateV {
    if !probe.project_is_dir {
        PipelineStateV::Failed { error: ErrorV::Config(bad_project_path_msg(c.project_path@)) }
    } else {
        PipelineStateV::EnsuringOutputDir {
            path: c.output_dir@,
            outcome: pipeline_decision(c, probe),
        }
    }
}

/// A state the machine can actually be in: every carried index lies
/// within its list.
pub open spec fn state_wf(s: PipelineStateV) -> bool {
    match s {
        PipelineStateV::EnsuringDirs { plan, idx } => 0 <= idx < plan.pre_dirs.len(),
        PipelineStateV::ProbingTool { plan, idx } => 0 <= idx < plan.tools.len(),
        PipelineStateV::AwaitingTool { plan, idx } => 0 <= idx < plan.tools.len(),
        PipelineStateV::Copying { steps, idx } => 0 <= idx < steps.len(),
        _ => true,
    }
}

/// The state that works through the plan's directories from `idx`.
pub open spec fn to_dirs(plan: BuildPlanV, idx: int) -> PipelineStateV {
    if idx < plan.pre_dirs.len() {
        PipelineStateV::EnsuringDirs { plan, idx }
    } else {
        to_tools(plan, 0)
    }
}

/// The state that works through the plan's invocations from `idx`.
pub open spec fn to_tools(plan: BuildPlanV, idx: int) -> PipelineStateV {
    if idx < plan.tools.len() {
        PipelineStateV::ProbingTool { plan, idx }
    } else {
        PipelineStateV::CheckingArtifacts { plan }
    }
}

/// The state that works through the copies from `idx`.
pub open spec fn to_copies(steps: Seq<CopyStepV>, idx: int) -> PipelineStateV {
    if idx < steps.len() {
        PipelineStateV::Copying { steps, idx }
    } else {
        PipelineStateV::Done
    }
}

/// The sequential compile pipeline of one run.
pub struct CompilePipeline {
    pub state: PipelineState,
}

impl CompilePipeline {
    /// Decides the whole run from the configuration and the probe, and
    /// enters the initial state.
    pub fn new(config: &AppConfig, probe: &ProjectProbe) -> (r: CompilePipeline)
        ensures
            r.state@ == pipeline_init(config, probe),
            state_wf(r.state@),
    {
        if !probe.project_is_dir {
            let m = "Project path ".to_owned().concat(config.project_path.as_str()).concat(
                " does not exist or is not a directory.",
            );
            proof {
                assert(m@ =~= bad_project_path_msg(config.project_path@));
            }
            return CompilePipeline { state: PipelineState::Failed { error: Error::Config(m) } };
        }
        let outcome: Result<BuildPlan, Error> = match crate::library_handlers::detect_library_handler(
            probe,
        ) {
            Some(k) => match k.compile(config, probe) {
                Ok(p) => Ok(p),
                Err(m) => Err(Error::Compilation(m)),
            },
            None => {
                if crate::cmake_handler::CMakeHandler::detect(probe) {
                    match crate::cmake_handler::CMakeHandler::new().compile(config, probe) {
                        Ok(p) => Ok(p),
                        Err(m) => Err(Error::Compilation(m)),
                    }
                } else if crate::make_handler::MakeHandler::detect(probe) {
                    match crate::make_handler::MakeHandler::new().compile(config, probe) {
                        Ok(p) => Ok(p),
                        Err(m) => Err(Error::Compilation(m)),
                    }
                } else {
                    match crate::compiler::find_direct_source(probe) {
                        Some(p) => Ok(
                            EmscriptenRunner::new().compile_file(p.as_str(), config, probe),
                        ),
                        None => Err(
                            Error::Detection(
                                "No CMakeLists.txt, Makefile, or obvious C++ source file found in the project root.".to_owned(),
                            ),
                        ),
                    }
                }
            },
        };
        CompilePipeline {
            state: PipelineState::EnsuringOutputDir { path: config.output_dir.clone(), outcome },
        }
    }

    /// What follows a directory-creation attempt.
    pub open spec fn step_dir(s: PipelineStateV, ok: bool, err: Seq<char>) -> PipelineStateV {
        match s {
            PipelineStateV::EnsuringOutputDir { path, outcome } => {
                if !ok {
                    PipelineStateV::Failed { error: ErrorV::FileSystem(err) }
                } else {
                    match outcome {
                        Ok(plan) => to_dirs(plan, 0),
                        Err(e) => PipelineStateV::Failed { error: e },
                    }
                }
            },
            PipelineStateV::EnsuringDirs { plan, idx } => {
                if !ok {
                    if plan.pre_dirs[idx].compilation_error {
                        PipelineStateV::Failed { error: ErrorV::Compilation(err) }
                    } else {
                        PipelineStateV::Failed { error: ErrorV::FileSystem(err) }
                    }
                } else {
                    to_dirs(plan, idx + 1)
                }
            },
            _ => s,
        }
    }

    /// Reports a directory-creation attempt; `err` is read when it failed.
    pub fn on_dir_ensured(self, ok: bool, err: &str) -> (r: Self)
        requires
            state_wf(self.state@),
            self.state@ matches PipelineStateV::EnsuringOutputDir { .. } || self.state@ matches
                PipelineStateV::EnsuringDirs { .. },
        ensures
            r.state@ == Self::step_dir(self.state@, ok, err@),
            state_wf(r.state@),
    {
        let mut next = CompilePipeline { state: PipelineState::Done };
        let prev = self.state;
        match prev {
            PipelineState::EnsuringOutputDir { path, outcome } => {
                if !ok {
                    next.state = PipelineState::Failed {
                        error: Error::FileSystem(err.to_owned()),
                    };
                } else {
                    match outcome {
                        Ok(plan) => {
                            next.state = Self::enter_dirs(plan, 0);
                        },
                        Err(e) => {
                            next.state = PipelineState::Failed { error: e };
                        },
                    }
                }
            },
            PipelineState::EnsuringDirs { plan, idx } => {
                let n = plan.pre_dirs.len();
                proof {
                    assert(idx < n);
                }
                if !ok {
                    if plan.pre_dirs[idx].compilation_error {
                        next.state = PipelineState::Failed {
                            error: Error::Compilation(err.to_owned()),
                        };
                    } else {
                        next.state = PipelineState::Failed {
                            error: Error::FileSystem(err.to_owned()),
                        };
                    }
                } else {
                    next.state = Self::enter_dirs(plan, idx + 1);
                }
            },
            _ => {
                next.state = prev;
            },
        }
        next
    }

    /// Enters the directory stage at `idx`, skipping to the tools when the
    /// directories are exhausted.
    fn enter_dirs(plan: BuildPlan, idx: usize) -> (r: PipelineState)
        requires
            idx <= plan.pre_dirs@.len(),
        ensures
            r@ == to_dirs(plan@, idx as int),
            state_wf(r@),
    {
        if idx < plan.pre_dirs.len() {
            PipelineState::EnsuringDirs { plan, idx }
        } else {
            Self::enter_tools(plan, 0)
        }
    }

    /// Enters the tool stage at `idx`, skipping to the artifact check when
    /// the invocations are exhausted.
    fn enter_tools(plan: BuildPlan, idx: usize) -> (r: PipelineState)
        ensures
            r@ == to_tools(plan@, idx as int),
            state_wf(r@),
    {
        if idx < plan.tools.len() {
            PipelineState::ProbingTool { plan, idx }
        } else {
            PipelineState::CheckingArtifacts { plan }
        }
    }

    /// What follows a tool-availability probe.
    pub open spec fn step_probe(s: PipelineStateV, available: bool) -> PipelineStateV {
        match s {
            PipelineStateV::ProbingTool { plan, idx } => {
                if available {
                    PipelineStateV::AwaitingTool { plan, idx }
                } else {
                    PipelineStateV::Failed {
                        error: ErrorV::Compilation(tool_missing_msg(plan.tools[idx].tool)),
                    }
                }
            },
            _ => s,
        }
    }

    /// Reports whether the pending invocation's tool is on the search path.
    pub fn on_tool_probed(self, available: bool) -> (r: Self)
        requires
            state_wf(self.state@),
            self.state@ matches PipelineStateV::ProbingTool { .. },
        ensures
            r.state@ == Self::step_probe(self.state@, available),
            state_wf(r.state@),
    {
        let mut next = CompilePipeline { state: PipelineState::Done };
        let prev = self.state;
        match prev {
            PipelineState::ProbingTool { plan, idx } => {
                if available {
                    next.state = PipelineState::AwaitingTool { plan, idx };
                } else {
                    let m = crate::command_runner::tool_missing_message(
                        plan.tools[idx].tool.as_str(),
                    );
                    next.state = PipelineState::Failed { error: Error::Compilation(m) };
                }
            },
            _ => {
                next.state = prev;
            },
        }
        next
    }

    /// What follows a completed invocation.
    pub open spec fn step_tool(s: PipelineStateV, outcome: ToolOutcomeV) -> PipelineStateV {
        match s {
            PipelineStateV::AwaitingTool { plan, idx } => {
                match outcome {
                    ToolOutcomeV::Exited { success: true, .. } => to_tools(plan, idx + 1),
                    _ => PipelineStateV::Failed {
                        error: ErrorV::Compilation(
                            tool_failed_msg(plan.tools[idx].tool, outcome),
                        ),
                    },
                }
            },
            _ => s,
        }
    }

    /// Reports what the pending invocation did.
    pub fn on_tool_ran(self, outcome: &ToolOutcome) -> (r: Self)
        requires
            state_wf(self.state@),
            self.state@ matches PipelineStateV::AwaitingTool { .. },
        ensures
            r.state@ == Self::step_tool(self.state@, outcome@),
            state_wf(r.state@),
    {
        let mut next = CompilePipeline { state: PipelineState::Done };
        let prev = self.state;
        match prev {
            PipelineState::AwaitingTool { plan, idx } => {
                let n = plan.tools.len();
                proof {
                    assert(idx < n);
                }
                match EmscriptenRunner::run_emscripten_tool(
                    plan.tools[idx].tool.as_str(),
                    outcome,
                ) {
                    Ok(_) => {
                        next.state = Self::enter_tools(plan, idx + 1);
                    },
                    Err(m) => {
                        next.state = PipelineState::Failed { error: Error::Compilation(m) };
                    },
                }
            },
            _ => {
                next.state = prev;
            },
        }
        next
    }

    /// What follows the artifact-existence check.
    pub open spec fn step_artifacts(
        s: PipelineStateV,
        js_exists: bool,
        wasm_exists: bool,
    ) -> PipelineStateV {
        match s {
            PipelineStateV::CheckingArtifacts { plan } => {
                if !js_exists {
                    PipelineStateV::Failed {
                        error: ErrorV::FileSystem(
                            crate::artifacts::missing_artifact_msg(plan.artifacts.js_src),
                        ),
                    }
                } else if !wasm_exists {
                    PipelineStateV::Failed {
                        error: ErrorV::FileSystem(
                            crate::artifacts::missing_artifact_msg(plan.artifacts.wasm_src),
                        ),
                    }
                } else {
                    to_copies(spec_copies(plan), 0)
                }
            },
            _ => s,
        }
    }

    /// Reports whether the loader script and the binary exist.
    pub fn on_artifacts_checked(self, js_exists: bool, wasm_exists: bool) -> (r: Self)
        requires
            state_wf(self.state@),
            self.state@ matches PipelineStateV::CheckingArtifacts { .. },
        ensures
            r.state@ == Self::step_artifacts(self.state@, js_exists, wasm_exists),
            state_wf(r.state@),
    {
        let mut next = CompilePipeline { state: PipelineState::Done };
        let prev = self.state;
        match prev {
            PipelineState::CheckingArtifacts { plan } => {
                match ArtifactCollector::check(&plan.artifacts, js_exists, wasm_exists) {
                    Ok(steps) => {
                        if steps.len() > 0 {
                            next.state = PipelineState::Copying { steps, idx: 0 };
                        } else {
                            next.state = PipelineState::Done;
                        }
                    },
                    Err(e) => {
                        next.state = PipelineState::Failed { error: e };
                    },
                }
            },
            _ => {
                next.state = prev;
            },
        }
        next
    }

    /// What follows a copy attempt.
    pub open spec fn step_copy(s: PipelineStateV, ok: bool, err: Seq<char>) -> PipelineStateV {
        match s {
            PipelineStateV::Copying { steps, idx } => {
                if ok {
                    to_copies(steps, idx + 1)
                } else {
                    PipelineStateV::Failed {
                        error: ErrorV::FileSystem(
                            crate::artifacts::copy_failed_msg(
                                steps[idx].src,
                                steps[idx].dest,
                                err,
                            ),
                        ),
                    }
                }
            },
            _ => s,
        }
    }

    /// Reports a copy attempt; `err` is read when it failed.
    pub fn on_copied(self, ok: bool, err: &str) -> (r: Self)
        requires
            state_wf(self.state@),
            self.state@ matches PipelineStateV::Copying { .. },
        ensures
            r.state@ == Self::step_copy(self.state@, ok, err@),
            state_wf(r.state@),
    {
        let mut next = CompilePipeline { state: PipelineState::Done };
        let prev = self.state;
        match prev {
            PipelineState::Copying { steps, idx } => {
                let n = steps.len();
                proof {
                    assert(idx < n);
                }
                if ok {
                    if idx + 1 < steps.len() {
                        let following = idx + 1;
                        next.state = PipelineState::Copying { steps, idx: following };
                        proof {
                            assert(next.state@ =~~= to_copies(
                                steps@.map_values(|s: CopyStep| s@),
                                idx + 1,
                            ));
                        }
                    } else {
                        next.state = PipelineState::Done;
                    }
                } else {
                    let e = ArtifactCollector::copy_failed_error(
                        steps[idx].src.as_str(),
                        steps[idx].dest.as_str(),
                        err,
                    );
                    next.state = PipelineState::Failed { error: e };
                }
            },
            _ => {
                next.state = prev;
            },
        }
        next
    }
}

/// The copies a plan's artifact set requires.
pub open spec fn spec_copies(plan: BuildPlanV) -> Seq<CopyStepV> {
    (if plan.artifacts.js_src != plan.artifacts.js_dest {
        seq![CopyStepV { src: plan.artifacts.js_src, dest: plan.artifacts.js_dest }]
    } else {
        Seq::empty()
    }) + (if plan.artifacts.wasm_src != plan.artifacts.wasm_dest {
        seq![CopyStepV { src: plan.artifacts.wasm_src, dest: plan.artifacts.wasm_dest }]
    } else {
        Seq::empty()
    })
}

} // verus!
