//! Shared build-orchestration types: the planned toolchain invocations, the
//! expected artifacts, the build-system handler interface, and the detector
//! that decides between the CMake, Make and direct-source routes.

use vstd::prelude::*;
use crate::config::AppConfig;
use crate::pathutil::{join_spec, normal_form};
use crate::probe::{is_cpp_source_entry, is_main_source_entry, FsEntry, ProjectProbe};
use crate::strutil::views_of;
use crate::Error;

verus! {

/// One external toolchain invocation: tool name, argument list, working
/// directory.  Transient: executed once and discarded.
pub struct ToolInvocation {
    pub tool: String,
    pub args: Vec<String>,
    pub working_dir: String,
}

/// Ghost model of a `ToolInvocation`.
#[verifier::ext_equal]
pub struct ToolInvocationV {
    pub tool: Seq<char>,
    pub args: Seq<Seq<char>>,
    pub working_dir: Seq<char>,
}

impl View for ToolInvocation {
    type V = ToolInvocationV;

    open spec fn view(&self) -> ToolInvocationV {
        ToolInvocationV {
            tool: self.tool@,
            args: views_of(self.args@),
            working_dir: self.working_dir@,
        }
    }
}

/// The expected outputs of a build: where the loader script and the binary
/// are produced, and where they must end up.  When a source equals its
/// destination the file is only checked, not copied.
pub struct ArtifactSet {
    pub js_src: String,
    pub wasm_src: String,
    pub js_dest: String,
    pub wasm_dest: String,
}

/// Ghost model of an `ArtifactSet`.
#[verifier::ext_equal]
pub struct ArtifactSetV {
    pub js_src: Seq<char>,
    pub wasm_src: Seq<char>,
    pub js_dest: Seq<char>,
    pub wasm_dest: Seq<char>,
}

impl View for ArtifactSet {
    type V = ArtifactSetV;

    open spec fn view(&self) -> ArtifactSetV {
        ArtifactSetV {
            js_src: self.js_src@,
            wasm_src: self.wasm_src@,
            js_dest: self.js_dest@,
            wasm_dest: self.wasm_dest@,
        }
    }
}

/// A directory that must exist before the tools run.  When creating it
/// fails, the failure surfaces as a `Compilation` error for directories a
/// build-system handler asked for, and as a `FileSystem` error otherwise.
pub struct DirStep {
    pub path: String,
    pub compilation_error: bool,
}

/// Ghost model of a `DirStep`.
#[verifier::ext_equal]
pub struct DirStepV {
    pub path: Seq<char>,
    pub compilation_error: bool,
}

impl View for DirStep {
    type V = DirStepV;

    open spec fn view(&self) -> DirStepV {
        DirStepV { path: self.path@, compilation_error: self.compilation_error }
    }
}

/// The full plan of one build route: directories to ensure, tools to invoke
/// in order, and the artifacts to collect afterwards.
pub struct BuildPlan {
    pub pre_dirs: Vec<DirStep>,
    pub tools: Vec<ToolInvocation>,
    pub artifacts: ArtifactSet,
}

/// Ghost model of a `BuildPlan`.
#[verifier::ext_equal]
pub struct BuildPlanV {
    pub pre_dirs: Seq<DirStepV>,
    pub tools: Seq<ToolInvocationV>,
    pub artifacts: ArtifactSetV,
}

impl View for BuildPlan {
    type V = BuildPlanV;

    open spec fn view(&self) -> BuildPlanV {
        BuildPlanV {
            pre_dirs: self.pre_dirs@.map_values(|d: DirStep| d@),
            tools: self.tools@.map_values(|t: ToolInvocation| t@),
            artifacts: self.artifacts@,
        }
    }
}

/// A handler for one build system: it detects whether a project uses the
/// system, and turns a configuration into the plan of toolchain invocations
/// that builds the project with it.
pub trait BuildSystemHandler {
    /// What `detect` decides, as a predicate over the probe.
    spec fn spec_detect(probe: &ProjectProbe) -> bool;

    /// What `compile` plans, as a function of configuration and probe.
    spec fn spec_compile(config: &AppConfig, probe: &ProjectProbe) -> Result<BuildPlanV, Seq<char>>;

    /// Detects whether the probed project is managed by this build system.
    fn detect(probe: &ProjectProbe) -> (r: bool)
        ensures
            r == Self::spec_detect(probe),
    ;

    /// Plans the compilation of the probed project with this build system.
    fn compile(&self, config: &AppConfig, probe: &ProjectProbe) -> (r: Result<BuildPlan, String>)
        ensures
            match r {
                Ok(p) => Self::spec_compile(config, probe) == Ok::<BuildPlanV, Seq<char>>(p@),
                Err(e) => Self::spec_compile(config, probe) == Err::<BuildPlanV, Seq<char>>(e@),
            },
    ;
}

/// The detector's answer: exactly one of the three build routes.
pub enum DetectedBuildSystem {
    CMake,
    Make,
    DirectSource(String),
}

/// First project-root source file whose name mentions `main`, scanning the
/// snapshot from index `i` in iteration order.
pub open spec fn first_main_source(entries: Seq<FsEntry>, root: Seq<char>, i: int) -> Option<
    Seq<char>,
>
    decreases entries.len() - i when 0 <= i <= entries.len()
{
    if i >= entries.len() {
        None
    } else if is_main_source_entry(entries[i], root) {
        Some(entries[i].path@)
    } else {
        first_main_source(entries, root, i + 1)
    }
}

/// First project-root source file in iteration order, scanning from `i`.
pub open spec fn first_any_source(entries: Seq<FsEntry>, root: Seq<char>, i: int) -> Option<
    Seq<char>,
>
    decreases entries.len() - i when 0 <= i <= entries.len()
{
    if i >= entries.len() {
        None
    } else if is_cpp_source_entry(entries[i], root) {
        Some(entries[i].path@)
    } else {
        first_any_source(entries, root, i + 1)
    }
}

/// The file chosen for direct compilation: a source whose name mentions
/// `main` is preferred; otherwise the first source encountered.
pub open spec fn pick_direct_source(probe: &ProjectProbe) -> Option<Seq<char>> {
    match first_main_source(probe.fs.entries@, probe.project_root@, 0) {
        Some(p) => Some(p),
        None => first_any_source(probe.fs.entries@, probe.project_root@, 0),
    }
}

/// A CMake marker file stands in the project root.
pub open spec fn cmake_marker(probe: &ProjectProbe) -> bool {
    probe.fs.spec_has_file(normal_form(join_spec(probe.project_root@, "CMakeLists.txt"@)))
}

/// A Make marker file stands in the project root.
pub open spec fn make_marker(probe: &ProjectProbe) -> bool {
    probe.fs.spec_has_file(normal_form(join_spec(probe.project_root@, "Makefile"@)))
        || probe.fs.spec_has_file(normal_form(join_spec(probe.project_root@, "makefile"@)))
}

/// The message of the detection failure.
pub open spec fn no_build_system_msg() -> Seq<char> {
    "No CMakeLists.txt, Makefile, or obvious C++ source file found in the project root."@
}

/// Decides the build route.  The order is fixed and exclusive: a CMake
/// marker wins unconditionally, then a Make marker, then the best direct
/// source file; with none of those the run fails with a `Detection` error.
pub fn detect_build_system(probe: &ProjectProbe) -> (r: Result<DetectedBuildSystem, Error>)
    ensures
        cmake_marker(probe) ==> r matches Ok(DetectedBuildSystem::CMake),
        !cmake_marker(probe) && make_marker(probe) ==> r matches Ok(DetectedBuildSystem::Make),
        !cmake_marker(probe) && !make_marker(probe) ==> match r {
            Ok(d) => d matches DetectedBuildSystem::DirectSource(p) && pick_direct_source(probe)
                == Some(p@),
            Err(e) => pick_direct_source(probe) is None && (e matches Error::Detection(m) && m@
                == no_build_system_msg()),
        },
{
    if crate::cmake_handler::CMakeHandler::detect(probe) {
        Ok(DetectedBuildSystem::CMake)
    } else if crate::make_handler::MakeHandler::detect(probe) {
        Ok(DetectedBuildSystem::Make)
    } else {
        match find_direct_source(probe) {
            Some(p) => Ok(DetectedBuildSystem::DirectSource(p)),
            None => Err(
                Error::Detection(
                    "No CMakeLists.txt, Makefile, or obvious C++ source file found in the project root.".to_owned(),
                ),
            ),
        }
    }
}

/// Scans the snapshot once for the direct-compilation candidate.
pub fn find_direct_source(probe: &ProjectProbe) -> (r: Option<String>)
    ensures
        match r {
            Some(p) => pick_direct_source(probe) == Some(p@),
            None => pick_direct_source(probe) is None,
        },
{
    let entries = &probe.fs.entries;
    let root = probe.project_root.as_str();
    let mut fallback: Option<String> = None;
    let mut k: usize = 0;
    while k < entries.len()
        invariant
            k <= entries@.len(),
            root@ == probe.project_root@,
            entries@ == probe.fs.entries@,
            first_main_source(entries@, root@, 0) == first_main_source(entries@, root@, k as int),
            match fallback {
                Some(f) => first_any_source(entries@, root@, 0) == Some(f@),
                None => first_any_source(entries@, root@, 0) == first_any_source(
                    entries@,
                    root@,
                    k as int,
                ),
            },
        decreases entries@.len() - k,
    {
        let e = &entries[k];
        if crate::probe::check_cpp_source_entry(e, root) {
            let name = crate::pathutil::file_name_of(e.path.as_str());
            if crate::strutil::str_contains(name.as_str(), "main") {
                proof {
                    assert(is_main_source_entry(entries@[k as int], root@));
                }
                return Some(e.path.clone());
            }
            if fallback.is_none() {
                fallback = Some(e.path.clone());
                proof {
                    assert(first_any_source(entries@, root@, k as int) == Some(
                        entries@[k as int].path@,
                    ));
                }
            }
        }
        k += 1;
    }
    match fallback {
        Some(f) => Some(f),
        None => None,
    }
}

} // verus!
