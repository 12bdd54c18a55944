//! The CMake build route: detected by a `CMakeLists.txt` marker in the
//! project root, built by a configure step through the CMake wrapper and a
//! build step through the Make wrapper, with the assembled linker flags
//! propagated through the configure arguments.

use vstd::prelude::*;
use crate::command_runner::resolve_tool_spec;
use crate::compiler::{
    ArtifactSet, ArtifactSetV, BuildPlan, BuildPlanV, BuildSystemHandler, DirStep, DirStepV,
    ToolInvocation, ToolInvocationV,
};
use crate::config::AppConfig;
use crate::flags::cmake_linker_flags;
use crate::pathutil::join_spec;
use crate::probe::ProjectProbe;
use crate::strutil::{join_space, views_of};

verus! {

pub struct CMakeHandler;

impl CMakeHandler {
    pub fn new() -> (r: Self) {
        CMakeHandler
    }
}

/// The planned CMake build: ensure the dedicated build directory and the
/// output directory, configure with the toolchain-propagated linker flags,
/// build, then collect the artifacts out of the build directory.
pub open spec fn cmake_plan(c: &AppConfig, probe: &ProjectProbe) -> BuildPlanV {
    let root = probe.project_root@;
    let build_dir = join_spec(root, "build_wasm_cmake"@);
    BuildPlanV {
        pre_dirs: seq![
            DirStepV { path: build_dir, compilation_error: true },
            DirStepV { path: c.output_dir@, compilation_error: true },
        ],
        tools: seq![
            ToolInvocationV {
                tool: resolve_tool_spec("emcmake"@, probe.on_windows),
                args: seq![
                    "cmake"@,
                    root,
                    "-DCMAKE_BUILD_TYPE="@ + c.build_config@,
                    "-DCMAKE_EXE_LINKER_FLAGS="@ + join_space(cmake_linker_flags(c, build_dir)),
                ],
                working_dir: build_dir,
            },
            ToolInvocationV {
                tool: resolve_tool_spec("emmake"@, probe.on_windows),
                args: seq!["make"@],
                working_dir: build_dir,
            },
        ],
        artifacts: ArtifactSetV {
            js_src: join_spec(build_dir, c.output_name@ + ".js"@),
            wasm_src: join_spec(build_dir, c.output_name@ + ".wasm"@),
            js_dest: join_spec(c.output_dir@, c.output_name@ + ".js"@),
            wasm_dest: join_spec(c.output_dir@, c.output_name@ + ".wasm"@),
        },
    }
}

impl BuildSystemHandler for CMakeHandler {
    open spec fn spec_detect(probe: &ProjectProbe) -> bool {
        crate::compiler::cmake_marker(probe)
    }

    open spec fn spec_compile(config: &AppConfig, probe: &ProjectProbe) -> Result<
        BuildPlanV,
        Seq<char>,
    > {
        if crate::compiler::cmake_marker(probe) {
            Ok(cmake_plan(config, probe))
        } else {
            Err("CMakeLists.txt not found."@)
        }
    }

    fn detect(probe: &ProjectProbe) -> (r: bool) {
        let marker = crate::pathutil::path_join(probe.project_root.as_str(), "CMakeLists.txt");
        probe.fs.has_file(marker.as_str())
    }

    fn compile(&self, config: &AppConfig, probe: &ProjectProbe) -> (r: Result<BuildPlan, String>) {
        if !Self::detect(probe) {
            return Err("CMakeLists.txt not found.".to_owned());
        }
        let root = probe.project_root.as_str();
        let build_dir = crate::pathutil::path_join(root, "build_wasm_cmake");

        let mut pre_dirs: Vec<DirStep> = Vec::new();
        pre_dirs.push(DirStep { path: build_dir.clone(), compilation_error: true });
        pre_dirs.push(DirStep { path: config.output_dir.clone(), compilation_error: true });

        let linker_flags = crate::flags::assemble_cmake_linker_flags(config, build_dir.as_str());
        let joined = crate::strutil::join_with_spaces(&linker_flags);

        let mut cmake_args: Vec<String> = Vec::new();
        cmake_args.push("cmake".to_owned());
        cmake_args.push(probe.project_root.clone());
        cmake_args.push("-DCMAKE_BUILD_TYPE=".to_owned().concat(config.build_config.as_str()));
        cmake_args.push("-DCMAKE_EXE_LINKER_FLAGS=".to_owned().concat(joined.as_str()));

        let configure = ToolInvocation {
            tool: crate::command_runner::resolve_emscripten_tool("emcmake", probe.on_windows),
            args: cmake_args,
            working_dir: build_dir.clone(),
        };
        let mut make_args: Vec<String> = Vec::new();
        make_args.push("make".to_owned());
        let build = ToolInvocation {
            tool: crate::command_runner::resolve_emscripten_tool("emmake", probe.on_windows),
            args: make_args,
            working_dir: build_dir.clone(),
        };
        let mut tools: Vec<ToolInvocation> = Vec::new();
        tools.push(configure);
        tools.push(build);

        let js_name = config.output_name.clone().concat(".js");
        let wasm_name = config.output_name.clone().concat(".wasm");
        let artifacts = ArtifactSet {
            js_src: crate::pathutil::path_join(build_dir.as_str(), js_name.as_str()),
            wasm_src: crate::pathutil::path_join(build_dir.as_str(), wasm_name.as_str()),
            js_dest: crate::pathutil::path_join(config.output_dir.as_str(), js_name.as_str()),
            wasm_dest: crate::pathutil::path_join(config.output_dir.as_str(), wasm_name.as_str()),
        };
        let plan = BuildPlan { pre_dirs, tools, artifacts };
        proof {
            assert(plan@.pre_dirs =~~= cmake_plan(config, probe).pre_dirs);
            assert(plan@.tools =~~= cmake_plan(config, probe).tools);
            assert(plan@.artifacts =~~= cmake_plan(config, probe).artifacts);
            assert(plan@ =~~= cmake_plan(config, probe));
        }
        Ok(plan)
    }
}

} // verus!
