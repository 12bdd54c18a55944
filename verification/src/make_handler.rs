//! The Make build route: detected by a `Makefile` or `makefile` marker in
//! the project root, built by one invocation of the Make wrapper that
//! receives the assembled flags through the compiler and linker flag
//! variables, with the artifacts collected out of the project root.

use vstd::prelude::*;
use crate::command_runner::resolve_tool_spec;
use crate::compiler::{
    ArtifactSet, ArtifactSetV, BuildPlan, BuildPlanV, BuildSystemHandler, DirStep, DirStepV,
    ToolInvocation, ToolInvocationV,
};
use crate::config::AppConfig;
use crate::flags::make_invocation_args;
use crate::pathutil::join_spec;
use crate::probe::ProjectProbe;

verus! {

pub struct MakeHandler;

impl MakeHandler {
    pub fn new() -> (r: Self) {
        MakeHandler
    }
}

/// The planned Make build: ensure the output directory, run the Make
/// wrapper once in the project root with the assembled flag variables, then
/// collect the artifacts out of the project root.
pub open spec fn make_plan(c: &AppConfig, probe: &ProjectProbe) -> BuildPlanV {
    let root = probe.project_root@;
    BuildPlanV {
        pre_dirs: seq![DirStepV { path: c.output_dir@, compilation_error: true }],
        tools: seq![
            ToolInvocationV {
                tool: resolve_tool_spec("emmake"@, probe.on_windows),
                args: make_invocation_args(c),
                working_dir: root,
            },
        ],
        artifacts: ArtifactSetV {
            js_src: join_spec(root, c.output_name@ + ".js"@),
            wasm_src: join_spec(root, c.output_name@ + ".wasm"@),
            js_dest: join_spec(c.output_dir@, c.output_name@ + ".js"@),
            wasm_dest: join_spec(c.output_dir@, c.output_name@ + ".wasm"@),
        },
    }
}

impl BuildSystemHandler for MakeHandler {
    open spec fn spec_detect(probe: &ProjectProbe) -> bool {
        crate::compiler::make_marker(probe)
    }

    open spec fn spec_compile(config: &AppConfig, probe: &ProjectProbe) -> Result<
        BuildPlanV,
        Seq<char>,
    > {
        if crate::compiler::make_marker(probe) {
            Ok(make_plan(config, probe))
        } else {
            Err("Makefile not found."@)
        }
    }

    fn detect(probe: &ProjectProbe) -> (r: bool) {
        let upper = crate::pathutil::path_join(probe.project_root.as_str(), "Makefile");
        let lower = crate::pathutil::path_join(probe.project_root.as_str(), "makefile");
        probe.fs.has_file(upper.as_str()) || probe.fs.has_file(lower.as_str())
    }

    fn compile(&self, config: &AppConfig, probe: &ProjectProbe) -> (r: Result<BuildPlan, String>) {
        if !Self::detect(probe) {
            return Err("Makefile not found.".to_owned());
        }
        let root = probe.project_root.as_str();

        let mut pre_dirs: Vec<DirStep> = Vec::new();
        pre_dirs.push(DirStep { path: config.output_dir.clone(), compilation_error: true });

        let build = ToolInvocation {
            tool: crate::command_runner::resolve_emscripten_tool("emmake", probe.on_windows),
            args: crate::flags::assemble_make_args(config),
            working_dir: probe.project_root.clone(),
        };
        let mut tools: Vec<ToolInvocation> = Vec::new();
        tools.push(build);

        let js_name = config.output_name.clone().concat(".js");
        let wasm_name = config.output_name.clone().concat(".wasm");
        let artifacts = ArtifactSet {
            js_src: crate::pathutil::path_join(root, js_name.as_str()),
            wasm_src: crate::pathutil::path_join(root, wasm_name.as_str()),
            js_dest: crate::pathutil::path_join(config.output_dir.as_str(), js_name.as_str()),
            wasm_dest: crate::pathutil::path_join(config.output_dir.as_str(), wasm_name.as_str()),
        };
        let plan = BuildPlan { pre_dirs, tools, artifacts };
        proof {
            assert(plan@.pre_dirs =~~= make_plan(config, probe).pre_dirs);
            assert(plan@.tools =~~= make_plan(config, probe).tools);
            assert(plan@.artifacts =~~= make_plan(config, probe).artifacts);
            assert(plan@ =~~= make_plan(config, probe));
        }
        Ok(plan)
    }
}

} // verus!
