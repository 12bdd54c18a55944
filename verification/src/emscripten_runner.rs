//! The direct single-file compile route and the classification of what an
//! Emscripten tool invocation reported.

use vstd::prelude::*;
use crate::command_runner::{resolve_tool_spec, ToolOutcome, ToolOutcomeV};
use crate::compiler::{ArtifactSet, ArtifactSetV, BuildPlan, BuildPlanV, DirStep, DirStepV,
    ToolInvocation, ToolInvocationV};
use crate::config::AppConfig;
use crate::flags::base_args;
use crate::pathutil::join_spec;
use crate::probe::ProjectProbe;
use crate::strutil::views_of;

verus! {

pub struct EmscriptenRunner;

impl EmscriptenRunner {
    pub fn new() -> (r: Self) {
        EmscriptenRunner
    }

    /// Assembles the baseline compiler arguments of the direct route.
    pub fn get_base_emcc_args(config: &AppConfig, output_name: &str) -> (r: Vec<String>)
        ensures
            views_of(r@) == base_args(config, output_name@),
    {
        crate::flags::assemble_base_args(config, output_name)
    }

    /// Plans the direct compilation of one source file: ensure the output
    /// directory, run the compiler once with the source first and the output
    /// naming last, and expect the artifact pair in the output directory.
    pub fn compile_file(&self, source_file: &str, config: &AppConfig, probe: &ProjectProbe) -> (r:
        BuildPlan)
        ensures
            r@ == direct_plan(config, probe, source_file@),
    {
        let mut pre_dirs: Vec<DirStep> = Vec::new();
        pre_dirs.push(DirStep { path: config.output_dir.clone(), compilation_error: true });

        let js_name = config.output_name.clone().concat(".js");
        let wasm_name = config.output_name.clone().concat(".wasm");
        let out_js = crate::pathutil::path_join(config.output_dir.as_str(), js_name.as_str());
        let out_wasm = crate::pathutil::path_join(config.output_dir.as_str(), wasm_name.as_str());

        let mut args: Vec<String> = Vec::new();
        args.push(source_file.to_owned());
        let ghost a0 = views_of(args@);
        let base = crate::flags::assemble_base_args(config, config.output_name.as_str());
        let mut b: usize = 0;
        proof {
            assert(a0 =~~= seq![source_file@]);
            assert(views_of(base@).take(0) =~~= Seq::<Seq<char>>::empty());
            assert(a0 + views_of(base@).take(0) =~~= a0);
        }
        while b < base.len()
            invariant
                b <= base@.len(),
                views_of(args@) == a0 + views_of(base@).take(b as int),
            decreases base@.len() - b,
        {
            let ghost cur = views_of(args@);
            let x = base[b].clone();
            args.push(x);
            proof {
                assert(views_of(args@) =~~= cur.push(base@[b as int]@));
                assert(views_of(base@).take(b + 1) =~~= views_of(base@).take(b as int).push(
                    base@[b as int]@,
                ));
                assert(cur.push(base@[b as int]@) =~~= a0 + views_of(base@).take(b + 1));
            }
            b += 1;
        }
        proof {
            assert(views_of(base@).take(base@.len() as int) =~~= views_of(base@));
        }
        let ghost a1 = views_of(args@);
        args.push("-o".to_owned());
        proof {
            assert(views_of(args@) =~~= a1.push("-o"@));
        }
        let ghost a2 = views_of(args@);
        args.push(out_js.clone());
        proof {
            assert(views_of(args@) =~~= a2.push(
                join_spec(config.output_dir@, config.output_name@ + ".js"@),
            ));
        }
        let invocation = ToolInvocation {
            tool: crate::command_runner::resolve_emscripten_tool("emcc", probe.on_windows),
            args,
            working_dir: probe.project_root.clone(),
        };
        let mut tools: Vec<ToolInvocation> = Vec::new();
        tools.push(invocation);
        let artifacts = ArtifactSet {
            js_src: out_js.clone(),
            wasm_src: out_wasm.clone(),
            js_dest: out_js,
            wasm_dest: out_wasm,
        };
        let plan = BuildPlan { pre_dirs, tools, artifacts };
        proof {
            assert(plan@.pre_dirs =~~= direct_plan(config, probe, source_file@).pre_dirs);
            assert(plan@.tools =~~= direct_plan(config, probe, source_file@).tools);
            assert(plan@.artifacts =~~= direct_plan(config, probe, source_file@).artifacts);
            assert(plan@ =~~= direct_plan(config, probe, source_file@));
        }
        plan
    }

    /// Classifies what one Emscripten tool invocation reported: the captured
    /// standard output on success, or a message naming the tool on failure.
    pub fn run_emscripten_tool(tool: &str, outcome: &ToolOutcome) -> (r: Result<String, String>)
        ensures
            match r {
                Ok(out) => outcome@ matches ToolOutcomeV::Exited { success, stdout, .. }
                    && success && out@ == stdout,
                Err(m) => {
                    &&& (outcome@ matches ToolOutcomeV::NotFound(_) || (outcome@ matches
                        ToolOutcomeV::Exited { success, .. } && !success))
                    &&& m@ == tool_failed_msg(tool@, outcome@)
                },
            },
    {
        match crate::command_runner::classify_tool_outcome(tool, outcome) {
            Ok(out) => Ok(out),
            Err(inner) => {
                let m = tool.to_owned().concat(" execution failed: ").concat(inner.as_str());
                proof {
                    assert(m@ =~= tool_failed_msg(tool@, outcome@));
                }
                Err(m)
            },
        }
    }
}

/// The planned direct build of one source file.
pub open spec fn direct_plan(c: &AppConfig, probe: &ProjectProbe, source: Seq<char>) -> BuildPlanV {
    let out_js = join_spec(c.output_dir@, c.output_name@ + ".js"@);
    let out_wasm = join_spec(c.output_dir@, c.output_name@ + ".wasm"@);
    BuildPlanV {
        pre_dirs: seq![DirStepV { path: c.output_dir@, compilation_error: true }],
        tools: seq![
            ToolInvocationV {
                tool: resolve_tool_spec("emcc"@, probe.on_windows),
                args: seq![source] + base_args(c, c.output_name@) + seq!["-o"@, out_js],
                working_dir: probe.project_root@,
            },
        ],
        artifacts: ArtifactSetV {
            js_src: out_js,
            wasm_src: out_wasm,
            js_dest: out_js,
            wasm_dest: out_wasm,
        },
    }
}

/// The failure message of one tool invocation: the tool's name and the
/// classified diagnostic.
pub open spec fn tool_failed_msg(tool: Seq<char>, outcome: ToolOutcomeV) -> Seq<char> {
    tool + " execution failed: "@ + (match outcome {
        ToolOutcomeV::NotFound(e) => crate::command_runner::command_spawn_msg(tool, e),
        ToolOutcomeV::Exited { status, stdout, stderr, .. } =>
            crate::command_runner::command_failed_msg(tool, status, stdout, stderr),
    })
}

} // verus!
