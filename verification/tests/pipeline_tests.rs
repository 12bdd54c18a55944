use wasm_compiler::artifacts::ArtifactCollector;
use wasm_compiler::command_runner::ToolOutcome;
use wasm_compiler::compiler::ArtifactSet;
use wasm_compiler::config::AppConfig;
use wasm_compiler::pipeline::{CompilePipeline, PipelineState};
use wasm_compiler::probe::{FsEntry, FsView, ProjectProbe};
use wasm_compiler::Error;

fn file(path: &str, content: &str) -> FsEntry {
    FsEntry { path: path.to_string(), is_dir: false, content: content.to_string() }
}

fn dir(path: &str) -> FsEntry {
    FsEntry { path: path.to_string(), is_dir: true, content: String::new() }
}

fn probe(entries: Vec<FsEntry>) -> ProjectProbe {
    ProjectProbe {
        project_root: "/proj".to_string(),
        project_is_dir: true,
        fs: FsView { entries },
        on_windows: false,
    }
}

fn cfg(mode: &str, env: &str, imgui: bool) -> AppConfig {
    AppConfig::new(
        "/proj".to_string(),
        "/out".to_string(),
        mode.to_string(),
        env.to_string(),
        imgui,
        None,
        "app".to_string(),
    )
}

fn success() -> ToolOutcome {
    ToolOutcome::Exited {
        success: true,
        status: "exit status: 0".to_string(),
        stdout: String::new(),
        stderr: String::new(),
    }
}

#[test]
fn direct_release_build_runs_one_compile_and_succeeds() {
    // A project holding only a main.cpp, built in release mode for the web.
    let p = probe(vec![dir("/proj"), file("/proj/main.cpp", "int main() { return 0; }")]);
    let c = cfg("release", "web", false);
    let mut pl = CompilePipeline::new(&c, &p);

    // The output directory is created first.
    match &pl.state {
        PipelineState::EnsuringOutputDir { path, outcome } => {
            assert_eq!(path, "/out");
            assert!(outcome.is_ok());
        },
        _ => panic!("expected the output-directory stage"),
    }
    pl = pl.on_dir_ensured(true, "");

    // The plan's own directory list repeats the output directory.
    match &pl.state {
        PipelineState::EnsuringDirs { plan, idx } => {
            assert_eq!(*idx, 0);
            assert_eq!(plan.pre_dirs.len(), 1);
            assert_eq!(plan.pre_dirs[0].path, "/out");
        },
        _ => panic!("expected the directory stage"),
    }
    pl = pl.on_dir_ensured(true, "");

    // Exactly one toolchain invocation: the compiler on the source file.
    let mut ran = 0;
    loop {
        match &pl.state {
            PipelineState::ProbingTool { plan, idx } => {
                let inv = &plan.tools[*idx];
                assert_eq!(inv.tool, "emcc");
                assert_eq!(inv.working_dir, "/proj");
                assert_eq!(inv.args[0], "/proj/main.cpp");
                assert!(inv.args.contains(&"-O3".to_string()));
                assert!(inv.args.contains(&"-sASSERTIONS=0".to_string()));
                assert!(inv.args.contains(&"--llvm-lto".to_string()));
                assert!(inv.args.contains(&"-sENVIRONMENT=web".to_string()));
                let n = inv.args.len();
                assert_eq!(inv.args[n - 2], "-o");
                assert_eq!(inv.args[n - 1], "/out/app.js");
                pl = pl.on_tool_probed(true);
            },
            PipelineState::AwaitingTool { .. } => {
                ran += 1;
                pl = pl.on_tool_ran(&success());
            },
            PipelineState::CheckingArtifacts { plan } => {
                assert_eq!(plan.artifacts.js_src, "/out/app.js");
                assert_eq!(plan.artifacts.wasm_src, "/out/app.wasm");
                pl = pl.on_artifacts_checked(true, true);
            },
            PipelineState::Done => break,
            _ => panic!("unexpected state during the direct build"),
        }
    }
    assert_eq!(ran, 1, "the direct route invokes the toolchain exactly once");
}

#[test]
fn cmake_with_toolkit_flag_carries_windowing_flags() {
    // A CMake project with the UI-toolkit flag: the configure step's linker
    // flags must carry the windowing, graphics and memory-growth flags.
    let p = probe(vec![dir("/proj"), file("/proj/CMakeLists.txt", "project(x)")]);
    let c = cfg("release", "web", true);
    let mut pl = CompilePipeline::new(&c, &p);
    pl = pl.on_dir_ensured(true, "");
    // build directory, then output directory
    pl = pl.on_dir_ensured(true, "");
    pl = pl.on_dir_ensured(true, "");
    match &pl.state {
        PipelineState::ProbingTool { plan, idx } => {
            assert_eq!(*idx, 0);
            assert_eq!(plan.tools.len(), 2);
            let configure = &plan.tools[0];
            assert_eq!(configure.tool, "emcmake");
            assert_eq!(configure.args[0], "cmake");
            assert_eq!(configure.args[1], "/proj");
            assert_eq!(configure.args[2], "-DCMAKE_BUILD_TYPE=release");
            let linker = &configure.args[3];
            assert!(linker.starts_with("-DCMAKE_EXE_LINKER_FLAGS="));
            assert!(linker.contains("-sUSE_GLFW=3"));
            assert!(linker.contains("-sUSE_WEBGL2=1"));
            assert!(linker.contains("-sFULL_ES3=1"));
            assert!(linker.contains("-sALLOW_MEMORY_GROWTH=1"));
            assert!(linker.contains("-sMODULARIZE=1"));
            assert!(linker.contains("-O3"));
            let build = &plan.tools[1];
            assert_eq!(build.tool, "emmake");
            assert_eq!(build.args, vec!["make".to_string()]);
        },
        _ => panic!("expected the tool stage"),
    }
}

#[test]
fn cmake_artifacts_are_copied_into_the_output_directory() {
    let p = probe(vec![dir("/proj"), file("/proj/CMakeLists.txt", "project(x)")]);
    let c = cfg("release", "web", false);
    let mut pl = CompilePipeline::new(&c, &p);
    pl = pl.on_dir_ensured(true, "");
    pl = pl.on_dir_ensured(true, "");
    pl = pl.on_dir_ensured(true, "");
    pl = pl.on_tool_probed(true);
    pl = pl.on_tool_ran(&success());
    pl = pl.on_tool_probed(true);
    pl = pl.on_tool_ran(&success());
    pl = pl.on_artifacts_checked(true, true);
    match &pl.state {
        PipelineState::Copying { steps, idx } => {
            assert_eq!(*idx, 0);
            assert_eq!(steps.len(), 2);
            assert_eq!(steps[0].src, "/proj/build_wasm_cmake/app.js");
            assert_eq!(steps[0].dest, "/out/app.js");
            assert_eq!(steps[1].src, "/proj/build_wasm_cmake/app.wasm");
            assert_eq!(steps[1].dest, "/out/app.wasm");
        },
        _ => panic!("expected the copy stage"),
    }
    pl = pl.on_copied(true, "");
    pl = pl.on_copied(true, "");
    assert!(matches!(pl.state, PipelineState::Done));
}

#[test]
fn qt_project_fails_with_compilation_error_before_any_tool_runs() {
    // The source references a Qt symbol and nothing else: the registry
    // selects the Qt handler and the run ends in a Compilation error that
    // names Qt, without the toolchain ever being invoked.
    let p = probe(vec![
        dir("/proj"),
        file("/proj/main.cpp", "#include <QApplication>\nint main() {}\n"),
    ]);
    let c = cfg("release", "web", false);
    let mut pl = CompilePipeline::new(&c, &p);
    match &pl.state {
        PipelineState::EnsuringOutputDir { outcome, .. } => assert!(outcome.is_err()),
        _ => panic!("expected the output-directory stage"),
    }
    pl = pl.on_dir_ensured(true, "");
    match &pl.state {
        PipelineState::Failed { error } => match error {
            Error::Compilation(m) => {
                assert!(m.contains("Qt"));
                assert!(m.contains("WebAssembly documentation"));
            },
            _ => panic!("expected a Compilation error"),
        },
        _ => panic!("expected the terminal failure, got another stage"),
    }
}

#[test]
fn missing_binary_is_a_file_system_error() {
    // The loader script exists but the binary does not: never silent success.
    let a = ArtifactSet {
        js_src: "/b/app.js".to_string(),
        wasm_src: "/b/app.wasm".to_string(),
        js_dest: "/out/app.js".to_string(),
        wasm_dest: "/out/app.wasm".to_string(),
    };
    match ArtifactCollector::check(&a, true, false) {
        Err(Error::FileSystem(m)) => {
            assert_eq!(m, "Expected output file not found: /b/app.wasm");
        },
        _ => panic!("expected a FileSystem error"),
    }
}

#[test]
fn missing_binary_fails_the_pipeline() {
    let p = probe(vec![dir("/proj"), file("/proj/main.cpp", "int main() {}")]);
    let c = cfg("release", "web", false);
    let mut pl = CompilePipeline::new(&c, &p);
    pl = pl.on_dir_ensured(true, "");
    pl = pl.on_dir_ensured(true, "");
    pl = pl.on_tool_probed(true);
    pl = pl.on_tool_ran(&success());
    pl = pl.on_artifacts_checked(true, false);
    match &pl.state {
        PipelineState::Failed { error } => {
            assert!(matches!(error, Error::FileSystem(_)));
            assert!(error.message().contains("/out/app.wasm"));
        },
        _ => panic!("expected the terminal failure"),
    }
}

#[test]
fn missing_tool_fails_with_actionable_message() {
    let p = probe(vec![dir("/proj"), file("/proj/main.cpp", "int main() {}")]);
    let c = cfg("release", "web", false);
    let mut pl = CompilePipeline::new(&c, &p);
    pl = pl.on_dir_ensured(true, "");
    pl = pl.on_dir_ensured(true, "");
    pl = pl.on_tool_probed(false);
    match &pl.state {
        PipelineState::Failed { error } => match error {
            Error::Compilation(m) => assert_eq!(
                m,
                "emcc not found in PATH. Please ensure Emscripten SDK is installed and configured."
            ),
            _ => panic!("expected a Compilation error"),
        },
        _ => panic!("expected the terminal failure"),
    }
}

#[test]
fn failing_tool_reports_both_streams() {
    let p = probe(vec![dir("/proj"), file("/proj/main.cpp", "int main() {}")]);
    let c = cfg("release", "web", false);
    let mut pl = CompilePipeline::new(&c, &p);
    pl = pl.on_dir_ensured(true, "");
    pl = pl.on_dir_ensured(true, "");
    pl = pl.on_tool_probed(true);
    let outcome = ToolOutcome::Exited {
        success: false,
        status: "exit status: 1".to_string(),
        stdout: "partial output".to_string(),
        stderr: "undefined symbol".to_string(),
    };
    pl = pl.on_tool_ran(&outcome);
    match &pl.state {
        PipelineState::Failed { error } => match error {
            Error::Compilation(m) => {
                assert!(m.starts_with("emcc execution failed: "));
                assert!(m.contains("exit status: 1"));
                assert!(m.contains("partial output"));
                assert!(m.contains("undefined symbol"));
            },
            _ => panic!("expected a Compilation error"),
        },
        _ => panic!("expected the terminal failure"),
    }
}

#[test]
fn invalid_project_path_is_a_config_error() {
    let mut p = probe(vec![]);
    p.project_is_dir = false;
    let c = cfg("release", "web", false);
    let pl = CompilePipeline::new(&c, &p);
    match &pl.state {
        PipelineState::Failed { error } => match error {
            Error::Config(m) => {
                assert_eq!(m, "Project path /proj does not exist or is not a directory.");
            },
            _ => panic!("expected a Config error"),
        },
        _ => panic!("expected the terminal failure"),
    }
}

#[test]
fn failed_copy_is_a_file_system_error() {
    let p = probe(vec![dir("/proj"), file("/proj/Makefile", "all:")]);
    let c = cfg("release", "web", false);
    let mut pl = CompilePipeline::new(&c, &p);
    pl = pl.on_dir_ensured(true, "");
    pl = pl.on_dir_ensured(true, "");
    pl = pl.on_tool_probed(true);
    pl = pl.on_tool_ran(&success());
    pl = pl.on_artifacts_checked(true, true);
    pl = pl.on_copied(false, "permission denied");
    match &pl.state {
        PipelineState::Failed { error } => match error {
            Error::FileSystem(m) => {
                assert_eq!(
                    m,
                    "Failed to copy /proj/app.js to /out/app.js: permission denied"
                );
            },
            _ => panic!("expected a FileSystem error"),
        },
        _ => panic!("expected the terminal failure"),
    }
}

#[test]
fn make_route_invokes_the_wrapper_in_the_project_root() {
    let p = probe(vec![dir("/proj"), file("/proj/Makefile", "all:")]);
    let c = cfg("debug", "node", false);
    let mut pl = CompilePipeline::new(&c, &p);
    pl = pl.on_dir_ensured(true, "");
    pl = pl.on_dir_ensured(true, "");
    match &pl.state {
        PipelineState::ProbingTool { plan, .. } => {
            assert_eq!(plan.tools.len(), 1);
            assert_eq!(plan.tools[0].tool, "emmake");
            assert_eq!(plan.tools[0].working_dir, "/proj");
            assert_eq!(plan.tools[0].args[0], "make");
        },
        _ => panic!("expected the tool stage"),
    }
}
