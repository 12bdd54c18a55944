use wasm_compiler::config::AppConfig;
use wasm_compiler::imgui_handler::ImGuiHandler;
use wasm_compiler::library_handlers::LibraryHandler;
use wasm_compiler::probe::{FsEntry, FsView, ProjectProbe};

fn file(path: &str, content: &str) -> FsEntry {
    FsEntry { path: path.to_string(), is_dir: false, content: content.to_string() }
}

fn dir(path: &str) -> FsEntry {
    FsEntry { path: path.to_string(), is_dir: true, content: String::new() }
}

fn example_probe(main_content: &str) -> ProjectProbe {
    ProjectProbe {
        project_root: "/work/lib/examples/demo".to_string(),
        project_is_dir: true,
        fs: FsView {
            entries: vec![
                dir("/work/lib"),
                dir("/work/lib/examples"),
                dir("/work/lib/examples/demo"),
                dir("/work/lib/backends"),
                file("/work/lib/examples/demo/main.cpp", main_content),
                file("/work/lib/imgui.cpp", "// core"),
                file("/work/lib/imgui.h", "// header"),
                file("/work/lib/imgui_draw.cpp", "// draw"),
                file("/work/lib/backends/imgui_impl_sdl2.cpp", "// sdl2"),
                file("/work/lib/backends/imgui_impl_sdl3.cpp", "// sdl3"),
                file("/work/lib/backends/imgui_impl_glfw.cpp", "// glfw"),
                file("/work/lib/backends/imgui_impl_opengl2.cpp", "// gl2"),
                file("/work/lib/backends/imgui_impl_opengl3.cpp", "// gl3"),
            ],
        },
        on_windows: false,
    }
}

fn cfg(env: &str) -> AppConfig {
    AppConfig::new(
        "/work/lib/examples/demo".to_string(),
        "/out".to_string(),
        "release".to_string(),
        env.to_string(),
        false,
        None,
        "app".to_string(),
    )
}

#[test]
fn detects_library_sources_two_levels_up() {
    let p = example_probe("int main() { return 0; }");
    assert!(ImGuiHandler::new().detect(&p));
}

#[test]
fn detects_include_directive_in_main_source() {
    let p = ProjectProbe {
        project_root: "/proj".to_string(),
        project_is_dir: true,
        fs: FsView {
            entries: vec![dir("/proj"), file("/proj/main.cpp", "#include \"imgui.h\"\n")],
        },
        on_windows: false,
    };
    assert!(ImGuiHandler::new().detect(&p));
}

#[test]
fn web_builds_default_to_sdl3_and_shader_gl() {
    let p = example_probe("int main() { return 0; }");
    let b = ImGuiHandler::new().determine_needed_backends(&cfg("web"), &p);
    assert_eq!(b, vec!["imgui_impl_sdl3.cpp", "imgui_impl_opengl3.cpp"]);
}

#[test]
fn sdl2_markers_select_the_sdl2_backend() {
    let p = example_probe("#include <SDL2/SDL.h>\nint main() { SDL_WINDOW_SHOWN; }\n");
    let b = ImGuiHandler::new().determine_needed_backends(&cfg("web"), &p);
    assert_eq!(b, vec!["imgui_impl_sdl2.cpp", "imgui_impl_opengl3.cpp"]);
}

#[test]
fn explicit_backend_include_overrides_the_heuristics() {
    let p = example_probe("#include \"imgui_impl_sdl3.h\"\n#include <SDL2/SDL.h>\n");
    let b = ImGuiHandler::new().determine_needed_backends(&cfg("web"), &p);
    assert_eq!(b[0], "imgui_impl_sdl3.cpp");
}

#[test]
fn glfw_markers_select_the_glfw_backend() {
    let p = example_probe("#include <GLFW/glfw3.h>\nint main() { glUseProgram(0); }\n");
    let b = ImGuiHandler::new().determine_needed_backends(&cfg("web"), &p);
    assert_eq!(b, vec!["imgui_impl_glfw.cpp", "imgui_impl_opengl3.cpp"]);
}

#[test]
fn fixed_function_gl_selects_the_legacy_backend() {
    let p = example_probe("#include <SDL.h>\nint main() { glBegin(0); }\n");
    let b = ImGuiHandler::new().determine_needed_backends(&cfg("web"), &p);
    assert!(b.contains(&"imgui_impl_opengl2.cpp".to_string()));
    assert!(!b.contains(&"imgui_impl_opengl3.cpp".to_string()));
}

#[test]
fn non_web_targets_take_only_what_was_detected() {
    let p = example_probe("#include <GLFW/glfw3.h>\n");
    let b = ImGuiHandler::new().determine_needed_backends(&cfg("native"), &p);
    assert_eq!(b, vec!["imgui_impl_glfw.cpp"]);
}

#[test]
fn compile_plans_one_invocation_with_sources_and_output() {
    let p = example_probe("#include \"imgui.h\"\n#include <SDL3/SDL.h>\nint main() {}\n");
    let plan = match ImGuiHandler::new().compile(&cfg("web"), &p) {
        Ok(plan) => plan,
        Err(m) => panic!("compile refused: {}", m),
    };
    assert_eq!(plan.pre_dirs.len(), 0);
    assert_eq!(plan.tools.len(), 1);
    let inv = &plan.tools[0];
    assert_eq!(inv.tool, "em++");
    assert_eq!(inv.working_dir, "/work/lib/examples/demo");
    assert!(inv.args.contains(&"/work/lib/examples/demo/main.cpp".to_string()));
    assert!(inv.args.contains(&"/work/lib/examples/demo/../../imgui.cpp".to_string()));
    assert!(inv.args.contains(
        &"/work/lib/examples/demo/../../backends/imgui_impl_sdl3.cpp".to_string()
    ));
    assert!(inv.args.contains(&"-sUSE_SDL=3".to_string()));
    assert!(inv.args.contains(&"-std=c++11".to_string()));
    assert!(inv.args.contains(&"-sUSE_WEBGL2=1".to_string()));
    assert!(inv.args.contains(&"-I/work/lib/examples/demo".to_string()));
    let n = inv.args.len();
    assert_eq!(inv.args[n - 2], "-o");
    assert_eq!(inv.args[n - 1], "/out/app.js");
    assert_eq!(plan.artifacts.js_src, "/out/app.js");
    assert_eq!(plan.artifacts.js_dest, "/out/app.js");
    assert_eq!(plan.artifacts.wasm_src, "/out/app.wasm");
}

#[test]
fn empty_project_without_library_is_refused() {
    let p = ProjectProbe {
        project_root: "/proj".to_string(),
        project_is_dir: true,
        fs: FsView { entries: vec![dir("/proj")] },
        on_windows: false,
    };
    match ImGuiHandler::new().compile(&cfg("web"), &p) {
        Err(m) => assert_eq!(m, "No source files found for ImGui project"),
        Ok(_) => panic!("a project without sources must be refused"),
    }
}
