use wasm_compiler::command_runner::{
    classify_tool_outcome, is_emscripten_tool, probe_indicates_tool, resolve_emscripten_tool,
    ToolOutcome,
};
use wasm_compiler::config::AppConfig;
use wasm_compiler::pathutil::{file_name_of, normalize_path, parent_of, path_join};
use wasm_compiler::strutil::{
    eq_str, eq_str_nocase, has_ext, join_with_spaces, split_whitespace_tokens, str_contains,
};
use wasm_compiler::webapp_generator::is_gui_application;

#[test]
fn split_whitespace_drops_every_separator_run() {
    let toks = split_whitespace_tokens("  -O2\t-sFOO=1\n\n-g  ");
    assert_eq!(toks, vec!["-O2", "-sFOO=1", "-g"]);
    assert_eq!(split_whitespace_tokens("   "), Vec::<String>::new());
    assert_eq!(split_whitespace_tokens(""), Vec::<String>::new());
}

#[test]
fn join_with_spaces_inverts_a_single_spaced_split() {
    let v = vec!["-a".to_string(), "-b".to_string(), "-c".to_string()];
    assert_eq!(join_with_spaces(&v), "-a -b -c");
    assert_eq!(join_with_spaces(&Vec::new()), "");
}

#[test]
fn substring_search_matches_rust_semantics() {
    assert!(str_contains("hello world", "o wo"));
    assert!(str_contains("hello", ""));
    assert!(!str_contains("hello", "world"));
    assert!(eq_str("abc", "abc"));
    assert!(!eq_str("abc", "abd"));
    assert!(eq_str_nocase("Debug", "dEbUg"));
    assert!(!eq_str_nocase("Debug", "Debug "));
}

#[test]
fn extensions_split_at_the_last_dot() {
    assert!(has_ext("main.cpp", "cpp"));
    assert!(has_ext("archive.tar.gz", "gz"));
    assert!(!has_ext("archive.tar.gz", "tar"));
    assert!(!has_ext("Makefile", "cpp"));
    assert!(!has_ext(".gitignore", "gitignore"));
}

#[test]
fn path_helpers_behave_like_plain_text_paths() {
    assert_eq!(path_join("/a/b", "c.txt"), "/a/b/c.txt");
    assert_eq!(path_join("/", "c.txt"), "/c.txt");
    assert_eq!(parent_of("/a/b/c"), Some("/a/b".to_string()));
    assert_eq!(parent_of("/a"), Some("/".to_string()));
    assert_eq!(parent_of("/"), None);
    assert_eq!(file_name_of("/a/b/c.txt"), "c.txt");
    assert_eq!(file_name_of("c.txt"), "c.txt");
}

#[test]
fn normalization_resolves_dot_segments() {
    assert_eq!(normalize_path("/a/b/../c"), "/a/c");
    assert_eq!(normalize_path("/a/./b//d"), "/a/b/d");
    assert_eq!(normalize_path("/a/../.."), "/");
    assert_eq!(normalize_path("/proj/../../imgui.cpp"), "/imgui.cpp");
}

#[test]
fn tool_names_resolve_per_platform() {
    assert_eq!(resolve_emscripten_tool("emcc", false), "emcc");
    assert_eq!(resolve_emscripten_tool("emcc", true), "emcc.bat");
    assert_eq!(resolve_emscripten_tool("cmake", true), "cmake");
    assert!(is_emscripten_tool("em++"));
    assert!(!is_emscripten_tool("gcc"));
}

#[test]
fn availability_probe_recognizes_wrapper_usage_text() {
    assert!(probe_indicates_tool("emmake is a helper for make", ""));
    assert!(probe_indicates_tool("", "usage: emcmake cmake ..."));
    assert!(!probe_indicates_tool("command", "failed"));
}

#[test]
fn classification_keeps_both_streams_verbatim() {
    let ok = ToolOutcome::Exited {
        success: true,
        status: "exit status: 0".to_string(),
        stdout: "configured".to_string(),
        stderr: String::new(),
    };
    assert_eq!(classify_tool_outcome("emcmake", &ok), Ok("configured".to_string()));

    let bad = ToolOutcome::Exited {
        success: false,
        status: "exit status: 2".to_string(),
        stdout: "so far so good".to_string(),
        stderr: "then it broke".to_string(),
    };
    match classify_tool_outcome("emcmake", &bad) {
        Err(m) => assert_eq!(
            m,
            "Command 'emcmake' failed with status: exit status: 2.\nStdout: so far so good\nStderr: then it broke"
        ),
        Ok(_) => panic!("a failed exit must classify as an error"),
    }

    let gone = ToolOutcome::NotFound("No such file or directory".to_string());
    match classify_tool_outcome("emcc", &gone) {
        Err(m) => assert_eq!(
            m,
            "Failed to execute command 'emcc': No such file or directory. Is it installed and in your PATH?"
        ),
        Ok(_) => panic!("a missing tool must classify as an error"),
    }
}

fn cfg(path: &str, imgui: bool, extra: Option<&str>) -> AppConfig {
    AppConfig::new(
        path.to_string(),
        "/out".to_string(),
        "release".to_string(),
        "web".to_string(),
        imgui,
        extra.map(|s| s.to_string()),
        "app".to_string(),
    )
}

#[test]
fn gui_detection_follows_flag_path_and_overrides() {
    assert!(is_gui_application(&cfg("/work/plain", true, None)));
    assert!(is_gui_application(&cfg("/work/MyImGuiDemo", false, None)));
    assert!(is_gui_application(&cfg("/work/opengl-samples", false, None)));
    assert!(is_gui_application(&cfg("/work/plain", false, Some("-sUSE_SDL=2"))));
    assert!(!is_gui_application(&cfg("/work/plain", false, Some("-O3"))));
    assert!(!is_gui_application(&cfg("/work/plain", false, None)));
}
