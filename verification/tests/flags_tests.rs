use wasm_compiler::config::AppConfig;
use wasm_compiler::emscripten_runner::EmscriptenRunner;
use wasm_compiler::flags::{
    assemble_base_args, assemble_cmake_linker_flags, assemble_make_args, wasm_flag_of,
};

fn cfg(mode: &str, env: &str, imgui: bool, extra: Option<&str>) -> AppConfig {
    AppConfig::new(
        "/proj".to_string(),
        "/out".to_string(),
        mode.to_string(),
        env.to_string(),
        imgui,
        extra.map(|s| s.to_string()),
        "app".to_string(),
    )
}

#[test]
fn release_web_base_args_exact() {
    let c = cfg("Release", "web", false, None);
    let args = assemble_base_args(&c, "app");
    let expected = vec![
        "-fwasm-exceptions",
        "-O3",
        "-sASSERTIONS=0",
        "--llvm-lto",
        "-sMODULARIZE=1",
        "-sEXPORT_ES6=1",
        "-sENVIRONMENT=web",
        "-sEXPORTED_RUNTIME_METHODS=FS,callMain,setValue,getValue,UTF8ToString,stringToUTF8",
        "-sWASM_BINARY_NAME=app.wasm",
    ];
    assert_eq!(args, expected);
}

#[test]
fn debug_mode_selects_debug_table() {
    let c = cfg("Debug", "node", false, None);
    let args = assemble_base_args(&c, "app");
    assert!(args.contains(&"-g4".to_string()));
    assert!(args.contains(&"-O0".to_string()));
    assert!(args.contains(&"-sASSERTIONS=2".to_string()));
    assert!(args.contains(&"-sSAFE_HEAP=1".to_string()));
    assert!(args.contains(&"-sGL_ASSERTIONS=1".to_string()));
    assert!(args.contains(&"-sENVIRONMENT=node".to_string()));
}

#[test]
fn unknown_modes_all_match_default_branch() {
    let a = assemble_base_args(&cfg("profile", "web", true, Some("-flto")), "app");
    let b = assemble_base_args(&cfg("RelWithDebInfo", "web", true, Some("-flto")), "app");
    let d = assemble_base_args(&cfg("sIzE", "web", true, Some("-flto")), "app");
    assert_eq!(a, b);
    assert_eq!(a, d);
    assert!(a.contains(&"-O2".to_string()));
    assert!(a.contains(&"-sASSERTIONS=1".to_string()));
    assert!(!a.contains(&"-O3".to_string()));
    assert!(!a.contains(&"-O0".to_string()));
}

#[test]
fn unknown_environment_maps_to_combined() {
    let c = cfg("release", "wasi", false, None);
    let args = assemble_base_args(&c, "app");
    assert!(args.contains(&"-sENVIRONMENT=web,node".to_string()));
}

#[test]
fn user_flags_never_duplicate_managed_flags() {
    let c = cfg("release", "web", false, Some("-O3 -sCUSTOM=1 -sCUSTOM=1"));
    let args = assemble_base_args(&c, "app");
    assert_eq!(args.iter().filter(|a| a.as_str() == "-O3").count(), 1);
    assert_eq!(args.iter().filter(|a| a.as_str() == "-sCUSTOM=1").count(), 1);
    for i in 0..args.len() {
        for j in (i + 1)..args.len() {
            assert_ne!(args[i], args[j], "duplicate flag in assembled list");
        }
    }
}

#[test]
fn user_flags_come_after_managed_flags() {
    let c = cfg("release", "web", false, Some("-sCUSTOM=1"));
    let base = assemble_base_args(&cfg("release", "web", false, None), "app");
    let args = assemble_base_args(&c, "app");
    assert_eq!(&args[..base.len()], &base[..]);
    assert_eq!(args[args.len() - 1], "-sCUSTOM=1");
}

#[test]
fn toolkit_flags_present_when_requested() {
    let c = cfg("release", "web", true, None);
    let args = assemble_base_args(&c, "app");
    assert!(args.contains(&"-sUSE_GLFW=3".to_string()));
    assert!(args.contains(&"-sUSE_WEBGL2=1".to_string()));
    assert!(args.contains(&"-sFULL_ES3=1".to_string()));
    assert!(args.contains(&"-sALLOW_MEMORY_GROWTH=1".to_string()));
    assert!(args.contains(&"-sUSE_SDL=2".to_string()));
    assert!(args.contains(&"-sINITIAL_MEMORY=67108864".to_string()));
    assert!(args.contains(&"-sEXPORT_NAME='Module'".to_string()));
}

#[test]
fn export_name_withheld_when_user_names_one() {
    let c = cfg("release", "web", true, Some("-sEXPORT_NAME='Mine'"));
    let args = assemble_base_args(&c, "app");
    assert!(!args.contains(&"-sEXPORT_NAME='Module'".to_string()));
    assert!(args.contains(&"-sEXPORT_NAME='Mine'".to_string()));
}

#[test]
fn cmake_linker_flags_end_with_output_naming() {
    let c = cfg("release", "web", false, None);
    let flags = assemble_cmake_linker_flags(&c, "/proj/build_wasm_cmake");
    let n = flags.len();
    assert_eq!(flags[n - 3], "-o");
    assert_eq!(flags[n - 2], "/proj/build_wasm_cmake/app.js");
    assert_eq!(flags[n - 1], "-sWASM_BINARY_NAME=app.wasm");
    assert!(flags.contains(&"--llvm-lto=1".to_string()));
}

#[test]
fn make_args_carry_flag_variables() {
    let c = cfg("debug", "node", false, Some("-sFOO=1 -DBAR"));
    let args = assemble_make_args(&c);
    assert_eq!(args[0], "make");
    assert!(args[1].starts_with("CXXFLAGS="));
    assert!(args[2].starts_with("CFLAGS="));
    assert!(args[3].starts_with("LDFLAGS="));
    // linker-looking user tokens go to LDFLAGS, the rest to CXXFLAGS
    assert!(args[3].contains("-sFOO=1"));
    assert!(!args[3].contains("-DBAR"));
    assert!(args[1].contains("-DBAR"));
    assert!(args[1].contains("-g4"));
    assert!(args[1].contains("-sSAFE_HEAP=1"));
    assert!(args[3].ends_with("-o app.js -sWASM_BINARY_NAME=app.wasm"));
}

#[test]
fn wasm_flag_names_the_binary() {
    assert_eq!(wasm_flag_of("demo"), "-sWASM_BINARY_NAME=demo.wasm");
}

#[test]
fn runner_base_args_match_assembler() {
    let c = cfg("release", "web", false, None);
    assert_eq!(
        EmscriptenRunner::get_base_emcc_args(&c, "app"),
        assemble_base_args(&c, "app")
    );
}
