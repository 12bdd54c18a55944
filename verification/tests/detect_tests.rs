use wasm_compiler::compiler::{detect_build_system, DetectedBuildSystem};
use wasm_compiler::probe::{FsEntry, FsView, ProjectProbe};
use wasm_compiler::Error;

fn file(path: &str, content: &str) -> FsEntry {
    FsEntry { path: path.to_string(), is_dir: false, content: content.to_string() }
}

fn dir(path: &str) -> FsEntry {
    FsEntry { path: path.to_string(), is_dir: true, content: String::new() }
}

fn probe(entries: Vec<FsEntry>) -> ProjectProbe {
    ProjectProbe {
        project_root: "/proj".to_string(),
        project_is_dir: true,
        fs: FsView { entries },
        on_windows: false,
    }
}

#[test]
fn cmake_marker_wins_over_make_marker() {
    let p = probe(vec![
        dir("/proj"),
        file("/proj/Makefile", "all:"),
        file("/proj/CMakeLists.txt", "project(x)"),
        file("/proj/main.cpp", "int main() {}"),
    ]);
    assert!(matches!(detect_build_system(&p), Ok(DetectedBuildSystem::CMake)));
}

#[test]
fn make_marker_selected_without_cmake() {
    let p = probe(vec![dir("/proj"), file("/proj/Makefile", "all:")]);
    assert!(matches!(detect_build_system(&p), Ok(DetectedBuildSystem::Make)));
}

#[test]
fn lower_case_makefile_counts() {
    let p = probe(vec![dir("/proj"), file("/proj/makefile", "all:")]);
    assert!(matches!(detect_build_system(&p), Ok(DetectedBuildSystem::Make)));
}

#[test]
fn direct_source_prefers_main() {
    let p = probe(vec![
        dir("/proj"),
        file("/proj/aaa.cpp", "int f();"),
        file("/proj/my_main.cpp", "int main() {}"),
    ]);
    match detect_build_system(&p) {
        Ok(DetectedBuildSystem::DirectSource(s)) => assert_eq!(s, "/proj/my_main.cpp"),
        other => panic!("unexpected: {:?}", other.is_ok()),
    }
}

#[test]
fn direct_source_falls_back_to_first_source() {
    let p = probe(vec![
        dir("/proj"),
        file("/proj/readme.txt", "hello"),
        file("/proj/first.cc", "int f();"),
        file("/proj/second.cxx", "int g();"),
    ]);
    match detect_build_system(&p) {
        Ok(DetectedBuildSystem::DirectSource(s)) => assert_eq!(s, "/proj/first.cc"),
        other => panic!("unexpected: {:?}", other.is_ok()),
    }
}

#[test]
fn no_candidates_is_a_detection_error() {
    let p = probe(vec![dir("/proj"), file("/proj/readme.txt", "hello")]);
    match detect_build_system(&p) {
        Err(Error::Detection(m)) => {
            assert_eq!(
                m,
                "No CMakeLists.txt, Makefile, or obvious C++ source file found in the project root."
            );
        },
        _ => panic!("expected a detection error"),
    }
}

#[test]
fn headers_are_not_direct_candidates() {
    let p = probe(vec![dir("/proj"), file("/proj/lib.h", "int f();")]);
    assert!(detect_build_system(&p).is_err());
}
