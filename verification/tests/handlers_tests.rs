use wasm_compiler::config::AppConfig;
use wasm_compiler::library_handlers::{
    detect_library_handler, get_all_handlers, LibraryHandler, LibraryKind,
};
use wasm_compiler::probe::{FsEntry, FsView, ProjectProbe};

fn file(path: &str, content: &str) -> FsEntry {
    FsEntry { path: path.to_string(), is_dir: false, content: content.to_string() }
}

fn dir(path: &str) -> FsEntry {
    FsEntry { path: path.to_string(), is_dir: true, content: String::new() }
}

fn probe(entries: Vec<FsEntry>) -> ProjectProbe {
    ProjectProbe {
        project_root: "/proj".to_string(),
        project_is_dir: true,
        fs: FsView { entries },
        on_windows: false,
    }
}

fn cfg() -> AppConfig {
    AppConfig::new(
        "/proj".to_string(),
        "/out".to_string(),
        "release".to_string(),
        "web".to_string(),
        false,
        None,
        "app".to_string(),
    )
}

#[test]
fn registry_lists_nine_handlers() {
    let handlers = get_all_handlers();
    assert_eq!(handlers.len(), 9);
    assert_eq!(handlers[0], LibraryKind::ImGui);
}

#[test]
fn no_detection_means_no_selection() {
    let p = probe(vec![dir("/proj"), file("/proj/main.cpp", "int main() { return 0; }")]);
    assert_eq!(detect_library_handler(&p), None);
}

#[test]
fn lowest_priority_wins_among_matches() {
    // The source mentions both Qt (priority 15) and OpenCV (priority 20).
    let p = probe(vec![
        dir("/proj"),
        file("/proj/main.cpp", "#include <QApplication>\n#include <opencv2/core.hpp>\n"),
    ]);
    let qt = wasm_compiler::qt_handler::QtHandler::new();
    let cv = wasm_compiler::opencv_handler::OpenCVHandler::new();
    assert!(qt.detect(&p));
    assert!(cv.detect(&p));
    assert_eq!(detect_library_handler(&p), Some(LibraryKind::Qt));
}

#[test]
fn selection_is_stable_across_repeated_runs() {
    let p = probe(vec![
        dir("/proj"),
        file("/proj/main.cpp", "#include <QApplication>\nint main() { cv::Mat m; }\n"),
    ]);
    let first = detect_library_handler(&p);
    for _ in 0..10 {
        assert_eq!(detect_library_handler(&p), first);
    }
}

#[test]
fn imgui_outranks_every_other_match() {
    let p = probe(vec![
        dir("/proj"),
        file(
            "/proj/main.cpp",
            "#include \"imgui.h\"\n#include <QApplication>\nint main() {}\n",
        ),
    ]);
    assert_eq!(detect_library_handler(&p), Some(LibraryKind::ImGui));
}

#[test]
fn qt_detected_through_cmake_description() {
    let p = probe(vec![
        dir("/proj"),
        file("/proj/CMakeLists.txt", "find_package(Qt6 REQUIRED)"),
    ]);
    assert!(wasm_compiler::qt_handler::QtHandler::new().detect(&p));
}

#[test]
fn qt_detected_through_project_file_extension() {
    let p = probe(vec![dir("/proj"), file("/proj/app.pro", "TEMPLATE = app")]);
    assert!(wasm_compiler::qt_handler::QtHandler::new().detect(&p));
}

#[test]
fn unsupported_handlers_name_their_library() {
    let p = probe(vec![dir("/proj")]);
    let c = cfg();
    let cases: Vec<(LibraryKind, &str)> = vec![
        (LibraryKind::OpenCV, "OpenCV"),
        (LibraryKind::Qt, "Qt"),
        (LibraryKind::Gtkmm, "GTKmm"),
        (LibraryKind::Juce, "JUCE"),
        (LibraryKind::WxWidgets, "wxWidgets"),
        (LibraryKind::Fltk, "FLTK"),
        (LibraryKind::Cef, "CEF"),
        (LibraryKind::UltimatePlusPlus, "Ultimate++"),
    ];
    for (kind, name) in cases {
        assert_eq!(kind.library_name(), name);
        match kind.compile(&c, &p) {
            Err(m) => assert!(m.contains(name), "message must name {}", name),
            Ok(_) => panic!("{} must not compile", name),
        }
    }
}

#[test]
fn handler_priorities_are_the_documented_table() {
    assert_eq!(LibraryKind::ImGui.priority(), 10);
    assert_eq!(LibraryKind::Qt.priority(), 15);
    assert_eq!(LibraryKind::OpenCV.priority(), 20);
    assert_eq!(LibraryKind::WxWidgets.priority(), 25);
    assert_eq!(LibraryKind::Gtkmm.priority(), 30);
    assert_eq!(LibraryKind::Juce.priority(), 35);
    assert_eq!(LibraryKind::Fltk.priority(), 40);
    assert_eq!(LibraryKind::UltimatePlusPlus.priority(), 45);
    assert_eq!(LibraryKind::Cef.priority(), 50);
}

#[test]
fn gtkmm_detected_through_source_symbols() {
    let p = probe(vec![dir("/proj"), file("/proj/win.hpp", "Gtk::Window win;")]);
    assert!(wasm_compiler::gtkmm_handler::GtkmmHandler::new().detect(&p));
}

#[test]
fn fltk_detected_through_makefile() {
    let p = probe(vec![dir("/proj"), file("/proj/Makefile", "LIBS = $(shell fltk-config --ldflags)")]);
    assert!(wasm_compiler::fltk_handler::FltkHandler::new().detect(&p));
}

#[test]
fn cef_detected_through_version_header() {
    let p = probe(vec![
        dir("/proj"),
        dir("/proj/include"),
        file("/proj/include/cef_version.h", "#define CEF_VERSION 1"),
    ]);
    assert!(wasm_compiler::cef_handler::CefHandler::new().detect(&p));
}

#[test]
fn juce_detected_through_jucer_file() {
    let p = probe(vec![dir("/proj"), file("/proj/app.jucer", "<JUCERPROJECT/>")]);
    assert!(wasm_compiler::juce_handler::JuceHandler::new().detect(&p));
}

#[test]
fn wxwidgets_detected_through_compound_markers() {
    let p = probe(vec![
        dir("/proj"),
        file("/proj/app.cpp", "class App : public wxApp {};"),
    ]);
    assert!(wasm_compiler::wxwidgets_handler::WxWidgetsHandler::new().detect(&p));
}

#[test]
fn ultimate_detected_through_upp_package() {
    let p = probe(vec![dir("/proj"), file("/proj/app.upp", "uses Core;")]);
    assert!(wasm_compiler::ultimate_handler::UltimatePlusPlusHandler::new().detect(&p));
}

#[test]
fn opencv_detected_through_source_markers() {
    let p = probe(vec![dir("/proj"), file("/proj/vision.cc", "cv::Mat frame;")]);
    assert!(wasm_compiler::opencv_handler::OpenCVHandler::new().detect(&p));
}
