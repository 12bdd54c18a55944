//! Detector for Qt projects.  Qt cannot be compiled to WebAssembly by this
//! tool, so its compile routine fails fast with an explanation.

use vstd::prelude::*;
use crate::compiler::{BuildPlan, BuildPlanV};
use crate::config::AppConfig;
use crate::library_handlers::{build_file_has, cmake_file_content, root_has_ext, LibraryHandler};
use crate::probe::{is_cpp_or_header_entry, ProjectProbe};
use crate::strutil::has_substring;

verus! {

pub struct QtHandler;

impl QtHandler {
    pub fn new() -> (r: Self) {
        QtHandler
    }
}

/// A source or header text mentions Qt: an include of a `Q` header, a core
/// widget type, or the meta-object marker.
pub open spec fn qt_content_hit(c: Seq<char>) -> bool {
    ||| has_substring(c, "#include <Q"@)
    ||| has_substring(c, "#include \"Q"@)
    ||| has_substring(c, "QWidget"@)
    ||| has_substring(c, "QApplication"@)
    ||| has_substring(c, "Q_OBJECT"@)
}

/// The CMake build description mentions Qt.
pub open spec fn qt_cmake_hit(probe: &ProjectProbe) -> bool {
    ||| build_file_has(cmake_file_content(probe), "find_package(Qt"@)
    ||| build_file_has(cmake_file_content(probe), "Qt5::"@)
    ||| build_file_has(cmake_file_content(probe), "Qt6::"@)
}

/// Qt is detected: a source file mentions it, the CMake description names
/// it, or a qmake project file stands in the root.
pub open spec fn qt_detect(probe: &ProjectProbe) -> bool {
    ||| exists|k: int|
        0 <= k < probe.fs.entries@.len() && is_cpp_or_header_entry(
            #[trigger] probe.fs.entries@[k],
            probe.project_root@,
        ) && qt_content_hit(probe.fs.entries@[k].content@)
    ||| qt_cmake_hit(probe)
    ||| root_has_ext(probe, "pro"@)
}

/// The explanation reported when a Qt project is found.
pub open spec fn qt_unsupported_msg() -> Seq<char> {
    "Qt compilation to WASM is not yet implemented. Qt for WebAssembly requires Qt 5.12+ with special configuration and is currently not supported by this compiler. Please refer to Qt's official WebAssembly documentation for manual compilation."@
}

/// Executable test for `qt_content_hit`.
fn qt_content_hit_exec(c: &str) -> (r: bool)
    ensures
        r == qt_content_hit(c@),
{
    crate::strutil::str_contains(c, "#include <Q") || crate::strutil::str_contains(
        c,
        "#include \"Q",
    ) || crate::strutil::str_contains(c, "QWidget") || crate::strutil::str_contains(
        c,
        "QApplication",
    ) || crate::strutil::str_contains(c, "Q_OBJECT")
}

impl LibraryHandler for QtHandler {
    open spec fn spec_name(&self) -> Seq<char> {
        "Qt"@
    }

    open spec fn spec_priority(&self) -> u32 {
        15u32
    }

    open spec fn spec_detect(&self, probe: &ProjectProbe) -> bool {
        qt_detect(probe)
    }

    open spec fn spec_compile(&self, config: &AppConfig, probe: &ProjectProbe) -> Result<
        BuildPlanV,
        Seq<char>,
    > {
        Err(qt_unsupported_msg())
    }

    fn library_name(&self) -> (r: &'static str) {
        let r = "Qt";
        proof {
            reveal_strlit("Qt");
            assert(r@ =~= self.spec_name());
        }
        r
    }

    fn detect(&self, probe: &ProjectProbe) -> (r: bool) {
        let entries = &probe.fs.entries;
        let root = probe.project_root.as_str();
        let mut k: usize = 0;
        while k < entries.len()
            invariant
                k <= entries@.len(),
                root@ == probe.project_root@,
                entries@ == probe.fs.entries@,
                forall|m: int|
                    0 <= m < k ==> !(is_cpp_or_header_entry(
                        #[trigger] entries@[m],
                        root@,
                    ) && qt_content_hit(entries@[m].content@)),
            decreases entries@.len() - k,
        {
            let e = &entries[k];
            if crate::probe::check_cpp_or_header_entry(e, root) {
                if qt_content_hit_exec(e.content.as_str()) {
                    return true;
                }
            }
            k += 1;
        }
        match crate::library_handlers::read_cmake_file(probe) {
            Some(content) => {
                if crate::strutil::str_contains(content.as_str(), "find_package(Qt")
                    || crate::strutil::str_contains(content.as_str(), "Qt5::")
                    || crate::strutil::str_contains(content.as_str(), "Qt6::") {
                    return true;
                }
            },
            None => {},
        }
        crate::library_handlers::root_has_ext_file(probe, "pro")
    }

    fn compile(&self, config: &AppConfig, probe: &ProjectProbe) -> (r: Result<BuildPlan, String>) {
        Err(
            "Qt compilation to WASM is not yet implemented. Qt for WebAssembly requires Qt 5.12+ with special configuration and is currently not supported by this compiler. Please refer to Qt's official WebAssembly documentation for manual compilation.".to_owned(),
        )
    }

    fn priority(&self) -> (r: u32) {
        15
    }
}

} // verus!
