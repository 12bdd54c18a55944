//! Detector for CEF projects.  Embedding a browser inside a module that itself
//! runs in a browser makes no sense, so the compile routine explains that.

use vstd::prelude::*;
use crate::compiler::{BuildPlan, BuildPlanV};
use crate::config::AppConfig;
use crate::library_handlers::{build_file_has, cmake_file_content, LibraryHandler};
use crate::probe::{is_cpp_or_header_entry, ProjectProbe};
use crate::strutil::has_substring;

verus! {

pub struct CefHandler;

impl CefHandler {
    pub fn new() -> (r: Self) {
        CefHandler
    }
}

/// A source text mentions CEF.
pub open spec fn cef_content_hit(c: Seq<char>) -> bool {
    ||| has_substring(c, "#include \"include/cef"@)
    ||| has_substring(c, "#include <include/cef"@)
    ||| has_substring(c, "CefApp"@)
    ||| has_substring(c, "CefClient"@)
    ||| has_substring(c, "CefBrowser"@)
    ||| has_substring(c, "cef_"@)
}

/// The CMake description mentions CEF.
pub open spec fn cef_build_hit(probe: &ProjectProbe) -> bool {
    ||| build_file_has(cmake_file_content(probe), "CEF"@)
    ||| build_file_has(cmake_file_content(probe), "chromium"@)
}

/// The characteristic CEF version header stands in the project or beside it.
pub open spec fn cef_header_hit(probe: &ProjectProbe) -> bool {
    let root = probe.project_root@;
    ||| probe.fs.spec_has_file(
        crate::pathutil::normal_form(
            crate::pathutil::join_spec(
                crate::pathutil::join_spec(root, "include"@),
                "cef_version.h"@,
            ),
        ),
    )
    ||| probe.fs.spec_has_file(
        crate::pathutil::normal_form(
            crate::pathutil::join_spec(
                crate::pathutil::join_spec(
                    crate::pathutil::join_spec(root, ".."@),
                    "include"@,
                ),
                "cef_version.h"@,
            ),
        ),
    )
}

/// CEF is detected in the probed project.
pub open spec fn cef_detect(probe: &ProjectProbe) -> bool {
    ||| exists|k: int|
        0 <= k < probe.fs.entries@.len() && is_cpp_or_header_entry(
            #[trigger] probe.fs.entries@[k],
            probe.project_root@,
        ) && cef_content_hit(probe.fs.entries@[k].content@)
    ||| cef_build_hit(probe)
    ||| cef_header_hit(probe)
}

/// The explanation reported when a CEF project is found.
pub open spec fn cef_unsupported_msg() -> Seq<char> {
    "CEF (Chromium Embedded Framework) compilation to WASM is not supported and makes no conceptual sense. CEF is designed to embed a web browser in native applications, but WASM runs inside a web browser. If you need web content in a WASM application, consider using iframe elements or direct DOM manipulation."@
}

/// Executable test for `cef_content_hit`.
fn cef_content_hit_exec(c: &str) -> (r: bool)
    ensures
        r == cef_content_hit(c@),
{
    crate::strutil::str_contains(c, "#include \"include/cef") || crate::strutil::str_contains(c, "#include <include/cef") || crate::strutil::str_contains(c, "CefApp") || crate::strutil::str_contains(c, "CefClient") || crate::strutil::str_contains(c, "CefBrowser") || crate::strutil::str_contains(c, "cef_")
}

impl LibraryHandler for CefHandler {
    open spec fn spec_name(&self) -> Seq<char> {
        "CEF"@
    }

    open spec fn spec_priority(&self) -> u32 {
        50u32
    }

    open spec fn spec_detect(&self, probe: &ProjectProbe) -> bool {
        cef_detect(probe)
    }

    open spec fn spec_compile(&self, config: &AppConfig, probe: &ProjectProbe) -> Result<
        BuildPlanV,
        Seq<char>,
    > {
        Err(cef_unsupported_msg())
    }

    fn library_name(&self) -> (r: &'static str) {
        "CEF"
    }

    fn detect(&self, probe: &ProjectProbe) -> (r: bool) {
        let entries = &probe.fs.entries;
        let root = probe.project_root.as_str();
        let mut k: usize = 0;
        while k < entries.len()
            invariant
                k <= entries@.len(),
                root@ == probe.project_root@,
                entries@ == probe.fs.entries@,
                forall|m: int|
                    0 <= m < k ==> !(is_cpp_or_header_entry(
                        #[trigger] entries@[m],
                        root@,
                    ) && cef_content_hit(entries@[m].content@)),
            decreases entries@.len() - k,
        {
            let e = &entries[k];
            if crate::probe::check_cpp_or_header_entry(e, root) {
                if cef_content_hit_exec(e.content.as_str()) {
                    return true;
                }
            }
            k += 1;
        }
        match crate::library_handlers::read_cmake_file(probe) {
            Some(content) => {
                if crate::strutil::str_contains(content.as_str(), "CEF")
                    || crate::strutil::str_contains(content.as_str(), "chromium") {
                    return true;
                }
            },
            None => {},
        }
        let inner = crate::pathutil::path_join(probe.project_root.as_str(), "include");
        let inner_header = crate::pathutil::path_join(inner.as_str(), "cef_version.h");
        if probe.fs.has_file(inner_header.as_str()) {
            return true;
        }
        let up = crate::pathutil::path_join(probe.project_root.as_str(), "..");
        let outer = crate::pathutil::path_join(up.as_str(), "include");
        let outer_header = crate::pathutil::path_join(outer.as_str(), "cef_version.h");
        probe.fs.has_file(outer_header.as_str())
    }

    fn compile(&self, config: &AppConfig, probe: &ProjectProbe) -> (r: Result<BuildPlan, String>) {
        Err("CEF (Chromium Embedded Framework) compilation to WASM is not supported and makes no conceptual sense. CEF is designed to embed a web browser in native applications, but WASM runs inside a web browser. If you need web content in a WASM application, consider using iframe elements or direct DOM manipulation.".to_owned())
    }

    fn priority(&self) -> (r: u32) {
        50
    }
}

} // verus!
