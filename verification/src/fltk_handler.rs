//! Detector for FLTK projects.  FLTK relies on native windowing systems and OpenGL
//! contexts, so its compile routine fails fast with an explanation.

use vstd::prelude::*;
use crate::compiler::{BuildPlan, BuildPlanV};
use crate::config::AppConfig;
use crate::library_handlers::{build_file_has, cmake_file_content, makefile_content, LibraryHandler};
use crate::probe::{is_cpp_or_header_entry, ProjectProbe};
use crate::strutil::has_substring;

verus! {

pub struct FltkHandler;

impl FltkHandler {
    pub fn new() -> (r: Self) {
        FltkHandler
    }
}

/// A source text mentions FLTK.
pub open spec fn fltk_content_hit(c: Seq<char>) -> bool {
    ||| has_substring(c, "#include <FL/"@)
    ||| has_substring(c, "#include \"FL/"@)
    ||| has_substring(c, "Fl_"@)
    ||| has_substring(c, "Fl::"@)
    ||| has_substring(c, "FLTK"@)
}

/// The build descriptions mention FLTK.
pub open spec fn fltk_build_hit(probe: &ProjectProbe) -> bool {
    ||| build_file_has(cmake_file_content(probe), "FLTK"@)
    ||| build_file_has(cmake_file_content(probe), "fltk"@)
    ||| build_file_has(makefile_content(probe), "fltk"@)
    ||| build_file_has(makefile_content(probe), "fltk-config"@)
}

/// FLTK is detected in the probed project.
pub open spec fn fltk_detect(probe: &ProjectProbe) -> bool {
    ||| exists|k: int|
        0 <= k < probe.fs.entries@.len() && is_cpp_or_header_entry(
            #[trigger] probe.fs.entries@[k],
            probe.project_root@,
        ) && fltk_content_hit(probe.fs.entries@[k].content@)
    ||| fltk_build_hit(probe)
}

/// The explanation reported when a FLTK project is found.
pub open spec fn fltk_unsupported_msg() -> Seq<char> {
    "FLTK compilation to WASM is not yet implemented. FLTK relies on native windowing systems and OpenGL contexts that are not directly available in WebAssembly. Consider using web-based UI frameworks or ImGui for WASM applications."@
}

/// Executable test for `fltk_content_hit`.
fn fltk_content_hit_exec(c: &str) -> (r: bool)
    ensures
        r == fltk_content_hit(c@),
{
    crate::strutil::str_contains(c, "#include <FL/") || crate::strutil::str_contains(c, "#include \"FL/") || crate::strutil::str_contains(c, "Fl_") || crate::strutil::str_contains(c, "Fl::") || crate::strutil::str_contains(c, "FLTK")
}

impl LibraryHandler for FltkHandler {
    open spec fn spec_name(&self) -> Seq<char> {
        "FLTK"@
    }

    open spec fn spec_priority(&self) -> u32 {
        40u32
    }

    open spec fn spec_detect(&self, probe: &ProjectProbe) -> bool {
        fltk_detect(probe)
    }

    open spec fn spec_compile(&self, config: &AppConfig, probe: &ProjectProbe) -> Result<
        BuildPlanV,
        Seq<char>,
    > {
        Err(fltk_unsupported_msg())
    }

    fn library_name(&self) -> (r: &'static str) {
        "FLTK"
    }

    fn detect(&self, probe: &ProjectProbe) -> (r: bool) {
        let entries = &probe.fs.entries;
        let root = probe.project_root.as_str();
        let mut k: usize = 0;
        while k < entries.len()
            invariant
                k <= entries@.len(),
                root@ == probe.project_root@,
                entries@ == probe.fs.entries@,
                forall|m: int|
                    0 <= m < k ==> !(is_cpp_or_header_entry(
                        #[trigger] entries@[m],
                        root@,
                    ) && fltk_content_hit(entries@[m].content@)),
            decreases entries@.len() - k,
        {
            let e = &entries[k];
            if crate::probe::check_cpp_or_header_entry(e, root) {
                if fltk_content_hit_exec(e.content.as_str()) {
                    return true;
                }
            }
            k += 1;
        }
        match crate::library_handlers::read_cmake_file(probe) {
            Some(content) => {
                if crate::strutil::str_contains(content.as_str(), "FLTK")
                    || crate::strutil::str_contains(content.as_str(), "fltk") {
                    return true;
                }
            },
            None => {},
        }
        match crate::library_handlers::read_makefile(probe) {
            Some(content) => {
                if crate::strutil::str_contains(content.as_str(), "fltk")
                    || crate::strutil::str_contains(content.as_str(), "fltk-config") {
                    return true;
                }
            },
            None => {},
        }
        false
    }

    fn compile(&self, config: &AppConfig, probe: &ProjectProbe) -> (r: Result<BuildPlan, String>) {
        Err("FLTK compilation to WASM is not yet implemented. FLTK relies on native windowing systems and OpenGL contexts that are not directly available in WebAssembly. Consider using web-based UI frameworks or ImGui for WASM applications.".to_owned())
    }

    fn priority(&self) -> (r: u32) {
        40
    }
}

} // verus!
