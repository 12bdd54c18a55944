//! Detector for wxWidgets projects.  wxWidgets relies on native windowing systems, so
//! its compile routine fails fast with an explanation.

use vstd::prelude::*;
use crate::compiler::{BuildPlan, BuildPlanV};
use crate::config::AppConfig;
use crate::library_handlers::{build_file_has, cmake_file_content, makefile_content, LibraryHandler};
use crate::probe::{is_cpp_or_header_entry, ProjectProbe};
use crate::strutil::has_substring;

verus! {

pub struct WxWidgetsHandler;

impl WxWidgetsHandler {
    pub fn new() -> (r: Self) {
        WxWidgetsHandler
    }
}

/// A source text mentions wxWidgets.
pub open spec fn wxwidgets_content_hit(c: Seq<char>) -> bool {
    ||| has_substring(c, "#include <wx/"@)
    ||| has_substring(c, "#include \"wx/"@)
    ||| has_substring(c, "wxApp"@)
    ||| has_substring(c, "wxFrame"@)
    ||| has_substring(c, "wxWidget"@)
    ||| (has_substring(c, "wx"@) && (has_substring(c, "IMPLEMENT_APP"@) || has_substring(
        c,
        "wxDECLARE_"@,
    )))
}

/// The build descriptions mention wxWidgets.
pub open spec fn wxwidgets_build_hit(probe: &ProjectProbe) -> bool {
    ||| build_file_has(cmake_file_content(probe), "wxWidgets"@)
    ||| build_file_has(cmake_file_content(probe), "find_package.*wx"@)
    ||| build_file_has(makefile_content(probe), "wx-config"@)
    ||| build_file_has(makefile_content(probe), "wxwidgets"@)
}

/// wxWidgets is detected in the probed project.
pub open spec fn wxwidgets_detect(probe: &ProjectProbe) -> bool {
    ||| exists|k: int|
        0 <= k < probe.fs.entries@.len() && is_cpp_or_header_entry(
            #[trigger] probe.fs.entries@[k],
            probe.project_root@,
        ) && wxwidgets_content_hit(probe.fs.entries@[k].content@)
    ||| wxwidgets_build_hit(probe)
}

/// The explanation reported when a wxWidgets project is found.
pub open spec fn wxwidgets_unsupported_msg() -> Seq<char> {
    "wxWidgets compilation to WASM is not yet implemented. wxWidgets relies on native windowing systems and is not designed for WebAssembly. Consider using web-based UI frameworks or ImGui for WASM applications."@
}

/// Executable test for `wxwidgets_content_hit`.
fn wxwidgets_content_hit_exec(c: &str) -> (r: bool)
    ensures
        r == wxwidgets_content_hit(c@),
{
    crate::strutil::str_contains(c, "#include <wx/") || crate::strutil::str_contains(
        c,
        "#include \"wx/",
    ) || crate::strutil::str_contains(c, "wxApp") || crate::strutil::str_contains(c, "wxFrame")
        || crate::strutil::str_contains(c, "wxWidget") || (crate::strutil::str_contains(c, "wx")
        && (crate::strutil::str_contains(c, "IMPLEMENT_APP") || crate::strutil::str_contains(
        c,
        "wxDECLARE_",
    )))
}

impl LibraryHandler for WxWidgetsHandler {
    open spec fn spec_name(&self) -> Seq<char> {
        "wxWidgets"@
    }

    open spec fn spec_priority(&self) -> u32 {
        25u32
    }

    open spec fn spec_detect(&self, probe: &ProjectProbe) -> bool {
        wxwidgets_detect(probe)
    }

    open spec fn spec_compile(&self, config: &AppConfig, probe: &ProjectProbe) -> Result<
        BuildPlanV,
        Seq<char>,
    > {
        Err(wxwidgets_unsupported_msg())
    }

    fn library_name(&self) -> (r: &'static str) {
        let r = "wxWidgets";
        proof {
            reveal_strlit("wxWidgets");
            assert(r@ =~= self.spec_name());
        }
        r
    }

    fn detect(&self, probe: &ProjectProbe) -> (r: bool) {
        let entries = &probe.fs.entries;
        let root = probe.project_root.as_str();
        let mut k: usize = 0;
        while k < entries.len()
            invariant
                k <= entries@.len(),
                root@ == probe.project_root@,
                entries@ == probe.fs.entries@,
                forall|m: int|
                    0 <= m < k ==> !(is_cpp_or_header_entry(
                        #[trigger] entries@[m],
                        root@,
                    ) && wxwidgets_content_hit(entries@[m].content@)),
            decreases entries@.len() - k,
        {
            let e = &entries[k];
            if crate::probe::check_cpp_or_header_entry(e, root) {
                if wxwidgets_content_hit_exec(e.content.as_str()) {
                    return true;
                }
            }
            k += 1;
        }
        match crate::library_handlers::read_cmake_file(probe) {
            Some(content) => {
                if crate::strutil::str_contains(content.as_str(), "wxWidgets")
                    || crate::strutil::str_contains(content.as_str(), "find_package.*wx") {
                    return true;
                }
            },
            None => {},
        }
        match crate::library_handlers::read_makefile(probe) {
            Some(content) => {
                if crate::strutil::str_contains(content.as_str(), "wx-config")
                    || crate::strutil::str_contains(content.as_str(), "wxwidgets") {
                    return true;
                }
            },
            None => {},
        }
        false
    }

    fn compile(&self, config: &AppConfig, probe: &ProjectProbe) -> (r: Result<BuildPlan, String>) {
        Err("wxWidgets compilation to WASM is not yet implemented. wxWidgets relies on native windowing systems and is not designed for WebAssembly. Consider using web-based UI frameworks or ImGui for WASM applications.".to_owned())
    }

    fn priority(&self) -> (r: u32) {
        25
    }
}

} // verus!
