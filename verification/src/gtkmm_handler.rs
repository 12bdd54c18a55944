//! Detector for GTKmm projects.  GTKmm relies on native GTK+, which WebAssembly
//! cannot provide, so its compile routine fails fast with an explanation.

use vstd::prelude::*;
use crate::compiler::{BuildPlan, BuildPlanV};
use crate::config::AppConfig;
use crate::library_handlers::{build_file_has, cmake_file_content, makefile_content, LibraryHandler};
use crate::probe::{is_cpp_or_header_entry, ProjectProbe};
use crate::strutil::has_substring;

verus! {

pub struct GtkmmHandler;

impl GtkmmHandler {
    pub fn new() -> (r: Self) {
        GtkmmHandler
    }
}

/// A source text mentions GTKmm.
pub open spec fn gtkmm_content_hit(c: Seq<char>) -> bool {
    ||| has_substring(c, "#include <gtkmm"@)
    ||| has_substring(c, "#include \"gtkmm"@)
    ||| has_substring(c, "Gtk::"@)
    ||| has_substring(c, "Glib::"@)
    ||| has_substring(c, "sigc::"@)
}

/// The build descriptions mention GTKmm.
pub open spec fn gtkmm_build_hit(probe: &ProjectProbe) -> bool {
    ||| build_file_has(cmake_file_content(probe), "gtkmm"@)
    ||| build_file_has(cmake_file_content(probe), "GTKmm"@)
    ||| build_file_has(cmake_file_content(probe), "pkg_check_modules.*gtkmm"@)
    ||| build_file_has(makefile_content(probe), "gtkmm"@)
    ||| build_file_has(makefile_content(probe), "pkg-config.*gtkmm"@)
}

/// GTKmm is detected in the probed project.
pub open spec fn gtkmm_detect(probe: &ProjectProbe) -> bool {
    ||| exists|k: int|
        0 <= k < probe.fs.entries@.len() && is_cpp_or_header_entry(
            #[trigger] probe.fs.entries@[k],
            probe.project_root@,
        ) && gtkmm_content_hit(probe.fs.entries@[k].content@)
    ||| gtkmm_build_hit(probe)
}

/// The explanation reported when a GTKmm project is found.
pub open spec fn gtkmm_unsupported_msg() -> Seq<char> {
    "GTKmm compilation to WASM is not yet implemented. GTKmm relies on native GTK+ which is not available in WebAssembly environments. Consider using web-based UI frameworks or ImGui for WASM applications."@
}

/// Executable test for `gtkmm_content_hit`.
fn gtkmm_content_hit_exec(c: &str) -> (r: bool)
    ensures
        r == gtkmm_content_hit(c@),
{
    crate::strutil::str_contains(c, "#include <gtkmm") || crate::strutil::str_contains(c, "#include \"gtkmm") || crate::strutil::str_contains(c, "Gtk::") || crate::strutil::str_contains(c, "Glib::") || crate::strutil::str_contains(c, "sigc::")
}

impl LibraryHandler for GtkmmHandler {
    open spec fn spec_name(&self) -> Seq<char> {
        "GTKmm"@
    }

    open spec fn spec_priority(&self) -> u32 {
        30u32
    }

    open spec fn spec_detect(&self, probe: &ProjectProbe) -> bool {
        gtkmm_detect(probe)
    }

    open spec fn spec_compile(&self, config: &AppConfig, probe: &ProjectProbe) -> Result<
        BuildPlanV,
        Seq<char>,
    > {
        Err(gtkmm_unsupported_msg())
    }

    fn library_name(&self) -> (r: &'static str) {
        "GTKmm"
    }

    fn detect(&self, probe: &ProjectProbe) -> (r: bool) {
        let entries = &probe.fs.entries;
        let root = probe.project_root.as_str();
        let mut k: usize = 0;
        while k < entries.len()
            invariant
                k <= entries@.len(),
                root@ == probe.project_root@,
                entries@ == probe.fs.entries@,
                forall|m: int|
                    0 <= m < k ==> !(is_cpp_or_header_entry(
                        #[trigger] entries@[m],
                        root@,
                    ) && gtkmm_content_hit(entries@[m].content@)),
            decreases entries@.len() - k,
        {
            let e = &entries[k];
            if crate::probe::check_cpp_or_header_entry(e, root) {
                if gtkmm_content_hit_exec(e.content.as_str()) {
                    return true;
                }
            }
            k += 1;
        }
        match crate::library_handlers::read_cmake_file(probe) {
            Some(content) => {
                if crate::strutil::str_contains(content.as_str(), "gtkmm")
                    || crate::strutil::str_contains(content.as_str(), "GTKmm")
                    || crate::strutil::str_contains(content.as_str(), "pkg_check_modules.*gtkmm") {
                    return true;
                }
            },
            None => {},
        }
        match crate::library_handlers::read_makefile(probe) {
            Some(content) => {
                if crate::strutil::str_contains(content.as_str(), "gtkmm")
                    || crate::strutil::str_contains(content.as_str(), "pkg-config.*gtkmm") {
                    return true;
                }
            },
            None => {},
        }
        false
    }

    fn compile(&self, config: &AppConfig, probe: &ProjectProbe) -> (r: Result<BuildPlan, String>) {
        Err("GTKmm compilation to WASM is not yet implemented. GTKmm relies on native GTK+ which is not available in WebAssembly environments. Consider using web-based UI frameworks or ImGui for WASM applications.".to_owned())
    }

    fn priority(&self) -> (r: u32) {
        30
    }
}

} // verus!
