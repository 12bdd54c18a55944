//! Detector for Ultimate++ projects.  Ultimate++ relies on native windowing systems, so
//! its compile routine fails fast with an explanation.

use vstd::prelude::*;
use crate::compiler::{BuildPlan, BuildPlanV};
use crate::config::AppConfig;
use crate::library_handlers::{root_has_ext, LibraryHandler};
use crate::probe::{is_cpp_or_header_entry, ProjectProbe};
use crate::strutil::has_substring;

verus! {

pub struct UltimatePlusPlusHandler;

impl UltimatePlusPlusHandler {
    pub fn new() -> (r: Self) {
        UltimatePlusPlusHandler
    }
}

/// A source text mentions Ultimate++.
pub open spec fn upp_content_hit(c: Seq<char>) -> bool {
    ||| has_substring(c, "#include <CtrlLib/"@)
    ||| has_substring(c, "#include \"CtrlLib/"@)
    ||| has_substring(c, "#include <Core/"@)
    ||| has_substring(c, "NAMESPACE_UPP"@)
    ||| has_substring(c, "using namespace Upp;"@)
    ||| has_substring(c, "Upp::"@)
}

/// An Ultimate++ workspace marker stands in the project root.
pub open spec fn upp_workspace_hit(probe: &ProjectProbe) -> bool {
    probe.fs.spec_has_file(
        crate::pathutil::normal_form(
            crate::pathutil::join_spec(probe.project_root@, "*.wsc"@),
        ),
    )
}

/// Ultimate++ is detected in the probed project.
pub open spec fn upp_detect(probe: &ProjectProbe) -> bool {
    ||| exists|k: int|
        0 <= k < probe.fs.entries@.len() && is_cpp_or_header_entry(
            #[trigger] probe.fs.entries@[k],
            probe.project_root@,
        ) && upp_content_hit(probe.fs.entries@[k].content@)
    ||| root_has_ext(probe, "upp"@)
    ||| upp_workspace_hit(probe)
}

/// The explanation reported when a Ultimate++ project is found.
pub open spec fn upp_unsupported_msg() -> Seq<char> {
    "Ultimate++ compilation to WASM is not yet implemented. Ultimate++ is a C++ cross-platform rapid application development suite that relies on native windowing systems. WebAssembly support would require significant framework modifications. Consider using web-based UI frameworks or ImGui for WASM applications."@
}

/// Executable test for `upp_content_hit`.
fn upp_content_hit_exec(c: &str) -> (r: bool)
    ensures
        r == upp_content_hit(c@),
{
    crate::strutil::str_contains(c, "#include <CtrlLib/") || crate::strutil::str_contains(c, "#include \"CtrlLib/") || crate::strutil::str_contains(c, "#include <Core/") || crate::strutil::str_contains(c, "NAMESPACE_UPP") || crate::strutil::str_contains(c, "using namespace Upp;") || crate::strutil::str_contains(c, "Upp::")
}

impl LibraryHandler for UltimatePlusPlusHandler {
    open spec fn spec_name(&self) -> Seq<char> {
        "Ultimate++"@
    }

    open spec fn spec_priority(&self) -> u32 {
        45u32
    }

    open spec fn spec_detect(&self, probe: &ProjectProbe) -> bool {
        upp_detect(probe)
    }

    open spec fn spec_compile(&self, config: &AppConfig, probe: &ProjectProbe) -> Result<
        BuildPlanV,
        Seq<char>,
    > {
        Err(upp_unsupported_msg())
    }

    fn library_name(&self) -> (r: &'static str) {
        let r = "Ultimate++";
        proof {
            reveal_strlit("Ultimate++");
            assert(r@ =~= self.spec_name());
        }
        r
    }

    fn detect(&self, probe: &ProjectProbe) -> (r: bool) {
        let entries = &probe.fs.entries;
        let root = probe.project_root.as_str();
        let mut k: usize = 0;
        while k < entries.len()
            invariant
                k <= entries@.len(),
                root@ == probe.project_root@,
                entries@ == probe.fs.entries@,
                forall|m: int|
                    0 <= m < k ==> !(is_cpp_or_header_entry(
                        #[trigger] entries@[m],
                        root@,
                    ) && upp_content_hit(entries@[m].content@)),
            decreases entries@.len() - k,
        {
            let e = &entries[k];
            if crate::probe::check_cpp_or_header_entry(e, root) {
                if upp_content_hit_exec(e.content.as_str()) {
                    return true;
                }
            }
            k += 1;
        }
        if crate::library_handlers::root_has_ext_file(probe, "upp") {
            return true;
        }
        let wsc = crate::pathutil::path_join(probe.project_root.as_str(), "*.wsc");
        probe.fs.has_file(wsc.as_str())
    }

    fn compile(&self, config: &AppConfig, probe: &ProjectProbe) -> (r: Result<BuildPlan, String>) {
        Err("Ultimate++ compilation to WASM is not yet implemented. Ultimate++ is a C++ cross-platform rapid application development suite that relies on native windowing systems. WebAssembly support would require significant framework modifications. Consider using web-based UI frameworks or ImGui for WASM applications.".to_owned())
    }

    fn priority(&self) -> (r: u32) {
        45
    }
}

} // verus!
