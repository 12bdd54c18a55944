//! Detector for JUCE projects.  JUCE targets desktop and mobile platforms, so its
//! compile routine fails fast with an explanation.

use vstd::prelude::*;
use crate::compiler::{BuildPlan, BuildPlanV};
use crate::config::AppConfig;
use crate::library_handlers::{build_file_has, cmake_file_content, root_has_ext, LibraryHandler};
use crate::probe::{is_cpp_or_header_entry, ProjectProbe};
use crate::strutil::has_substring;

verus! {

pub struct JuceHandler;

impl JuceHandler {
    pub fn new() -> (r: Self) {
        JuceHandler
    }
}

/// A source text mentions JUCE.
pub open spec fn juce_content_hit(c: Seq<char>) -> bool {
    ||| has_substring(c, "#include <juce_"@)
    ||| has_substring(c, "#include \"juce_"@)
    ||| has_substring(c, "JUCE_"@)
    ||| has_substring(c, "juce::"@)
    ||| has_substring(c, "JUCEApplication"@)
}

/// The CMake description mentions JUCE.
pub open spec fn juce_build_hit(probe: &ProjectProbe) -> bool {
    ||| build_file_has(cmake_file_content(probe), "JUCE"@)
    ||| build_file_has(cmake_file_content(probe), "juce_"@)
}

/// JUCE is detected in the probed project.
pub open spec fn juce_detect(probe: &ProjectProbe) -> bool {
    ||| exists|k: int|
        0 <= k < probe.fs.entries@.len() && is_cpp_or_header_entry(
            #[trigger] probe.fs.entries@[k],
            probe.project_root@,
        ) && juce_content_hit(probe.fs.entries@[k].content@)
    ||| root_has_ext(probe, "jucer"@)
    ||| juce_build_hit(probe)
}

/// The explanation reported when a JUCE project is found.
pub open spec fn juce_unsupported_msg() -> Seq<char> {
    "JUCE compilation to WASM is not yet implemented. JUCE is primarily designed for audio applications and desktop/mobile platforms. WebAssembly support for JUCE is experimental and requires special configuration. Consider using Web Audio API for web-based audio applications."@
}

/// Executable test for `juce_content_hit`.
fn juce_content_hit_exec(c: &str) -> (r: bool)
    ensures
        r == juce_content_hit(c@),
{
    crate::strutil::str_contains(c, "#include <juce_") || crate::strutil::str_contains(c, "#include \"juce_") || crate::strutil::str_contains(c, "JUCE_") || crate::strutil::str_contains(c, "juce::") || crate::strutil::str_contains(c, "JUCEApplication")
}

impl LibraryHandler for JuceHandler {
    open spec fn spec_name(&self) -> Seq<char> {
        "JUCE"@
    }

    open spec fn spec_priority(&self) -> u32 {
        35u32
    }

    open spec fn spec_detect(&self, probe: &ProjectProbe) -> bool {
        juce_detect(probe)
    }

    open spec fn spec_compile(&self, config: &AppConfig, probe: &ProjectProbe) -> Result<
        BuildPlanV,
        Seq<char>,
    > {
        Err(juce_unsupported_msg())
    }

    fn library_name(&self) -> (r: &'static str) {
        "JUCE"
    }

    fn detect(&self, probe: &ProjectProbe) -> (r: bool) {
        let entries = &probe.fs.entries;
        let root = probe.project_root.as_str();
        let mut k: usize = 0;
        while k < entries.len()
            invariant
                k <= entries@.len(),
                root@ == probe.project_root@,
                entries@ == probe.fs.entries@,
                forall|m: int|
                    0 <= m < k ==> !(is_cpp_or_header_entry(
                        #[trigger] entries@[m],
                        root@,
                    ) && juce_content_hit(entries@[m].content@)),
            decreases entries@.len() - k,
        {
            let e = &entries[k];
            if crate::probe::check_cpp_or_header_entry(e, root) {
                if juce_content_hit_exec(e.content.as_str()) {
                    return true;
                }
            }
            k += 1;
        }
        if crate::library_handlers::root_has_ext_file(probe, "jucer") {
            return true;
        }
        match crate::library_handlers::read_cmake_file(probe) {
            Some(content) => {
                if crate::strutil::str_contains(content.as_str(), "JUCE")
                    || crate::strutil::str_contains(content.as_str(), "juce_") {
                    return true;
                }
            },
            None => {},
        }
        false
    }

    fn compile(&self, config: &AppConfig, probe: &ProjectProbe) -> (r: Result<BuildPlan, String>) {
        Err("JUCE compilation to WASM is not yet implemented. JUCE is primarily designed for audio applications and desktop/mobile platforms. WebAssembly support for JUCE is experimental and requires special configuration. Consider using Web Audio API for web-based audio applications.".to_owned())
    }

    fn priority(&self) -> (r: u32) {
        35
    }
}

} // verus!
