//! Detector for OpenCV projects.  OpenCV cannot be compiled to WebAssembly by this
//! tool, so its compile routine fails fast with an explanation.

use vstd::prelude::*;
use crate::compiler::{BuildPlan, BuildPlanV};
use crate::config::AppConfig;
use crate::library_handlers::{build_file_has, cmake_file_content, makefile_content, LibraryHandler};
use crate::probe::{is_c_or_cpp_source_entry, ProjectProbe};
use crate::strutil::has_substring;

verus! {

pub struct OpenCVHandler;

impl OpenCVHandler {
    pub fn new() -> (r: Self) {
        OpenCVHandler
    }
}

/// A source text mentions OpenCV.
pub open spec fn opencv_content_hit(c: Seq<char>) -> bool {
    ||| has_substring(c, "#include <opencv2/"@)
    ||| has_substring(c, "#include \"opencv2/"@)
    ||| has_substring(c, "cv::"@)
    ||| has_substring(c, "CV_"@)
}

/// The build descriptions mention OpenCV.
pub open spec fn opencv_build_hit(probe: &ProjectProbe) -> bool {
    ||| build_file_has(cmake_file_content(probe), "OpenCV"@)
    ||| build_file_has(cmake_file_content(probe), "opencv"@)
    ||| build_file_has(makefile_content(probe), "opencv"@)
    ||| build_file_has(makefile_content(probe), "OpenCV"@)
}

/// OpenCV is detected in the probed project.
pub open spec fn opencv_detect(probe: &ProjectProbe) -> bool {
    ||| exists|k: int|
        0 <= k < probe.fs.entries@.len() && is_c_or_cpp_source_entry(
            #[trigger] probe.fs.entries@[k],
            probe.project_root@,
        ) && opencv_content_hit(probe.fs.entries@[k].content@)
    ||| opencv_build_hit(probe)
}

/// The explanation reported when a OpenCV project is found.
pub open spec fn opencv_unsupported_msg() -> Seq<char> {
    "OpenCV compilation to WASM is not yet implemented. OpenCV support for WebAssembly requires special configuration and is currently not supported by this compiler. Consider using OpenCV.js for web-based computer vision applications."@
}

/// Executable test for `opencv_content_hit`.
fn opencv_content_hit_exec(c: &str) -> (r: bool)
    ensures
        r == opencv_content_hit(c@),
{
    crate::strutil::str_contains(c, "#include <opencv2/") || crate::strutil::str_contains(c, "#include \"opencv2/") || crate::strutil::str_contains(c, "cv::") || crate::strutil::str_contains(c, "CV_")
}

impl LibraryHandler for OpenCVHandler {
    open spec fn spec_name(&self) -> Seq<char> {
        "OpenCV"@
    }

    open spec fn spec_priority(&self) -> u32 {
        20u32
    }

    open spec fn spec_detect(&self, probe: &ProjectProbe) -> bool {
        opencv_detect(probe)
    }

    open spec fn spec_compile(&self, config: &AppConfig, probe: &ProjectProbe) -> Result<
        BuildPlanV,
        Seq<char>,
    > {
        Err(opencv_unsupported_msg())
    }

    fn library_name(&self) -> (r: &'static str) {
        let r = "OpenCV";
        proof {
            reveal_strlit("OpenCV");
            assert(r@ =~= self.spec_name());
        }
        r
    }

    fn detect(&self, probe: &ProjectProbe) -> (r: bool) {
        let entries = &probe.fs.entries;
        let root = probe.project_root.as_str();
        let mut k: usize = 0;
        while k < entries.len()
            invariant
                k <= entries@.len(),
                root@ == probe.project_root@,
                entries@ == probe.fs.entries@,
                forall|m: int|
                    0 <= m < k ==> !(is_c_or_cpp_source_entry(
                        #[trigger] entries@[m],
                        root@,
                    ) && opencv_content_hit(entries@[m].content@)),
            decreases entries@.len() - k,
        {
            let e = &entries[k];
            if crate::probe::check_c_or_cpp_source_entry(e, root) {
                if opencv_content_hit_exec(e.content.as_str()) {
                    return true;
                }
            }
            k += 1;
        }
        match crate::library_handlers::read_cmake_file(probe) {
            Some(content) => {
                if crate::strutil::str_contains(content.as_str(), "OpenCV")
                    || crate::strutil::str_contains(content.as_str(), "opencv") {
                    return true;
                }
            },
            None => {},
        }
        match crate::library_handlers::read_makefile(probe) {
            Some(content) => {
                if crate::strutil::str_contains(content.as_str(), "opencv")
                    || crate::strutil::str_contains(content.as_str(), "OpenCV") {
                    return true;
                }
            },
            None => {},
        }
        false
    }

    fn compile(&self, config: &AppConfig, probe: &ProjectProbe) -> (r: Result<BuildPlan, String>) {
        Err("OpenCV compilation to WASM is not yet implemented. OpenCV support for WebAssembly requires special configuration and is currently not supported by this compiler. Consider using OpenCV.js for web-based computer vision applications.".to_owned())
    }

    fn priority(&self) -> (r: u32) {
        20
    }
}

} // verus!
