//! The artifact collector: after a successful build it verifies that the
//! loader script and the binary both exist, and decides which copies bring
//! them into the output directory.  A missing artifact is always a
//! `FileSystem` error naming the missing path — the toolchain can silently
//! omit outputs under misconfiguration, and that must never pass as success.

use vstd::prelude::*;
use crate::compiler::ArtifactSet;
use crate::Error;

verus! {

pub struct ArtifactCollector;

/// One pending file copy.
pub struct CopyStep {
    pub src: String,
    pub dest: String,
}

/// Ghost model of a `CopyStep`.
#[verifier::ext_equal]
pub struct CopyStepV {
    pub src: Seq<char>,
    pub dest: Seq<char>,
}

impl View for CopyStep {
    type V = CopyStepV;

    open spec fn view(&self) -> CopyStepV {
        CopyStepV { src: self.src@, dest: self.dest@ }
    }
}

/// The message of a missing artifact.
pub open spec fn missing_artifact_msg(path: Seq<char>) -> Seq<char> {
    "Expected output file not found: "@ + path
}

/// The copies a checked artifact set requires: each file whose source
/// differs from its destination, loader script first.
pub open spec fn copies_of(a: &ArtifactSet) -> Seq<CopyStepV> {
    (if a.js_src@ != a.js_dest@ {
        seq![CopyStepV { src: a.js_src@, dest: a.js_dest@ }]
    } else {
        Seq::empty()
    }) + (if a.wasm_src@ != a.wasm_dest@ {
        seq![CopyStepV { src: a.wasm_src@, dest: a.wasm_dest@ }]
    } else {
        Seq::empty()
    })
}

impl ArtifactCollector {
    /// Decides what follows the existence check of the artifact pair: the
    /// required copies when both files exist, else a `FileSystem` error
    /// naming the first missing path (the loader script is checked first).
    pub fn check(artifacts: &ArtifactSet, js_exists: bool, wasm_exists: bool) -> (r: Result<
        Vec<CopyStep>,
        Error,
    >)
        ensures
            match r {
                Ok(steps) => js_exists && wasm_exists && steps@.map_values(|s: CopyStep| s@)
                    == copies_of(artifacts),
                Err(e) => {
                    &&& !(js_exists && wasm_exists)
                    &&& (e matches Error::FileSystem(m) && m@ == missing_artifact_msg(
                        if !js_exists {
                            artifacts.js_src@
                        } else {
                            artifacts.wasm_src@
                        },
                    ))
                },
            },
    {
        if !js_exists {
            let m = "Expected output file not found: ".to_owned().concat(
                artifacts.js_src.as_str(),
            );
            proof {
                assert(m@ =~= missing_artifact_msg(artifacts.js_src@));
            }
            return Err(Error::FileSystem(m));
        }
        if !wasm_exists {
            let m = "Expected output file not found: ".to_owned().concat(
                artifacts.wasm_src.as_str(),
            );
            proof {
                assert(m@ =~= missing_artifact_msg(artifacts.wasm_src@));
            }
            return Err(Error::FileSystem(m));
        }
        let mut steps: Vec<CopyStep> = Vec::new();
        if !crate::strutil::eq_str(artifacts.js_src.as_str(), artifacts.js_dest.as_str()) {
            steps.push(
                CopyStep { src: artifacts.js_src.clone(), dest: artifacts.js_dest.clone() },
            );
        }
        if !crate::strutil::eq_str(artifacts.wasm_src.as_str(), artifacts.wasm_dest.as_str()) {
            steps.push(
                CopyStep { src: artifacts.wasm_src.clone(), dest: artifacts.wasm_dest.clone() },
            );
        }
        proof {
            assert(steps@.map_values(|s: CopyStep| s@) =~~= copies_of(artifacts));
        }
        Ok(steps)
    }

    /// The `FileSystem` error of a copy that failed, with source and
    /// destination context and the reported reason.
    pub fn copy_failed_error(src: &str, dest: &str, reason: &str) -> (r: Error)
        ensures
            r matches Error::FileSystem(m) && m@ == copy_failed_msg(src@, dest@, reason@),
    {
        let m = "Failed to copy ".to_owned().concat(src).concat(" to ").concat(dest).concat(
            ": ",
        ).concat(reason);
        proof {
            assert(m@ =~= copy_failed_msg(src@, dest@, reason@));
        }
        Error::FileSystem(m)
    }
}

/// The message of a failed copy.
pub open spec fn copy_failed_msg(src: Seq<char>, dest: Seq<char>, reason: Seq<char>) -> Seq<
    char,
> {
    "Failed to copy "@ + src + " to "@ + dest + ": "@ + reason
}

} // verus!
