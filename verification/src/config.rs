//! The configuration value object consumed by the compilation core.  The
//! command-line surface that produces it lives outside the library; the core
//! treats the configuration as immutable for the duration of one compile run.

use vstd::prelude::*;
use crate::strutil::split_ws;

verus! {

/// Settings of one compile run.
pub struct AppConfig {
    /// Path to the C++ project directory.
    pub project_path: String,
    /// Output directory for the WASM build.
    pub output_dir: String,
    /// Build configuration: `debug` and `release` (compared without regard
    /// to ASCII case) select fixed flag tables; anything else selects the
    /// default table.
    pub build_config: String,
    /// Target environment: `web`, `node`, or anything else for both.
    pub target_env: String,
    /// Enable the generic UI-toolkit support flags (windowing emulation,
    /// WebGL, memory growth).
    pub with_imgui: bool,
    /// Additional toolchain flags, whitespace-separated.
    pub emcc_flags: Option<String>,
    /// Base name of the final loader script and binary.
    pub output_name: String,
}

impl AppConfig {
    /// Builds a configuration from its parts.
    pub fn new(
        project_path: String,
        output_dir: String,
        build_config: String,
        target_env: String,
        with_imgui: bool,
        emcc_flags: Option<String>,
        output_name: String,
    ) -> (r: AppConfig)
        ensures
            r.project_path == project_path,
            r.output_dir == output_dir,
            r.build_config == build_config,
            r.target_env == target_env,
            r.with_imgui == with_imgui,
            r.emcc_flags == emcc_flags,
            r.output_name == output_name,
    {
        AppConfig {
            project_path,
            output_dir,
            build_config,
            target_env,
            with_imgui,
            emcc_flags,
            output_name,
        }
    }
}

/// The user-supplied extra flags split into whitespace-separated tokens;
/// empty when none were given.
pub open spec fn user_flag_tokens(c: &AppConfig) -> Seq<Seq<char>> {
    match c.emcc_flags {
        Some(f) => split_ws(f@),
        None => Seq::empty(),
    }
}

} // verus!
