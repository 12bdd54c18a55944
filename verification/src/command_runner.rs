//! Decisions around external tool invocation: resolving platform-specific
//! tool names, and classifying what an attempted invocation reported.  The
//! actual process spawning happens outside the library; its outcome comes
//! back as a `ToolOutcome` value.

use vstd::prelude::*;

verus! {

/// What the embedding program observed when it tried to run a tool.
pub enum ToolOutcome {
    /// The executable could not be found or started; the payload is the
    /// operating system's error text.
    NotFound(String),
    /// The process ran to completion.
    Exited { success: bool, status: String, stdout: String, stderr: String },
}

/// Ghost model of a `ToolOutcome`.
pub enum ToolOutcomeV {
    NotFound(Seq<char>),
    Exited { success: bool, status: Seq<char>, stdout: Seq<char>, stderr: Seq<char> },
}

impl View for ToolOutcome {
    type V = ToolOutcomeV;

    open spec fn view(&self) -> ToolOutcomeV {
        match self {
            ToolOutcome::NotFound(e) => ToolOutcomeV::NotFound(e@),
            ToolOutcome::Exited { success, status, stdout, stderr } => ToolOutcomeV::Exited {
                success: *success,
                status: status@,
                stdout: stdout@,
                stderr: stderr@,
            },
        }
    }
}

/// The tool is one of the Emscripten wrapper executables.
pub open spec fn is_em_tool(t: Seq<char>) -> bool {
    ||| t == "emcc"@
    ||| t == "em++"@
    ||| t == "emmake"@
    ||| t == "emcmake"@
    ||| t == "emar"@
    ||| t == "emranlib"@
    ||| t == "emlink"@
    ||| t == "emsize"@
    ||| t == "emstrip"@
}

/// Executable test for `is_em_tool`.
pub fn is_emscripten_tool(command_name: &str) -> (r: bool)
    ensures
        r == is_em_tool(command_name@),
{
    crate::strutil::eq_str(command_name, "emcc") || crate::strutil::eq_str(command_name, "em++")
        || crate::strutil::eq_str(command_name, "emmake") || crate::strutil::eq_str(
        command_name,
        "emcmake",
    ) || crate::strutil::eq_str(command_name, "emar") || crate::strutil::eq_str(
        command_name,
        "emranlib",
    ) || crate::strutil::eq_str(command_name, "emlink") || crate::strutil::eq_str(
        command_name,
        "emsize",
    ) || crate::strutil::eq_str(command_name, "emstrip")
}

/// The platform-resolved name of a tool: on Windows the Emscripten wrappers
/// get a `.bat` suffix, everywhere else the name is unchanged.
pub open spec fn resolve_tool_spec(t: Seq<char>, on_windows: bool) -> Seq<char> {
    if on_windows && is_em_tool(t) {
        t + ".bat"@
    } else {
        t
    }
}

/// Resolves the correct tool name for the platform described by
/// `on_windows`.
pub fn resolve_emscripten_tool(tool: &str, on_windows: bool) -> (r: String)
    ensures
        r@ == resolve_tool_spec(tool@, on_windows),
{
    if on_windows && is_emscripten_tool(tool) {
        tool.to_owned().concat(".bat")
    } else {
        tool.to_owned()
    }
}

/// The lightweight availability probe of the Make and CMake wrappers: they
/// print a usage text when run without arguments, so the tool counts as
/// available when the combined output mentions any of the expected words.
pub open spec fn probe_output_indicates_tool(stdout: Seq<char>, stderr: Seq<char>) -> bool {
    let combined = stdout + " "@ + stderr;
    ||| crate::strutil::has_substring(combined, "helper"@)
    ||| crate::strutil::has_substring(combined, "usage"@)
    ||| crate::strutil::has_substring(combined, "emscripten"@)
    ||| crate::strutil::has_substring(combined, "make"@)
    ||| crate::strutil::has_substring(combined, "FLAGS"@)
}

/// Decides the availability probe from captured output.
pub fn probe_indicates_tool(stdout: &str, stderr: &str) -> (r: bool)
    ensures
        r == probe_output_indicates_tool(stdout@, stderr@),
{
    let combined = stdout.to_owned().concat(" ").concat(stderr);
    crate::strutil::str_contains(combined.as_str(), "helper") || crate::strutil::str_contains(
        combined.as_str(),
        "usage",
    ) || crate::strutil::str_contains(combined.as_str(), "emscripten")
        || crate::strutil::str_contains(combined.as_str(), "make") || crate::strutil::str_contains(
        combined.as_str(),
        "FLAGS",
    )
}

/// The message reported when a tool is missing from the search path.
pub open spec fn tool_missing_msg(tool: Seq<char>) -> Seq<char> {
    tool + " not found in PATH. Please ensure Emscripten SDK is installed and configured."@
}

/// Builds `tool_missing_msg`.
pub fn tool_missing_message(tool: &str) -> (r: String)
    ensures
        r@ == tool_missing_msg(tool@),
{
    tool.to_owned().concat(
        " not found in PATH. Please ensure Emscripten SDK is installed and configured.",
    )
}

/// The diagnostic text of a completed-but-failed invocation: status and both
/// captured streams, verbatim.
pub open spec fn command_failed_msg(
    tool: Seq<char>,
    status: Seq<char>,
    stdout: Seq<char>,
    stderr: Seq<char>,
) -> Seq<char> {
    "Command '"@ + tool + "' failed with status: "@ + status + ".\nStdout: "@ + stdout
        + "\nStderr: "@ + stderr
}

/// The diagnostic text of an invocation that could not start at all.
pub open spec fn command_spawn_msg(tool: Seq<char>, err: Seq<char>) -> Seq<char> {
    "Failed to execute command '"@ + tool + "': "@ + err
        + ". Is it installed and in your PATH?"@
}

/// Classifies a tool outcome as the captured standard output on success, or
/// a diagnostic message naming the tool on any failure.
pub fn classify_tool_outcome(tool: &str, outcome: &ToolOutcome) -> (r: Result<String, String>)
    ensures
        match r {
            Ok(out) => outcome@ matches ToolOutcomeV::Exited { success, stdout, .. } && success
                && out@ == stdout,
            Err(m) => match outcome@ {
                ToolOutcomeV::NotFound(e) => m@ == command_spawn_msg(tool@, e),
                ToolOutcomeV::Exited { success, status, stdout, stderr } => !success && m@
                    == command_failed_msg(tool@, status, stdout, stderr),
            },
        },
{
    match outcome {
        ToolOutcome::NotFound(e) => {
            let m = "Failed to execute command '".to_owned().concat(tool).concat("': ").concat(
                e.as_str(),
            ).concat(". Is it installed and in your PATH?");
            proof {
                assert(m@ =~= command_spawn_msg(tool@, e@));
            }
            Err(m)
        },
        ToolOutcome::Exited { success, status, stdout, stderr } => {
            if *success {
                Ok(stdout.clone())
            } else {
                let m = "Command '".to_owned().concat(tool).concat(
                    "' failed with status: ",
                ).concat(status.as_str()).concat(".\nStdout: ").concat(stdout.as_str()).concat(
                    "\nStderr: ",
                ).concat(stderr.as_str());
                proof {
                    assert(m@ =~= command_failed_msg(tool@, status@, stdout@, stderr@));
                }
                Err(m)
            }
        },
    }
}

} // verus!
