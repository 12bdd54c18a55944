//! The decision of whether a compiled project is a GUI application that
//! wants the static web-app wrapper.  Generating the wrapper's files is
//! templated text written by the embedding program; only the decision is
//! the library's concern.

use vstd::prelude::*;
use crate::config::AppConfig;
use crate::strutil::{has_substring, has_substring_nocase};

verus! {

/// The project is a GUI application: the UI-toolkit flag is set, the
/// project path mentions a graphics keyword (compared without regard to
/// ASCII case), or the extra flags ask for WebGL or a windowing library.
pub open spec fn gui_application(c: &AppConfig) -> bool {
    ||| c.with_imgui
    ||| has_substring_nocase(c.project_path@, "imgui"@)
    ||| has_substring_nocase(c.project_path@, "gui"@)
    ||| has_substring_nocase(c.project_path@, "graphics"@)
    ||| has_substring_nocase(c.project_path@, "opengl"@)
    ||| has_substring_nocase(c.project_path@, "sdl"@)
    ||| has_substring_nocase(c.project_path@, "glfw"@)
    ||| match c.emcc_flags {
        Some(f) => has_substring(f@, "WEBGL"@) || has_substring(f@, "USE_SDL"@)
            || has_substring(f@, "USE_GLFW"@),
        None => false,
    }
}

/// Decides whether the application needs the web-app wrapper.
pub fn is_gui_application(config: &AppConfig) -> (r: bool)
    ensures
        r == gui_application(config),
{
    if config.with_imgui {
        return true;
    }
    let p = config.project_path.as_str();
    if crate::strutil::str_contains_nocase(p, "imgui") || crate::strutil::str_contains_nocase(
        p,
        "gui",
    ) || crate::strutil::str_contains_nocase(p, "graphics")
        || crate::strutil::str_contains_nocase(p, "opengl") || crate::strutil::str_contains_nocase(
        p,
        "sdl",
    ) || crate::strutil::str_contains_nocase(p, "glfw") {
        return true;
    }
    match &config.emcc_flags {
        Some(f) => crate::strutil::str_contains(f.as_str(), "WEBGL")
            || crate::strutil::str_contains(f.as_str(), "USE_SDL")
            || crate::strutil::str_contains(f.as_str(), "USE_GLFW"),
        None => false,
    }
}

} // verus!
