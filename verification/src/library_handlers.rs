//! The library-handler registry: a closed list of detectors for third-party
//! UI and graphics dependencies.  Each handler exposes a detection probe, a
//! priority (lower = preferred), and a compile routine; most handlers detect
//! an unsupported dependency and fail fast with an explanatory message
//! naming the library, rather than letting the toolchain fail obscurely.
//!
//! Detection is a best-effort content heuristic: it substring-matches
//! include directives, symbol names and build-description files, and may
//! produce false negatives.  That is an accepted tradeoff, not a defect.

use vstd::prelude::*;
use crate::compiler::{BuildPlan, BuildPlanV};
use crate::config::AppConfig;
use crate::pathutil::{file_name_spec, join_spec, normal_form};
use crate::probe::{entry_in_dir, ProjectProbe};
use crate::strutil::{ext_is, has_substring};

verus! {

/// A handler for one third-party UI library.
pub trait LibraryHandler {
    /// The library's display name, as a spec value.
    spec fn spec_name(&self) -> Seq<char>;

    /// The handler's priority, as a spec value.
    spec fn spec_priority(&self) -> u32;

    /// What `detect` decides, as a predicate over the probe.
    spec fn spec_detect(&self, probe: &ProjectProbe) -> bool;

    /// What `compile` produces: a build plan, or the explanation why the
    /// library cannot be compiled to WebAssembly.
    spec fn spec_compile(&self, config: &AppConfig, probe: &ProjectProbe) -> Result<
        BuildPlanV,
        Seq<char>,
    >;

    /// The name of the library this handler manages.
    fn library_name(&self) -> (r: &'static str)
        ensures
            r@ == self.spec_name(),
    ;

    /// Detects whether this library is used in the probed project.
    fn detect(&self, probe: &ProjectProbe) -> (r: bool)
        ensures
            r == self.spec_detect(probe),
    ;

    /// Plans the compilation of the project with this library's specific
    /// requirements, or explains why that is unsupported.
    fn compile(&self, config: &AppConfig, probe: &ProjectProbe) -> (r: Result<BuildPlan, String>)
        ensures
            match r {
                Ok(p) => self.spec_compile(config, probe) == Ok::<BuildPlanV, Seq<char>>(p@),
                Err(e) => self.spec_compile(config, probe) == Err::<BuildPlanV, Seq<char>>(e@),
            },
    ;

    /// The priority of this handler; lower numbers win when several
    /// libraries are detected at once.
    fn priority(&self) -> (r: u32)
        ensures
            r == self.spec_priority(),
    ;
}

/// Content of the project root's CMake build description, if one stands
/// there and is readable.
pub open spec fn cmake_file_content(probe: &ProjectProbe) -> Option<Seq<char>> {
    probe.fs.spec_content(normal_form(join_spec(probe.project_root@, "CMakeLists.txt"@)))
}

/// Content of the project root's Make build description, if one stands
/// there and is readable.
pub open spec fn makefile_content(probe: &ProjectProbe) -> Option<Seq<char>> {
    probe.fs.spec_content(normal_form(join_spec(probe.project_root@, "Makefile"@)))
}

/// A build-description text mentions the pattern.
pub open spec fn build_file_has(content: Option<Seq<char>>, pat: Seq<char>) -> bool {
    match content {
        Some(t) => has_substring(t, pat),
        None => false,
    }
}

/// Reads the project root's CMake build description from the snapshot.
pub fn read_cmake_file<'a>(probe: &'a ProjectProbe) -> (r: Option<&'a String>)
    ensures
        match r {
            Some(c) => cmake_file_content(probe) == Some(c@),
            None => cmake_file_content(probe) is None,
        },
{
    let p = crate::pathutil::path_join(probe.project_root.as_str(), "CMakeLists.txt");
    probe.fs.read_file(p.as_str())
}

/// Reads the project root's Make build description from the snapshot.
pub fn read_makefile<'a>(probe: &'a ProjectProbe) -> (r: Option<&'a String>)
    ensures
        match r {
            Some(c) => makefile_content(probe) == Some(c@),
            None => makefile_content(probe) is None,
        },
{
    let p = crate::pathutil::path_join(probe.project_root.as_str(), "Makefile");
    probe.fs.read_file(p.as_str())
}

/// A file with the given extension stands directly in the project root.
pub open spec fn root_has_ext(probe: &ProjectProbe, ext: Seq<char>) -> bool {
    exists|k: int|
        0 <= k < probe.fs.entries@.len() && entry_in_dir(
            #[trigger] probe.fs.entries@[k],
            probe.project_root@,
        ) && ext_is(file_name_spec(probe.fs.entries@[k].path@), ext)
}

/// Executable test for `root_has_ext`.
pub fn root_has_ext_file(probe: &ProjectProbe, ext: &str) -> (r: bool)
    ensures
        r == root_has_ext(probe, ext@),
{
    let entries = &probe.fs.entries;
    let root = probe.project_root.as_str();
    let mut k: usize = 0;
    while k < entries.len()
        invariant
            k <= entries@.len(),
            root@ == probe.project_root@,
            entries@ == probe.fs.entries@,
            forall|m: int|
                0 <= m < k ==> !(entry_in_dir(#[trigger] entries@[m], root@) && ext_is(
                    file_name_spec(entries@[m].path@),
                    ext@,
                )),
        decreases entries@.len() - k,
    {
        if crate::probe::check_entry_with_ext(&entries[k], root, ext) {
            return true;
        }
        k += 1;
    }
    false
}

} // verus!

verus! {

/// One member of the closed handler list, dispatching the handler interface
/// to the matching implementation.
#[derive(Clone, Copy, PartialEq, Eq, Structural, Debug)]
pub enum LibraryKind {
    ImGui,
    OpenCV,
    Qt,
    Gtkmm,
    Juce,
    WxWidgets,
    Fltk,
    Cef,
    UltimatePlusPlus,
}

impl LibraryHandler for LibraryKind {
    open spec fn spec_name(&self) -> Seq<char> {
        match self {
            LibraryKind::ImGui => "ImGui"@,
            LibraryKind::OpenCV => "OpenCV"@,
            LibraryKind::Qt => "Qt"@,
            LibraryKind::Gtkmm => "GTKmm"@,
            LibraryKind::Juce => "JUCE"@,
            LibraryKind::WxWidgets => "wxWidgets"@,
            LibraryKind::Fltk => "FLTK"@,
            LibraryKind::Cef => "CEF"@,
            LibraryKind::UltimatePlusPlus => "Ultimate++"@,
        }
    }

    open spec fn spec_priority(&self) -> u32 {
        match self {
            LibraryKind::ImGui => 10u32,
            LibraryKind::OpenCV => 20u32,
            LibraryKind::Qt => 15u32,
            LibraryKind::Gtkmm => 30u32,
            LibraryKind::Juce => 35u32,
            LibraryKind::WxWidgets => 25u32,
            LibraryKind::Fltk => 40u32,
            LibraryKind::Cef => 50u32,
            LibraryKind::UltimatePlusPlus => 45u32,
        }
    }

    open spec fn spec_detect(&self, probe: &ProjectProbe) -> bool {
        match self {
            LibraryKind::ImGui => crate::imgui_handler::imgui_detect(probe),
            LibraryKind::OpenCV => crate::opencv_handler::opencv_detect(probe),
            LibraryKind::Qt => crate::qt_handler::qt_detect(probe),
            LibraryKind::Gtkmm => crate::gtkmm_handler::gtkmm_detect(probe),
            LibraryKind::Juce => crate::juce_handler::juce_detect(probe),
            LibraryKind::WxWidgets => crate::wxwidgets_handler::wxwidgets_detect(probe),
            LibraryKind::Fltk => crate::fltk_handler::fltk_detect(probe),
            LibraryKind::Cef => crate::cef_handler::cef_detect(probe),
            LibraryKind::UltimatePlusPlus => crate::ultimate_handler::upp_detect(probe),
        }
    }

    open spec fn spec_compile(&self, config: &AppConfig, probe: &ProjectProbe) -> Result<
        BuildPlanV,
        Seq<char>,
    > {
        match self {
            LibraryKind::ImGui => crate::imgui_handler::imgui_compile_spec(config, probe),
            LibraryKind::OpenCV => Err(crate::opencv_handler::opencv_unsupported_msg()),
            LibraryKind::Qt => Err(crate::qt_handler::qt_unsupported_msg()),
            LibraryKind::Gtkmm => Err(crate::gtkmm_handler::gtkmm_unsupported_msg()),
            LibraryKind::Juce => Err(crate::juce_handler::juce_unsupported_msg()),
            LibraryKind::WxWidgets => Err(crate::wxwidgets_handler::wxwidgets_unsupported_msg()),
            LibraryKind::Fltk => Err(crate::fltk_handler::fltk_unsupported_msg()),
            LibraryKind::Cef => Err(crate::cef_handler::cef_unsupported_msg()),
            LibraryKind::UltimatePlusPlus => Err(crate::ultimate_handler::upp_unsupported_msg()),
        }
    }

    fn library_name(&self) -> (r: &'static str) {
        match self {
            LibraryKind::ImGui => crate::imgui_handler::ImGuiHandler::new().library_name(),
            LibraryKind::OpenCV => crate::opencv_handler::OpenCVHandler::new().library_name(),
            LibraryKind::Qt => crate::qt_handler::QtHandler::new().library_name(),
            LibraryKind::Gtkmm => crate::gtkmm_handler::GtkmmHandler::new().library_name(),
            LibraryKind::Juce => crate::juce_handler::JuceHandler::new().library_name(),
            LibraryKind::WxWidgets => crate::wxwidgets_handler::WxWidgetsHandler::new().library_name(),
            LibraryKind::Fltk => crate::fltk_handler::FltkHandler::new().library_name(),
            LibraryKind::Cef => crate::cef_handler::CefHandler::new().library_name(),
            LibraryKind::UltimatePlusPlus => crate::ultimate_handler::UltimatePlusPlusHandler::new().library_name(),
        }
    }

    fn detect(&self, probe: &ProjectProbe) -> (r: bool) {
        match self {
            LibraryKind::ImGui => crate::imgui_handler::ImGuiHandler::new().detect(probe),
            LibraryKind::OpenCV => crate::opencv_handler::OpenCVHandler::new().detect(probe),
            LibraryKind::Qt => crate::qt_handler::QtHandler::new().detect(probe),
            LibraryKind::Gtkmm => crate::gtkmm_handler::GtkmmHandler::new().detect(probe),
            LibraryKind::Juce => crate::juce_handler::JuceHandler::new().detect(probe),
            LibraryKind::WxWidgets => crate::wxwidgets_handler::WxWidgetsHandler::new().detect(probe),
            LibraryKind::Fltk => crate::fltk_handler::FltkHandler::new().detect(probe),
            LibraryKind::Cef => crate::cef_handler::CefHandler::new().detect(probe),
            LibraryKind::UltimatePlusPlus => crate::ultimate_handler::UltimatePlusPlusHandler::new().detect(probe),
        }
    }

    fn compile(&self, config: &AppConfig, probe: &ProjectProbe) -> (r: Result<BuildPlan, String>) {
        match self {
            LibraryKind::ImGui => crate::imgui_handler::ImGuiHandler::new().compile(config, probe),
            LibraryKind::OpenCV => crate::opencv_handler::OpenCVHandler::new().compile(config, probe),
            LibraryKind::Qt => crate::qt_handler::QtHandler::new().compile(config, probe),
            LibraryKind::Gtkmm => crate::gtkmm_handler::GtkmmHandler::new().compile(config, probe),
            LibraryKind::Juce => crate::juce_handler::JuceHandler::new().compile(config, probe),
            LibraryKind::WxWidgets => crate::wxwidgets_handler::WxWidgetsHandler::new().compile(
                config,
                probe,
            ),
            LibraryKind::Fltk => crate::fltk_handler::FltkHandler::new().compile(config, probe),
            LibraryKind::Cef => crate::cef_handler::CefHandler::new().compile(config, probe),
            LibraryKind::UltimatePlusPlus =>
                crate::ultimate_handler::UltimatePlusPlusHandler::new().compile(config, probe),
        }
    }

    fn priority(&self) -> (r: u32) {
        match self {
            LibraryKind::ImGui => 10,
            LibraryKind::OpenCV => 20,
            LibraryKind::Qt => 15,
            LibraryKind::Gtkmm => 30,
            LibraryKind::Juce => 35,
            LibraryKind::WxWidgets => 25,
            LibraryKind::Fltk => 40,
            LibraryKind::Cef => 50,
            LibraryKind::UltimatePlusPlus => 45,
        }
    }
}

/// The registry: the fixed handler list in registration order.
pub open spec fn registry() -> Seq<LibraryKind> {
    seq![
        LibraryKind::ImGui,
        LibraryKind::OpenCV,
        LibraryKind::Qt,
        LibraryKind::Gtkmm,
        LibraryKind::Juce,
        LibraryKind::WxWidgets,
        LibraryKind::Fltk,
        LibraryKind::Cef,
        LibraryKind::UltimatePlusPlus,
    ]
}

/// All registered library handlers, in registration order.
pub fn get_all_handlers() -> (r: Vec<LibraryKind>)
    ensures
        r@ == registry(),
{
    let mut v: Vec<LibraryKind> = Vec::new();
    v.push(LibraryKind::ImGui);
    v.push(LibraryKind::OpenCV);
    v.push(LibraryKind::Qt);
    v.push(LibraryKind::Gtkmm);
    v.push(LibraryKind::Juce);
    v.push(LibraryKind::WxWidgets);
    v.push(LibraryKind::Fltk);
    v.push(LibraryKind::Cef);
    v.push(LibraryKind::UltimatePlusPlus);
    proof {
        assert(v@ =~= registry());
    }
    v
}

/// The handler the registry settles on, scanning from index `i`: among the
/// detected handlers the one with the numerically lowest priority, and among
/// equal priorities the one registered first.
pub open spec fn best_handler_from(probe: &ProjectProbe, i: int) -> Option<LibraryKind>
    decreases registry().len() - i when 0 <= i <= registry().len()
{
    if i >= registry().len() {
        None
    } else {
        let rest = best_handler_from(probe, i + 1);
        if !registry()[i].spec_detect(probe) {
            rest
        } else {
            match rest {
                None => Some(registry()[i]),
                Some(b) => if b.spec_priority() < registry()[i].spec_priority() {
                    Some(b)
                } else {
                    Some(registry()[i])
                },
            }
        }
    }
}

/// What the registry returns for the probed project.
pub open spec fn selected_handler(probe: &ProjectProbe) -> Option<LibraryKind> {
    best_handler_from(probe, 0)
}

/// A selection witness: the handler stands at `j` in the registry, is
/// detected, and every detected handler registered before it has a strictly
/// greater priority — so equal priorities fall to registration order.
pub open spec fn selection_witness(probe: &ProjectProbe, k: LibraryKind, i: int, j: int) -> bool {
    &&& i <= j < registry().len()
    &&& registry()[j] == k
    &&& registry()[j].spec_detect(probe)
    &&& forall|j2: int|
        i <= j2 < j && (#[trigger] registry()[j2]).spec_detect(probe) ==> registry()[
            j2
        ].spec_priority() > k.spec_priority()
}

/// The selection law: no detection means no selection, and a selection is a
/// detected handler of minimal priority, the earliest-registered one among
/// equals — deterministically, since the result is a function of the probe.
pub proof fn lemma_selected_handler(probe: &ProjectProbe, i: int)
    requires
        0 <= i <= registry().len(),
    ensures
        best_handler_from(probe, i) is None ==> forall|j: int|
            i <= j < registry().len() ==> !(#[trigger] registry()[j]).spec_detect(probe),
        best_handler_from(probe, i) matches Some(k) ==> {
            &&& exists|j: int| #[trigger] selection_witness(probe, k, i, j)
            &&& forall|j: int|
                i <= j < registry().len() && (#[trigger] registry()[j]).spec_detect(probe)
                    ==> k.spec_priority() <= registry()[j].spec_priority()
        },
    decreases registry().len() - i,
{
    if i >= registry().len() {
    } else {
        lemma_selected_handler(probe, i + 1);
        let rest = best_handler_from(probe, i + 1);
        if registry()[i].spec_detect(probe) {
            match rest {
                None => {
                    assert(selection_witness(probe, registry()[i], i, i));
                },
                Some(b) => {
                    if b.spec_priority() < registry()[i].spec_priority() {
                        let j = choose|j: int| #[trigger] selection_witness(probe, b, i + 1, j);
                        assert(selection_witness(probe, b, i, j));
                    } else {
                        assert(selection_witness(probe, registry()[i], i, i));
                    }
                },
            }
        } else {
            match rest {
                None => {
                },
                Some(b) => {
                    let j = choose|j: int| #[trigger] selection_witness(probe, b, i + 1, j);
                    assert(selection_witness(probe, b, i, j));
                },
            }
        }
    }
}

/// Runs every handler's detection probe and returns the winner by ascending
/// priority, registration order breaking ties.
pub fn detect_library_handler(probe: &ProjectProbe) -> (r: Option<LibraryKind>)
    ensures
        r == selected_handler(probe),
{
    let handlers = get_all_handlers();
    let mut best: Option<LibraryKind> = None;
    let mut best_priority: u32 = 0;
    let mut k: usize = handlers.len();
    while k > 0
        invariant
            k <= handlers@.len(),
            handlers@ == registry(),
            match best {
                None => best_handler_from(probe, k as int) is None,
                Some(b) => best_handler_from(probe, k as int) == Some(b) && best_priority
                    == b.spec_priority(),
            },
        decreases k,
    {
        k -= 1;
        let h = handlers[k];
        if h.detect(probe) {
            let p = h.priority();
            match best {
                Some(b) => {
                    if !(best_priority < p) {
                        best = Some(h);
                        best_priority = p;
                    }
                },
                None => {
                    best = Some(h);
                    best_priority = p;
                },
            }
        }
    }
    best
}

} // verus!
