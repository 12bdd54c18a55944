//! The ImGui handler: the one library handler that performs a real
//! compilation.  It detects ImGui projects laid out like the upstream
//! examples (the library sources two levels above the project), gathers the
//! project and library sources together with the backend implementations the
//! project needs, derives inc directories from the inc directives of
//! every source, and plans a single toolchain invocation.

use vstd::prelude::*;
use crate::compiler::{BuildPlan, BuildPlanV};
use crate::config::AppConfig;
use crate::library_handlers::{build_file_has, LibraryHandler};
use crate::pathutil::{file_name_spec, join_spec, normal_form, parent_spec};
use crate::probe::{is_c_or_cpp_source_entry, is_cpp_source_entry, FsEntry, FsView, ProjectProbe};
use crate::strutil::{eq_ignore_case, has_substring, views_of};

verus! {

pub struct ImGuiHandler;

impl ImGuiHandler {
    pub fn new() -> (r: Self) {
        ImGuiHandler
    }
}

/// The conventional location of the ImGui library relative to an example
/// project: two directory levels up.
pub open spec fn imgui_dir_spec(root: Seq<char>) -> Seq<char> {
    join_spec(join_spec(root, ".."@), ".."@)
}

/// A source text mentions ImGui.
pub open spec fn imgui_content_hit(c: Seq<char>) -> bool {
    ||| has_substring(c, "#include \"imgui.h\""@)
    ||| has_substring(c, "#include <imgui.h>"@)
    ||| has_substring(c, "imgui_impl_"@)
}

/// Content of the project root's `main.cpp`, if present and readable.
pub open spec fn main_cpp_content(probe: &ProjectProbe) -> Option<Seq<char>> {
    probe.fs.spec_content(normal_form(join_spec(probe.project_root@, "main.cpp"@)))
}

/// ImGui is detected: the project path looks like an upstream example, the
/// library sources stand two levels up, or a source file mentions ImGui.
pub open spec fn imgui_detect(probe: &ProjectProbe) -> bool {
    let root = probe.project_root@;
    let d = imgui_dir_spec(root);
    ||| (has_substring(root, "imgui"@) && has_substring(root, "example"@))
    ||| (probe.fs.spec_has_file(normal_form(join_spec(d, "imgui.cpp"@)))
        && probe.fs.spec_has_file(normal_form(join_spec(d, "imgui.h"@))))
    ||| build_file_has(main_cpp_content(probe), "#include \"imgui.h\""@)
    ||| build_file_has(main_cpp_content(probe), "#include <imgui.h>"@)
    ||| build_file_has(main_cpp_content(probe), "imgui_impl_"@)
    ||| exists|k: int|
        0 <= k < probe.fs.entries@.len() && is_cpp_source_entry(
            #[trigger] probe.fs.entries@[k],
            probe.project_root@,
        ) && imgui_content_hit(probe.fs.entries@[k].content@)
}

/// The project's main source uses SDL.
pub open spec fn uses_sdl(mc: Option<Seq<char>>) -> bool {
    ||| build_file_has(mc, "SDL_"@)
    ||| build_file_has(mc, "#include <SDL"@)
    ||| build_file_has(mc, "#include \"SDL"@)
    ||| build_file_has(mc, "imgui_impl_sdl2"@)
    ||| build_file_has(mc, "imgui_impl_sdl3"@)
}

/// Which SDL major version the main source asks for; 3 when undecided.
pub open spec fn sdl_version(mc: Option<Seq<char>>) -> int {
    if build_file_has(mc, "imgui_impl_sdl3"@) {
        3
    } else if build_file_has(mc, "imgui_impl_sdl2"@) {
        2
    } else if build_file_has(mc, "SDL_"@) || build_file_has(mc, "#include <SDL"@)
        || build_file_has(mc, "#include \"SDL"@) {
        if build_file_has(mc, "SDL2/"@) || build_file_has(mc, "SDL_WINDOW_"@) {
            2
        } else if build_file_has(mc, "SDL3/"@) || build_file_has(mc, "SDL_CreateWindow"@) {
            3
        } else {
            3
        }
    } else {
        3
    }
}

/// The project's main source uses GLFW.
pub open spec fn uses_glfw(mc: Option<Seq<char>>) -> bool {
    ||| build_file_has(mc, "glfw"@)
    ||| build_file_has(mc, "GLFW"@)
    ||| build_file_has(mc, "imgui_impl_glfw"@)
}

/// The project's main source uses the fixed-function GL interface.
pub open spec fn uses_opengl2(mc: Option<Seq<char>>) -> bool {
    ||| build_file_has(mc, "GL_VERSION_2"@)
    ||| build_file_has(mc, "glBegin"@)
    ||| build_file_has(mc, "glVertex"@)
    ||| build_file_has(mc, "imgui_impl_opengl2"@)
}

/// The project's main source uses the shader-based GL interface.
pub open spec fn uses_opengl3(mc: Option<Seq<char>>) -> bool {
    ||| build_file_has(mc, "GL_VERSION_3"@)
    ||| build_file_has(mc, "glGenVertexArrays"@)
    ||| build_file_has(mc, "glUseProgram"@)
    ||| build_file_has(mc, "imgui_impl_opengl3"@)
}

/// The backend file name of the selected SDL version.
pub open spec fn sdl_backend_name(v: int) -> Seq<char> {
    if v == 2 {
        "imgui_impl_sdl2.cpp"@
    } else {
        "imgui_impl_sdl3.cpp"@
    }
}

/// The backend implementation files the project needs.  Web builds prefer
/// SDL and the shader-based GL backend as defaults; other targets inc
/// exactly what was detected; an empty outcome falls back to defaults
/// suggested by the project directory's name.
pub open spec fn needed_backends(c: &AppConfig, probe: &ProjectProbe) -> Seq<Seq<char>> {
    let mc = main_cpp_content(probe);
    let base: Seq<Seq<char>> = if eq_ignore_case(c.target_env@, "web"@) {
        (if uses_sdl(mc) || (!uses_glfw(mc) && !uses_sdl(mc)) {
            seq![sdl_backend_name(sdl_version(mc))]
        } else {
            Seq::empty()
        }) + (if uses_glfw(mc) {
            seq!["imgui_impl_glfw.cpp"@]
        } else {
            Seq::empty()
        }) + (if uses_opengl3(mc) || (!uses_opengl2(mc) && !uses_opengl3(mc)) {
            seq!["imgui_impl_opengl3.cpp"@]
        } else {
            seq!["imgui_impl_opengl2.cpp"@]
        })
    } else {
        (if uses_sdl(mc) {
            seq![sdl_backend_name(sdl_version(mc))]
        } else {
            Seq::empty()
        }) + (if uses_glfw(mc) {
            seq!["imgui_impl_glfw.cpp"@]
        } else {
            Seq::empty()
        }) + (if uses_opengl2(mc) {
            seq!["imgui_impl_opengl2.cpp"@]
        } else {
            Seq::empty()
        }) + (if uses_opengl3(mc) {
            seq!["imgui_impl_opengl3.cpp"@]
        } else {
            Seq::empty()
        })
    };
    if base.len() == 0 {
        let pname = file_name_spec(probe.project_root@);
        if has_substring(pname, "sdl"@) {
            seq!["imgui_impl_sdl3.cpp"@, "imgui_impl_opengl3.cpp"@]
        } else if has_substring(pname, "glfw"@) {
            seq!["imgui_impl_glfw.cpp"@, "imgui_impl_opengl3.cpp"@]
        } else {
            seq!["imgui_impl_sdl3.cpp"@, "imgui_impl_opengl3.cpp"@]
        }
    } else {
        base
    }
}

impl ImGuiHandler {
/// Reads the main source once and decides the needed backends.
pub fn determine_needed_backends(&self, config: &AppConfig, probe: &ProjectProbe) -> (r: Vec<String>)
    ensures
        views_of(r@) == needed_backends(config, probe),
{
    let main_path = crate::pathutil::path_join(probe.project_root.as_str(), "main.cpp");
    let mc = probe.fs.read_file(main_path.as_str());
    let (u_sdl, ver, u_glfw, u_gl2, u_gl3): (bool, usize, bool, bool, bool) = match mc {
        Some(content) => {
            let c = content.as_str();
            let sdl = crate::strutil::str_contains(c, "SDL_") || crate::strutil::str_contains(
                c,
                "#include <SDL",
            ) || crate::strutil::str_contains(c, "#include \"SDL")
                || crate::strutil::str_contains(c, "imgui_impl_sdl2")
                || crate::strutil::str_contains(c, "imgui_impl_sdl3");
            let v: usize = if crate::strutil::str_contains(c, "imgui_impl_sdl3") {
                3
            } else if crate::strutil::str_contains(c, "imgui_impl_sdl2") {
                2
            } else if crate::strutil::str_contains(c, "SDL_") || crate::strutil::str_contains(
                c,
                "#include <SDL",
            ) || crate::strutil::str_contains(c, "#include \"SDL") {
                if crate::strutil::str_contains(c, "SDL2/") || crate::strutil::str_contains(
                    c,
                    "SDL_WINDOW_",
                ) {
                    2
                } else if crate::strutil::str_contains(c, "SDL3/") || crate::strutil::str_contains(
                    c,
                    "SDL_CreateWindow",
                ) {
                    3
                } else {
                    3
                }
            } else {
                3
            };
            let glfw = crate::strutil::str_contains(c, "glfw") || crate::strutil::str_contains(
                c,
                "GLFW",
            ) || crate::strutil::str_contains(c, "imgui_impl_glfw");
            let gl2 = crate::strutil::str_contains(c, "GL_VERSION_2")
                || crate::strutil::str_contains(c, "glBegin") || crate::strutil::str_contains(
                c,
                "glVertex",
            ) || crate::strutil::str_contains(c, "imgui_impl_opengl2");
            let gl3 = crate::strutil::str_contains(c, "GL_VERSION_3")
                || crate::strutil::str_contains(c, "glGenVertexArrays")
                || crate::strutil::str_contains(c, "glUseProgram") || crate::strutil::str_contains(
                c,
                "imgui_impl_opengl3",
            );
            (sdl, v, glfw, gl2, gl3)
        },
        None => (false, 3, false, false, false),
    };
    let ghost mcv = main_cpp_content(probe);
    proof {
        assert(u_sdl == uses_sdl(mcv));
        assert(ver as int == sdl_version(mcv));
        assert(u_glfw == uses_glfw(mcv));
        assert(u_gl2 == uses_opengl2(mcv));
        assert(u_gl3 == uses_opengl3(mcv));
    }
    let mut backends: Vec<String> = Vec::new();
    if crate::strutil::eq_str_nocase(config.target_env.as_str(), "web") {
        if u_sdl || (!u_glfw && !u_sdl) {
            if ver == 2 {
                backends.push("imgui_impl_sdl2.cpp".to_owned());
            } else {
                backends.push("imgui_impl_sdl3.cpp".to_owned());
            }
        }
        if u_glfw {
            backends.push("imgui_impl_glfw.cpp".to_owned());
        }
        if u_gl3 || (!u_gl2 && !u_gl3) {
            backends.push("imgui_impl_opengl3.cpp".to_owned());
        } else {
            backends.push("imgui_impl_opengl2.cpp".to_owned());
        }
    } else {
        if u_sdl {
            if ver == 2 {
                backends.push("imgui_impl_sdl2.cpp".to_owned());
            } else {
                backends.push("imgui_impl_sdl3.cpp".to_owned());
            }
        }
        if u_glfw {
            backends.push("imgui_impl_glfw.cpp".to_owned());
        }
        if u_gl2 {
            backends.push("imgui_impl_opengl2.cpp".to_owned());
        }
        if u_gl3 {
            backends.push("imgui_impl_opengl3.cpp".to_owned());
        }
    }
    if backends.len() == 0 {
        let pname = crate::pathutil::file_name_of(probe.project_root.as_str());
        if crate::strutil::str_contains(pname.as_str(), "sdl") {
            backends.push("imgui_impl_sdl3.cpp".to_owned());
            backends.push("imgui_impl_opengl3.cpp".to_owned());
        } else if crate::strutil::str_contains(pname.as_str(), "glfw") {
            backends.push("imgui_impl_glfw.cpp".to_owned());
            backends.push("imgui_impl_opengl3.cpp".to_owned());
        } else {
            backends.push("imgui_impl_sdl3.cpp".to_owned());
            backends.push("imgui_impl_opengl3.cpp".to_owned());
        }
        proof {
            assert(views_of(backends@) =~~= needed_backends(config, probe));
        }
    } else {
        proof {
            assert(views_of(backends@) =~~= needed_backends(config, probe));
        }
    }
    backends
}
}

} // verus!

verus! {

/// The project-root source files (C and C++), in iteration order, from
/// index `i` on.
pub open spec fn sources_from(entries: Seq<FsEntry>, root: Seq<char>, i: int) -> Seq<Seq<char>>
    decreases entries.len() - i when 0 <= i <= entries.len()
{
    if i >= entries.len() {
        Seq::empty()
    } else {
        (if is_c_or_cpp_source_entry(entries[i], root) {
            seq![entries[i].path@]
        } else {
            Seq::empty()
        }) + sources_from(entries, root, i + 1)
    }
}

/// The ImGui library sources found beside the project, in their fixed order.
pub open spec fn imgui_lib_sources(d: Seq<char>, fs: &FsView) -> Seq<Seq<char>> {
    (if fs.spec_has_file(normal_form(join_spec(d, "imgui.cpp"@))) {
        seq![join_spec(d, "imgui.cpp"@)]
    } else {
        Seq::empty()
    }) + (if fs.spec_has_file(normal_form(join_spec(d, "imgui_demo.cpp"@))) {
        seq![join_spec(d, "imgui_demo.cpp"@)]
    } else {
        Seq::empty()
    }) + (if fs.spec_has_file(normal_form(join_spec(d, "imgui_draw.cpp"@))) {
        seq![join_spec(d, "imgui_draw.cpp"@)]
    } else {
        Seq::empty()
    }) + (if fs.spec_has_file(normal_form(join_spec(d, "imgui_tables.cpp"@))) {
        seq![join_spec(d, "imgui_tables.cpp"@)]
    } else {
        Seq::empty()
    }) + (if fs.spec_has_file(normal_form(join_spec(d, "imgui_widgets.cpp"@))) {
        seq![join_spec(d, "imgui_widgets.cpp"@)]
    } else {
        Seq::empty()
    })
}

/// The backend files that exist in the backends directory, among the needed
/// ones, in order.
pub open spec fn backend_additions(names: Seq<Seq<char>>, bd: Seq<char>, fs: &FsView) -> Seq<
    Seq<char>,
>
    decreases names.len(),
{
    if names.len() == 0 {
        Seq::empty()
    } else {
        (if fs.spec_has_file(normal_form(join_spec(bd, names[0]))) {
            seq![join_spec(bd, names[0])]
        } else {
            Seq::empty()
        }) + backend_additions(names.drop_first(), bd, fs)
    }
}

/// What `add_compatible_backends` appends: nothing without a backends
/// directory, else the needed backends that exist there.
pub open spec fn compatible_backend_sources(
    c: &AppConfig,
    probe: &ProjectProbe,
    d: Seq<char>,
) -> Seq<Seq<char>> {
    if probe.fs.spec_has_dir(normal_form(join_spec(d, "backends"@))) {
        backend_additions(needed_backends(c, probe), join_spec(d, "backends"@), &probe.fs)
    } else {
        Seq::empty()
    }
}

/// What `find_source_files` collects: the project sources, then — when the
/// conventional library directory exists — the library sources and the
/// needed backend implementations.
pub open spec fn find_sources_spec(c: &AppConfig, probe: &ProjectProbe) -> Seq<Seq<char>> {
    let root = probe.project_root@;
    let d = imgui_dir_spec(root);
    sources_from(probe.fs.entries@, root, 0) + if probe.fs.spec_has_dir(normal_form(d)) {
        imgui_lib_sources(d, &probe.fs) + compatible_backend_sources(c, probe, d)
    } else {
        Seq::empty()
    }
}

/// The fallback source list used when the directory scan finds nothing:
/// the conventional main source, the library sources, and the backends.
pub open spec fn fallback_sources_spec(c: &AppConfig, probe: &ProjectProbe) -> Seq<Seq<char>> {
    let root = probe.project_root@;
    let d = imgui_dir_spec(root);
    (if probe.fs.spec_has_file(normal_form(join_spec(root, "main.cpp"@))) {
        seq![join_spec(root, "main.cpp"@)]
    } else {
        Seq::empty()
    }) + imgui_lib_sources(d, &probe.fs) + if probe.fs.spec_has_dir(normal_form(d)) {
        compatible_backend_sources(c, probe, d)
    } else {
        Seq::empty()
    }
}

impl ImGuiHandler {
    /// Appends the needed backend implementations that exist in the
    /// library's backends directory.
    pub fn add_compatible_backends(
        &self,
        config: &AppConfig,
        probe: &ProjectProbe,
        imgui_dir: &str,
        sources: &mut Vec<String>,
    )
        ensures
            views_of(final(sources)@) == views_of(old(sources)@) + compatible_backend_sources(
                config,
                probe,
                imgui_dir@,
            ),
    {
        let backends_dir = crate::pathutil::path_join(imgui_dir, "backends");
        if !probe.fs.has_dir(backends_dir.as_str()) {
            proof {
                assert(views_of(sources@) =~~= views_of(old(sources)@) + Seq::<
                    Seq<char>,
                >::empty());
            }
            return ;
        }
        let needed = self.determine_needed_backends(config, probe);
        let ghost names = views_of(needed@);
        let mut i: usize = 0;
        proof {
            assert(names.skip(0) =~~= names);
        }
        while i < needed.len()
            invariant
                i <= needed@.len(),
                names == views_of(needed@),
                names == needed_backends(config, probe),
                backends_dir@ == join_spec(imgui_dir@, "backends"@),
                views_of(sources@) + backend_additions(names.skip(i as int), backends_dir@, &probe.fs)
                    == views_of(old(sources)@) + backend_additions(names, backends_dir@, &probe.fs),
            decreases needed@.len() - i,
        {
            let backend_path = crate::pathutil::path_join(backends_dir.as_str(), needed[i].as_str());
            let ghost cur = views_of(sources@);
            let ghost tail = names.skip(i as int);
            proof {
                assert(tail[0] == names[i as int]);
                assert(tail.drop_first() =~~= names.skip(i + 1));
            }
            if probe.fs.has_file(backend_path.as_str()) {
                sources.push(backend_path);
                proof {
                    assert(views_of(sources@) =~~= cur.push(
                        join_spec(backends_dir@, names[i as int]),
                    ));
                    assert(cur.push(join_spec(backends_dir@, names[i as int]))
                        + backend_additions(names.skip(i + 1), backends_dir@, &probe.fs) =~~= cur
                        + backend_additions(tail, backends_dir@, &probe.fs));
                }
            } else {
                proof {
                    assert(cur + backend_additions(names.skip(i + 1), backends_dir@, &probe.fs)
                        =~~= cur + backend_additions(tail, backends_dir@, &probe.fs));
                }
            }
            i += 1;
        }
        proof {
            assert(names.skip(needed@.len() as int) =~~= Seq::<Seq<char>>::empty());
            assert(views_of(sources@) + Seq::<Seq<char>>::empty() =~~= views_of(sources@));
            assert(views_of(old(sources)@) + backend_additions(names, backends_dir@, &probe.fs)
                =~~= views_of(old(sources)@) + compatible_backend_sources(
                config,
                probe,
                imgui_dir@,
            ));
        }
    }

    /// Collects the sources of the project and, when present, of the
    /// conventional library checkout beside it.
    #[verifier::rlimit(100)]
    pub fn find_source_files(
        &self,
        config: &AppConfig,
        probe: &ProjectProbe,
        sources: &mut Vec<String>,
    )
        ensures
            views_of(final(sources)@) == views_of(old(sources)@) + find_sources_spec(
                config,
                probe,
            ),
    {
        let entries = &probe.fs.entries;
        let root = probe.project_root.as_str();
        let mut k: usize = 0;
        while k < entries.len()
            invariant
                k <= entries@.len(),
                root@ == probe.project_root@,
                entries@ == probe.fs.entries@,
                views_of(sources@) + sources_from(entries@, root@, k as int) == views_of(
                    old(sources)@,
                ) + sources_from(entries@, root@, 0),
            decreases entries@.len() - k,
        {
            let e = &entries[k];
            let ghost cur = views_of(sources@);
            if crate::probe::check_c_or_cpp_source_entry(e, root) {
                sources.push(e.path.clone());
                proof {
                    assert(views_of(sources@) =~~= cur.push(entries@[k as int].path@));
                    assert(cur.push(entries@[k as int].path@) + sources_from(
                        entries@,
                        root@,
                        k + 1,
                    ) =~~= cur + sources_from(entries@, root@, k as int));
                }
            } else {
                proof {
                    assert(cur + sources_from(entries@, root@, k + 1) =~~= cur + sources_from(
                        entries@,
                        root@,
                        k as int,
                    ));
                }
            }
            k += 1;
        }
        proof {
            assert(sources_from(entries@, root@, entries@.len() as int) =~~= Seq::<
                Seq<char>,
            >::empty());
            assert(views_of(sources@) + Seq::<Seq<char>>::empty() =~~= views_of(sources@));
        }
        let up = crate::pathutil::path_join(root, "..");
        let imgui_dir = crate::pathutil::path_join(up.as_str(), "..");
        if probe.fs.has_dir(imgui_dir.as_str()) {
            let ghost cur = views_of(sources@);
            self.push_lib_source(probe, imgui_dir.as_str(), "imgui.cpp", sources);
            self.push_lib_source(probe, imgui_dir.as_str(), "imgui_demo.cpp", sources);
            self.push_lib_source(probe, imgui_dir.as_str(), "imgui_draw.cpp", sources);
            self.push_lib_source(probe, imgui_dir.as_str(), "imgui_tables.cpp", sources);
            self.push_lib_source(probe, imgui_dir.as_str(), "imgui_widgets.cpp", sources);
            proof {
                assert(views_of(sources@) =~~= cur + imgui_lib_sources(imgui_dir@, &probe.fs));
            }
            self.add_compatible_backends(config, probe, imgui_dir.as_str(), sources);
            proof {
                assert(views_of(sources@) =~~= views_of(old(sources)@) + find_sources_spec(
                    config,
                    probe,
                ));
            }
        } else {
            proof {
                assert(views_of(sources@) =~~= views_of(old(sources)@) + find_sources_spec(
                    config,
                    probe,
                ));
            }
        }
    }

    /// Pushes one library source when it exists beside the project.
    fn push_lib_source(
        &self,
        probe: &ProjectProbe,
        d: &str,
        name: &str,
        sources: &mut Vec<String>,
    )
        ensures
            views_of(final(sources)@) == views_of(old(sources)@) + (
            if probe.fs.spec_has_file(normal_form(join_spec(d@, name@))) {
                seq![join_spec(d@, name@)]
            } else {
                Seq::<Seq<char>>::empty()
            }),
    {
        let p = crate::pathutil::path_join(d, name);
        let ghost cur = views_of(sources@);
        if probe.fs.has_file(p.as_str()) {
            sources.push(p);
            proof {
                assert(views_of(sources@) =~~= cur + seq![join_spec(d@, name@)]);
            }
        } else {
            proof {
                assert(views_of(sources@) =~~= cur + Seq::<Seq<char>>::empty());
            }
        }
    }
}

} // verus!

verus! {

/// The directory of a source file; `.` for a bare file name.
pub open spec fn src_dir_of(source: Seq<char>) -> Seq<char> {
    match parent_spec(source) {
        Some(p) => p,
        None => "."@,
    }
}

/// The text starts with a `..` segment.
pub open spec fn starts_dotdot(s: Seq<char>) -> bool {
    s.len() >= 3 && s[0] == '.' && s[1] == '.' && s[2] == '/'
}

/// The text starts with a `.` segment.
pub open spec fn starts_dotslash(s: Seq<char>) -> bool {
    s.len() >= 2 && s[0] == '.' && s[1] == '/'
}

/// How many `../` segments stand at the front of the text.
pub open spec fn dotdot_count(s: Seq<char>) -> int
    decreases s.len(),
{
    if starts_dotdot(s) {
        1 + dotdot_count(s.skip(3))
    } else {
        0
    }
}

/// The chain of ancestor directories entered by `n` upward steps.
pub open spec fn parent_chain_inserts(dir: Seq<char>, n: int) -> Seq<Seq<char>>
    decreases n,
{
    if n <= 0 {
        Seq::empty()
    } else {
        match parent_spec(dir) {
            Some(p) => seq![p] + parent_chain_inserts(p, n - 1),
            None => Seq::empty(),
        }
    }
}

/// The first directory, walking upwards at most `fuel` levels, that holds
/// the inc path's first component.
pub open spec fn upward_search_insert(
    dir: Seq<char>,
    comp: Seq<char>,
    fs: &FsView,
    fuel: int,
) -> Seq<Seq<char>>
    decreases fuel,
{
    if fuel <= 0 {
        Seq::empty()
    } else if fs.spec_exists(normal_form(join_spec(dir, comp))) {
        seq![dir]
    } else {
        match parent_spec(dir) {
            Some(p) => upward_search_insert(p, comp, fs, fuel - 1),
            None => Seq::empty(),
        }
    }
}

/// The candidate inc directories contributed by one inc directive,
/// in insertion order and before de-duplication: the directive's own
/// directory when it exists, the ancestors entered by `..` segments, the
/// backends directory for backend headers, the nearest ancestor holding the
/// path's first component, the library root when its header is there, and
/// always the source's own directory.
pub open spec fn include_candidates(
    inc: Seq<char>,
    source: Seq<char>,
    fs: &FsView,
) -> Seq<Seq<char>> {
    let sd = src_dir_of(source);
    let relative = starts_dotdot(inc) || starts_dotslash(inc) || crate::strutil::first_index_of(inc, '/') == -1;
    (if relative {
        (match parent_spec(join_spec(sd, inc)) {
            Some(incdir) => if fs.spec_has_dir(normal_form(incdir)) {
                seq![incdir]
            } else {
                Seq::empty()
            },
            None => Seq::empty(),
        }) + (if starts_dotdot(inc) {
            seq![sd] + parent_chain_inserts(sd, dotdot_count(inc))
        } else {
            Seq::empty()
        })
    } else {
        (if crate::strutil::matches_at(inc, "imgui_impl_"@, 0) {
            let bd = join_spec(imgui_dir_spec(sd), "backends"@);
            if fs.spec_has_dir(normal_form(bd)) {
                seq![bd]
            } else {
                Seq::empty()
            }
        } else {
            Seq::empty()
        }) + upward_search_insert(
            sd,
            inc.take(crate::strutil::first_index_of(inc, '/')),
            fs,
            5,
        )
    }) + (if fs.spec_has_file(normal_form(join_spec(imgui_dir_spec(sd), "imgui.h"@))) {
        seq![imgui_dir_spec(sd)]
    } else {
        Seq::empty()
    }) + seq![sd]
}


/// Counts the `../` segments at the front of the text.
fn count_dotdots(s: &str) -> (r: usize)
    ensures
        r as int == dotdot_count(s@),
{
    let len = s.unicode_len();
    let mut n: usize = 0;
    let mut pos: usize = 0;
    proof {
        assert(s@.skip(0) =~= s@);
    }
    while len - pos >= 3 && s.get_char(pos) == '.' && s.get_char(pos + 1) == '.' && s.get_char(
        pos + 2,
    ) == '/'
        invariant
            len == s@.len(),
            pos == 3 * n,
            pos <= len,
            dotdot_count(s@) == n + dotdot_count(s@.skip(pos as int)),
        decreases len - pos,
    {
        proof {
            let t = s@.skip(pos as int);
            assert(t[0] == s@[pos as int]);
            assert(t[1] == s@[pos as int + 1]);
            assert(t[2] == s@[pos as int + 2]);
            assert(starts_dotdot(t));
            assert(t.skip(3) =~= s@.skip(pos + 3));
        }
        n += 1;
        pos += 3;
    }
    proof {
        let t = s@.skip(pos as int);
        if pos as int + 3 <= len {
            assert(t[0] == s@[pos as int]);
            assert(t[1] == s@[pos as int + 1]);
            assert(t[2] == s@[pos as int + 2]);
            assert(!starts_dotdot(t));
        } else {
            assert(t.len() < 3);
            assert(!starts_dotdot(t));
        }
        assert(dotdot_count(t) == 0);
    }
    n
}

impl ImGuiHandler {
    /// Builds the candidate directories of one inc directive.
    #[verifier::rlimit(100)]
    fn include_candidates_exec(&self, inc: &str, source_file: &str, fs: &FsView) -> (r: Vec<
        String,
    >)
        ensures
            views_of(r@) == include_candidates(inc@, source_file@, fs),
    {
        let sd: String = match crate::pathutil::parent_of(source_file) {
            Some(p) => p,
            None => {
                let dot = ".".to_owned();
                dot
            },
        };
        let ghost sdv = src_dir_of(source_file@);
        proof {
            assert(sd@ == sdv);
        }
        let mut out: Vec<String> = Vec::new();
        let ilen = inc.unicode_len();
        let is_dotdot = ilen >= 3 && inc.get_char(0) == '.' && inc.get_char(1) == '.'
            && inc.get_char(2) == '/';
        let is_dotslash = ilen >= 2 && inc.get_char(0) == '.' && inc.get_char(1) == '/';
        let slash = crate::strutil::find_char(inc, '/');
        proof {
            assert(is_dotdot == starts_dotdot(inc@));
            assert(is_dotslash == starts_dotslash(inc@));
            match slash {
                Some(q) => crate::strutil::lemma_find_is_first(inc@, '/', q as int),
                None => crate::strutil::lemma_find_none(inc@, '/'),
            }
        }
        if is_dotdot || is_dotslash || slash.is_none() {
            let resolved = crate::pathutil::path_join(sd.as_str(), inc);
            match crate::pathutil::parent_of(resolved.as_str()) {
                Some(incdir) => {
                    if fs.has_dir(incdir.as_str()) {
                        out.push(incdir);
                    }
                },
                None => {},
            }
            let ghost stage1 = (match parent_spec(join_spec(sdv, inc@)) {
                Some(incdir) => if fs.spec_has_dir(normal_form(incdir)) {
                    seq![incdir]
                } else {
                    Seq::<Seq<char>>::empty()
                },
                None => Seq::<Seq<char>>::empty(),
            });
            proof {
                assert(views_of(out@) =~~= stage1);
            }
            if is_dotdot {
                out.push(sd.clone());
                proof {
                    assert(views_of(out@) =~~= stage1 + seq![sdv]);
                }
                let count = count_dotdots(inc);
                let ghost total = dotdot_count(inc@);
                let mut current = sd.clone();
                let mut k: usize = 0;
                let mut stopped = false;
                let ghost base2 = views_of(out@);
                let ghost mut taken = Seq::<Seq<char>>::empty();
                proof {
                    assert(base2 + taken =~~= base2);
                }
                while k < count && !stopped
                    invariant
                        k <= count,
                        count as int == total,
                        views_of(out@) == base2 + taken,
                        !stopped ==> parent_chain_inserts(sdv, total) == taken
                            + parent_chain_inserts(current@, total - k),
                        stopped ==> parent_chain_inserts(sdv, total) == taken,
                    decreases count - k,
                {
                    match crate::pathutil::parent_of(current.as_str()) {
                        Some(p) => {
                            let ghost cur = views_of(out@);
                            out.push(p.clone());
                            proof {
                                assert(views_of(out@) =~~= cur.push(p@));
                                assert(cur.push(p@) =~~= base2 + taken.push(p@));
                                assert(parent_chain_inserts(current@, total - k) == seq![p@]
                                    + parent_chain_inserts(p@, total - k - 1));
                                assert(taken + (seq![p@] + parent_chain_inserts(
                                    p@,
                                    total - k - 1,
                                )) =~~= taken.push(p@) + parent_chain_inserts(
                                    p@,
                                    total - k - 1,
                                ));
                            }
                            proof {
                                taken = taken.push(p@);
                            }
                            current = p;
                        },
                        None => {
                            proof {
                                assert(parent_chain_inserts(current@, total - k) =~~= Seq::<
                                    Seq<char>,
                                >::empty());
                                assert(taken + Seq::<Seq<char>>::empty() =~~= taken);
                            }
                            stopped = true;
                        },
                    }
                    k += 1;
                }
                proof {
                    if !stopped {
                        assert(parent_chain_inserts(current@, 0) =~~= Seq::<Seq<char>>::empty());
                        assert(taken + Seq::<Seq<char>>::empty() =~~= taken);
                    }
                    assert(views_of(out@) =~~= stage1 + (seq![sdv] + parent_chain_inserts(
                        sdv,
                        total,
                    )));
                }
            }
        } else {
            if crate::strutil::str_starts_with(inc, "imgui_impl_") {
                let up1 = crate::pathutil::path_join(sd.as_str(), "..");
                let up2 = crate::pathutil::path_join(up1.as_str(), "..");
                let bd = crate::pathutil::path_join(up2.as_str(), "backends");
                if fs.has_dir(bd.as_str()) {
                    out.push(bd);
                }
            }
            let ghost stage1 = (if crate::strutil::matches_at(inc@, "imgui_impl_"@, 0) {
                let bd = join_spec(imgui_dir_spec(sdv), "backends"@);
                if fs.spec_has_dir(normal_form(bd)) {
                    seq![bd]
                } else {
                    Seq::<Seq<char>>::empty()
                }
            } else {
                Seq::<Seq<char>>::empty()
            });
            proof {
                assert(views_of(out@) =~~= stage1);
            }
            let q = match slash {
                Some(q) => q,
                None => 0,
            };
            let comp = inc.substring_char(0, q);
            let ghost compv = inc@.take(crate::strutil::first_index_of(inc@, '/'));
            proof {
                assert(comp@ =~= compv);
            }
            let mut current = sd.clone();
            let mut lvl: usize = 0;
            let mut found = false;
            let mut stopped = false;
            while lvl < 5 && !found && !stopped
                invariant
                    lvl <= 5,
                    comp@ == compv,
                    found ==> views_of(out@) == stage1 + upward_search_insert(sdv, compv, fs, 5),
                    stopped ==> views_of(out@) == stage1 && upward_search_insert(
                        sdv,
                        compv,
                        fs,
                        5,
                    ) =~~= Seq::<Seq<char>>::empty(),
                    (!found && !stopped) ==> views_of(out@) == stage1 && upward_search_insert(
                        sdv,
                        compv,
                        fs,
                        5,
                    ) == upward_search_insert(current@, compv, fs, 5 - lvl),
                decreases 5 - lvl,
            {
                let potential = crate::pathutil::path_join(current.as_str(), comp);
                if fs.exists_any(potential.as_str()) {
                    let ghost cur = views_of(out@);
                    proof {
                        assert(potential@ == join_spec(current@, compv));
                        assert(fs.spec_exists(normal_form(join_spec(current@, compv))));
                        assert(5 - lvl > 0);
                        assert(upward_search_insert(current@, compv, fs, 5 - lvl) =~~= seq![
                            current@,
                        ]);
                    }
                    out.push(current.clone());
                    found = true;
                    proof {
                        assert(views_of(out@) =~~= cur + seq![current@]);
                    }
                } else {
                    match crate::pathutil::parent_of(current.as_str()) {
                        Some(p) => {
                            proof {
                                assert(potential@ == join_spec(current@, compv));
                                assert(!fs.spec_exists(normal_form(join_spec(current@, compv))));
                                assert(upward_search_insert(current@, compv, fs, 5 - lvl)
                                    == upward_search_insert(p@, compv, fs, 5 - lvl - 1));
                            }
                            current = p;
                        },
                        None => {
                            proof {
                                assert(potential@ == join_spec(current@, compv));
                                assert(!fs.spec_exists(normal_form(join_spec(current@, compv))));
                                assert(upward_search_insert(current@, compv, fs, 5 - lvl) =~~=
                                Seq::<Seq<char>>::empty());
                            }
                            stopped = true;
                        },
                    }
                }
                lvl += 1;
            }
            proof {
                if !found && !stopped {
                    assert(upward_search_insert(current@, compv, fs, 0) =~~= Seq::<
                        Seq<char>,
                    >::empty());
                }
                assert(views_of(out@) =~~= stage1 + upward_search_insert(sdv, compv, fs, 5));
            }
        }
        let ghost branch_part = views_of(out@);
        let up1 = crate::pathutil::path_join(sd.as_str(), "..");
        let imgui_root = crate::pathutil::path_join(up1.as_str(), "..");
        let header = crate::pathutil::path_join(imgui_root.as_str(), "imgui.h");
        if fs.has_file(header.as_str()) {
            out.push(imgui_root);
            proof {
                assert(views_of(out@) =~~= branch_part + seq![imgui_dir_spec(sdv)]);
            }
        }
        out.push(sd);
        proof {
            assert(views_of(out@) =~~= include_candidates(inc@, source_file@, fs));
        }
        out
    }
}

} // verus!

verus! {

/// A line carries an include directive: `#include` after leading spaces.
pub open spec fn line_is_include(line: Seq<char>) -> bool {
    crate::strutil::matches_at(line, "#include"@, crate::strutil::first_nonspace(line))
}

/// The candidates contributed by the text of one include directive: the
/// quoted form wins over the angled form, and a lone delimiter yields
/// nothing.
pub open spec fn line_parse_candidates(
    line: Seq<char>,
    source: Seq<char>,
    fs: &FsView,
) -> Seq<Seq<char>> {
    let q = crate::strutil::first_index_of(line, '"');
    if q >= 0 {
        let e = crate::pathutil::last_index_of(line, '"');
        if q < e {
            include_candidates(line.subrange(q + 1, e), source, fs)
        } else {
            Seq::empty()
        }
    } else {
        let a = crate::strutil::first_index_of(line, '<');
        if a >= 0 {
            let e = crate::pathutil::last_index_of(line, '>');
            if a < e {
                include_candidates(line.subrange(a + 1, e), source, fs)
            } else {
                Seq::empty()
            }
        } else {
            Seq::empty()
        }
    }
}

/// The candidates of one line: only include-directive lines contribute.
pub open spec fn line_candidates(line: Seq<char>, source: Seq<char>, fs: &FsView) -> Seq<
    Seq<char>,
> {
    if line_is_include(line) {
        line_parse_candidates(line, source, fs)
    } else {
        Seq::empty()
    }
}

/// The candidates of all lines from index `i` on, concatenated in order.
pub open spec fn cands_from(
    lines: Seq<Seq<char>>,
    source: Seq<char>,
    fs: &FsView,
    i: int,
) -> Seq<Seq<char>>
    decreases lines.len() - i when 0 <= i <= lines.len()
{
    if i >= lines.len() {
        Seq::empty()
    } else {
        line_candidates(lines[i], source, fs) + cands_from(lines, source, fs, i + 1)
    }
}

/// The candidates contributed by one source file's text.
pub open spec fn source_cands(content: Seq<char>, source: Seq<char>, fs: &FsView) -> Seq<
    Seq<char>,
> {
    cands_from(crate::strutil::split_sep(content, '\n'), source, fs, 0)
}

impl ImGuiHandler {
    /// Extracts the candidate directories from one include-directive line
    /// and inserts the new ones.
    pub fn parse_include_line(
        &self,
        line: &str,
        source_file: &str,
        fs: &FsView,
        include_paths: &mut Vec<String>,
    )
        ensures
            views_of(final(include_paths)@) == crate::flags::append_unique(
                views_of(old(include_paths)@),
                line_parse_candidates(line@, source_file@, fs),
            ),
    {
        match crate::strutil::find_char(line, '"') {
            Some(a) => {
                proof {
                    crate::strutil::lemma_find_is_first(line@, '"', a as int);
                }
                match crate::strutil::rfind_char(line, '"') {
                    Some(b) => {
                        proof {
                            crate::pathutil::lemma_rfind_is_last(line@, '"', b as int);
                        }
                        if a < b {
                            let inner = line.substring_char(a + 1, b);
                            let cands = self.include_candidates_exec(inner, source_file, fs);
                            proof {
                                assert(inner@ =~= line@.subrange(a + 1, b as int));
                            }
                            crate::flags::push_unique_tokens(include_paths, &cands);
                        } else {
                            proof {
                                assert(crate::flags::append_unique(
                                    views_of(include_paths@),
                                    Seq::<Seq<char>>::empty(),
                                ) == views_of(include_paths@));
                            }
                        }
                    },
                    None => {
                        proof {
                            assert(line@[a as int] == '"');
                        }
                    },
                }
            },
            None => {
                proof {
                    crate::strutil::lemma_find_none(line@, '"');
                }
                match crate::strutil::find_char(line, '<') {
                    Some(a) => {
                        proof {
                            crate::strutil::lemma_find_is_first(line@, '<', a as int);
                        }
                        match crate::strutil::rfind_char(line, '>') {
                            Some(b) => {
                                proof {
                                    crate::pathutil::lemma_rfind_is_last(line@, '>', b as int);
                                }
                                if a < b {
                                    let inner = line.substring_char(a + 1, b);
                                    let cands = self.include_candidates_exec(
                                        inner,
                                        source_file,
                                        fs,
                                    );
                                    proof {
                                        assert(inner@ =~= line@.subrange(a + 1, b as int));
                                    }
                                    crate::flags::push_unique_tokens(include_paths, &cands);
                                } else {
                                    proof {
                                        assert(crate::flags::append_unique(
                                            views_of(include_paths@),
                                            Seq::<Seq<char>>::empty(),
                                        ) == views_of(include_paths@));
                                    }
                                }
                            },
                            None => {
                                proof {
                                    crate::pathutil::lemma_rfind_none(line@, '>');
                                    assert(crate::flags::append_unique(
                                        views_of(include_paths@),
                                        Seq::<Seq<char>>::empty(),
                                    ) == views_of(include_paths@));
                                }
                            },
                        }
                    },
                    None => {
                        proof {
                            crate::strutil::lemma_find_none(line@, '<');
                            assert(crate::flags::append_unique(
                                views_of(include_paths@),
                                Seq::<Seq<char>>::empty(),
                            ) == views_of(include_paths@));
                        }
                    },
                }
            },
        }
    }

    /// Scans one source text line by line and collects the include
    /// directories its directives point at.
    pub fn extract_include_paths(
        &self,
        source_file: &str,
        content: &str,
        fs: &FsView,
        include_paths: &mut Vec<String>,
    )
        ensures
            views_of(final(include_paths)@) == crate::flags::append_unique(
                views_of(old(include_paths)@),
                source_cands(content@, source_file@, fs),
            ),
    {
        let lines = crate::strutil::split_on_char(content, '\n');
        let ghost lv = views_of(lines@);
        let mut k: usize = 0;
        proof {
            assert(crate::flags::append_unique(views_of(include_paths@), Seq::<
                Seq<char>,
            >::empty()) == views_of(include_paths@));
        }
        while k < lines.len()
            invariant
                k <= lines@.len(),
                lv == views_of(lines@),
                lv == crate::strutil::split_sep(content@, '\n'),
                crate::flags::append_unique(
                    views_of(old(include_paths)@),
                    cands_from(lv, source_file@, fs, 0),
                ) == crate::flags::append_unique(
                    views_of(include_paths@),
                    cands_from(lv, source_file@, fs, k as int),
                ),
            decreases lines@.len() - k,
        {
            let line = &lines[k];
            let ghost pre = views_of(include_paths@);
            let ghost lc = line_candidates(lv[k as int], source_file@, fs);
            proof {
                assert(cands_from(lv, source_file@, fs, k as int) == lc + cands_from(
                    lv,
                    source_file@,
                    fs,
                    k + 1,
                ));
                crate::flags::lemma_append_unique_concat(
                    pre,
                    lc,
                    cands_from(lv, source_file@, fs, k + 1),
                );
            }
            let start = crate::strutil::skip_leading_spaces(line.as_str());
            if crate::strutil::matches_at_pos(line.as_str(), "#include", start) {
                self.parse_include_line(line.as_str(), source_file, fs, include_paths);
            } else {
                proof {
                    assert(crate::flags::append_unique(pre, lc) == pre);
                }
            }
            k += 1;
        }
        proof {
            assert(cands_from(lv, source_file@, fs, lv.len() as int) =~~= Seq::<
                Seq<char>,
            >::empty());
        }
    }
}

} // verus!

verus! {

/// First source whose content is missing from the snapshot, from `i` on.
pub open spec fn first_unreadable(paths: Seq<Seq<char>>, fs: &FsView, i: int) -> Option<
    Seq<char>,
>
    decreases paths.len() - i when 0 <= i <= paths.len()
{
    if i >= paths.len() {
        None
    } else if fs.spec_content(normal_form(paths[i])) is None {
        Some(paths[i])
    } else {
        first_unreadable(paths, fs, i + 1)
    }
}

/// The concatenated include candidates of all sources from `i` on.
pub open spec fn all_cands(paths: Seq<Seq<char>>, fs: &FsView, i: int) -> Seq<Seq<char>>
    decreases paths.len() - i when 0 <= i <= paths.len()
{
    if i >= paths.len() {
        Seq::empty()
    } else {
        (match fs.spec_content(normal_form(paths[i])) {
            Some(c) => source_cands(c, paths[i], fs),
            None => Seq::empty(),
        }) + all_cands(paths, fs, i + 1)
    }
}

/// The include directories of a source list: every candidate, first
/// insertion wins.
pub open spec fn include_paths_spec(paths: Seq<Seq<char>>, fs: &FsView) -> Seq<Seq<char>> {
    crate::flags::append_unique(Seq::empty(), all_cands(paths, fs, 0))
}

/// One of the sources is an SDL backend implementation.
pub open spec fn sources_use_sdl(paths: Seq<Seq<char>>) -> bool {
    exists|i: int|
        0 <= i < paths.len() && has_substring(
            file_name_spec(#[trigger] paths[i]),
            "imgui_impl_sdl"@,
        )
}

/// One of the sources is the GLFW backend implementation.
pub open spec fn sources_use_glfw(paths: Seq<Seq<char>>) -> bool {
    exists|i: int|
        0 <= i < paths.len() && has_substring(
            file_name_spec(#[trigger] paths[i]),
            "imgui_impl_glfw"@,
        )
}

/// The planned UI-toolkit build: one toolchain invocation in the project
/// root, producing the artifact pair directly in the output directory.
pub open spec fn imgui_plan(
    c: &AppConfig,
    probe: &ProjectProbe,
    sources: Seq<Seq<char>>,
) -> BuildPlanV {
    let out_js = join_spec(c.output_dir@, c.output_name@ + ".js"@);
    let out_wasm = join_spec(c.output_dir@, c.output_name@ + ".wasm"@);
    crate::compiler::BuildPlanV {
        pre_dirs: Seq::empty(),
        tools: seq![
            crate::compiler::ToolInvocationV {
                tool: crate::command_runner::resolve_tool_spec("em++"@, probe.on_windows),
                args: crate::flags::imgui_args(
                    c,
                    sources,
                    include_paths_spec(sources, &probe.fs),
                    sources_use_sdl(sources),
                    sources_use_glfw(sources),
                    out_js,
                ),
                working_dir: probe.project_root@,
            },
        ],
        artifacts: crate::compiler::ArtifactSetV {
            js_src: out_js,
            wasm_src: out_wasm,
            js_dest: out_js,
            wasm_dest: out_wasm,
        },
    }
}

/// The sources the compile route settles on: the scan, or the fallback list
/// when the scan finds nothing.
pub open spec fn chosen_sources(c: &AppConfig, probe: &ProjectProbe) -> Seq<Seq<char>> {
    let s0 = find_sources_spec(c, probe);
    if s0.len() == 0 {
        fallback_sources_spec(c, probe)
    } else {
        s0
    }
}

/// What the UI-toolkit compile route decides, start to finish.
pub open spec fn imgui_compile_spec(c: &AppConfig, probe: &ProjectProbe) -> Result<
    BuildPlanV,
    Seq<char>,
> {
    let s = chosen_sources(c, probe);
    if s.len() == 0 {
        Err("No source files found for ImGui project"@)
    } else {
        match first_unreadable(s, &probe.fs, 0) {
            Some(p) => Err("Failed to read source file "@ + p),
            None => Ok(imgui_plan(c, probe, s)),
        }
    }
}

impl ImGuiHandler {
    /// Appends the fallback source list: the conventional main source, the
    /// library sources, and the backends.
    #[verifier::rlimit(100)]
    fn collect_fallback_sources(
        &self,
        config: &AppConfig,
        probe: &ProjectProbe,
        sources: &mut Vec<String>,
    )
        ensures
            views_of(final(sources)@) == views_of(old(sources)@) + fallback_sources_spec(
                config,
                probe,
            ),
    {
        let root = probe.project_root.as_str();
        let main_path = crate::pathutil::path_join(root, "main.cpp");
        let ghost cur0 = views_of(sources@);
        if probe.fs.has_file(main_path.as_str()) {
            sources.push(main_path);
            proof {
                assert(views_of(sources@) =~~= cur0 + seq![
                    join_spec(probe.project_root@, "main.cpp"@),
                ]);
            }
        } else {
            proof {
                assert(views_of(sources@) =~~= cur0 + Seq::<Seq<char>>::empty());
            }
        }
        let up = crate::pathutil::path_join(root, "..");
        let imgui_dir = crate::pathutil::path_join(up.as_str(), "..");
        let ghost cur1 = views_of(sources@);
        self.push_lib_source(probe, imgui_dir.as_str(), "imgui.cpp", sources);
        self.push_lib_source(probe, imgui_dir.as_str(), "imgui_demo.cpp", sources);
        self.push_lib_source(probe, imgui_dir.as_str(), "imgui_draw.cpp", sources);
        self.push_lib_source(probe, imgui_dir.as_str(), "imgui_tables.cpp", sources);
        self.push_lib_source(probe, imgui_dir.as_str(), "imgui_widgets.cpp", sources);
        proof {
            assert(views_of(sources@) =~~= cur1 + imgui_lib_sources(imgui_dir@, &probe.fs));
        }
        if probe.fs.has_dir(imgui_dir.as_str()) {
            self.add_compatible_backends(config, probe, imgui_dir.as_str(), sources);
        }
        proof {
            assert(views_of(sources@) =~~= views_of(old(sources)@) + fallback_sources_spec(
                config,
                probe,
            ));
        }
    }
}

impl LibraryHandler for ImGuiHandler {
    open spec fn spec_name(&self) -> Seq<char> {
        "ImGui"@
    }

    open spec fn spec_priority(&self) -> u32 {
        10u32
    }

    open spec fn spec_detect(&self, probe: &ProjectProbe) -> bool {
        imgui_detect(probe)
    }

    open spec fn spec_compile(&self, config: &AppConfig, probe: &ProjectProbe) -> Result<
        BuildPlanV,
        Seq<char>,
    > {
        imgui_compile_spec(config, probe)
    }

    fn library_name(&self) -> (r: &'static str) {
        "ImGui"
    }

    fn detect(&self, probe: &ProjectProbe) -> (r: bool) {
        let root = probe.project_root.as_str();
        if crate::strutil::str_contains(root, "imgui") && crate::strutil::str_contains(
            root,
            "example",
        ) {
            return true;
        }
        let up = crate::pathutil::path_join(root, "..");
        let imgui_dir = crate::pathutil::path_join(up.as_str(), "..");
        let lib_cpp = crate::pathutil::path_join(imgui_dir.as_str(), "imgui.cpp");
        let lib_h = crate::pathutil::path_join(imgui_dir.as_str(), "imgui.h");
        if probe.fs.has_file(lib_cpp.as_str()) && probe.fs.has_file(lib_h.as_str()) {
            return true;
        }
        let main_path = crate::pathutil::path_join(root, "main.cpp");
        match probe.fs.read_file(main_path.as_str()) {
            Some(content) => {
                if crate::strutil::str_contains(content.as_str(), "#include \"imgui.h\"")
                    || crate::strutil::str_contains(content.as_str(), "#include <imgui.h>")
                    || crate::strutil::str_contains(content.as_str(), "imgui_impl_") {
                    return true;
                }
            },
            None => {},
        }
        let entries = &probe.fs.entries;
        let mut k: usize = 0;
        while k < entries.len()
            invariant
                k <= entries@.len(),
                root@ == probe.project_root@,
                entries@ == probe.fs.entries@,
                forall|m: int|
                    0 <= m < k ==> !(is_cpp_source_entry(
                        #[trigger] entries@[m],
                        root@,
                    ) && imgui_content_hit(entries@[m].content@)),
            decreases entries@.len() - k,
        {
            let e = &entries[k];
            if crate::probe::check_cpp_source_entry(e, root) {
                let c = e.content.as_str();
                if crate::strutil::str_contains(c, "#include \"imgui.h\"")
                    || crate::strutil::str_contains(c, "#include <imgui.h>")
                    || crate::strutil::str_contains(c, "imgui_impl_") {
                    return true;
                }
            }
            k += 1;
        }
        false
    }

    #[verifier::rlimit(100)]
    fn compile(&self, config: &AppConfig, probe: &ProjectProbe) -> (r: Result<BuildPlan, String>) {
        let mut sources: Vec<String> = Vec::new();
        self.find_source_files(config, probe, &mut sources);
        proof {
            assert(views_of(sources@) =~~= find_sources_spec(config, probe));
        }
        if sources.len() == 0 {
            self.collect_fallback_sources(config, probe, &mut sources);
            proof {
                assert(views_of(sources@) =~~= chosen_sources(config, probe));
            }
        }
        let ghost sv = views_of(sources@);
        proof {
            assert(sv == chosen_sources(config, probe));
        }
        if sources.len() == 0 {
            return Err("No source files found for ImGui project".to_owned());
        }
        let mut include_paths: Vec<String> = Vec::new();
        let mut i: usize = 0;
        proof {
            assert(views_of(include_paths@) =~~= Seq::<Seq<char>>::empty());
            assert(crate::flags::append_unique(Seq::empty(), Seq::<Seq<char>>::empty())
                == Seq::<Seq<char>>::empty());
        }
        while i < sources.len()
            invariant
                i <= sources@.len(),
                sv == views_of(sources@),
                sv == chosen_sources(config, probe),
                sv.len() > 0,
                first_unreadable(sv, &probe.fs, 0) == first_unreadable(sv, &probe.fs, i as int),
                crate::flags::append_unique(Seq::empty(), all_cands(sv, &probe.fs, 0))
                    == crate::flags::append_unique(
                    views_of(include_paths@),
                    all_cands(sv, &probe.fs, i as int),
                ),
            decreases sources@.len() - i,
        {
            let ghost pre = views_of(include_paths@);
            let ghost here = (match probe.fs.spec_content(normal_form(sv[i as int])) {
                Some(c) => source_cands(c, sv[i as int], &probe.fs),
                None => Seq::<Seq<char>>::empty(),
            });
            proof {
                assert(all_cands(sv, &probe.fs, i as int) == here + all_cands(
                    sv,
                    &probe.fs,
                    i + 1,
                ));
                crate::flags::lemma_append_unique_concat(
                    pre,
                    here,
                    all_cands(sv, &probe.fs, i + 1),
                );
            }
            match probe.fs.read_file(sources[i].as_str()) {
                Some(content) => {
                    let src = sources[i].clone();
                    self.extract_include_paths(
                        src.as_str(),
                        content.as_str(),
                        &probe.fs,
                        &mut include_paths,
                    );
                },
                None => {
                    proof {
                        assert(first_unreadable(sv, &probe.fs, i as int) == Some(sv[i as int]));
                    }
                    let msg = "Failed to read source file ".to_owned().concat(
                        sources[i].as_str(),
                    );
                    proof {
                        assert(msg@ =~= "Failed to read source file "@ + sv[i as int]);
                    }
                    return Err(msg);
                },
            }
            i += 1;
        }
        proof {
            assert(all_cands(sv, &probe.fs, sv.len() as int) =~~= Seq::<Seq<char>>::empty());
            assert(views_of(include_paths@) == include_paths_spec(sv, &probe.fs));
            assert(first_unreadable(sv, &probe.fs, sv.len() as int) is None);
        }
        let mut u_sdl = false;
        let mut u_glfw = false;
        let mut j: usize = 0;
        while j < sources.len()
            invariant
                j <= sources@.len(),
                sv == views_of(sources@),
                u_sdl == exists|m: int|
                    0 <= m < j && has_substring(
                        file_name_spec(#[trigger] sv[m]),
                        "imgui_impl_sdl"@,
                    ),
                u_glfw == exists|m: int|
                    0 <= m < j && has_substring(
                        file_name_spec(#[trigger] sv[m]),
                        "imgui_impl_glfw"@,
                    ),
            decreases sources@.len() - j,
        {
            let name = crate::pathutil::file_name_of(sources[j].as_str());
            if crate::strutil::str_contains(name.as_str(), "imgui_impl_sdl") {
                u_sdl = true;
            }
            if crate::strutil::str_contains(name.as_str(), "imgui_impl_glfw") {
                u_glfw = true;
            }
            proof {
                if has_substring(file_name_spec(sv[j as int]), "imgui_impl_sdl"@) {
                    assert(u_sdl);
                }
                if has_substring(file_name_spec(sv[j as int]), "imgui_impl_glfw"@) {
                    assert(u_glfw);
                }
            }
            j += 1;
        }
        proof {
            assert(u_sdl == sources_use_sdl(sv));
            assert(u_glfw == sources_use_glfw(sv));
        }
        let js_name = config.output_name.clone().concat(".js");
        let wasm_name = config.output_name.clone().concat(".wasm");
        let out_js = crate::pathutil::path_join(config.output_dir.as_str(), js_name.as_str());
        let out_wasm = crate::pathutil::path_join(config.output_dir.as_str(), wasm_name.as_str());
        let args = crate::flags::assemble_imgui_args(
            config,
            &sources,
            &include_paths,
            u_sdl,
            u_glfw,
            out_js.as_str(),
        );
        let invocation = crate::compiler::ToolInvocation {
            tool: crate::command_runner::resolve_emscripten_tool("em++", probe.on_windows),
            args,
            working_dir: probe.project_root.clone(),
        };
        let mut tools: Vec<crate::compiler::ToolInvocation> = Vec::new();
        tools.push(invocation);
        let artifacts = crate::compiler::ArtifactSet {
            js_src: out_js.clone(),
            wasm_src: out_wasm.clone(),
            js_dest: out_js,
            wasm_dest: out_wasm,
        };
        let plan = crate::compiler::BuildPlan { pre_dirs: Vec::new(), tools, artifacts };
        proof {
            assert(plan@.pre_dirs =~~= imgui_plan(config, probe, sv).pre_dirs);
            assert(plan@.tools =~~= imgui_plan(config, probe, sv).tools);
            assert(plan@.artifacts =~~= imgui_plan(config, probe, sv).artifacts);
            assert(plan@ =~~= imgui_plan(config, probe, sv));
        }
        Ok(plan)
    }

    fn priority(&self) -> (r: u32) {
        10
    }
}

} // verus!
