//! The flag assembler: turns a build configuration into the ordered,
//! de-duplicated toolchain argument lists for each compile route.
//!
//! Construction order, identical for every route: baseline interop and
//! environment flags, then the build-mode table, then the UI-toolkit flags
//! when requested, then the user-supplied overrides (each appended only when
//! not already present verbatim), and finally the output-naming flags, which
//! come last of all so a user override can never suppress them.
//! De-duplication is by exact string equality only.

use vstd::prelude::*;
use crate::config::{user_flag_tokens, AppConfig};
use crate::pathutil::join_spec;
use crate::strutil::{
    eq_ignore_case, has_substring, matches_at, split_ws, views_of,
};

verus! {

/// The build mode selects the `debug` flag table.
pub open spec fn debug_mode(c: &AppConfig) -> bool {
    eq_ignore_case(c.build_config@, "debug"@)
}

/// The build mode selects the `release` flag table.
pub open spec fn release_mode(c: &AppConfig) -> bool {
    eq_ignore_case(c.build_config@, "release"@)
}

/// The target-environment flag: `web` and `node` map to themselves, anything
/// else to the combined `web,node` environment.
pub open spec fn env_flag(c: &AppConfig) -> Seq<char> {
    if eq_ignore_case(c.target_env@, "web"@) {
        "-sENVIRONMENT=web"@
    } else if eq_ignore_case(c.target_env@, "node"@) {
        "-sENVIRONMENT=node"@
    } else {
        "-sENVIRONMENT=web,node"@
    }
}

/// The target-environment flag used by the dedicated UI-toolkit compile
/// route, which falls back to `web` alone.
pub open spec fn env_flag_web_default(c: &AppConfig) -> Seq<char> {
    if eq_ignore_case(c.target_env@, "web"@) {
        "-sENVIRONMENT=web"@
    } else if eq_ignore_case(c.target_env@, "node"@) {
        "-sENVIRONMENT=node"@
    } else {
        "-sENVIRONMENT=web"@
    }
}

/// The fixed list of exported runtime helper names.
pub open spec fn runtime_methods_flag() -> Seq<char> {
    "-sEXPORTED_RUNTIME_METHODS=FS,callMain,setValue,getValue,UTF8ToString,stringToUTF8"@
}

/// The flag naming the binary artifact after the output base name.
pub open spec fn wasm_name_flag(name: Seq<char>) -> Seq<char> {
    "-sWASM_BINARY_NAME="@ + name + ".wasm"@
}

/// The user-supplied flags already specify an export-symbol name, so the
/// default one is withheld.
pub open spec fn user_names_export(c: &AppConfig) -> bool {
    match c.emcc_flags {
        Some(f) => has_substring(f@, "EXPORT_NAME"@),
        None => false,
    }
}

/// Build-mode table of the direct single-file route.
pub open spec fn direct_mode_flags(c: &AppConfig) -> Seq<Seq<char>> {
    if debug_mode(c) {
        seq!["-g4"@, "-O0"@, "-sASSERTIONS=2"@, "-sSAFE_HEAP=1"@, "-sGL_ASSERTIONS=1"@]
    } else if release_mode(c) {
        seq!["-O3"@, "-sASSERTIONS=0"@, "--llvm-lto"@]
    } else {
        seq!["-O2"@, "-sASSERTIONS=1"@]
    }
}

/// Build-mode table of the CMake route's linker flags.
pub open spec fn cmake_mode_flags(c: &AppConfig) -> Seq<Seq<char>> {
    if debug_mode(c) {
        seq!["-g4"@, "-O0"@, "-sASSERTIONS=2"@]
    } else if release_mode(c) {
        seq!["-O3"@, "--llvm-lto=1"@, "-sASSERTIONS=0"@]
    } else {
        seq!["-O2"@, "-sASSERTIONS=1"@]
    }
}

/// Build-mode table shared by the Make route's compiler flags and the
/// UI-toolkit route.
pub open spec fn cxx_mode_flags(c: &AppConfig) -> Seq<Seq<char>> {
    if debug_mode(c) {
        seq!["-g4"@, "-O0"@, "-sASSERTIONS=2"@, "-sSAFE_HEAP=1"@]
    } else if release_mode(c) {
        seq!["-O3"@, "-sASSERTIONS=0"@]
    } else {
        seq!["-O2"@, "-sASSERTIONS=1"@]
    }
}

/// The UI-toolkit flag block: windowing emulation, WebGL preferences, memory
/// sizing, and — unless the user already names one — the default
/// export-symbol name.
pub open spec fn toolkit_flags(c: &AppConfig) -> Seq<Seq<char>> {
    let head = seq![
        "-sUSE_GLFW=3"@,
        "-sUSE_WEBGL2=1"@,
        "-sFULL_ES3=1"@,
        "-sGL_ENABLE_GET_PROC_ADDRESS=1"@,
        "-sALLOW_MEMORY_GROWTH=1"@,
    ];
    let tail = seq!["-sUSE_SDL=2"@, "-sINITIAL_MEMORY=67108864"@];
    if user_names_export(c) {
        head + tail
    } else {
        head + seq!["-sEXPORT_NAME='Module'"@] + tail
    }
}

/// The UI-toolkit block of the CMake route, which adds the GL assertion flag
/// in debug mode.
pub open spec fn toolkit_flags_cmake(c: &AppConfig) -> Seq<Seq<char>> {
    if debug_mode(c) {
        toolkit_flags(c) + seq!["-sGL_ASSERTIONS=1"@]
    } else {
        toolkit_flags(c)
    }
}

/// Tokens appended one by one, each skipped when already present verbatim.
pub open spec fn append_unique(acc: Seq<Seq<char>>, toks: Seq<Seq<char>>) -> Seq<Seq<char>>
    decreases toks.len(),
{
    if toks.len() == 0 {
        acc
    } else {
        append_unique(
            if acc.contains(toks[0]) {
                acc
            } else {
                acc.push(toks[0])
            },
            toks.drop_first(),
        )
    }
}

/// No string appears twice.
pub open spec fn no_dup(s: Seq<Seq<char>>) -> bool {
    forall|a: int, b: int| 0 <= a < b < s.len() ==> s[a] != s[b]
}

/// Appending one more token commutes with `append_unique`.
pub proof fn lemma_append_unique_push(acc: Seq<Seq<char>>, toks: Seq<Seq<char>>, t: Seq<char>)
    ensures
        append_unique(acc, toks.push(t)) == {
            let a = append_unique(acc, toks);
            if a.contains(t) {
                a
            } else {
                a.push(t)
            }
        },
    decreases toks.len(),
{
    if toks.len() == 0 {
        assert(toks.push(t)[0] == t);
        assert(toks.push(t).drop_first() =~~= Seq::<Seq<char>>::empty());
        let step = if acc.contains(t) {
            acc
        } else {
            acc.push(t)
        };
        assert(append_unique(acc, toks.push(t)) == append_unique(
            step,
            toks.push(t).drop_first(),
        ));
        assert(append_unique(step, Seq::<Seq<char>>::empty()) == step);
        assert(append_unique(acc, toks) == acc);
    } else {
        assert(toks.push(t)[0] == toks[0]);
        assert(toks.push(t).drop_first() =~~= toks.drop_first().push(t));
        let step = if acc.contains(toks[0]) {
            acc
        } else {
            acc.push(toks[0])
        };
        assert(append_unique(acc, toks.push(t)) == append_unique(
            step,
            toks.drop_first().push(t),
        ));
        lemma_append_unique_push(step, toks.drop_first(), t);
        assert(append_unique(acc, toks) == append_unique(step, toks.drop_first()));
    }
}

/// What `append_unique` guarantees: the accumulator stays an unchanged
/// prefix, everything appended comes from the token list and was not yet
/// present, and no duplicate is ever introduced.
pub proof fn lemma_append_unique_props(acc: Seq<Seq<char>>, toks: Seq<Seq<char>>)
    ensures
        acc.len() <= append_unique(acc, toks).len(),
        append_unique(acc, toks).take(acc.len() as int) == acc,
        forall|k: int|
            acc.len() <= k < append_unique(acc, toks).len() ==> toks.contains(
                #[trigger] append_unique(acc, toks)[k],
            ),
        no_dup(acc) ==> no_dup(append_unique(acc, toks)),
    decreases toks.len(),
{
    if toks.len() == 0 {
        assert(append_unique(acc, toks).take(acc.len() as int) =~~= acc);
    } else {
        let step = if acc.contains(toks[0]) {
            acc
        } else {
            acc.push(toks[0])
        };
        lemma_append_unique_props(step, toks.drop_first());
        let r = append_unique(acc, toks);
        assert(r == append_unique(step, toks.drop_first()));
        assert(step.take(acc.len() as int) =~~= acc);
        assert(r.take(acc.len() as int) =~~= r.take(step.len() as int).take(acc.len() as int));
        assert forall|k: int| acc.len() <= k < r.len() implies toks.contains(#[trigger] r[k]) by {
            if k < step.len() {
                assert(r[k] == step[k]);
                assert(step[k] == toks[0]);
                assert(toks.contains(toks[0]));
            } else {
                assert(toks.drop_first().contains(r[k]));
                let m = choose|m: int|
                    0 <= m < toks.drop_first().len() && toks.drop_first()[m] == r[k];
                assert(toks[m + 1] == r[k]);
            }
        }
        if no_dup(acc) {
            assert(no_dup(step)) by {
                if !acc.contains(toks[0]) {
                    assert forall|a: int, b: int|
                        0 <= a < b < step.len() implies step[a] != step[b] by {
                        if b == step.len() - 1 {
                            assert(step[b] == toks[0]);
                            assert(step[a] == acc[a]);
                            if acc[a] == toks[0] {
                                assert(acc.contains(toks[0]));
                            }
                        }
                    }
                }
            }
        }
    }
}

} // verus!

verus! {

/// Pushes one flag given as a literal.
fn push_flag(args: &mut Vec<String>, f: &str)
    ensures
        views_of(final(args)@) == views_of(old(args)@).push(f@),
{
    args.push(f.to_owned());
    proof {
        assert(views_of(args@) =~~= views_of(old(args)@).push(f@));
    }
}

/// Builds the binary-artifact naming flag.
pub fn wasm_flag_of(name: &str) -> (r: String)
    ensures
        r@ == wasm_name_flag(name@),
{
    let r = "-sWASM_BINARY_NAME=".to_owned().concat(name).concat(".wasm");
    proof {
        assert(r@ =~= wasm_name_flag(name@));
    }
    r
}

/// Pushes the target-environment flag.
fn push_env_flag(args: &mut Vec<String>, config: &AppConfig)
    ensures
        views_of(final(args)@) == views_of(old(args)@).push(env_flag(config)),
{
    if crate::strutil::eq_str_nocase(config.target_env.as_str(), "web") {
        push_flag(args, "-sENVIRONMENT=web");
    } else if crate::strutil::eq_str_nocase(config.target_env.as_str(), "node") {
        push_flag(args, "-sENVIRONMENT=node");
    } else {
        push_flag(args, "-sENVIRONMENT=web,node");
    }
}

/// Pushes the target-environment flag of the UI-toolkit route.
fn push_env_flag_web_default(args: &mut Vec<String>, config: &AppConfig)
    ensures
        views_of(final(args)@) == views_of(old(args)@).push(env_flag_web_default(config)),
{
    if crate::strutil::eq_str_nocase(config.target_env.as_str(), "web") {
        push_flag(args, "-sENVIRONMENT=web");
    } else if crate::strutil::eq_str_nocase(config.target_env.as_str(), "node") {
        push_flag(args, "-sENVIRONMENT=node");
    } else {
        push_flag(args, "-sENVIRONMENT=web");
    }
}

/// Whether the user-supplied flag text names an export symbol.
fn user_names_export_exec(config: &AppConfig) -> (r: bool)
    ensures
        r == user_names_export(config),
{
    match &config.emcc_flags {
        Some(f) => crate::strutil::str_contains(f.as_str(), "EXPORT_NAME"),
        None => false,
    }
}

/// Pushes the UI-toolkit flag block.
fn push_toolkit_flags(args: &mut Vec<String>, config: &AppConfig)
    ensures
        views_of(final(args)@) == views_of(old(args)@) + toolkit_flags(config),
{
    push_flag(args, "-sUSE_GLFW=3");
    push_flag(args, "-sUSE_WEBGL2=1");
    push_flag(args, "-sFULL_ES3=1");
    push_flag(args, "-sGL_ENABLE_GET_PROC_ADDRESS=1");
    push_flag(args, "-sALLOW_MEMORY_GROWTH=1");
    if !user_names_export_exec(config) {
        push_flag(args, "-sEXPORT_NAME='Module'");
    }
    push_flag(args, "-sUSE_SDL=2");
    push_flag(args, "-sINITIAL_MEMORY=67108864");
    proof {
        assert(views_of(args@) =~~= views_of(old(args)@) + toolkit_flags(config));
    }
}

/// Pushes the UI-toolkit flag block of the CMake route.
fn push_toolkit_flags_cmake(args: &mut Vec<String>, config: &AppConfig)
    ensures
        views_of(final(args)@) == views_of(old(args)@) + toolkit_flags_cmake(config),
{
    push_toolkit_flags(args, config);
    if crate::strutil::eq_str_nocase(config.build_config.as_str(), "debug") {
        push_flag(args, "-sGL_ASSERTIONS=1");
        proof {
            assert(views_of(args@) =~~= views_of(old(args)@) + (toolkit_flags(config) + seq![
                "-sGL_ASSERTIONS=1"@,
            ]));
        }
    }
}

/// The user-supplied flag tokens as a vector.
pub fn user_tokens_exec(config: &AppConfig) -> (r: Vec<String>)
    ensures
        views_of(r@) == user_flag_tokens(config),
{
    match &config.emcc_flags {
        Some(f) => crate::strutil::split_whitespace_tokens(f.as_str()),
        None => {
            let r: Vec<String> = Vec::new();
            proof {
                assert(views_of(r@) =~~= Seq::<Seq<char>>::empty());
            }
            r
        },
    }
}

/// Appends every token not yet present verbatim.
pub fn push_unique_tokens(args: &mut Vec<String>, toks: &Vec<String>)
    ensures
        views_of(final(args)@) == append_unique(views_of(old(args)@), views_of(toks@)),
{
    let mut i: usize = 0;
    proof {
        assert(views_of(toks@).take(0) =~~= Seq::<Seq<char>>::empty());
        assert(append_unique(views_of(args@), Seq::<Seq<char>>::empty()) == views_of(args@));
    }
    while i < toks.len()
        invariant
            i <= toks@.len(),
            views_of(args@) == append_unique(
                views_of(old(args)@),
                views_of(toks@).take(i as int),
            ),
        decreases toks@.len() - i,
    {
        let ghost acc = views_of(args@);
        let present = crate::strutil::vec_contains_str(args, toks[i].as_str());
        if !present {
            let t = toks[i].clone();
            args.push(t);
            proof {
                assert(views_of(args@) =~~= acc.push(toks@[i as int]@));
            }
        }
        proof {
            lemma_append_unique_push(
                views_of(old(args)@),
                views_of(toks@).take(i as int),
                toks@[i as int]@,
            );
            assert(views_of(toks@).take(i + 1) =~~= views_of(toks@).take(i as int).push(
                toks@[i as int]@,
            ));
        }
        i += 1;
    }
    proof {
        assert(views_of(toks@).take(toks@.len() as int) =~~= views_of(toks@));
    }
}

/// The fixed flags of the direct single-file route: exception handling, the
/// build-mode table, module interop, environment, runtime exports, the binary
/// name, and the UI-toolkit block when requested.
pub open spec fn base_fixed_args(c: &AppConfig, name: Seq<char>) -> Seq<Seq<char>> {
    seq!["-fwasm-exceptions"@] + direct_mode_flags(c) + seq![
        "-sMODULARIZE=1"@,
        "-sEXPORT_ES6=1"@,
        env_flag(c),
        runtime_methods_flag(),
        wasm_name_flag(name),
    ] + if c.with_imgui {
        toolkit_flags(c)
    } else {
        Seq::empty()
    }
}

/// The complete flag list of the direct route before output naming: the fixed
/// flags followed by the de-duplicated user overrides.
pub open spec fn base_args(c: &AppConfig, name: Seq<char>) -> Seq<Seq<char>> {
    append_unique(base_fixed_args(c, name), user_flag_tokens(c))
}

/// Assembles the flags of the direct single-file route.
pub fn assemble_base_args(config: &AppConfig, output_name: &str) -> (r: Vec<String>)
    ensures
        views_of(r@) == base_args(config, output_name@),
{
    let mut args: Vec<String> = Vec::new();
    push_flag(&mut args, "-fwasm-exceptions");
    if crate::strutil::eq_str_nocase(config.build_config.as_str(), "debug") {
        push_flag(&mut args, "-g4");
        push_flag(&mut args, "-O0");
        push_flag(&mut args, "-sASSERTIONS=2");
        push_flag(&mut args, "-sSAFE_HEAP=1");
        push_flag(&mut args, "-sGL_ASSERTIONS=1");
    } else if crate::strutil::eq_str_nocase(config.build_config.as_str(), "release") {
        push_flag(&mut args, "-O3");
        push_flag(&mut args, "-sASSERTIONS=0");
        push_flag(&mut args, "--llvm-lto");
    } else {
        push_flag(&mut args, "-O2");
        push_flag(&mut args, "-sASSERTIONS=1");
    }
    let ghost head = seq!["-fwasm-exceptions"@] + direct_mode_flags(config);
    proof {
        assert(views_of(args@) =~~= head);
    }
    push_flag(&mut args, "-sMODULARIZE=1");
    proof {
        assert(views_of(args@) =~~= head + seq!["-sMODULARIZE=1"@]);
    }
    push_flag(&mut args, "-sEXPORT_ES6=1");
    proof {
        assert(views_of(args@) =~~= head + seq!["-sMODULARIZE=1"@, "-sEXPORT_ES6=1"@]);
    }
    push_env_flag(&mut args, config);
    proof {
        assert(views_of(args@) =~~= head + seq![
            "-sMODULARIZE=1"@,
            "-sEXPORT_ES6=1"@,
            env_flag(config),
        ]);
    }
    push_flag(
        &mut args,
        "-sEXPORTED_RUNTIME_METHODS=FS,callMain,setValue,getValue,UTF8ToString,stringToUTF8",
    );
    proof {
        assert(views_of(args@) =~~= head + seq![
            "-sMODULARIZE=1"@,
            "-sEXPORT_ES6=1"@,
            env_flag(config),
            runtime_methods_flag(),
        ]);
    }
    let wasm_flag = wasm_flag_of(output_name);
    let ghost before = args@;
    args.push(wasm_flag);
    let ghost mid = seq!["-fwasm-exceptions"@] + direct_mode_flags(config) + seq![
        "-sMODULARIZE=1"@,
        "-sEXPORT_ES6=1"@,
        env_flag(config),
        runtime_methods_flag(),
        wasm_name_flag(output_name@),
    ];
    proof {
        assert(args@ == before.push(wasm_flag));
        assert(views_of(args@) =~~= views_of(before).push(wasm_name_flag(output_name@)));
        assert(views_of(args@) =~~= mid);
    }
    if config.with_imgui {
        push_toolkit_flags(&mut args, config);
        proof {
            assert(views_of(args@) =~~= base_fixed_args(config, output_name@));
        }
    } else {
        proof {
            assert(views_of(args@) =~~= base_fixed_args(config, output_name@));
        }
    }
    let toks = user_tokens_exec(config);
    push_unique_tokens(&mut args, &toks);
    args
}

} // verus!

verus! {

/// The fixed flags of the CMake route's linker-flag list.
pub open spec fn cmake_fixed_flags(c: &AppConfig) -> Seq<Seq<char>> {
    seq!["-sMODULARIZE=1"@, "-sEXPORT_ES6=1"@, env_flag(c), runtime_methods_flag()]
        + cmake_mode_flags(c) + if c.with_imgui {
        toolkit_flags_cmake(c)
    } else {
        Seq::empty()
    }
}

/// The output-naming flags of the CMake route: the loader script is linked
/// into the build directory and the binary is named after the output base.
pub open spec fn cmake_output_flags(c: &AppConfig, build_dir: Seq<char>) -> Seq<Seq<char>> {
    seq![
        "-o"@,
        join_spec(build_dir, c.output_name@ + ".js"@),
        wasm_name_flag(c.output_name@),
    ]
}

/// The complete linker-flag list of the CMake route.
pub open spec fn cmake_linker_flags(c: &AppConfig, build_dir: Seq<char>) -> Seq<Seq<char>> {
    append_unique(cmake_fixed_flags(c), user_flag_tokens(c)) + cmake_output_flags(c, build_dir)
}

/// Assembles the linker flags of the CMake route.
pub fn assemble_cmake_linker_flags(config: &AppConfig, build_dir: &str) -> (r: Vec<String>)
    ensures
        views_of(r@) == cmake_linker_flags(config, build_dir@),
{
    let mut args: Vec<String> = Vec::new();
    push_flag(&mut args, "-sMODULARIZE=1");
    push_flag(&mut args, "-sEXPORT_ES6=1");
    push_env_flag(&mut args, config);
    push_flag(
        &mut args,
        "-sEXPORTED_RUNTIME_METHODS=FS,callMain,setValue,getValue,UTF8ToString,stringToUTF8",
    );
    if crate::strutil::eq_str_nocase(config.build_config.as_str(), "debug") {
        push_flag(&mut args, "-g4");
        push_flag(&mut args, "-O0");
        push_flag(&mut args, "-sASSERTIONS=2");
    } else if crate::strutil::eq_str_nocase(config.build_config.as_str(), "release") {
        push_flag(&mut args, "-O3");
        push_flag(&mut args, "--llvm-lto=1");
        push_flag(&mut args, "-sASSERTIONS=0");
    } else {
        push_flag(&mut args, "-O2");
        push_flag(&mut args, "-sASSERTIONS=1");
    }
    if config.with_imgui {
        push_toolkit_flags_cmake(&mut args, config);
    }
    proof {
        assert(views_of(args@) =~~= cmake_fixed_flags(config));
    }
    let toks = user_tokens_exec(config);
    push_unique_tokens(&mut args, &toks);
    push_flag(&mut args, "-o");
    let outjs_name = config.output_name.clone().concat(".js");
    let outjs = crate::pathutil::path_join(build_dir, outjs_name.as_str());
    let ghost before = args@;
    args.push(outjs);
    proof {
        assert(views_of(args@) =~~= views_of(before).push(
            join_spec(build_dir@, config.output_name@ + ".js"@),
        ));
    }
    let wf = wasm_flag_of(config.output_name.as_str());
    let ghost before2 = args@;
    args.push(wf);
    proof {
        assert(views_of(args@) =~~= views_of(before2).push(wasm_name_flag(config.output_name@)));
        assert(views_of(args@) =~~= cmake_linker_flags(config, build_dir@));
    }
    args
}

} // verus!

verus! {

/// A user token routed to the linker-flag list: it starts with `-o` or `-s`,
/// or mentions `LINK` or `LTO`.
pub open spec fn is_linker_token(t: Seq<char>) -> bool {
    matches_at(t, "-o"@, 0) || matches_at(t, "-s"@, 0) || has_substring(t, "LINK"@)
        || has_substring(t, "LTO"@)
}

/// The linker-token predicate as a single closure value, so that every use
/// of `filter` speaks of one function.
pub open spec fn linker_pred() -> spec_fn(Seq<char>) -> bool {
    |t: Seq<char>| is_linker_token(t)
}

/// The complementary compiler-token predicate.
pub open spec fn non_linker_pred() -> spec_fn(Seq<char>) -> bool {
    |t: Seq<char>| !is_linker_token(t)
}

/// The user tokens routed to the linker-flag list.
pub open spec fn ld_part(toks: Seq<Seq<char>>) -> Seq<Seq<char>> {
    toks.filter(linker_pred())
}

/// The user tokens routed to the compiler-flag list.
pub open spec fn cxx_part(toks: Seq<Seq<char>>) -> Seq<Seq<char>> {
    toks.filter(non_linker_pred())
}

/// Filtering one element keeps it exactly when the predicate holds.
proof fn lemma_filter_one(t: Seq<char>, p: spec_fn(Seq<char>) -> bool)
    ensures
        seq![t].filter(p) == if p(t) {
            seq![t]
        } else {
            Seq::<Seq<char>>::empty()
        },
{
    reveal(Seq::filter);
    assert(seq![t].drop_last() =~~= Seq::<Seq<char>>::empty());
    assert(Seq::<Seq<char>>::empty().filter(p) =~~= Seq::<Seq<char>>::empty());
    assert(seq![t].last() == t);
    if p(t) {
        assert(seq![t].filter(p) =~~= seq![t]);
    } else {
        assert(seq![t].filter(p) =~~= Seq::<Seq<char>>::empty());
    }
}

/// The fixed compiler flags of the Make route.
pub open spec fn make_cxx_fixed(c: &AppConfig) -> Seq<Seq<char>> {
    cxx_mode_flags(c) + seq!["-fwasm-exceptions"@] + if c.with_imgui && debug_mode(c) {
        seq!["-sGL_ASSERTIONS=1"@]
    } else {
        Seq::empty()
    }
}

/// The fixed linker flags of the Make route.
pub open spec fn make_ld_fixed(c: &AppConfig) -> Seq<Seq<char>> {
    (if release_mode(c) {
        seq!["--llvm-lto=1"@]
    } else {
        Seq::empty()
    }) + seq!["-sMODULARIZE=1"@, "-sEXPORT_ES6=1"@, env_flag(c), runtime_methods_flag()]
        + if c.with_imgui {
        toolkit_flags(c)
    } else {
        Seq::empty()
    }
}

/// The complete compiler-flag list of the Make route.
pub open spec fn make_cxx_flags(c: &AppConfig) -> Seq<Seq<char>> {
    append_unique(make_cxx_fixed(c), cxx_part(user_flag_tokens(c)))
}

/// The complete linker-flag list of the Make route, output naming last.
pub open spec fn make_ld_flags(c: &AppConfig) -> Seq<Seq<char>> {
    append_unique(make_ld_fixed(c), ld_part(user_flag_tokens(c))) + seq![
        "-o"@,
        c.output_name@ + ".js"@,
        wasm_name_flag(c.output_name@),
    ]
}

/// The full argument list handed to the Make wrapper: the `make` command and
/// the flag lists joined into variable assignments.
pub open spec fn make_invocation_args(c: &AppConfig) -> Seq<Seq<char>> {
    seq![
        "make"@,
        "CXXFLAGS="@ + crate::strutil::join_space(make_cxx_flags(c)),
        "CFLAGS="@ + crate::strutil::join_space(make_cxx_flags(c)),
        "LDFLAGS="@ + crate::strutil::join_space(make_ld_flags(c)),
    ]
}

/// Executable test for `is_linker_token`.
pub fn is_linker_token_exec(t: &str) -> (r: bool)
    ensures
        r == is_linker_token(t@),
{
    crate::strutil::str_starts_with(t, "-o") || crate::strutil::str_starts_with(t, "-s")
        || crate::strutil::str_contains(t, "LINK") || crate::strutil::str_contains(t, "LTO")
}

/// Assembles the full Make invocation argument list.
pub fn assemble_make_args(config: &AppConfig) -> (r: Vec<String>)
    ensures
        views_of(r@) == make_invocation_args(config),
{
    broadcast use vstd::seq_lib::group_seq_properties;

    let mut cxx: Vec<String> = Vec::new();
    if crate::strutil::eq_str_nocase(config.build_config.as_str(), "debug") {
        push_flag(&mut cxx, "-g4");
        push_flag(&mut cxx, "-O0");
        push_flag(&mut cxx, "-sASSERTIONS=2");
        push_flag(&mut cxx, "-sSAFE_HEAP=1");
    } else if crate::strutil::eq_str_nocase(config.build_config.as_str(), "release") {
        push_flag(&mut cxx, "-O3");
        push_flag(&mut cxx, "-sASSERTIONS=0");
    } else {
        push_flag(&mut cxx, "-O2");
        push_flag(&mut cxx, "-sASSERTIONS=1");
    }
    push_flag(&mut cxx, "-fwasm-exceptions");
    if config.with_imgui && crate::strutil::eq_str_nocase(config.build_config.as_str(), "debug") {
        push_flag(&mut cxx, "-sGL_ASSERTIONS=1");
    }
    proof {
        assert(views_of(cxx@) =~~= make_cxx_fixed(config));
    }
    let mut ld: Vec<String> = Vec::new();
    if crate::strutil::eq_str_nocase(config.build_config.as_str(), "release") {
        push_flag(&mut ld, "--llvm-lto=1");
    }
    push_flag(&mut ld, "-sMODULARIZE=1");
    push_flag(&mut ld, "-sEXPORT_ES6=1");
    push_env_flag(&mut ld, config);
    push_flag(
        &mut ld,
        "-sEXPORTED_RUNTIME_METHODS=FS,callMain,setValue,getValue,UTF8ToString,stringToUTF8",
    );
    if config.with_imgui {
        push_toolkit_flags(&mut ld, config);
    }
    proof {
        assert(views_of(ld@) =~~= make_ld_fixed(config));
    }
    let toks = user_tokens_exec(config);
    let mut i: usize = 0;
    proof {
        assert(views_of(toks@).take(0) =~~= Seq::<Seq<char>>::empty());
        assert(cxx_part(Seq::<Seq<char>>::empty()) =~~= Seq::<Seq<char>>::empty());
        assert(ld_part(Seq::<Seq<char>>::empty()) =~~= Seq::<Seq<char>>::empty());
    }
    while i < toks.len()
        invariant
            i <= toks@.len(),
            views_of(cxx@) == append_unique(
                make_cxx_fixed(config),
                cxx_part(views_of(toks@).take(i as int)),
            ),
            views_of(ld@) == append_unique(
                make_ld_fixed(config),
                ld_part(views_of(toks@).take(i as int)),
            ),
        decreases toks@.len() - i,
    {
        let ghost tv = toks@[i as int]@;
        let ghost pre = views_of(toks@).take(i as int);
        proof {
            assert(views_of(toks@).take(i + 1) =~~= pre + seq![tv]);
            Seq::filter_distributes_over_add(pre, seq![tv], linker_pred());
            Seq::filter_distributes_over_add(pre, seq![tv], non_linker_pred());
            lemma_filter_one(tv, linker_pred());
            lemma_filter_one(tv, non_linker_pred());
        }
        if is_linker_token_exec(toks[i].as_str()) {
            let ghost acc = views_of(ld@);
            let present = crate::strutil::vec_contains_str(&ld, toks[i].as_str());
            if !present {
                let t = toks[i].clone();
                ld.push(t);
                proof {
                    assert(views_of(ld@) =~~= acc.push(tv));
                }
            }
            proof {
                assert(ld_part(pre + seq![tv]) =~~= ld_part(pre).push(tv));
                lemma_append_unique_push(make_ld_fixed(config), ld_part(pre), tv);
                assert(cxx_part(pre + seq![tv]) =~~= cxx_part(pre));
            }
        } else {
            let ghost acc = views_of(cxx@);
            let present = crate::strutil::vec_contains_str(&cxx, toks[i].as_str());
            if !present {
                let t = toks[i].clone();
                cxx.push(t);
                proof {
                    assert(views_of(cxx@) =~~= acc.push(tv));
                }
            }
            proof {
                assert(cxx_part(pre + seq![tv]) =~~= cxx_part(pre).push(tv));
                lemma_append_unique_push(make_cxx_fixed(config), cxx_part(pre), tv);
                assert(ld_part(pre + seq![tv]) =~~= ld_part(pre));
            }
        }
        i += 1;
    }
    proof {
        assert(views_of(toks@).take(toks@.len() as int) =~~= views_of(toks@));
        assert(views_of(cxx@) == make_cxx_flags(config));
    }
    push_flag(&mut ld, "-o");
    let outjs_name = config.output_name.clone().concat(".js");
    let ghost before = ld@;
    ld.push(outjs_name);
    proof {
        assert(views_of(ld@) =~~= views_of(before).push(config.output_name@ + ".js"@));
    }
    let wf = wasm_flag_of(config.output_name.as_str());
    let ghost before2 = ld@;
    ld.push(wf);
    proof {
        assert(views_of(ld@) =~~= views_of(before2).push(wasm_name_flag(config.output_name@)));
        assert(views_of(ld@) =~~= make_ld_flags(config));
    }
    let cxx_joined = crate::strutil::join_with_spaces(&cxx);
    let ld_joined = crate::strutil::join_with_spaces(&ld);
    let mut out: Vec<String> = Vec::new();
    push_flag(&mut out, "make");
    let a1 = "CXXFLAGS=".to_owned().concat(cxx_joined.as_str());
    let ghost o1 = out@;
    out.push(a1);
    proof {
        assert(views_of(out@) =~~= views_of(o1).push(
            "CXXFLAGS="@ + crate::strutil::join_space(make_cxx_flags(config)),
        ));
    }
    let a2 = "CFLAGS=".to_owned().concat(cxx_joined.as_str());
    let ghost o2 = out@;
    out.push(a2);
    proof {
        assert(views_of(out@) =~~= views_of(o2).push(
            "CFLAGS="@ + crate::strutil::join_space(make_cxx_flags(config)),
        ));
    }
    let a3 = "LDFLAGS=".to_owned().concat(ld_joined.as_str());
    let ghost o3 = out@;
    out.push(a3);
    proof {
        assert(views_of(out@) =~~= views_of(o3).push(
            "LDFLAGS="@ + crate::strutil::join_space(make_ld_flags(config)),
        ));
        assert(views_of(out@) =~~= make_invocation_args(config));
    }
    out
}

} // verus!

verus! {

/// Include directories rendered as `-I` arguments.
pub open spec fn dash_i_args(includes: Seq<Seq<char>>) -> Seq<Seq<char>> {
    includes.map_values(|p: Seq<char>| "-I"@ + p)
}

/// The fixed argument list of the dedicated UI-toolkit compile route: the
/// source files, their include directories, the language standard, the
/// build-mode table, the windowing flags of the detected backends, and the
/// WebGL, interop and memory flags.
pub open spec fn imgui_fixed_args(
    c: &AppConfig,
    sources: Seq<Seq<char>>,
    includes: Seq<Seq<char>>,
    using_sdl: bool,
    using_glfw: bool,
) -> Seq<Seq<char>> {
    sources + dash_i_args(includes) + seq!["-std=c++11"@] + cxx_mode_flags(c) + (if using_sdl {
        seq!["-sUSE_SDL=3"@]
    } else {
        Seq::empty()
    }) + (if using_glfw {
        seq!["-sUSE_GLFW=3"@]
    } else {
        Seq::empty()
    }) + seq![
        "-sUSE_WEBGL2=1"@,
        "-sFULL_ES3=1"@,
        "-sALLOW_MEMORY_GROWTH=1"@,
        "-sMODULARIZE=1"@,
        "-sEXPORT_ES6=1"@,
        env_flag_web_default(c),
        runtime_methods_flag(),
        "-sEXPORT_NAME='Module'"@,
        "-sINITIAL_MEMORY=67108864"@,
        "-sGL_ENABLE_GET_PROC_ADDRESS=1"@,
        "-fwasm-exceptions"@,
    ] + if debug_mode(c) {
        seq!["-sGL_ASSERTIONS=1"@]
    } else {
        Seq::empty()
    }
}

/// The complete argument list of the UI-toolkit route: fixed arguments, the
/// de-duplicated user overrides, and the output naming last.
pub open spec fn imgui_args(
    c: &AppConfig,
    sources: Seq<Seq<char>>,
    includes: Seq<Seq<char>>,
    using_sdl: bool,
    using_glfw: bool,
    out_js: Seq<char>,
) -> Seq<Seq<char>> {
    append_unique(
        imgui_fixed_args(c, sources, includes, using_sdl, using_glfw),
        user_flag_tokens(c),
    ) + seq!["-o"@, out_js]
}

/// Assembles the argument list of the UI-toolkit route.
#[verifier::rlimit(100)]
pub fn assemble_imgui_args(
    config: &AppConfig,
    sources: &Vec<String>,
    includes: &Vec<String>,
    using_sdl: bool,
    using_glfw: bool,
    out_js: &str,
) -> (r: Vec<String>)
    ensures
        views_of(r@) == imgui_args(
            config,
            views_of(sources@),
            views_of(includes@),
            using_sdl,
            using_glfw,
            out_js@,
        ),
{
    let mut args: Vec<String> = Vec::new();
    let mut i: usize = 0;
    while i < sources.len()
        invariant
            i <= sources@.len(),
            views_of(args@) == views_of(sources@).take(i as int),
        decreases sources@.len() - i,
    {
        let s = sources[i].clone();
        let ghost before = args@;
        args.push(s);
        proof {
            assert(views_of(args@) =~~= views_of(before).push(sources@[i as int]@));
            assert(views_of(sources@).take(i + 1) =~~= views_of(sources@).take(i as int).push(
                sources@[i as int]@,
            ));
        }
        i += 1;
    }
    proof {
        assert(views_of(sources@).take(sources@.len() as int) =~~= views_of(sources@));
    }
    let mut k: usize = 0;
    while k < includes.len()
        invariant
            k <= includes@.len(),
            views_of(args@) == views_of(sources@) + dash_i_args(
                views_of(includes@).take(k as int),
            ),
        decreases includes@.len() - k,
    {
        let inc = "-I".to_owned().concat(includes[k].as_str());
        let ghost before = args@;
        args.push(inc);
        proof {
            assert(views_of(args@) =~~= views_of(before).push("-I"@ + includes@[k as int]@));
            assert(dash_i_args(views_of(includes@).take(k + 1)) =~~= dash_i_args(
                views_of(includes@).take(k as int),
            ).push("-I"@ + includes@[k as int]@));
            assert(views_of(args@) =~~= views_of(sources@) + dash_i_args(
                views_of(includes@).take(k + 1),
            ));
        }
        k += 1;
    }
    proof {
        assert(views_of(includes@).take(includes@.len() as int) =~~= views_of(includes@));
    }
    let ghost head = views_of(sources@) + dash_i_args(views_of(includes@));
    push_flag(&mut args, "-std=c++11");
    if crate::strutil::eq_str_nocase(config.build_config.as_str(), "debug") {
        push_flag(&mut args, "-g4");
        push_flag(&mut args, "-O0");
        push_flag(&mut args, "-sASSERTIONS=2");
        push_flag(&mut args, "-sSAFE_HEAP=1");
    } else if crate::strutil::eq_str_nocase(config.build_config.as_str(), "release") {
        push_flag(&mut args, "-O3");
        push_flag(&mut args, "-sASSERTIONS=0");
    } else {
        push_flag(&mut args, "-O2");
        push_flag(&mut args, "-sASSERTIONS=1");
    }
    proof {
        assert(views_of(args@) =~~= head + seq!["-std=c++11"@] + cxx_mode_flags(config));
    }
    if using_sdl {
        push_flag(&mut args, "-sUSE_SDL=3");
    }
    if using_glfw {
        push_flag(&mut args, "-sUSE_GLFW=3");
    }
    proof {
        assert(views_of(args@) =~~= head + seq!["-std=c++11"@] + cxx_mode_flags(config) + (
        if using_sdl {
            seq!["-sUSE_SDL=3"@]
        } else {
            Seq::<Seq<char>>::empty()
        }) + (if using_glfw {
            seq!["-sUSE_GLFW=3"@]
        } else {
            Seq::<Seq<char>>::empty()
        }));
    }
    push_flag(&mut args, "-sUSE_WEBGL2=1");
    push_flag(&mut args, "-sFULL_ES3=1");
    push_flag(&mut args, "-sALLOW_MEMORY_GROWTH=1");
    push_flag(&mut args, "-sMODULARIZE=1");
    push_flag(&mut args, "-sEXPORT_ES6=1");
    push_env_flag_web_default(&mut args, config);
    push_flag(
        &mut args,
        "-sEXPORTED_RUNTIME_METHODS=FS,callMain,setValue,getValue,UTF8ToString,stringToUTF8",
    );
    push_flag(&mut args, "-sEXPORT_NAME='Module'");
    push_flag(&mut args, "-sINITIAL_MEMORY=67108864");
    push_flag(&mut args, "-sGL_ENABLE_GET_PROC_ADDRESS=1");
    push_flag(&mut args, "-fwasm-exceptions");
    if crate::strutil::eq_str_nocase(config.build_config.as_str(), "debug") {
        push_flag(&mut args, "-sGL_ASSERTIONS=1");
    }
    proof {
        assert(views_of(args@) =~~= imgui_fixed_args(
            config,
            views_of(sources@),
            views_of(includes@),
            using_sdl,
            using_glfw,
        ));
    }
    let toks = user_tokens_exec(config);
    push_unique_tokens(&mut args, &toks);
    push_flag(&mut args, "-o");
    let ghost before_out = args@;
    args.push(out_js.to_owned());
    proof {
        assert(views_of(args@) =~~= views_of(before_out).push(out_js@));
        assert(views_of(args@) =~~= imgui_args(
            config,
            views_of(sources@),
            views_of(includes@),
            using_sdl,
            using_glfw,
            out_js@,
        ));
    }
    args
}

} // verus!

verus! {

/// `append_unique` over a concatenation works in two stages.
pub proof fn lemma_append_unique_concat(
    acc: Seq<Seq<char>>,
    a: Seq<Seq<char>>,
    b: Seq<Seq<char>>,
)
    ensures
        append_unique(acc, a + b) == append_unique(append_unique(acc, a), b),
    decreases a.len(),
{
    if a.len() == 0 {
        assert(a + b =~~= b);
        assert(append_unique(acc, a) == acc);
    } else {
        assert((a + b)[0] == a[0]);
        assert((a + b).drop_first() =~~= a.drop_first() + b);
        let step = if acc.contains(a[0]) {
            acc
        } else {
            acc.push(a[0])
        };
        assert(append_unique(acc, a + b) == append_unique(step, a.drop_first() + b));
        lemma_append_unique_concat(step, a.drop_first(), b);
    }
}

} // verus!

verus! {

/// Concatenation keeps freedom from duplicates when the parts are
/// duplicate-free and share nothing.
pub proof fn lemma_no_dup_concat(a: Seq<Seq<char>>, b: Seq<Seq<char>>)
    requires
        no_dup(a),
        no_dup(b),
        forall|i: int| 0 <= i < b.len() ==> !a.contains(#[trigger] b[i]),
    ensures
        no_dup(a + b),
{
    assert forall|x: int, y: int| 0 <= x < y < (a + b).len() implies (a + b)[x] != (a + b)[y] by {
        if y < a.len() {
        } else if x >= a.len() {
            assert((a + b)[x] == b[x - a.len()]);
            assert((a + b)[y] == b[y - a.len()]);
        } else {
            assert((a + b)[x] == a[x]);
            assert((a + b)[y] == b[y - a.len()]);
            if a[x] == b[y - a.len()] {
                assert(a.contains(b[y - a.len()]));
            }
        }
    }
}

/// None of the fixed flag tables repeats a flag.  Shown from the character
/// fingerprints of the managed flags: each pair differs in length or at an
/// asserted index.
#[verifier::rlimit(100)]
proof fn lemma_fixed_tables_no_dup(c: &AppConfig, name: Seq<char>)
    ensures
        no_dup(base_fixed_args(c, name)),
        no_dup(cmake_fixed_flags(c)),
        no_dup(make_cxx_fixed(c)),
        no_dup(make_ld_fixed(c)),
{
    reveal_strlit("-fwasm-exceptions");
    reveal_strlit("-g4");
    reveal_strlit("-O0");
    reveal_strlit("-O2");
    reveal_strlit("-O3");
    reveal_strlit("-sASSERTIONS=2");
    reveal_strlit("-sASSERTIONS=1");
    reveal_strlit("-sASSERTIONS=0");
    reveal_strlit("-sSAFE_HEAP=1");
    reveal_strlit("-sGL_ASSERTIONS=1");
    reveal_strlit("--llvm-lto");
    reveal_strlit("--llvm-lto=1");
    reveal_strlit("-sMODULARIZE=1");
    reveal_strlit("-sEXPORT_ES6=1");
    reveal_strlit("-sENVIRONMENT=web");
    reveal_strlit("-sENVIRONMENT=node");
    reveal_strlit("-sENVIRONMENT=web,node");
    reveal_strlit("-sEXPORTED_RUNTIME_METHODS=FS,callMain,setValue,getValue,UTF8ToString,stringToUTF8");
    reveal_strlit("-sWASM_BINARY_NAME=");
    reveal_strlit(".wasm");
    reveal_strlit("-sUSE_GLFW=3");
    reveal_strlit("-sUSE_WEBGL2=1");
    reveal_strlit("-sFULL_ES3=1");
    reveal_strlit("-sGL_ENABLE_GET_PROC_ADDRESS=1");
    reveal_strlit("-sALLOW_MEMORY_GROWTH=1");
    reveal_strlit("-sEXPORT_NAME='Module'");
    reveal_strlit("-sUSE_SDL=2");
    reveal_strlit("-sINITIAL_MEMORY=67108864");
    assert("-fwasm-exceptions"@.len() == 17 && "-fwasm-exceptions"@[1] == 'f');
    assert("-g4"@.len() == 3 && "-g4"@[1] == 'g');
    assert("-O0"@.len() == 3 && "-O0"@[1] == 'O' && "-O0"@[2] == '0');
    assert("-O2"@.len() == 3 && "-O2"@[1] == 'O' && "-O2"@[2] == '2');
    assert("-O3"@.len() == 3 && "-O3"@[1] == 'O' && "-O3"@[2] == '3');
    assert("-sASSERTIONS=2"@.len() == 14 && "-sASSERTIONS=2"@[1] == 's' && "-sASSERTIONS=2"@[2]
        == 'A' && "-sASSERTIONS=2"@[3] == 'S' && "-sASSERTIONS=2"@[13] == '2');
    assert("-sASSERTIONS=1"@.len() == 14 && "-sASSERTIONS=1"@[2] == 'A' && "-sASSERTIONS=1"@[3]
        == 'S' && "-sASSERTIONS=1"@[13] == '1');
    assert("-sASSERTIONS=0"@.len() == 14 && "-sASSERTIONS=0"@[2] == 'A' && "-sASSERTIONS=0"@[3]
        == 'S' && "-sASSERTIONS=0"@[13] == '0');
    assert("-sSAFE_HEAP=1"@.len() == 13 && "-sSAFE_HEAP=1"@[1] == 's' && "-sSAFE_HEAP=1"@[2]
        == 'S');
    assert("-sGL_ASSERTIONS=1"@.len() == 17 && "-sGL_ASSERTIONS=1"@[1] == 's'
        && "-sGL_ASSERTIONS=1"@[2] == 'G' && "-sGL_ASSERTIONS=1"@[5] == 'A');
    assert("--llvm-lto"@.len() == 10 && "--llvm-lto"@[1] == '-');
    assert("--llvm-lto=1"@.len() == 12 && "--llvm-lto=1"@[1] == '-');
    assert("-sMODULARIZE=1"@.len() == 14 && "-sMODULARIZE=1"@[2] == 'M');
    assert("-sEXPORT_ES6=1"@.len() == 14 && "-sEXPORT_ES6=1"@[2] == 'E' && "-sEXPORT_ES6=1"@[3]
        == 'X' && "-sEXPORT_ES6=1"@[8] == '_' && "-sEXPORT_ES6=1"@[9] == 'E');
    assert("-sENVIRONMENT=web"@.len() == 17 && "-sENVIRONMENT=web"@[1] == 's'
        && "-sENVIRONMENT=web"@[2] == 'E' && "-sENVIRONMENT=web"@[3] == 'N');
    assert("-sENVIRONMENT=node"@.len() == 18 && "-sENVIRONMENT=node"@[1] == 's'
        && "-sENVIRONMENT=node"@[2] == 'E' && "-sENVIRONMENT=node"@[3] == 'N');
    assert("-sENVIRONMENT=web,node"@.len() == 22 && "-sENVIRONMENT=web,node"@[1] == 's'
        && "-sENVIRONMENT=web,node"@[2] == 'E' && "-sENVIRONMENT=web,node"@[3] == 'N');
    assert(env_flag(c).len() >= 17 && env_flag(c).len() <= 22 && env_flag(c)[1] == 's'
        && env_flag(c)[2] == 'E' && env_flag(c)[3] == 'N');
    let rt = runtime_methods_flag();
    assert(rt[1] == 's' && rt[2] == 'E' && rt[3] == 'X' && rt[8] == 'E' && rt[9] == 'D' && rt.len() >= 27);
    let wf = wasm_name_flag(name);
    assert("-sWASM_BINARY_NAME="@.len() == 19 && ".wasm"@.len() == 5);
    assert(wf.len() >= 24);
    assert(wf[1] == "-sWASM_BINARY_NAME="@[1] && wf[2] == "-sWASM_BINARY_NAME="@[2]);
    assert(wf[1] == 's' && wf[2] == 'W');
    assert("-sUSE_GLFW=3"@.len() == 12 && "-sUSE_GLFW=3"@[1] == 's' && "-sUSE_GLFW=3"@[2] == 'U'
        && "-sUSE_GLFW=3"@[6] == 'G');
    assert("-sUSE_WEBGL2=1"@.len() == 14 && "-sUSE_WEBGL2=1"@[2] == 'U' && "-sUSE_WEBGL2=1"@[6]
        == 'W');
    assert("-sFULL_ES3=1"@.len() == 12 && "-sFULL_ES3=1"@[1] == 's' && "-sFULL_ES3=1"@[2] == 'F');
    assert("-sGL_ENABLE_GET_PROC_ADDRESS=1"@.len() == 30 && "-sGL_ENABLE_GET_PROC_ADDRESS=1"@[2]
        == 'G' && "-sGL_ENABLE_GET_PROC_ADDRESS=1"@[5] == 'E');
    assert("-sALLOW_MEMORY_GROWTH=1"@.len() == 23 && "-sALLOW_MEMORY_GROWTH=1"@[2] == 'A'
        && "-sALLOW_MEMORY_GROWTH=1"@[3] == 'L');
    assert("-sEXPORT_NAME='Module'"@.len() == 22 && "-sEXPORT_NAME='Module'"@[2] == 'E'
        && "-sEXPORT_NAME='Module'"@[3] == 'X' && "-sEXPORT_NAME='Module'"@[8] == '_'
        && "-sEXPORT_NAME='Module'"@[9] == 'N');
    assert("-sUSE_SDL=2"@.len() == 11 && "-sUSE_SDL=2"@[2] == 'U' && "-sUSE_SDL=2"@[6] == 'S');
    assert("-sINITIAL_MEMORY=67108864"@.len() == 25 && "-sINITIAL_MEMORY=67108864"@[2] == 'I');
    assert(no_dup(base_fixed_args(c, name)));
    assert(no_dup(cmake_fixed_flags(c)));
    assert(no_dup(make_cxx_fixed(c)));
    assert(no_dup(make_ld_fixed(c)));
}

/// The de-duplication law of the flag assembler: the assembled list of the
/// direct route repeats no flag string, the fixed flags stay an unchanged
/// prefix, and everything after them is a user-supplied token — a user
/// override can extend the managed flags but never duplicate or precede
/// them.
pub proof fn lemma_base_args_dedup(c: &AppConfig, name: Seq<char>)
    ensures
        no_dup(base_args(c, name)),
        base_args(c, name).take(base_fixed_args(c, name).len() as int) == base_fixed_args(
            c,
            name,
        ),
        forall|k: int|
            base_fixed_args(c, name).len() <= k < base_args(c, name).len()
                ==> user_flag_tokens(c).contains(#[trigger] base_args(c, name)[k]),
{
    lemma_fixed_tables_no_dup(c, name);
    lemma_append_unique_props(base_fixed_args(c, name), user_flag_tokens(c));
}

/// The de-duplication law of the Make route's compiler flags.
pub proof fn lemma_make_cxx_flags_dedup(c: &AppConfig)
    ensures
        no_dup(make_cxx_flags(c)),
        make_cxx_flags(c).take(make_cxx_fixed(c).len() as int) == make_cxx_fixed(c),
{
    lemma_fixed_tables_no_dup(c, c.output_name@);
    lemma_append_unique_props(make_cxx_fixed(c), cxx_part(user_flag_tokens(c)));
}

/// The de-duplication law of the CMake route's linker flags.  The output
/// naming is appended last unconditionally, so the law asks that the user
/// did not spell those exact tokens among the overrides.
pub proof fn lemma_cmake_flags_dedup(c: &AppConfig, build_dir: Seq<char>)
    requires
        forall|i: int|
            0 <= i < cmake_output_flags(c, build_dir).len() ==> !append_unique(
                cmake_fixed_flags(c),
                user_flag_tokens(c),
            ).contains(#[trigger] cmake_output_flags(c, build_dir)[i]),
        no_dup(cmake_output_flags(c, build_dir)),
    ensures
        no_dup(cmake_linker_flags(c, build_dir)),
        cmake_linker_flags(c, build_dir).take(cmake_fixed_flags(c).len() as int)
            == cmake_fixed_flags(c),
{
    lemma_fixed_tables_no_dup(c, c.output_name@);
    lemma_append_unique_props(cmake_fixed_flags(c), user_flag_tokens(c));
    lemma_no_dup_concat(
        append_unique(cmake_fixed_flags(c), user_flag_tokens(c)),
        cmake_output_flags(c, build_dir),
    );
    let fixed = cmake_fixed_flags(c);
    let kept = append_unique(fixed, user_flag_tokens(c));
    assert(cmake_linker_flags(c, build_dir).take(fixed.len() as int) =~~= kept.take(
        fixed.len() as int,
    ));
}

/// The closed three-way build-mode switch: every mode outside `debug` and
/// `release` selects exactly the flags of the default branch, on every
/// route.  The two configurations differ only in their build mode.
pub proof fn lemma_default_mode_shared(
    c1: &AppConfig,
    c2: &AppConfig,
    name: Seq<char>,
    build_dir: Seq<char>,
)
    requires
        !debug_mode(c1),
        !release_mode(c1),
        !debug_mode(c2),
        !release_mode(c2),
        c1.target_env@ == c2.target_env@,
        c1.with_imgui == c2.with_imgui,
        c1.output_name@ == c2.output_name@,
        match (c1.emcc_flags, c2.emcc_flags) {
            (Some(a), Some(b)) => a@ == b@,
            (None, None) => true,
            _ => false,
        },
    ensures
        base_args(c1, name) == base_args(c2, name),
        cmake_linker_flags(c1, build_dir) == cmake_linker_flags(c2, build_dir),
        make_invocation_args(c1) == make_invocation_args(c2),
{
    assert(user_flag_tokens(c1) == user_flag_tokens(c2));
    assert(user_names_export(c1) == user_names_export(c2));
    assert(direct_mode_flags(c1) == direct_mode_flags(c2));
    assert(cmake_mode_flags(c1) == cmake_mode_flags(c2));
    assert(cxx_mode_flags(c1) == cxx_mode_flags(c2));
    assert(env_flag(c1) == env_flag(c2));
    assert(toolkit_flags(c1) =~~= toolkit_flags(c2));
    assert(toolkit_flags_cmake(c1) =~~= toolkit_flags_cmake(c2));
    assert(base_fixed_args(c1, name) =~~= base_fixed_args(c2, name));
    assert(cmake_fixed_flags(c1) =~~= cmake_fixed_flags(c2));
    assert(make_cxx_fixed(c1) =~~= make_cxx_fixed(c2));
    assert(make_ld_fixed(c1) =~~= make_ld_fixed(c2));
    assert(cmake_output_flags(c1, build_dir) =~~= cmake_output_flags(c2, build_dir));
    assert(make_ld_flags(c1) =~~= make_ld_flags(c2));
    assert(make_invocation_args(c1) =~~= make_invocation_args(c2));
}

} // verus!
