//! The project probe: a snapshot of the facts the detection heuristics read
//! from the file system, gathered once by the embedding program and handed to
//! the library as plain values.  Every detection decision in the crate is a
//! pure, verified function of this snapshot.

use vstd::prelude::*;
use crate::pathutil::{file_name_spec, normal_form, parent_spec};
use crate::strutil::has_substring;

verus! {

/// One file-system object in the snapshot.  Paths are canonical absolute
/// `/`-separated strings.  `content` holds the text of a readable regular
/// file and is empty for directories and unreadable files.
pub struct FsEntry {
    pub path: String,
    pub is_dir: bool,
    pub content: String,
}

/// The file-system snapshot: the entries the embedding program observed, in
/// directory-iteration order within each directory.
pub struct FsView {
    pub entries: Vec<FsEntry>,
}

/// First matching content for `path` among the entries from index `i` on.
pub open spec fn content_from(entries: Seq<FsEntry>, path: Seq<char>, i: int) -> Option<
    Seq<char>,
>
    decreases entries.len() - i when 0 <= i <= entries.len()
{
    if i >= entries.len() {
        None
    } else if entries[i].path@ == path && !entries[i].is_dir {
        Some(entries[i].content@)
    } else {
        content_from(entries, path, i + 1)
    }
}

impl FsView {
    /// A regular file stands at `path`.
    pub open spec fn spec_has_file(&self, path: Seq<char>) -> bool {
        exists|k: int| 0 <= k < self.entries@.len() && (#[trigger] self.entries@[k].path@) == path
            && !self.entries@[k].is_dir
    }

    /// A directory stands at `path`.
    pub open spec fn spec_has_dir(&self, path: Seq<char>) -> bool {
        exists|k: int| 0 <= k < self.entries@.len() && (#[trigger] self.entries@[k].path@) == path
            && self.entries@[k].is_dir
    }

    /// The content of the first file entry at `path`, if one exists.
    pub open spec fn spec_content(&self, path: Seq<char>) -> Option<Seq<char>> {
        content_from(self.entries@, path, 0)
    }

    /// Whether a regular file stands at `path` once the path is normalized.
    pub fn has_file(&self, path: &str) -> (r: bool)
        ensures
            r == self.spec_has_file(normal_form(path@)),
    {
        let norm = crate::pathutil::normalize_path(path);
        let mut k: usize = 0;
        while k < self.entries.len()
            invariant
                k <= self.entries@.len(),
                norm@ == normal_form(path@),
                forall|m: int|
                    0 <= m < k ==> !((#[trigger] self.entries@[m].path@) == norm@
                        && !self.entries@[m].is_dir),
            decreases self.entries@.len() - k,
        {
            let e = &self.entries[k];
            if !e.is_dir && crate::strutil::eq_str(e.path.as_str(), norm.as_str()) {
                return true;
            }
            k += 1;
        }
        false
    }

    /// Whether a directory stands at `path` once the path is normalized.
    pub fn has_dir(&self, path: &str) -> (r: bool)
        ensures
            r == self.spec_has_dir(normal_form(path@)),
    {
        let norm = crate::pathutil::normalize_path(path);
        let mut k: usize = 0;
        while k < self.entries.len()
            invariant
                k <= self.entries@.len(),
                norm@ == normal_form(path@),
                forall|m: int|
                    0 <= m < k ==> !((#[trigger] self.entries@[m].path@) == norm@
                        && self.entries@[m].is_dir),
            decreases self.entries@.len() - k,
        {
            let e = &self.entries[k];
            if e.is_dir && crate::strutil::eq_str(e.path.as_str(), norm.as_str()) {
                return true;
            }
            k += 1;
        }
        false
    }

    /// The content of the file at `path` (normalized), if a file stands there.
    pub fn read_file(&self, path: &str) -> (r: Option<&String>)
        ensures
            match r {
                Some(c) => self.spec_content(normal_form(path@)) == Some(c@),
                None => self.spec_content(normal_form(path@)) is None,
            },
    {
        let norm = crate::pathutil::normalize_path(path);
        let mut k: usize = 0;
        while k < self.entries.len()
            invariant
                k <= self.entries@.len(),
                norm@ == normal_form(path@),
                content_from(self.entries@, norm@, 0) == content_from(
                    self.entries@,
                    norm@,
                    k as int,
                ),
            decreases self.entries@.len() - k,
        {
            let e = &self.entries[k];
            if !e.is_dir && crate::strutil::eq_str(e.path.as_str(), norm.as_str()) {
                return Some(&e.content);
            }
            k += 1;
        }
        None
    }
}

/// The facts about the project that the pipeline consumes: where the project
/// stands, whether the path names a directory, the file-system snapshot, and
/// whether the host platform wants `.bat` suffixes on toolchain wrappers.
pub struct ProjectProbe {
    /// Canonical absolute path of the project directory.
    pub project_root: String,
    /// The project path exists and names a directory.
    pub project_is_dir: bool,
    /// Snapshot of the project tree and its surroundings.
    pub fs: FsView,
    /// The host platform resolves toolchain wrappers with a `.bat` suffix.
    pub on_windows: bool,
}

/// `e` is a regular file directly inside `dir`.
pub open spec fn entry_in_dir(e: FsEntry, dir: Seq<char>) -> bool {
    !e.is_dir && parent_spec(e.path@) == Some(dir)
}

/// `e` is a regular file in `dir` whose name carries one of the C++ source
/// extensions `cpp`, `cxx`, `cc`.
pub open spec fn is_cpp_source_entry(e: FsEntry, dir: Seq<char>) -> bool {
    entry_in_dir(e, dir) && (crate::strutil::ext_is(file_name_spec(e.path@), "cpp"@)
        || crate::strutil::ext_is(file_name_spec(e.path@), "cxx"@) || crate::strutil::ext_is(
        file_name_spec(e.path@),
        "cc"@,
    ))
}

/// `is_cpp_source_entry`, extended by the `c` extension.
pub open spec fn is_c_or_cpp_source_entry(e: FsEntry, dir: Seq<char>) -> bool {
    entry_in_dir(e, dir) && (crate::strutil::ext_is(file_name_spec(e.path@), "cpp"@)
        || crate::strutil::ext_is(file_name_spec(e.path@), "cxx"@) || crate::strutil::ext_is(
        file_name_spec(e.path@),
        "cc"@,
    ) || crate::strutil::ext_is(file_name_spec(e.path@), "c"@))
}

/// `is_cpp_source_entry`, extended by the header extensions `h`, `hpp`.
pub open spec fn is_cpp_or_header_entry(e: FsEntry, dir: Seq<char>) -> bool {
    entry_in_dir(e, dir) && (crate::strutil::ext_is(file_name_spec(e.path@), "cpp"@)
        || crate::strutil::ext_is(file_name_spec(e.path@), "cxx"@) || crate::strutil::ext_is(
        file_name_spec(e.path@),
        "cc"@,
    ) || crate::strutil::ext_is(file_name_spec(e.path@), "h"@) || crate::strutil::ext_is(
        file_name_spec(e.path@),
        "hpp"@,
    ))
}

/// `e` is a main-candidate source: a C++ source whose file name mentions
/// `main`.
pub open spec fn is_main_source_entry(e: FsEntry, dir: Seq<char>) -> bool {
    is_cpp_source_entry(e, dir) && has_substring(file_name_spec(e.path@), "main"@)
}

/// Executable test for `is_cpp_source_entry`.
pub fn check_cpp_source_entry(e: &FsEntry, dir: &str) -> (r: bool)
    ensures
        r == is_cpp_source_entry(*e, dir@),
{
    if e.is_dir {
        return false;
    }
    let in_dir = match crate::pathutil::parent_of(e.path.as_str()) {
        Some(p) => crate::strutil::eq_str(p.as_str(), dir),
        None => false,
    };
    if !in_dir {
        return false;
    }
    let name = crate::pathutil::file_name_of(e.path.as_str());
    crate::strutil::has_ext(name.as_str(), "cpp") || crate::strutil::has_ext(name.as_str(), "cxx")
        || crate::strutil::has_ext(name.as_str(), "cc")
}

/// Executable test for `is_c_or_cpp_source_entry`.
pub fn check_c_or_cpp_source_entry(e: &FsEntry, dir: &str) -> (r: bool)
    ensures
        r == is_c_or_cpp_source_entry(*e, dir@),
{
    if e.is_dir {
        return false;
    }
    let in_dir = match crate::pathutil::parent_of(e.path.as_str()) {
        Some(p) => crate::strutil::eq_str(p.as_str(), dir),
        None => false,
    };
    if !in_dir {
        return false;
    }
    let name = crate::pathutil::file_name_of(e.path.as_str());
    crate::strutil::has_ext(name.as_str(), "cpp") || crate::strutil::has_ext(name.as_str(), "cxx")
        || crate::strutil::has_ext(name.as_str(), "cc") || crate::strutil::has_ext(
        name.as_str(),
        "c",
    )
}

/// Executable test for `is_cpp_or_header_entry`.
pub fn check_cpp_or_header_entry(e: &FsEntry, dir: &str) -> (r: bool)
    ensures
        r == is_cpp_or_header_entry(*e, dir@),
{
    if e.is_dir {
        return false;
    }
    let in_dir = match crate::pathutil::parent_of(e.path.as_str()) {
        Some(p) => crate::strutil::eq_str(p.as_str(), dir),
        None => false,
    };
    if !in_dir {
        return false;
    }
    let name = crate::pathutil::file_name_of(e.path.as_str());
    crate::strutil::has_ext(name.as_str(), "cpp") || crate::strutil::has_ext(name.as_str(), "cxx")
        || crate::strutil::has_ext(name.as_str(), "cc") || crate::strutil::has_ext(
        name.as_str(),
        "h",
    ) || crate::strutil::has_ext(name.as_str(), "hpp")
}

/// Executable test for a file in `dir` carrying the single extension `ext`.
pub fn check_entry_with_ext(e: &FsEntry, dir: &str, ext: &str) -> (r: bool)
    ensures
        r == (entry_in_dir(*e, dir@) && crate::strutil::ext_is(
            file_name_spec(e.path@),
            ext@,
        )),
{
    if e.is_dir {
        return false;
    }
    let in_dir = match crate::pathutil::parent_of(e.path.as_str()) {
        Some(p) => crate::strutil::eq_str(p.as_str(), dir),
        None => false,
    };
    if !in_dir {
        return false;
    }
    let name = crate::pathutil::file_name_of(e.path.as_str());
    crate::strutil::has_ext(name.as_str(), ext)
}

} // verus!

verus! {

impl FsView {
    /// Something (file or directory) stands at `path`.
    pub open spec fn spec_exists(&self, path: Seq<char>) -> bool {
        self.spec_has_file(path) || self.spec_has_dir(path)
    }

    /// Whether anything stands at `path` once the path is normalized.
    pub fn exists_any(&self, path: &str) -> (r: bool)
        ensures
            r == self.spec_exists(crate::pathutil::normal_form(path@)),
    {
        self.has_file(path) || self.has_dir(path)
    }
}

} // verus!
