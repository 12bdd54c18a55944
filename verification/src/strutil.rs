//! Verified text helpers used by the detection heuristics and the flag
//! assembler: equality, substring search, case-insensitive comparison,
//! whitespace splitting and joining.
//!
//! All predicates are stated over `Seq<char>` views, so every caller's
//! contract can speak about string contents directly.

use vstd::prelude::*;

verus! {

/// Numeric code of a character after folding an ASCII capital to lower case.
/// Non-ASCII characters are left unchanged.
pub open spec fn lower_code(c: char) -> int {
    if 65 <= c as u32 && c as u32 <= 90 {
        c as u32 + 32
    } else {
        c as u32 as int
    }
}

/// `needle` occurs in `hay` starting at index `i`.
pub open spec fn matches_at(hay: Seq<char>, needle: Seq<char>, i: int) -> bool {
    0 <= i && i + needle.len() <= hay.len() && hay.subrange(i, i + needle.len() as int)
        == needle
}

/// `needle` occurs somewhere in `hay`.
pub open spec fn has_substring(hay: Seq<char>, needle: Seq<char>) -> bool {
    exists|i: int| matches_at(hay, needle, i)
}

/// The two texts are equal once ASCII capitals are folded to lower case.
pub open spec fn eq_ignore_case(a: Seq<char>, b: Seq<char>) -> bool {
    a.len() == b.len() && forall|k: int| 0 <= k < a.len() ==> lower_code(a[k]) == lower_code(b[k])
}

/// Exact string equality, decided character by character.
pub fn eq_str(a: &str, b: &str) -> (r: bool)
    ensures
        r == (a@ == b@),
{
    let alen = a.unicode_len();
    let blen = b.unicode_len();
    if alen != blen {
        return false;
    }
    let mut i: usize = 0;
    while i < alen
        invariant
            alen == a@.len(),
            alen == b@.len(),
            i <= alen,
            forall|k: int| 0 <= k < i ==> a@[k] == b@[k],
        decreases alen - i,
    {
        if a.get_char(i) != b.get_char(i) {
            return false;
        }
        i += 1;
    }
    proof {
        assert(a@ =~= b@);
    }
    true
}

/// `hay` starts with `needle`.
pub fn str_starts_with(hay: &str, needle: &str) -> (r: bool)
    ensures
        r == matches_at(hay@, needle@, 0),
{
    let hlen = hay.unicode_len();
    let nlen = needle.unicode_len();
    if nlen > hlen {
        return false;
    }
    let mut j: usize = 0;
    while j < nlen
        invariant
            hlen == hay@.len(),
            nlen == needle@.len(),
            nlen <= hlen,
            j <= nlen,
            forall|k: int| 0 <= k < j ==> hay@[k] == needle@[k],
        decreases nlen - j,
    {
        if hay.get_char(j) != needle.get_char(j) {
            return false;
        }
        j += 1;
    }
    proof {
        assert(hay@.subrange(0, nlen as int) =~= needle@);
    }
    true
}

/// Substring search by scanning every candidate start position.
pub fn str_contains(hay: &str, needle: &str) -> (r: bool)
    ensures
        r == has_substring(hay@, needle@),
{
    let hlen = hay.unicode_len();
    let nlen = needle.unicode_len();
    if nlen > hlen {
        return false;
    }
    let limit = hlen - nlen;
    let mut i: usize = 0;
    while i <= limit
        invariant
            hlen == hay@.len(),
            nlen == needle@.len(),
            nlen <= hlen,
            limit == hlen - nlen,
            i <= limit + 1,
            forall|s: int| 0 <= s < i ==> !matches_at(hay@, needle@, s),
        decreases limit + 1 - i,
    {
        let mut j: usize = 0;
        let mut all_match = true;
        while j < nlen
            invariant
                hlen == hay@.len(),
                nlen == needle@.len(),
                i + nlen <= hlen,
                hlen <= usize::MAX,
                j <= nlen,
                all_match <==> forall|k: int| 0 <= k < j ==> hay@[i + k] == needle@[k],
            decreases nlen - j,
        {
            if hay.get_char(i + j) != needle.get_char(j) {
                all_match = false;
                proof {
                    assert(!(forall|k: int| 0 <= k < j + 1 ==> hay@[i + k] == needle@[k])) by {
                        assert(hay@[i + j as int] != needle@[j as int]);
                    }
                }
            }
            j += 1;
        }
        if all_match {
            proof {
                assert(hay@.subrange(i as int, i + nlen as int) =~= needle@);
                assert(matches_at(hay@, needle@, i as int));
            }
            return true;
        }
        proof {
            assert(!matches_at(hay@, needle@, i as int)) by {
                if matches_at(hay@, needle@, i as int) {
                    assert(forall|k: int| 0 <= k < nlen ==> hay@[i + k] == needle@[k]) by {
                        assert(forall|k: int|
                            0 <= k < nlen ==> #[trigger] needle@[k] == hay@.subrange(
                                i as int,
                                i + nlen as int,
                            )[k]);
                    }
                }
            }
        }
        i += 1;
    }
    proof {
        assert(forall|s: int| matches_at(hay@, needle@, s) ==> s + nlen <= hlen && 0 <= s);
    }
    false
}

/// The views of a sequence of strings.
pub open spec fn views_of(v: Seq<String>) -> Seq<Seq<char>> {
    v.map_values(|s: String| s@)
}

/// `needle` occurs in `hay` at position `i` when ASCII case is ignored.
pub open spec fn matches_at_nocase(hay: Seq<char>, needle: Seq<char>, i: int) -> bool {
    0 <= i && i + needle.len() <= hay.len() && forall|k: int|
        0 <= k < needle.len() ==> lower_code(hay[i + k]) == lower_code(needle[k])
}

/// `needle` occurs somewhere in `hay` when ASCII case is ignored.
pub open spec fn has_substring_nocase(hay: Seq<char>, needle: Seq<char>) -> bool {
    exists|i: int| matches_at_nocase(hay, needle, i)
}

/// The lower-case code of a character, computed executably.
pub fn lower_code_of(c: char) -> (r: u32)
    ensures
        r == lower_code(c),
{
    let code = c as u32;
    if 65 <= code && code <= 90 {
        code + 32
    } else {
        code
    }
}

/// Equality up to ASCII case folding.
pub fn eq_str_nocase(a: &str, b: &str) -> (r: bool)
    ensures
        r == eq_ignore_case(a@, b@),
{
    let alen = a.unicode_len();
    let blen = b.unicode_len();
    if alen != blen {
        return false;
    }
    let mut i: usize = 0;
    while i < alen
        invariant
            alen == a@.len(),
            alen == b@.len(),
            i <= alen,
            forall|k: int| 0 <= k < i ==> lower_code(a@[k]) == lower_code(b@[k]),
        decreases alen - i,
    {
        if lower_code_of(a.get_char(i)) != lower_code_of(b.get_char(i)) {
            return false;
        }
        i += 1;
    }
    true
}

/// Substring search up to ASCII case folding.
pub fn str_contains_nocase(hay: &str, needle: &str) -> (r: bool)
    ensures
        r == has_substring_nocase(hay@, needle@),
{
    let hlen = hay.unicode_len();
    let nlen = needle.unicode_len();
    if nlen > hlen {
        return false;
    }
    let limit = hlen - nlen;
    let mut i: usize = 0;
    while i <= limit
        invariant
            hlen == hay@.len(),
            nlen == needle@.len(),
            nlen <= hlen,
            limit == hlen - nlen,
            i <= limit + 1,
            forall|s: int| 0 <= s < i ==> !matches_at_nocase(hay@, needle@, s),
        decreases limit + 1 - i,
    {
        let mut j: usize = 0;
        let mut all_match = true;
        while j < nlen
            invariant
                hlen == hay@.len(),
                nlen == needle@.len(),
                i + nlen <= hlen,
                hlen <= usize::MAX,
                j <= nlen,
                all_match <==> forall|k: int|
                    0 <= k < j ==> lower_code(hay@[i + k]) == lower_code(needle@[k]),
            decreases nlen - j,
        {
            if lower_code_of(hay.get_char(i + j)) != lower_code_of(needle.get_char(j)) {
                all_match = false;
                proof {
                    assert(lower_code(hay@[i + j as int]) != lower_code(needle@[j as int]));
                }
            }
            j += 1;
        }
        if all_match {
            proof {
                assert(matches_at_nocase(hay@, needle@, i as int));
            }
            return true;
        }
        i += 1;
    }
    proof {
        assert(forall|s: int| matches_at_nocase(hay@, needle@, s) ==> 0 <= s && s <= limit);
    }
    false
}

/// Whether one of the strings equals `s`.
pub fn vec_contains_str(v: &Vec<String>, s: &str) -> (r: bool)
    ensures
        r == views_of(v@).contains(s@),
{
    let mut i: usize = 0;
    while i < v.len()
        invariant
            i <= v@.len(),
            forall|k: int| 0 <= k < i ==> views_of(v@)[k] != s@,
        decreases v@.len() - i,
    {
        if eq_str(v[i].as_str(), s) {
            proof {
                assert(views_of(v@)[i as int] == s@);
            }
            return true;
        }
        i += 1;
    }
    proof {
        assert(forall|k: int|
            0 <= k < v@.len() ==> views_of(v@)[k] != s@);
    }
    false
}

} // verus!

verus! {

/// A whitespace separator: space, tab, line feed, vertical tab, form feed,
/// carriage return.  These are the separators recognized when a user-supplied
/// flag string is split into tokens.
pub open spec fn is_space(c: char) -> bool {
    c == ' ' || c == '\t' || c == '\n' || c == '\r' || c as u32 == 11 || c as u32 == 12
}

/// Executable form of `is_space`.
pub fn is_space_char(c: char) -> (r: bool)
    ensures
        r == is_space(c),
{
    c == ' ' || c == '\t' || c == '\n' || c == '\r' || (c as u32) == 11 || (c as u32) == 12
}

/// Length of the run of non-whitespace characters at the front of `s`.
pub open spec fn token_len(s: Seq<char>) -> int
    decreases s.len(),
{
    if s.len() == 0 || is_space(s[0]) {
        0
    } else {
        1 + token_len(s.drop_first())
    }
}

/// Basic facts about `token_len`: it is a valid prefix length, the prefix is
/// free of whitespace, and the prefix is maximal.
pub proof fn lemma_token_len(s: Seq<char>)
    ensures
        0 <= token_len(s) <= s.len(),
        forall|k: int| 0 <= k < token_len(s) ==> !is_space(s[k]),
        token_len(s) == s.len() || is_space(s[token_len(s)]),
    decreases s.len(),
{
    if s.len() == 0 || is_space(s[0]) {
    } else {
        lemma_token_len(s.drop_first());
        assert forall|k: int| 0 <= k < token_len(s) implies !is_space(s[k]) by {
            if k > 0 {
                assert(s[k] == s.drop_first()[k - 1]);
            }
        }
        if token_len(s.drop_first()) != s.drop_first().len() {
            assert(s[token_len(s)] == s.drop_first()[token_len(s.drop_first())]);
        }
    }
}

/// If the first `k` characters are not whitespace and the run stops at `k`,
/// then `k` is exactly the token length.
pub proof fn lemma_token_len_eq(s: Seq<char>, k: int)
    requires
        0 <= k <= s.len(),
        forall|m: int| 0 <= m < k ==> !is_space(s[m]),
        k == s.len() || is_space(s[k]),
    ensures
        token_len(s) == k,
    decreases s.len(),
{
    if s.len() == 0 || is_space(s[0]) {
    } else {
        assert(k != 0);
        assert(forall|m: int| 0 <= m < s.drop_first().len() ==> s.drop_first()[m] == s[m + 1]);
        lemma_token_len_eq(s.drop_first(), k - 1);
    }
}

/// The whitespace-separated tokens of `s`, in order.
pub open spec fn split_ws(s: Seq<char>) -> Seq<Seq<char>>
    decreases s.len(),
    via split_ws_decreases
{
    if s.len() == 0 {
        Seq::empty()
    } else if is_space(s[0]) {
        split_ws(s.drop_first())
    } else {
        seq![s.take(token_len(s))] + split_ws(s.skip(token_len(s)))
    }
}

#[via_fn]
proof fn split_ws_decreases(s: Seq<char>) {
    if s.len() > 0 && !is_space(s[0]) {
        lemma_token_len(s);
    }
}

/// Splitting into whitespace-separated tokens.
pub fn split_whitespace_tokens(s: &str) -> (r: Vec<String>)
    ensures
        views_of(r@) == split_ws(s@),
{
    let len = s.unicode_len();
    let mut out: Vec<String> = Vec::new();
    let mut i: usize = 0;
    proof {
        assert(s@.skip(0) =~= s@);
        assert(views_of(out@) + split_ws(s@) =~= split_ws(s@));
    }
    while i < len
        invariant
            len == s@.len(),
            i <= len,
            views_of(out@) + split_ws(s@.skip(i as int)) == split_ws(s@),
        decreases len - i,
    {
        let c = s.get_char(i);
        if is_space_char(c) {
            proof {
                assert(s@.skip(i as int).drop_first() =~= s@.skip(i + 1));
                assert(views_of(out@) + split_ws(s@.skip(i + 1)) == split_ws(s@));
            }
            i += 1;
        } else {
            let start = i;
            let mut j = i + 1;
            while j < len && !is_space_char(s.get_char(j))
                invariant
                    len == s@.len(),
                    start < j <= len,
                    forall|m: int| start <= m < j ==> !is_space(s@[m]),
                decreases len - j,
            {
                j += 1;
            }
            let tok = s.substring_char(start, j).to_owned();
            proof {
                let t = s@.skip(start as int);
                assert(forall|m: int| 0 <= m < j - start ==> t[m] == s@[start + m]);
                lemma_token_len_eq(t, j - start);
                assert(t.take(j - start) =~= s@.subrange(start as int, j as int));
                assert(t.skip(j - start) =~= s@.skip(j as int));
                assert(split_ws(t) == seq![s@.subrange(start as int, j as int)] + split_ws(
                    s@.skip(j as int),
                ));
                assert(views_of(out@.push(tok)) =~= views_of(out@).push(tok@));
                assert(views_of(out@.push(tok)) + split_ws(s@.skip(j as int)) =~= views_of(out@)
                    + split_ws(s@.skip(start as int)));
            }
            out.push(tok);
            i = j;
        }
    }
    proof {
        assert(s@.skip(len as int) =~= Seq::<char>::empty());
        assert(views_of(out@) + split_ws(s@.skip(len as int)) =~= views_of(out@));
    }
    out
}

/// The tokens joined with a single space between neighbours.
pub open spec fn join_space(toks: Seq<Seq<char>>) -> Seq<char>
    decreases toks.len(),
{
    if toks.len() == 0 {
        Seq::empty()
    } else if toks.len() == 1 {
        toks[0]
    } else {
        toks[0] + " "@ + join_space(toks.drop_first())
    }
}

/// Appending one more token extends the joined text by a space and the token.
pub proof fn lemma_join_space_push(toks: Seq<Seq<char>>, t: Seq<char>)
    ensures
        join_space(toks.push(t)) == if toks.len() == 0 {
            t
        } else {
            join_space(toks) + " "@ + t
        },
    decreases toks.len(),
{
    if toks.len() == 0 {
        assert(toks.push(t)[0] == t);
    } else if toks.len() == 1 {
        assert(toks.push(t).drop_first() =~~= seq![t]);
        assert(toks.push(t)[0] == toks[0]);
        assert(join_space(seq![t]) == seq![t][0]);
        assert(seq![t][0] == t);
    } else {
        assert(toks.push(t).drop_first() =~~= toks.drop_first().push(t));
        lemma_join_space_push(toks.drop_first(), t);
        assert(toks.push(t)[0] == toks[0]);
        assert(join_space(toks.push(t)) == toks[0] + " "@ + (join_space(toks.drop_first()) + " "@
            + t));
        assert(toks[0] + " "@ + (join_space(toks.drop_first()) + " "@ + t) =~= (toks[0] + " "@
            + join_space(toks.drop_first())) + " "@ + t);
    }
}

/// Joining a vector of strings with single spaces.
pub fn join_with_spaces(v: &Vec<String>) -> (r: String)
    ensures
        r@ == join_space(views_of(v@)),
{
    let mut acc = String::new();
    let mut i: usize = 0;
    while i < v.len()
        invariant
            i <= v@.len(),
            acc@ == join_space(views_of(v@).take(i as int)),
        decreases v@.len() - i,
    {
        if i > 0 {
            acc.append(" ");
        }
        acc.append(v[i].as_str());
        proof {
            let pre = views_of(v@).take(i as int);
            lemma_join_space_push(pre, v@[i as int]@);
            assert(views_of(v@).take(i + 1) =~~= pre.push(v@[i as int]@));
        }
        i += 1;
    }
    proof {
        assert(views_of(v@).take(v@.len() as int) =~~= views_of(v@));
    }
    acc
}

} // verus!

verus! {

/// First occurrence of `c` in `s`, if any.
pub fn find_char(s: &str, c: char) -> (r: Option<usize>)
    ensures
        match r {
            Some(i) => i < s@.len() && s@[i as int] == c && forall|k: int|
                0 <= k < i ==> s@[k] != c,
            None => forall|k: int| 0 <= k < s@.len() ==> s@[k] != c,
        },
{
    let len = s.unicode_len();
    let mut i: usize = 0;
    while i < len
        invariant
            len == s@.len(),
            i <= len,
            forall|k: int| 0 <= k < i ==> s@[k] != c,
        decreases len - i,
    {
        if s.get_char(i) == c {
            return Some(i);
        }
        i += 1;
    }
    None
}

/// Last occurrence of `c` in `s`, if any.
pub fn rfind_char(s: &str, c: char) -> (r: Option<usize>)
    ensures
        match r {
            Some(i) => i < s@.len() && s@[i as int] == c && forall|k: int|
                i < k < s@.len() ==> s@[k] != c,
            None => forall|k: int| 0 <= k < s@.len() ==> s@[k] != c,
        },
{
    let len = s.unicode_len();
    let mut i: usize = len;
    while i > 0
        invariant
            len == s@.len(),
            i <= len,
            forall|k: int| i <= k < len ==> s@[k] != c,
        decreases i,
    {
        i -= 1;
        if s.get_char(i) == c {
            return Some(i);
        }
    }
    None
}

/// Does `needle` occur in `hay` exactly at position `pos`?
pub fn matches_at_pos(hay: &str, needle: &str, pos: usize) -> (r: bool)
    ensures
        r == matches_at(hay@, needle@, pos as int),
{
    let hlen = hay.unicode_len();
    let nlen = needle.unicode_len();
    if pos > hlen || nlen > hlen - pos {
        return false;
    }
    let mut j: usize = 0;
    while j < nlen
        invariant
            hlen == hay@.len(),
            nlen == needle@.len(),
            pos + nlen <= hlen,
            j <= nlen,
            forall|k: int| 0 <= k < j ==> hay@[pos + k] == needle@[k],
        decreases nlen - j,
    {
        if hay.get_char(pos + j) != needle.get_char(j) {
            proof {
                assert(!matches_at(hay@, needle@, pos as int)) by {
                    if matches_at(hay@, needle@, pos as int) {
                        assert(hay@.subrange(pos as int, pos + nlen as int)[j as int] == hay@[pos
                            + j as int]);
                    }
                }
            }
            return false;
        }
        j += 1;
    }
    proof {
        assert(hay@.subrange(pos as int, pos + nlen as int) =~= needle@);
    }
    true
}

/// `name` has the file-name extension `ext`: a dot stands at some position
/// after the first character, no dot follows it, and the text after it is
/// exactly `ext`.
pub open spec fn ext_is(name: Seq<char>, ext: Seq<char>) -> bool {
    exists|p: int|
        {
            &&& 0 < p < name.len()
            &&& name[p] == '.'
            &&& (forall|k: int| p < k < name.len() ==> name[k] != '.')
            &&& name.subrange(p + 1, name.len() as int) == ext
        }
}

/// Decides `ext_is` by locating the last dot.
pub fn has_ext(name: &str, ext: &str) -> (r: bool)
    ensures
        r == ext_is(name@, ext@),
{
    let len = name.unicode_len();
    match rfind_char(name, '.') {
        None => {
            proof {
                assert(forall|p: int| 0 < p < name@.len() ==> name@[p] != '.');
            }
            false
        },
        Some(p) => {
            if p == 0 {
                false
            } else {
                let suffix = name.substring_char(p + 1, len);
                let r = eq_str(suffix, ext);
                proof {
                    if r {
                        assert(ext_is(name@, ext@)) by {
                            assert(name@[p as int] == '.');
                            assert(name@.subrange(p + 1, name@.len() as int) == ext@);
                        }
                    } else {
                        assert(!ext_is(name@, ext@)) by {
                            if ext_is(name@, ext@) {
                                let q = choose|q: int|
                                    {
                                        &&& 0 < q < name@.len()
                                        &&& name@[q] == '.'
                                        &&& (forall|k: int|
                                            q < k < name@.len() ==> name@[k] != '.')
                                        &&& name@.subrange(q + 1, name@.len() as int) == ext@
                                    };
                                assert(q == p);
                            }
                        }
                    }
                }
                r
            }
        },
    }
}

} // verus!

verus! {

/// Length of the run of characters different from `sep` at the front of `s`.
pub open spec fn run_len(s: Seq<char>, sep: char) -> int
    decreases s.len(),
{
    if s.len() == 0 || s[0] == sep {
        0
    } else {
        1 + run_len(s.drop_first(), sep)
    }
}

/// Basic facts about `run_len`.
pub proof fn lemma_run_len(s: Seq<char>, sep: char)
    ensures
        0 <= run_len(s, sep) <= s.len(),
        forall|k: int| 0 <= k < run_len(s, sep) ==> s[k] != sep,
        run_len(s, sep) == s.len() || s[run_len(s, sep)] == sep,
    decreases s.len(),
{
    if s.len() == 0 || s[0] == sep {
    } else {
        lemma_run_len(s.drop_first(), sep);
        assert forall|k: int| 0 <= k < run_len(s, sep) implies s[k] != sep by {
            if k > 0 {
                assert(s[k] == s.drop_first()[k - 1]);
            }
        }
        if run_len(s.drop_first(), sep) != s.drop_first().len() {
            assert(s[run_len(s, sep)] == s.drop_first()[run_len(s.drop_first(), sep)]);
        }
    }
}

/// A stopped run of length `k` at the front is the run length.
pub proof fn lemma_run_len_eq(s: Seq<char>, sep: char, k: int)
    requires
        0 <= k <= s.len(),
        forall|m: int| 0 <= m < k ==> s[m] != sep,
        k == s.len() || s[k] == sep,
    ensures
        run_len(s, sep) == k,
    decreases s.len(),
{
    if s.len() == 0 || s[0] == sep {
    } else {
        assert(k != 0);
        assert(forall|m: int| 0 <= m < s.drop_first().len() ==> s.drop_first()[m] == s[m + 1]);
        lemma_run_len_eq(s.drop_first(), sep, k - 1);
    }
}

/// The non-empty pieces of `s` between occurrences of `sep`, in order.
pub open spec fn split_sep(s: Seq<char>, sep: char) -> Seq<Seq<char>>
    decreases s.len(),
    via split_sep_decreases
{
    if s.len() == 0 {
        Seq::empty()
    } else if s[0] == sep {
        split_sep(s.drop_first(), sep)
    } else {
        seq![s.take(run_len(s, sep))] + split_sep(s.skip(run_len(s, sep)), sep)
    }
}

#[via_fn]
proof fn split_sep_decreases(s: Seq<char>, sep: char) {
    if s.len() > 0 && s[0] != sep {
        lemma_run_len(s, sep);
    }
}

/// Splits at a separator character, dropping empty pieces.
pub fn split_on_char(s: &str, sep: char) -> (r: Vec<String>)
    ensures
        views_of(r@) == split_sep(s@, sep),
{
    let len = s.unicode_len();
    let mut out: Vec<String> = Vec::new();
    let mut i: usize = 0;
    proof {
        assert(s@.skip(0) =~= s@);
        assert(views_of(out@) + split_sep(s@, sep) =~~= split_sep(s@, sep));
    }
    while i < len
        invariant
            len == s@.len(),
            i <= len,
            views_of(out@) + split_sep(s@.skip(i as int), sep) == split_sep(s@, sep),
        decreases len - i,
    {
        let c = s.get_char(i);
        if c == sep {
            proof {
                assert(s@.skip(i as int).drop_first() =~= s@.skip(i + 1));
            }
            i += 1;
        } else {
            let start = i;
            let mut j = i + 1;
            while j < len && s.get_char(j) != sep
                invariant
                    len == s@.len(),
                    start < j <= len,
                    forall|m: int| start <= m < j ==> s@[m] != sep,
                decreases len - j,
            {
                j += 1;
            }
            let piece = s.substring_char(start, j).to_owned();
            proof {
                let t = s@.skip(start as int);
                assert(forall|m: int| 0 <= m < j - start ==> t[m] == s@[start + m]);
                lemma_run_len_eq(t, sep, j - start);
                assert(t.take(j - start) =~= s@.subrange(start as int, j as int));
                assert(t.skip(j - start) =~= s@.skip(j as int));
                assert(split_sep(t, sep) == seq![s@.subrange(start as int, j as int)] + split_sep(
                    s@.skip(j as int),
                    sep,
                ));
                assert(views_of(out@.push(piece)) =~~= views_of(out@).push(piece@));
                assert(views_of(out@.push(piece)) + split_sep(s@.skip(j as int), sep) =~~=
                views_of(out@) + split_sep(s@.skip(start as int), sep));
            }
            out.push(piece);
            i = j;
        }
    }
    proof {
        assert(s@.skip(len as int) =~= Seq::<char>::empty());
        assert(views_of(out@) + split_sep(s@.skip(len as int), sep) =~~= views_of(out@));
    }
    out
}

/// Index of the first character that is not whitespace; the length when all
/// are whitespace.
pub open spec fn first_nonspace(s: Seq<char>) -> int
    decreases s.len(),
{
    if s.len() == 0 {
        0
    } else if is_space(s[0]) {
        1 + first_nonspace(s.drop_first())
    } else {
        0
    }
}

/// Characterizes `first_nonspace`.
pub proof fn lemma_first_nonspace(s: Seq<char>)
    ensures
        0 <= first_nonspace(s) <= s.len(),
        forall|k: int| 0 <= k < first_nonspace(s) ==> is_space(s[k]),
        first_nonspace(s) < s.len() ==> !is_space(s[first_nonspace(s)]),
    decreases s.len(),
{
    if s.len() == 0 {
    } else if is_space(s[0]) {
        lemma_first_nonspace(s.drop_first());
        assert forall|k: int| 0 <= k < first_nonspace(s) implies is_space(s[k]) by {
            if k > 0 {
                assert(s[k] == s.drop_first()[k - 1]);
            }
        }
        if first_nonspace(s) < s.len() {
            assert(s[first_nonspace(s)] == s.drop_first()[first_nonspace(s.drop_first())]);
        }
    } else {
    }
}

/// Finds `first_nonspace` executably.
pub fn skip_leading_spaces(s: &str) -> (r: usize)
    ensures
        r == first_nonspace(s@),
{
    let len = s.unicode_len();
    let mut i: usize = 0;
    while i < len && is_space_char(s.get_char(i))
        invariant
            len == s@.len(),
            i <= len,
            forall|k: int| 0 <= k < i ==> is_space(s@[k]),
        decreases len - i,
    {
        i += 1;
    }
    proof {
        lemma_first_nonspace(s@);
        if i < len {
            assert(!is_space(s@[i as int]));
            if first_nonspace(s@) < i {
                assert(is_space(s@[first_nonspace(s@)]));
            }
            if first_nonspace(s@) > i {
                assert(is_space(s@[i as int]));
            }
        } else {
            if first_nonspace(s@) < i {
                assert(is_space(s@[first_nonspace(s@)]));
            }
        }
    }
    i
}

/// Index of the first occurrence of `c` in `p`, or `-1` when absent.
pub open spec fn first_index_of(p: Seq<char>, c: char) -> int
    decreases p.len(),
{
    if p.len() == 0 {
        -1
    } else if p[0] == c {
        0
    } else {
        let rest = first_index_of(p.drop_first(), c);
        if rest == -1 {
            -1
        } else {
            1 + rest
        }
    }
}

/// Characterizes `first_index_of`.
pub proof fn lemma_first_index_of(p: Seq<char>, c: char)
    ensures
        -1 <= first_index_of(p, c) < p.len(),
        first_index_of(p, c) == -1 ==> forall|k: int| 0 <= k < p.len() ==> p[k] != c,
        first_index_of(p, c) >= 0 ==> p[first_index_of(p, c)] == c && forall|k: int|
            0 <= k < first_index_of(p, c) ==> p[k] != c,
    decreases p.len(),
{
    if p.len() == 0 {
    } else if p[0] == c {
    } else {
        lemma_first_index_of(p.drop_first(), c);
        let rest = first_index_of(p.drop_first(), c);
        if rest == -1 {
            assert forall|k: int| 0 <= k < p.len() implies p[k] != c by {
                if k > 0 {
                    assert(p[k] == p.drop_first()[k - 1]);
                }
            }
        } else {
            assert(p[1 + rest] == p.drop_first()[rest]);
            assert forall|k: int| 0 <= k < first_index_of(p, c) implies p[k] != c by {
                if k > 0 {
                    assert(p[k] == p.drop_first()[k - 1]);
                }
            }
        }
    }
}

/// A position holding `c` with no earlier occurrence is the first index.
pub proof fn lemma_find_is_first(p: Seq<char>, c: char, q: int)
    requires
        0 <= q < p.len(),
        p[q] == c,
        forall|k: int| 0 <= k < q ==> p[k] != c,
    ensures
        first_index_of(p, c) == q,
{
    lemma_first_index_of(p, c);
    let l = first_index_of(p, c);
    if l == -1 {
        assert(p[q] != c);
    } else if l < q {
        assert(p[l] != c);
    } else if l > q {
        assert(p[q] != c);
    }
}

/// When `c` occurs nowhere, the first index is `-1`.
pub proof fn lemma_find_none(p: Seq<char>, c: char)
    requires
        forall|k: int| 0 <= k < p.len() ==> p[k] != c,
    ensures
        first_index_of(p, c) == -1,
{
    lemma_first_index_of(p, c);
    let l = first_index_of(p, c);
    if l >= 0 {
        assert(p[l] != c);
    }
}

} // verus!
