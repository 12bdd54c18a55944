//! Verified path-text manipulation.  Paths are plain `/`-separated strings;
//! the embedding program hands the library canonical absolute paths, and the
//! library derives every further path it speaks about with the helpers here.

use vstd::prelude::*;
use crate::strutil::views_of;

verus! {

/// Index of the last occurrence of `c` in `p`, or `-1` when absent.
pub open spec fn last_index_of(p: Seq<char>, c: char) -> int
    decreases p.len(),
{
    if p.len() == 0 {
        -1
    } else if p[p.len() - 1] == c {
        p.len() - 1
    } else {
        last_index_of(p.drop_last(), c)
    }
}

/// Characterizes `last_index_of`: the result is the greatest index holding
/// `c`, or `-1` when no index does.
pub proof fn lemma_last_index_of(p: Seq<char>, c: char)
    ensures
        -1 <= last_index_of(p, c) < p.len(),
        last_index_of(p, c) == -1 ==> forall|k: int| 0 <= k < p.len() ==> p[k] != c,
        last_index_of(p, c) >= 0 ==> {
            &&& last_index_of(p, c) < p.len()
            &&& p[last_index_of(p, c)] == c
            &&& forall|k: int| last_index_of(p, c) < k < p.len() ==> p[k] != c
        },
    decreases p.len(),
{
    if p.len() == 0 {
    } else if p[p.len() - 1] == c {
    } else {
        lemma_last_index_of(p.drop_last(), c);
        assert(forall|k: int| 0 <= k < p.len() - 1 ==> p.drop_last()[k] == p[k]);
    }
}

/// A position holding `c` with no later occurrence is the last index.
pub proof fn lemma_rfind_is_last(p: Seq<char>, c: char, q: int)
    requires
        0 <= q < p.len(),
        p[q] == c,
        forall|k: int| q < k < p.len() ==> p[k] != c,
    ensures
        last_index_of(p, c) == q,
{
    lemma_last_index_of(p, c);
    let l = last_index_of(p, c);
    if l == -1 {
        assert(p[q] != c);
    } else if l < q {
        assert(p[q] != c);
    } else if l > q {
        assert(p[l] != c);
    }
}

/// When `c` occurs nowhere, the last index is `-1`.
pub proof fn lemma_rfind_none(p: Seq<char>, c: char)
    requires
        forall|k: int| 0 <= k < p.len() ==> p[k] != c,
    ensures
        last_index_of(p, c) == -1,
{
    lemma_last_index_of(p, c);
    let l = last_index_of(p, c);
    if l >= 0 {
        assert(p[l] != c);
    }
}

/// The parent directory of a path, `None` for the root and for paths without
/// a separator.
pub open spec fn parent_spec(p: Seq<char>) -> Option<Seq<char>> {
    let q = last_index_of(p, '/');
    if q < 0 {
        None
    } else if q == 0 {
        if p.len() == 1 {
            None
        } else {
            Some(seq!['/'])
        }
    } else {
        Some(p.take(q))
    }
}

/// The final component of a path: the text after the last separator.
pub open spec fn file_name_spec(p: Seq<char>) -> Seq<char> {
    p.skip(last_index_of(p, '/') + 1)
}

/// `dir` and `name` joined with a single separator.
pub open spec fn join_spec(dir: Seq<char>, name: Seq<char>) -> Seq<char> {
    if dir.len() > 0 && dir[dir.len() - 1] == '/' {
        dir + name
    } else {
        dir + seq!['/'] + name
    }
}

/// Executable parent-directory computation.
pub fn parent_of(p: &str) -> (r: Option<String>)
    ensures
        match r {
            Some(d) => parent_spec(p@) == Some(d@),
            None => parent_spec(p@) is None,
        },
{
    match crate::strutil::rfind_char(p, '/') {
        None => {
            proof {
                lemma_rfind_none(p@, '/');
            }
            None
        },
        Some(q) => {
            proof {
                lemma_rfind_is_last(p@, '/', q as int);
            }
            if q == 0 {
                if p.unicode_len() == 1 {
                    None
                } else {
                    let root = "/".to_owned();
                    proof {
                        reveal_strlit("/");
                        assert(root@ =~= seq!['/']);
                    }
                    Some(root)
                }
            } else {
                let d = p.substring_char(0, q).to_owned();
                proof {
                    assert(d@ =~= p@.take(q as int));
                }
                Some(d)
            }
        },
    }
}

/// Executable final-component computation.
pub fn file_name_of(p: &str) -> (r: String)
    ensures
        r@ == file_name_spec(p@),
{
    let len = p.unicode_len();
    match crate::strutil::rfind_char(p, '/') {
        None => {
            proof {
                lemma_rfind_none(p@, '/');
                assert(p@.skip(0) =~= p@);
            }
            p.to_owned()
        },
        Some(q) => {
            proof {
                lemma_rfind_is_last(p@, '/', q as int);
            }
            let r = p.substring_char(q + 1, len).to_owned();
            proof {
                assert(r@ =~= p@.skip(q + 1));
            }
            r
        },
    }
}

/// Executable join.
pub fn path_join(dir: &str, name: &str) -> (r: String)
    ensures
        r@ == join_spec(dir@, name@),
{
    let dlen = dir.unicode_len();
    if dlen > 0 && dir.get_char(dlen - 1) == '/' {
        let r = dir.to_owned().concat(name);
        r
    } else {
        let r = dir.to_owned().concat("/").concat(name);
        proof {
            reveal_strlit("/");
            assert(dir@ + "/"@ + name@ =~= dir@ + seq!['/'] + name@);
        }
        r
    }
}

} // verus!

verus! {

/// Length of the run of non-separator characters at the front of `s`.
pub open spec fn comp_len(s: Seq<char>) -> int
    decreases s.len(),
{
    if s.len() == 0 || s[0] == '/' {
        0
    } else {
        1 + comp_len(s.drop_first())
    }
}

/// Basic facts about `comp_len`, mirroring `token_len`.
pub proof fn lemma_comp_len(s: Seq<char>)
    ensures
        0 <= comp_len(s) <= s.len(),
        forall|k: int| 0 <= k < comp_len(s) ==> s[k] != '/',
        comp_len(s) == s.len() || s[comp_len(s)] == '/',
    decreases s.len(),
{
    if s.len() == 0 || s[0] == '/' {
    } else {
        lemma_comp_len(s.drop_first());
        assert forall|k: int| 0 <= k < comp_len(s) implies s[k] != '/' by {
            if k > 0 {
                assert(s[k] == s.drop_first()[k - 1]);
            }
        }
        if comp_len(s.drop_first()) != s.drop_first().len() {
            assert(s[comp_len(s)] == s.drop_first()[comp_len(s.drop_first())]);
        }
    }
}

/// A stopped non-separator run of length `k` at the front is the component length.
pub proof fn lemma_comp_len_eq(s: Seq<char>, k: int)
    requires
        0 <= k <= s.len(),
        forall|m: int| 0 <= m < k ==> s[m] != '/',
        k == s.len() || s[k] == '/',
    ensures
        comp_len(s) == k,
    decreases s.len(),
{
    if s.len() == 0 || s[0] == '/' {
    } else {
        assert(k != 0);
        assert(forall|m: int| 0 <= m < s.drop_first().len() ==> s.drop_first()[m] == s[m + 1]);
        lemma_comp_len_eq(s.drop_first(), k - 1);
    }
}

/// The non-empty `/`-separated components of a path, in order.
pub open spec fn components_of(s: Seq<char>) -> Seq<Seq<char>>
    decreases s.len(),
    via components_of_decreases
{
    if s.len() == 0 {
        Seq::empty()
    } else if s[0] == '/' {
        components_of(s.drop_first())
    } else {
        seq![s.take(comp_len(s))] + components_of(s.skip(comp_len(s)))
    }
}

#[via_fn]
proof fn components_of_decreases(s: Seq<char>) {
    if s.len() > 0 && s[0] != '/' {
        lemma_comp_len(s);
    }
}

/// One step of dot-segment resolution: `.` is dropped, `..` removes the last
/// component kept so far, anything else is kept.
pub open spec fn resolve_step(acc: Seq<Seq<char>>, c: Seq<char>) -> Seq<Seq<char>> {
    if c == "."@ {
        acc
    } else if c == ".."@ {
        if acc.len() > 0 {
            acc.drop_last()
        } else {
            acc
        }
    } else {
        acc.push(c)
    }
}

/// Dot-segment resolution over a whole component sequence.
pub open spec fn resolve_comps(acc: Seq<Seq<char>>, comps: Seq<Seq<char>>) -> Seq<Seq<char>>
    decreases comps.len(),
{
    if comps.len() == 0 {
        acc
    } else {
        resolve_comps(resolve_step(acc, comps[0]), comps.drop_first())
    }
}

/// Components rendered back into an absolute path: a leading separator before
/// each component, a bare separator for the empty sequence.
pub open spec fn render_abs(comps: Seq<Seq<char>>) -> Seq<char>
    decreases comps.len(),
{
    if comps.len() == 0 {
        Seq::empty()
    } else {
        seq!['/'] + comps[0] + render_abs(comps.drop_first())
    }
}

/// The normal form of an absolute path: components split at separators,
/// dot segments resolved, and the rest rejoined.
pub open spec fn normal_form(p: Seq<char>) -> Seq<char> {
    let comps = resolve_comps(Seq::empty(), components_of(p));
    if comps.len() == 0 {
        seq!['/']
    } else {
        render_abs(comps)
    }
}

/// Appending one more component extends the rendered path on the right.
pub proof fn lemma_render_abs_push(comps: Seq<Seq<char>>, c: Seq<char>)
    ensures
        render_abs(comps.push(c)) == render_abs(comps) + seq!['/'] + c,
    decreases comps.len(),
{
    if comps.len() == 0 {
        assert(comps.push(c).drop_first() =~~= Seq::<Seq<char>>::empty());
        assert(comps.push(c)[0] == c);
        assert(render_abs(Seq::<Seq<char>>::empty()) == Seq::<char>::empty());
        assert(render_abs(comps.push(c)) == seq!['/'] + c + Seq::<char>::empty());
        assert(seq!['/'] + c + Seq::<char>::empty() =~= seq!['/'] + c);
        assert(render_abs(comps) + seq!['/'] + c =~= seq!['/'] + c);
    } else {
        assert(comps.push(c).drop_first() =~~= comps.drop_first().push(c));
        lemma_render_abs_push(comps.drop_first(), c);
        assert(comps.push(c)[0] == comps[0]);
        assert(seq!['/'] + comps[0] + (render_abs(comps.drop_first()) + seq!['/'] + c) =~= (
        seq!['/'] + comps[0] + render_abs(comps.drop_first())) + seq!['/'] + c);
    }
}

/// Normalizes an absolute path textually: splits at separators, drops `.`
/// segments, lets `..` consume the preceding component, and rejoins.
pub fn normalize_path(p: &str) -> (r: String)
    ensures
        r@ == normal_form(p@),
{
    let len = p.unicode_len();
    let mut stack: Vec<String> = Vec::new();
    let mut i: usize = 0;
    proof {
        assert(p@.skip(0) =~= p@);
        assert(views_of(stack@) =~~= Seq::<Seq<char>>::empty());
    }
    while i < len
        invariant
            len == p@.len(),
            i <= len,
            resolve_comps(views_of(stack@), components_of(p@.skip(i as int))) == resolve_comps(
                Seq::empty(),
                components_of(p@),
            ),
        decreases len - i,
    {
        let c = p.get_char(i);
        if c == '/' {
            proof {
                assert(p@.skip(i as int).drop_first() =~= p@.skip(i + 1));
            }
            i += 1;
        } else {
            let start = i;
            let mut j = i + 1;
            while j < len && p.get_char(j) != '/'
                invariant
                    len == p@.len(),
                    start < j <= len,
                    forall|m: int| start <= m < j ==> p@[m] != '/',
                decreases len - j,
            {
                j += 1;
            }
            let comp = p.substring_char(start, j);
            let ghost old_acc = views_of(stack@);
            let ghost rest = components_of(p@.skip(j as int));
            proof {
                let t = p@.skip(start as int);
                assert(forall|m: int| 0 <= m < j - start ==> t[m] == p@[start + m]);
                lemma_comp_len_eq(t, j - start);
                assert(t.take(j - start) =~= p@.subrange(start as int, j as int));
                assert(t.skip(j - start) =~= p@.skip(j as int));
                assert(components_of(t) == seq![comp@] + rest);
                assert((seq![comp@] + rest)[0] == comp@);
                assert((seq![comp@] + rest).drop_first() =~~= rest);
                assert(resolve_comps(old_acc, components_of(t)) == resolve_comps(
                    resolve_step(old_acc, comp@),
                    rest,
                ));
            }
            if crate::strutil::eq_str(comp, ".") {
                proof {
                    assert(resolve_step(old_acc, comp@) == old_acc);
                }
            } else if crate::strutil::eq_str(comp, "..") {
                if stack.len() > 0 {
                    stack.pop();
                    proof {
                        assert(views_of(stack@) =~~= old_acc.drop_last());
                        assert(resolve_step(old_acc, comp@) == old_acc.drop_last());
                    }
                } else {
                    proof {
                        assert(resolve_step(old_acc, comp@) == old_acc);
                    }
                }
            } else {
                let owned = comp.to_owned();
                stack.push(owned);
                proof {
                    assert(views_of(stack@) =~~= old_acc.push(comp@));
                    assert(resolve_step(old_acc, comp@) == old_acc.push(comp@));
                }
            }
            i = j;
        }
    }
    proof {
        assert(p@.skip(len as int) =~= Seq::<char>::empty());
    }
    let mut out = String::new();
    if stack.len() == 0 {
        let r = "/".to_owned();
        proof {
            reveal_strlit("/");
            assert(r@ =~= seq!['/']);
        }
        return r;
    }
    let mut k: usize = 0;
    while k < stack.len()
        invariant
            k <= stack@.len(),
            out@ == render_abs(views_of(stack@).take(k as int)),
        decreases stack@.len() - k,
    {
        out.append("/");
        out.append(stack[k].as_str());
        proof {
            reveal_strlit("/");
            let pre = views_of(stack@).take(k as int);
            lemma_render_abs_push(pre, stack@[k as int]@);
            assert(views_of(stack@).take(k + 1) =~~= pre.push(stack@[k as int]@));
            assert(render_abs(pre) + "/"@ + stack@[k as int]@ =~= render_abs(pre) + seq!['/']
                + stack@[k as int]@);
        }
        k += 1;
    }
    proof {
        assert(views_of(stack@).take(stack@.len() as int) =~~= views_of(stack@));
    }
    out
}

} // verus!
