//! Which origins may make cross-origin requests.

use vstd::prelude::*;
use vstd::string::*;

use crate::text::{chars_of, is_white_space, lemma_trimmed_drops_only_white_space, string_of, trim, trimmed, views, lemma_views_push};

verus! {

/// The cross-origin policy the server runs with.
#[derive(Debug, Clone)]
pub enum CorsPolicy {
    /// Development: any origin, without credentials.
    Permissive,
    /// Production: only the listed origins, with credentials.
    Restricted(Vec<String>),
}

/// The comma-separated pieces of `s`, as `str::split(',')` gives them: the
/// pieces finished so far and the piece being read.
pub open spec fn comma_split(s: Seq<char>) -> (Seq<Seq<char>>, Seq<char>)
    decreases s.len(),
{
    if s.len() == 0 {
        (Seq::empty(), Seq::empty())
    } else {
        let (done, cur) = comma_split(s.drop_last());
        if s.last() == ',' {
            (done.push(cur), Seq::empty())
        } else {
            (done, cur.push(s.last()))
        }
    }
}

/// All comma-separated pieces of `s`, the last one included even if empty.
pub open spec fn comma_pieces(s: Seq<char>) -> Seq<Seq<char>> {
    let (done, cur) = comma_split(s);
    done.push(cur)
}

/// The trimmed, non-empty pieces among `ps`, in order.
pub open spec fn origins_of(ps: Seq<Seq<char>>) -> Seq<Seq<char>>
    decreases ps.len(),
{
    if ps.len() == 0 {
        Seq::empty()
    } else {
        let rest = origins_of(ps.drop_last());
        let t = trimmed(ps.last());
        if t.len() > 0 {
            rest.push(t)
        } else {
            rest
        }
    }
}

/// The policy a `CORS_ORIGINS` setting asks for: blank means development.
pub open spec fn policy_is_permissive(setting: Seq<char>) -> bool {
    trimmed(setting).len() == 0
}

fn push_origin(out: &mut Vec<String>, piece: &[char])
    ensures
        views(final(out)@) == (if trimmed(piece@).len() > 0 {
            views(old(out)@).push(trimmed(piece@))
        } else {
            views(old(out)@)
        }),
{
    let s = string_of(piece);
    let t = trim(s.as_str());
    if t.unicode_len() > 0 {
        let ghost before = out@;
        out.push(t);
        proof {
            lemma_views_push(before, t);
        }
    }
}

/// Decides the cross-origin policy from the `CORS_ORIGINS` setting (empty
/// when unset): a blank setting allows any origin; otherwise the
/// comma-separated, trimmed, non-empty entries are the allowed origins.
pub fn cors_policy(setting: &str) -> (r: CorsPolicy)
    ensures
        policy_is_permissive(setting@) ==> r is Permissive,
        !policy_is_permissive(setting@) ==> (r matches CorsPolicy::Restricted(list) && views(
            list@,
        ) == origins_of(comma_pieces(setting@))),
{
    let whole = trim(setting);
    if whole.unicode_len() == 0 {
        return CorsPolicy::Permissive;
    }
    let chars = chars_of(setting);
    let n = chars.len();
    let mut out: Vec<String> = Vec::new();
    let mut cur: Vec<char> = Vec::new();
    let ghost mut done: Seq<Seq<char>> = Seq::empty();
    let mut i: usize = 0;
    while i < n
        invariant
            n == chars@.len(),
            chars@ == setting@,
            0 <= i <= n,
            comma_split(setting@.subrange(0, i as int)) == (done, cur@),
            views(out@) == origins_of(done),
        decreases n - i,
    {
        let c = chars[i];
        assert(setting@.subrange(0, i + 1).drop_last() =~= setting@.subrange(0, i as int));
        assert(setting@.subrange(0, i + 1).last() == c);
        if c == ',' {
            let ghost old_done = done;
            push_origin(&mut out, cur.as_slice());
            proof {
                done = done.push(cur@);
            }
            assert(done.drop_last() =~= old_done);
            cur = Vec::new();
        } else {
            cur.push(c);
        }
        i = i + 1;
    }
    assert(setting@.subrange(0, n as int) =~= setting@);
    let ghost old_done = done;
    push_origin(&mut out, cur.as_slice());
    assert(done.push(cur@).drop_last() =~= old_done);
    CorsPolicy::Restricted(out)
}

/// Whether the server runs in production: a non-blank `CORS_ORIGINS`.
pub fn is_production(setting: &str) -> (r: bool)
    ensures
        r == !policy_is_permissive(setting@),
{
    trim(setting).unicode_len() > 0
}

/// Pieces joined back with `,` between them.
pub open spec fn joined_by_commas(ps: Seq<Seq<char>>) -> Seq<char>
    decreases ps.len(),
{
    if ps.len() == 0 {
        Seq::empty()
    } else if ps.len() == 1 {
        ps[0]
    } else {
        joined_by_commas(ps.drop_last()) + seq![','] + ps.last()
    }
}

proof fn lemma_comma_split_parts(s: Seq<char>)
    ensures
        joined_by_commas(comma_split(s).0.push(comma_split(s).1)) == s,
        forall|i: int| 0 <= i < comma_split(s).0.len() ==> !(#[trigger] comma_split(s).0[i]).contains(','),
        !comma_split(s).1.contains(','),
    decreases s.len(),
{
    if s.len() > 0 {
        let t = s.drop_last();
        lemma_comma_split_parts(t);
        let (done, cur) = comma_split(t);
        let c = s.last();
        assert(s =~= t.push(c));
        if c == ',' {
            let nd = done.push(cur);
            assert(nd.push(Seq::<char>::empty()).drop_last() =~= nd);
            assert(joined_by_commas(nd.push(Seq::<char>::empty())) =~= t + seq![','] + Seq::<char>::empty());
            assert forall|i: int| 0 <= i < nd.len() implies !(#[trigger] nd[i]).contains(',') by {
                if i < done.len() {
                    assert(nd[i] == done[i]);
                }
            }
            assert(!Seq::<char>::empty().contains(','));
        } else {
            let nc = cur.push(c);
            assert(done.push(nc).drop_last() =~= done);
            if done.len() == 0 {
                assert(done.push(cur)[0] == cur);
                assert(joined_by_commas(done.push(cur)) == cur);
                assert(joined_by_commas(done.push(nc)) == nc);
            } else {
                assert(done.push(cur).drop_last() =~= done);
                assert(joined_by_commas(done.push(cur)) == joined_by_commas(done) + seq![','] + cur);
                assert(joined_by_commas(done.push(nc)) == joined_by_commas(done) + seq![','] + nc);
            }
            assert(joined_by_commas(done.push(nc)) =~= s);
            assert forall|j: int| 0 <= j < nc.len() implies nc[j] != ',' by {
                if j < cur.len() {
                    assert(nc[j] == cur[j]);
                }
            }
        }
    }
}

/// Splitting at commas cuts the setting and nothing else: no piece holds a
/// comma, and joining the pieces back with commas gives the setting.
pub proof fn lemma_comma_pieces_split(s: Seq<char>)
    ensures
        joined_by_commas(comma_pieces(s)) == s,
        forall|i: int| 0 <= i < comma_pieces(s).len() ==> !(#[trigger] comma_pieces(s)[i]).contains(','),
{
    lemma_comma_split_parts(s);
    let (done, cur) = comma_split(s);
    assert forall|i: int| 0 <= i < comma_pieces(s).len() implies !(#[trigger] comma_pieces(s)[i]).contains(',') by {
        if i < done.len() {
            assert(comma_pieces(s)[i] == done[i]);
        } else {
            assert(comma_pieces(s)[i] == cur);
        }
    }
}

/// Trimming each piece.
pub open spec fn trim_each() -> spec_fn(Seq<char>) -> Seq<char> {
    |p: Seq<char>| trimmed(p)
}

/// Whether a text is not empty.
pub open spec fn non_empty_text() -> spec_fn(Seq<char>) -> bool {
    |t: Seq<char>| t.len() > 0
}

/// The allowed origins are every piece, trimmed, that is not blank, in
/// order: nothing is dropped and nothing is added.
pub proof fn lemma_origins_are_nonblank_pieces(ps: Seq<Seq<char>>)
    ensures
        origins_of(ps) == ps.map_values(trim_each()).filter(non_empty_text()),
    decreases ps.len(),
{
    reveal(Seq::filter);
    if ps.len() == 0 {
        assert(ps.map_values(trim_each()) =~= Seq::<Seq<char>>::empty());
    } else {
        lemma_origins_are_nonblank_pieces(ps.drop_last());
        let m = ps.map_values(trim_each());
        assert(m.drop_last() =~= ps.drop_last().map_values(trim_each()));
        assert(m.last() == trimmed(ps.last()));
    }
}

/// For a setting that is not blank: every non-blank piece is allowed,
/// trimmed; every allowed origin is a non-blank piece, trimmed; and there
/// are as many origins as non-blank pieces.
pub proof fn lemma_every_listed_origin_allowed(setting: Seq<char>)
    ensures
        forall|i: int|
            0 <= i < comma_pieces(setting).len() && trimmed(#[trigger] comma_pieces(setting)[i]).len()
                > 0 ==> origins_of(comma_pieces(setting)).contains(trimmed(comma_pieces(setting)[i])),
        forall|t: Seq<char>|
            #[trigger] origins_of(comma_pieces(setting)).contains(t) ==> t.len() > 0 && exists|i: int|
                0 <= i < comma_pieces(setting).len() && t == trimmed(#[trigger] comma_pieces(setting)[i]),
        origins_of(comma_pieces(setting)).len() == comma_pieces(setting).map_values(trim_each()).filter(
            non_empty_text(),
        ).len(),
{
    let ps = comma_pieces(setting);
    let m = ps.map_values(trim_each());
    lemma_origins_are_nonblank_pieces(ps);
    assert forall|i: int| 0 <= i < ps.len() && trimmed(#[trigger] ps[i]).len() > 0 implies origins_of(
        ps,
    ).contains(trimmed(ps[i])) by {
        assert(m[i] == trimmed(ps[i]));
        m.lemma_filter_contains(non_empty_text(), i);
    }
    assert forall|t: Seq<char>| #[trigger] origins_of(ps).contains(t) implies t.len() > 0 && exists|i: int|
        0 <= i < ps.len() && t == trimmed(#[trigger] ps[i]) by {
        let k = choose|k: int| 0 <= k < m.filter(non_empty_text()).len() && m.filter(non_empty_text())[k] == t;
        m.lemma_filter_pred(non_empty_text(), k);
        m.lemma_filter_contains_rev(non_empty_text(), t);
        let i = choose|i: int| 0 <= i < m.len() && m[i] == t;
        assert(m[i] == trimmed(ps[i]));
    }
}

/// A setting asks for development (any origin) exactly when it holds
/// nothing but white space.
pub proof fn lemma_blank_setting_is_permissive(setting: Seq<char>)
    ensures
        policy_is_permissive(setting) <==> forall|j: int|
            0 <= j < setting.len() ==> is_white_space(#[trigger] setting[j]),
{
    lemma_trimmed_drops_only_white_space(setting);
    let (a, b) = choose|a: int, b: int|
        0 <= a <= b <= setting.len() && trimmed(setting) == setting.subrange(a, b) && (forall|j: int|
            0 <= j < a ==> is_white_space(#[trigger] setting[j])) && (forall|j: int|
            b <= j < setting.len() ==> is_white_space(#[trigger] setting[j])) && (a < b
            ==> !is_white_space(setting[a]) && !is_white_space(setting[b - 1]));
    if policy_is_permissive(setting) {
        assert(a == b);
        assert forall|j: int| 0 <= j < setting.len() implies is_white_space(#[trigger] setting[j]) by {
            if j >= a {
                assert(b <= j);
            }
        }
    }
}

} // verus!
