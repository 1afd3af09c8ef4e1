//! Reading the image paths out of the reply that `gdbus call` prints for GNOME Shell's
//! screenshot method (the shell may write to `filename_used` instead of the path that
//! was asked for).

use vstd::prelude::*;
use crate::lexorder::{
    codes_equal, lemma_lex_asymmetric, lemma_lex_irreflexive, lemma_lex_total, lemma_lex_transitive, lex_lt,
};
use crate::order::{first_occurrence_order, key_seq, listed, sorted_first_occurrences};
use crate::pathkey::{path_key, path_key_of};
use crate::text::{
    ascii_lower_seq, chars_of, ends_with, split, split_chars, string_of, to_ascii_lower,
    trim, trim_chars, views,
};

verus! {

/// An absolute path whose name ends, in any ASCII case, in `.png`, `.jpg` or `.jpeg`.
pub open spec fn is_image_path(t: Seq<char>) -> bool {
    &&& t.len() > 0
    &&& t[0] == '/'
    &&& {
        let l = ascii_lower_seq(t);
        ||| ends_with(l, seq!['.', 'p', 'n', 'g'])
        ||| ends_with(l, seq!['.', 'j', 'p', 'g'])
        ||| ends_with(l, seq!['.', 'j', 'p', 'e', 'g'])
    }
}

/// The trimmed pieces that are image paths, in order.
pub open spec fn image_paths_in(parts: Seq<Seq<char>>) -> Seq<Seq<char>>
    decreases parts.len(),
{
    if parts.len() == 0 {
        Seq::<Seq<char>>::empty()
    } else {
        let t = trim(parts.last());
        image_paths_in(parts.drop_last()) + if is_image_path(t) {
            seq![t]
        } else {
            Seq::<Seq<char>>::empty()
        }
    }
}

/// The image paths found in a reply: first those between single quotes (splitting on
/// `'`), then those between double quotes (splitting on `"`).
pub open spec fn reply_image_paths(reply: Seq<char>) -> Seq<Seq<char>> {
    image_paths_in(split(reply, '\'')) + image_paths_in(split(reply, '"'))
}

/// `out` holds each distinct path of `cands` once (paths compared component by
/// component), in increasing path order, each spelled as its first occurrence: what a
/// stable sort followed by `dedup` leaves.
pub open spec fn sorted_distinct_paths(out: Seq<Seq<char>>, cands: Seq<Seq<char>>) -> bool {
    &&& forall|a: int, b: int|
        0 <= a < b < out.len() ==> lex_lt(#[trigger] path_key(out[a]), #[trigger] path_key(out[b]))
    &&& forall|k: int| 0 <= k < cands.len() ==> has_path_key(out, #[trigger] path_key(cands[k]))
    &&& forall|j: int| 0 <= j < out.len() ==> is_first_spelling(cands, #[trigger] out[j])
}

/// Some path of `out` has the key `key`.
pub open spec fn has_path_key(out: Seq<Seq<char>>, key: Seq<int>) -> bool {
    exists|j: int| 0 <= j < out.len() && #[trigger] path_key(out[j]) == key
}

/// `p` occurs in `cands`, and no earlier entry of `cands` is the same path.
pub open spec fn is_first_spelling(cands: Seq<Seq<char>>, p: Seq<char>) -> bool {
    exists|i: int|
        0 <= i < cands.len() && #[trigger] cands[i] == p && forall|k: int|
            0 <= k < i ==> path_key(#[trigger] cands[k]) != path_key(p)
}

/// A sorted listing names each path once: no two of its entries are the same path.
pub proof fn law_listing_names_each_path_once(out: Seq<Seq<char>>, cands: Seq<Seq<char>>, a: int, b: int)
    requires
        sorted_distinct_paths(out, cands),
        0 <= a < out.len(),
        0 <= b < out.len(),
        a != b,
    ensures
        path_key(out[a]) != path_key(out[b]),
{
    if a < b {
        assert(lex_lt(path_key(out[a]), path_key(out[b])));
        if path_key(out[a]) == path_key(out[b]) {
            lemma_lex_asymmetric(path_key(out[a]), path_key(out[b]));
        }
    } else {
        assert(lex_lt(path_key(out[b]), path_key(out[a])));
        if path_key(out[a]) == path_key(out[b]) {
            lemma_lex_asymmetric(path_key(out[b]), path_key(out[a]));
        }
    }
}

/// Candidates that are different paths are both listed: for two candidates with
/// different keys the listing holds an entry with each key, at different places.
pub proof fn law_different_paths_both_listed(out: Seq<Seq<char>>, cands: Seq<Seq<char>>, i: int, j: int)
    requires
        sorted_distinct_paths(out, cands),
        0 <= i < cands.len(),
        0 <= j < cands.len(),
        path_key(cands[i]) != path_key(cands[j]),
    ensures
        exists|a: int, b: int|
            0 <= a < out.len() && 0 <= b < out.len() && a != b && #[trigger] path_key(out[a])
                == path_key(cands[i]) && #[trigger] path_key(out[b]) == path_key(cands[j]),
{
    assert(has_path_key(out, path_key(cands[i])));
    assert(has_path_key(out, path_key(cands[j])));
    let a = choose|a: int| 0 <= a < out.len() && #[trigger] path_key(out[a]) == path_key(cands[i]);
    let b = choose|b: int| 0 <= b < out.len() && #[trigger] path_key(out[b]) == path_key(cands[j]);
    assert(a != b);
}

proof fn lemma_increasing_ordered(out: Seq<Seq<char>>, cands: Seq<Seq<char>>, a: int, b: int)
    requires
        sorted_distinct_paths(out, cands),
        0 <= a < b < out.len(),
    ensures
        lex_lt(path_key(out[a]), path_key(out[b])),
        path_key(out[a]) != path_key(out[b]),
{
    lemma_lex_irreflexive(path_key(out[a]));
}

proof fn lemma_listed_key_in_other(out1: Seq<Seq<char>>, out2: Seq<Seq<char>>, cands: Seq<Seq<char>>, j: int) -> (m: int)
    requires
        sorted_distinct_paths(out1, cands),
        sorted_distinct_paths(out2, cands),
        0 <= j < out1.len(),
    ensures
        0 <= m < out2.len(),
        path_key(out2[m]) == path_key(out1[j]),
{
    assert(is_first_spelling(cands, out1[j]));
    let i = choose|i: int|
        0 <= i < cands.len() && #[trigger] cands[i] == out1[j] && forall|k: int|
            0 <= k < i ==> path_key(#[trigger] cands[k]) != path_key(out1[j]);
    assert(has_path_key(out2, path_key(cands[i])));
    choose|m: int| 0 <= m < out2.len() && #[trigger] path_key(out2[m]) == path_key(cands[i])
}

proof fn lemma_same_keys_at(out1: Seq<Seq<char>>, out2: Seq<Seq<char>>, cands: Seq<Seq<char>>, j: int)
    requires
        sorted_distinct_paths(out1, cands),
        sorted_distinct_paths(out2, cands),
        0 <= j < out1.len(),
        0 <= j < out2.len(),
        forall|x: int| 0 <= x < j ==> path_key(#[trigger] out1[x]) == path_key(out2[x]),
    ensures
        path_key(out1[j]) == path_key(out2[j]),
{
    if path_key(out1[j]) != path_key(out2[j]) {
        lemma_lex_total(path_key(out1[j]), path_key(out2[j]));
        if lex_lt(path_key(out1[j]), path_key(out2[j])) {
            let m = lemma_listed_key_in_other(out1, out2, cands, j);
            if m < j {
                assert(path_key(out1[m]) == path_key(out2[m]));
                lemma_increasing_ordered(out1, cands, m, j);
            } else if m > j {
                lemma_increasing_ordered(out2, cands, j, m);
                lemma_lex_transitive(path_key(out1[j]), path_key(out2[j]), path_key(out2[m]));
                lemma_lex_irreflexive(path_key(out1[j]));
            }
        } else {
            let m = lemma_listed_key_in_other(out2, out1, cands, j);
            if m < j {
                assert(path_key(out1[m]) == path_key(out2[m]));
                lemma_increasing_ordered(out2, cands, m, j);
            } else if m > j {
                lemma_increasing_ordered(out1, cands, j, m);
                lemma_lex_transitive(path_key(out2[j]), path_key(out1[j]), path_key(out1[m]));
                lemma_lex_irreflexive(path_key(out2[j]));
            }
        }
    }
}

proof fn lemma_same_first_spelling(cands: Seq<Seq<char>>, p: Seq<char>, q: Seq<char>)
    requires
        is_first_spelling(cands, p),
        is_first_spelling(cands, q),
        path_key(p) == path_key(q),
    ensures
        p == q,
{
    let i = choose|i: int|
        0 <= i < cands.len() && #[trigger] cands[i] == p && forall|k: int|
            0 <= k < i ==> path_key(#[trigger] cands[k]) != path_key(p);
    let i2 = choose|i: int|
        0 <= i < cands.len() && #[trigger] cands[i] == q && forall|k: int|
            0 <= k < i ==> path_key(#[trigger] cands[k]) != path_key(q);
    if i < i2 {
        assert(path_key(cands[i]) != path_key(q));
    } else if i2 < i {
        assert(path_key(cands[i2]) != path_key(p));
    }
}

proof fn lemma_same_keys_upto(out1: Seq<Seq<char>>, out2: Seq<Seq<char>>, cands: Seq<Seq<char>>, j: int)
    requires
        sorted_distinct_paths(out1, cands),
        sorted_distinct_paths(out2, cands),
        0 <= j <= out1.len(),
        j <= out2.len(),
    ensures
        forall|x: int| 0 <= x < j ==> path_key(#[trigger] out1[x]) == path_key(out2[x]),
    decreases j,
{
    if j > 0 {
        lemma_same_keys_upto(out1, out2, cands, j - 1);
        lemma_same_keys_at(out1, out2, cands, j - 1);
    }
}

/// The listing is determined by the candidates: two lists that both hold each distinct
/// path once, in increasing order, spelled as its first occurrence, are the same list.
pub proof fn law_listing_is_determined(out1: Seq<Seq<char>>, out2: Seq<Seq<char>>, cands: Seq<Seq<char>>)
    requires
        sorted_distinct_paths(out1, cands),
        sorted_distinct_paths(out2, cands),
    ensures
        out1 == out2,
{
    let n = if out1.len() < out2.len() {
        out1.len() as int
    } else {
        out2.len() as int
    };
    lemma_same_keys_upto(out1, out2, cands, n);
    if out1.len() < out2.len() {
        let m = lemma_listed_key_in_other(out2, out1, cands, n);
        assert(path_key(out1[m]) == path_key(out2[m]));
        lemma_increasing_ordered(out2, cands, m, n);
    } else if out2.len() < out1.len() {
        let m = lemma_listed_key_in_other(out1, out2, cands, n);
        assert(path_key(out1[m]) == path_key(out2[m]));
        lemma_increasing_ordered(out1, cands, m, n);
    }
    assert forall|x: int| 0 <= x < out1.len() implies out1[x] == out2[x] by {
        assert(path_key(out1[x]) == path_key(out2[x]));
        lemma_same_first_spelling(cands, out1[x], out2[x]);
    }
    assert(out1 =~= out2);
}

/// The views of a list of strings.
pub open spec fn string_views(v: Seq<String>) -> Seq<Seq<char>> {
    v.map_values(|x: String| x@)
}

fn ends_with_lower(t: &Vec<char>, suffix: &Vec<char>) -> (r: bool)
    ensures
        r == ends_with(ascii_lower_seq(t@), suffix@),
{
    let n = t.len();
    let m = suffix.len();
    if m > n {
        return false;
    }
    let ghost l = ascii_lower_seq(t@);
    let mut j: usize = 0;
    while j < m
        invariant
            m <= n,
            n == t.len(),
            m == suffix.len(),
            j <= m,
            l == ascii_lower_seq(t@),
            forall|x: int| 0 <= x < j ==> l[n - m + x] == suffix@[x],
        decreases m - j,
    {
        if to_ascii_lower(t[n - m + j]) != suffix[j] {
            assert(l.subrange(n - m, n as int)[j as int] != suffix@[j as int]);
            return false;
        }
        j = j + 1;
    }
    assert(l.subrange(n - m, n as int) =~= suffix@);
    true
}

fn push_image_paths(parts: &Vec<Vec<char>>, out: &mut Vec<Vec<char>>)
    ensures
        views(final(out)@) == views(old(out)@) + image_paths_in(views(parts@)),
{
    let png = chars_of(".png");
    let jpg = chars_of(".jpg");
    let jpeg = chars_of(".jpeg");
    proof {
        reveal_strlit(".png");
        reveal_strlit(".jpg");
        reveal_strlit(".jpeg");
        assert(png@ =~= seq!['.', 'p', 'n', 'g']);
        assert(jpg@ =~= seq!['.', 'j', 'p', 'g']);
        assert(jpeg@ =~= seq!['.', 'j', 'p', 'e', 'g']);
    }
    let ghost start = views(out@);
    let mut i: usize = 0;
    while i < parts.len()
        invariant
            i <= parts.len(),
            png@ == seq!['.', 'p', 'n', 'g'],
            jpg@ == seq!['.', 'j', 'p', 'g'],
            jpeg@ == seq!['.', 'j', 'p', 'e', 'g'],
            views(out@) == start + image_paths_in(views(parts@).take(i as int)),
        decreases parts.len() - i,
    {
        let t = trim_chars(&parts[i]);
        let ok = t.len() > 0 && t[0] == '/' && (ends_with_lower(&t, &png) || ends_with_lower(
            &t,
            &jpg,
        ) || ends_with_lower(&t, &jpeg));
        proof {
            let pre = views(parts@).take(i + 1);
            assert(pre.drop_last() =~= views(parts@).take(i as int));
            assert(pre.last() == parts@[i as int]@);
            assert(ok == is_image_path(t@));
        }
        let ghost before = views(out@);
        if ok {
            out.push(t);
            assert(views(out@) =~= before + seq![t@]);
        } else {
            assert(views(out@) =~= before + Seq::<Seq<char>>::empty());
        }
        i = i + 1;
    }
    assert(views(parts@).take(parts.len() as int) == views(parts@));
}

proof fn lemma_order_gives_sorted_paths(
    out: Seq<Seq<char>>,
    cv: Seq<Seq<char>>,
    ks: Seq<Seq<int>>,
    order: Seq<usize>,
)
    requires
        out.len() == order.len(),
        ks.len() == cv.len(),
        forall|x: int| 0 <= x < out.len() ==> #[trigger] out[x] == cv[order[x] as int],
        forall|k: int| 0 <= k < cv.len() ==> ks[k] == #[trigger] path_key(cv[k]),
        first_occurrence_order(order, ks, cv.len() as int),
    ensures
        sorted_distinct_paths(out, cv),
{
    assert forall|a: int, b: int| 0 <= a < b < out.len() implies lex_lt(
        #[trigger] path_key(out[a]),
        #[trigger] path_key(out[b]),
    ) by {
        assert(out[a] == cv[order[a] as int]);
        assert(out[b] == cv[order[b] as int]);
        assert(lex_lt(ks[order[a] as int], ks[order[b] as int]));
    }
    assert forall|k: int| 0 <= k < cv.len() implies has_path_key(out, #[trigger] path_key(cv[k])) by {
        assert(listed(order, ks, ks[k]));
        let w = choose|w: int| 0 <= w < order.len() && #[trigger] ks[order[w] as int] == ks[k];
        assert(out[w] == cv[order[w] as int]);
        assert(path_key(out[w]) == path_key(cv[k]));
    }
    assert forall|j2: int| 0 <= j2 < out.len() implies is_first_spelling(cv, #[trigger] out[j2]) by {
        let i2 = order[j2] as int;
        assert(out[j2] == cv[i2]);
        assert forall|k: int| 0 <= k < i2 implies path_key(#[trigger] cv[k]) != path_key(out[j2]) by {
            assert(ks[k] != ks[i2]);
        }
        assert(0 <= i2 < cv.len() && cv[i2] == out[j2]);
    }
}

/// The image paths that a `gdbus call` reply names: every piece of the reply between
/// `'` separators and then between `"` separators, trimmed, that is an absolute path
/// ending in `.png`, `.jpg` or `.jpeg` (in any ASCII case); sorted as paths and with
/// repeated paths removed.
pub fn paths_from_gdbus_screenshot_reply(s: &str) -> (r: Vec<String>)
    ensures
        sorted_distinct_paths(string_views(r@), reply_image_paths(s@)),
{
    let cs = chars_of(s);
    let mut cands: Vec<Vec<char>> = Vec::new();
    let single = split_chars(&cs, '\'');
    push_image_paths(&single, &mut cands);
    let double = split_chars(&cs, '"');
    push_image_paths(&double, &mut cands);
    let ghost cv = views(cands@);
    assert(cv =~= reply_image_paths(s@));
    let mut keys: Vec<Vec<u64>> = Vec::new();
    let mut i: usize = 0;
    while i < cands.len()
        invariant
            i <= cands.len(),
            keys.len() == i,
            cv == views(cands@),
            forall|k: int| 0 <= k < i ==> #[trigger] key_seq(keys@)[k] == path_key(cv[k]),
        decreases cands.len() - i,
    {
        let k = path_key_of(&cands[i]);
        let ghost before = keys@;
        keys.push(k);
        proof {
            assert forall|x: int| 0 <= x < i + 1 implies #[trigger] key_seq(keys@)[x] == path_key(
                cv[x],
            ) by {
                if x < i {
                    assert(keys@[x] == before[x]);
                    assert(key_seq(before)[x] == path_key(cv[x]));
                }
            }
        }
        i = i + 1;
    }
    let ghost ks = key_seq(keys@);
    assert(forall|k: int| 0 <= k < cv.len() ==> ks[k] == #[trigger] path_key(cv[k]));
    let order = sorted_first_occurrences(&keys);
    let mut r: Vec<String> = Vec::new();
    let mut j: usize = 0;
    while j < order.len()
        invariant
            j <= order.len(),
            r.len() == j,
            cv == views(cands@),
            ks == key_seq(keys@),
            keys.len() == cands.len(),
            first_occurrence_order(order@, ks, cands.len() as int),
            forall|x: int| 0 <= x < j ==> #[trigger] string_views(r@)[x] == cv[order@[x] as int],
        decreases order.len() - j,
    {
        assert(order@[j as int] < cands.len());
        let p = string_of(&cands[order[j]]);
        let ghost before = r@;
        r.push(p);
        proof {
            assert forall|x: int| 0 <= x < j + 1 implies #[trigger] string_views(r@)[x]
                == cv[order@[x] as int] by {
                if x < j {
                    assert(r@[x] == before[x]);
                    assert(string_views(before)[x] == cv[order@[x] as int]);
                    assert(string_views(r@)[x] == r@[x]@);
                    assert(string_views(before)[x] == before[x]@);
                } else {
                    assert(cv[order@[x] as int] == cands@[order@[x] as int]@);
                    assert(r@[x] == p);
                    assert(string_views(r@)[x] == r@[x]@);
                }
            }
        }
        j = j + 1;
    }
    proof {
        lemma_order_gives_sorted_paths(string_views(r@), cv, ks, order@);
    }
    r
}

/// Whether `a` and `b` name the same path, compared component by component as `Path`'s
/// `==` does.
pub fn same_path(a: &str, b: &str) -> (r: bool)
    ensures
        r == (path_key(a@) == path_key(b@)),
{
    let ka = path_key_of(&chars_of(a));
    let kb = path_key_of(&chars_of(b));
    codes_equal(&ka, &kb)
}

/// The files to look at after a GNOME Shell screenshot call: the paths that the reply
/// names, then the requested file itself unless the reply already names that path.
pub fn gnome_shell_candidate_paths(named: Vec<String>, requested: &str) -> (r: Vec<String>)
    ensures
        string_views(r@) == string_views(named@) + if has_path_key(
            string_views(named@),
            path_key(requested@),
        ) {
            Seq::<Seq<char>>::empty()
        } else {
            seq![requested@]
        },
{
    let ghost nv = string_views(named@);
    let mut found = false;
    let mut i: usize = 0;
    while i < named.len()
        invariant
            i <= named.len(),
            nv == string_views(named@),
            found == exists|j: int| 0 <= j < i && #[trigger] path_key(nv[j]) == path_key(requested@),
        decreases named.len() - i,
    {
        if same_path(named[i].as_str(), requested) {
            assert(path_key(nv[i as int]) == path_key(requested@));
            found = true;
        }
        i = i + 1;
    }
    let mut r = named;
    if !found {
        let ghost before = r@;
        r.push(requested.to_string());
        assert(string_views(r@) =~= string_views(before) + seq![requested@]);
    } else {
        assert(string_views(r@) =~= string_views(r@) + Seq::<Seq<char>>::empty());
    }
    r
}

} // verus!
