//! How Unix paths compare: component by component, as `Path`'s `Ord` and `PartialEq`
//! do. A path is mapped to a key, a sequence of integers in which each component
//! takes one prefix-free code: the root `[0]`, a leading `.` `[1]`, `..` `[2]`, and a
//! name `[3, c + 5 ..., 4]` (`c` each character's code point). Empty and `.` components inside a path take no code, as
//! `Path::components` skips them. Keys compare in lexicographic order exactly as the
//! component lists do (root < current < parent < names, names by code point).

use vstd::prelude::*;
use crate::lexorder::codes;
use crate::text::{split, split_chars, views};

verus! {

/// The code of one `/`-separated piece of a path.
pub open spec fn component_code(part: Seq<char>) -> Seq<int> {
    if part.len() == 0 || part == seq!['.'] {
        Seq::<int>::empty()
    } else if part == seq!['.', '.'] {
        seq![2int]
    } else {
        seq![3int] + part.map_values(|c: char| c as u32 as int + 5) + seq![4int]
    }
}

/// The codes of a list of pieces, in order.
pub open spec fn components_code(parts: Seq<Seq<char>>) -> Seq<int>
    decreases parts.len(),
{
    if parts.len() == 0 {
        Seq::<int>::empty()
    } else {
        components_code(parts.drop_last()) + component_code(parts.last())
    }
}

/// The key of a Unix path.
pub open spec fn path_key(p: Seq<char>) -> Seq<int> {
    let parts = split(p, '/');
    if p.len() > 0 && p[0] == '/' {
        seq![0int] + components_code(parts)
    } else if parts[0] == seq!['.'] {
        seq![1int] + components_code(parts)
    } else {
        components_code(parts)
    }
}

fn push_component_code(out: &mut Vec<u64>, part: &Vec<char>)
    ensures
        codes(final(out)@) == codes(old(out)@) + component_code(part@),
{
    let n = part.len();
    if n == 0 || (n == 1 && part[0] == '.') {
        assert(n == 1 ==> part@ =~= seq!['.']);
        assert(codes(out@) =~= codes(out@) + Seq::<int>::empty());
        return;
    }
    if n == 2 && part[0] == '.' && part[1] == '.' {
        assert(part@ =~= seq!['.', '.']);
        out.push(2);
        assert(codes(out@) =~= codes(old(out)@) + seq![2int]);
        return;
    }
    assert(part@ != seq!['.']);
    assert(part@ != seq!['.', '.']);
    let ghost start = codes(out@);
    out.push(3);
    let mut i: usize = 0;
    while i < n
        invariant
            i <= n,
            n == part.len(),
            codes(out@) == start + seq![3int] + part@.take(i as int).map_values(
                |c: char| c as u32 as int + 5,
            ),
        decreases n - i,
    {
        let c = part[i];
        let ghost before = codes(out@);
        let v: u32 = c as u32;
        out.push((v as u64) + 5);
        proof {
            assert(part@.take(i + 1) =~= part@.take(i as int).push(c));
            assert(part@.take(i + 1).map_values(|c: char| c as u32 as int + 5) =~= part@.take(
                i as int,
            ).map_values(|c: char| c as u32 as int + 5).push(c as u32 as int + 5));
            assert(codes(out@) =~= before.push(c as u32 as int + 5));
        }
        i = i + 1;
        assert(codes(out@) =~= start + seq![3int] + part@.take(i as int).map_values(
            |c: char| c as u32 as int + 5,
        ));
    }
    let ghost before = codes(out@);
    out.push(4);
    assert(codes(out@) =~= before.push(4int));
    assert(part@.take(n as int) == part@);
    assert(codes(out@) =~= start + (seq![3int] + part@.map_values(|c: char| c as u32 as int + 5) + seq![
        4int,
    ]));
}

/// The key of the path `p`.
pub fn path_key_of(p: &Vec<char>) -> (k: Vec<u64>)
    ensures
        codes(k@) == path_key(p@),
{
    let parts = split_chars(p, '/');
    let mut k: Vec<u64> = Vec::new();
    proof {
        assert(split(p@, '/').len() > 0) by {
            lemma_split_nonempty(p@, '/');
        }
    }
    if p.len() > 0 && p[0] == '/' {
        k.push(0);
    } else {
        let first = &parts[0];
        assert(first@ == split(p@, '/')[0]);
        if first.len() == 1 && first[0] == '.' {
            assert(first@ =~= seq!['.']);
            k.push(1);
        } else {
            assert(first@ != seq!['.']);
        }
    }
    let ghost head = codes(k@);
    let mut i: usize = 0;
    while i < parts.len()
        invariant
            i <= parts.len(),
            views(parts@) == split(p@, '/'),
            codes(k@) == head + components_code(views(parts@).take(i as int)),
        decreases parts.len() - i,
    {
        push_component_code(&mut k, &parts[i]);
        proof {
            let t = views(parts@).take(i + 1);
            assert(t.drop_last() =~= views(parts@).take(i as int));
            assert(t.last() == parts@[i as int]@);
        }
        i = i + 1;
    }
    assert(views(parts@).take(parts.len() as int) == views(parts@));
    k
}

/// A piece of a path that names a file or folder: not empty, `.` or `..`.
pub open spec fn is_name(part: Seq<char>) -> bool {
    part.len() > 0 && part != seq!['.'] && part != seq!['.', '.']
}

/// Names compare character by character, case-sensitively: two different names never
/// take the same code (so `Shot.png` and `shot.png` are different components).
pub proof fn law_name_codes_differ(a: Seq<char>, b: Seq<char>)
    requires
        is_name(a),
        is_name(b),
        a != b,
    ensures
        component_code(a) != component_code(b),
{
    if component_code(a) == component_code(b) {
        let ca = component_code(a);
        let cb = component_code(b);
        assert(ca.len() == a.len() + 2);
        assert(cb.len() == b.len() + 2);
        assert forall|i: int| 0 <= i < a.len() implies a[i] == b[i] by {
            assert(ca[i + 1] == a[i] as u32 as int + 5);
            assert(cb[i + 1] == b[i] as u32 as int + 5);
            assert(a[i] as u32 == b[i] as u32);
            vstd::utf8::char_u32_cast(a[i], a[i] as u32);
            vstd::utf8::char_u32_cast(b[i], b[i] as u32);
        }
        assert(a =~= b);
    }
}

proof fn lemma_components_code_cons(a: Seq<char>, rest: Seq<Seq<char>>)
    ensures
        components_code(seq![a] + rest) == component_code(a) + components_code(rest),
    decreases rest.len(),
{
    let s = seq![a] + rest;
    if rest.len() == 0 {
        assert(s =~= seq![a]);
        assert(rest =~= Seq::<Seq<char>>::empty());
        assert(s.drop_last() =~= Seq::<Seq<char>>::empty());
        assert(components_code(s) == components_code(s.drop_last()) + component_code(s.last()));
        assert(component_code(a) + Seq::<int>::empty() =~= component_code(a));
        assert(Seq::<int>::empty() + component_code(a) =~= component_code(a));
    } else {
        lemma_components_code_cons(a, rest.drop_last());
        assert(s.drop_last() =~= seq![a] + rest.drop_last());
        assert(s.last() == rest.last());
        assert(components_code(rest) == components_code(rest.drop_last()) + component_code(rest.last()));
        assert(components_code(s) == components_code(s.drop_last()) + component_code(s.last()));
        assert(components_code(s) =~= component_code(a) + (components_code(rest.drop_last())
            + component_code(rest.last())));
    }
}

proof fn lemma_name_code_shape(a: Seq<char>)
    requires
        is_name(a),
    ensures
        component_code(a).len() == a.len() + 2,
        component_code(a)[0] == 3,
        component_code(a)[a.len() as int + 1] == 4,
        forall|i: int| 1 <= i <= a.len() ==> #[trigger] component_code(a)[i] >= 5,
{
    let c = component_code(a);
    assert forall|i: int| 1 <= i <= a.len() implies #[trigger] c[i] >= 5 by {
        assert(c[i] == a[i - 1] as u32 as int + 5);
    }
}

/// Keys are equal only for equal lists of names: the code of a list of names (each
/// compared character by character) determines the list.
pub proof fn law_name_lists_codes_injective(ps: Seq<Seq<char>>, qs: Seq<Seq<char>>)
    requires
        forall|i: int| 0 <= i < ps.len() ==> is_name(#[trigger] ps[i]),
        forall|i: int| 0 <= i < qs.len() ==> is_name(#[trigger] qs[i]),
        components_code(ps) == components_code(qs),
    ensures
        ps == qs,
    decreases ps.len() + qs.len(),
{
    if ps.len() == 0 && qs.len() == 0 {
        assert(ps =~= qs);
    } else if ps.len() == 0 || qs.len() == 0 {
        let xs = if ps.len() == 0 { qs } else { ps };
        assert(is_name(xs[0]));
        assert(xs =~= seq![xs[0]] + xs.drop_first());
        lemma_components_code_cons(xs[0], xs.drop_first());
        lemma_name_code_shape(xs[0]);
        assert(components_code(Seq::<Seq<char>>::empty()) =~= Seq::<int>::empty());
        assert(ps.len() == 0 ==> ps =~= Seq::<Seq<char>>::empty());
        assert(qs.len() == 0 ==> qs =~= Seq::<Seq<char>>::empty());
        assert(components_code(xs).len() >= 2);
    } else {
        let a = ps[0];
        let b = qs[0];
        let pr = ps.drop_first();
        let qr = qs.drop_first();
        assert(ps =~= seq![a] + pr);
        assert(qs =~= seq![b] + qr);
        lemma_components_code_cons(a, pr);
        lemma_components_code_cons(b, qr);
        lemma_name_code_shape(a);
        lemma_name_code_shape(b);
        let ca = component_code(a);
        let cb = component_code(b);
        let k = components_code(ps);
        assert(k == ca + components_code(pr));
        assert(k == cb + components_code(qr));
        if a.len() < b.len() {
            assert(k[a.len() as int + 1] == ca[a.len() as int + 1]);
            assert(k[a.len() as int + 1] == cb[a.len() as int + 1]);
        } else if b.len() < a.len() {
            assert(k[b.len() as int + 1] == cb[b.len() as int + 1]);
            assert(k[b.len() as int + 1] == ca[b.len() as int + 1]);
        }
        assert(a.len() == b.len());
        assert(ca =~= k.subrange(0, ca.len() as int));
        assert(cb =~= k.subrange(0, cb.len() as int));
        if a != b {
            law_name_codes_differ(a, b);
        }
        assert(components_code(pr) =~= k.subrange(ca.len() as int, k.len() as int));
        assert(components_code(qr) =~= k.subrange(cb.len() as int, k.len() as int));
        assert forall|i: int| 0 <= i < pr.len() implies is_name(#[trigger] pr[i]) by {
            assert(pr[i] == ps[i + 1]);
        }
        assert forall|i: int| 0 <= i < qr.len() implies is_name(#[trigger] qr[i]) by {
            assert(qr[i] == qs[i + 1]);
        }
        law_name_lists_codes_injective(pr, qr);
    }
}

/// Splitting `s/a`, where `a` holds no separator, gives the pieces of `s` and then `a`.
pub proof fn lemma_split_append(s: Seq<char>, a: Seq<char>, sep: char)
    requires
        forall|i: int| 0 <= i < a.len() ==> a[i] != sep,
    ensures
        split(s + seq![sep] + a, sep) == split(s, sep).push(a),
    decreases a.len(),
{
    let t = s + seq![sep] + a;
    if a.len() == 0 {
        assert(t =~= s.push(sep));
        assert(t.drop_last() =~= s);
        assert(a =~= Seq::<char>::empty());
    } else {
        let a0 = a.drop_last();
        lemma_split_append(s, a0, sep);
        assert(t.drop_last() =~= s + seq![sep] + a0);
        assert(t.last() == a.last());
        let parts = split(s, sep).push(a0);
        assert(split(t, sep) == parts.update(parts.len() - 1, parts.last().push(a.last())));
        assert(a0.push(a.last()) =~= a);
        assert(split(t, sep) =~= split(s, sep).push(a));
    }
}

/// Two files of one folder whose names differ, if only in the case of a letter, are
/// different paths: `dir/a` and `dir/b` have different keys.
pub proof fn law_sibling_names_differ(dir: Seq<char>, a: Seq<char>, b: Seq<char>)
    requires
        is_name(a),
        is_name(b),
        a != b,
        forall|i: int| 0 <= i < a.len() ==> a[i] != '/',
        forall|i: int| 0 <= i < b.len() ==> b[i] != '/',
    ensures
        path_key(dir + seq!['/'] + a) != path_key(dir + seq!['/'] + b),
{
    let p = dir + seq!['/'] + a;
    let q = dir + seq!['/'] + b;
    let sd = split(dir, '/');
    lemma_split_append(dir, a, '/');
    lemma_split_append(dir, b, '/');
    lemma_split_nonempty(dir, '/');
    let pp = sd.push(a);
    let qp = sd.push(b);
    assert(pp.drop_last() =~= sd);
    assert(qp.drop_last() =~= sd);
    assert(components_code(pp) == components_code(sd) + component_code(a));
    assert(components_code(qp) == components_code(sd) + component_code(b));
    assert(pp[0] == sd[0]);
    assert(qp[0] == sd[0]);
    assert(p.len() > 0 && q.len() > 0);
    assert(p[0] == q[0]) by {
        if dir.len() > 0 {
            assert(p[0] == dir[0]);
            assert(q[0] == dir[0]);
        } else {
            assert(p[0] == '/');
            assert(q[0] == '/');
        }
    }
    let head: Seq<int> = if p[0] == '/' {
        seq![0int]
    } else if sd[0] == seq!['.'] {
        seq![1int]
    } else {
        Seq::<int>::empty()
    };
    assert(path_key(p) =~= head + components_code(sd) + component_code(a));
    assert(path_key(q) =~= head + components_code(sd) + component_code(b));
    law_name_codes_differ(a, b);
    if path_key(p) == path_key(q) {
        let n = head.len() + components_code(sd).len();
        let k = path_key(p);
        assert(component_code(a).len() == component_code(b).len());
        assert(component_code(a) =~= k.subrange(n as int, k.len() as int));
        assert(component_code(b) =~= k.subrange(n as int, k.len() as int));
    }
}

/// Splitting always yields at least one piece.
pub proof fn lemma_split_nonempty(s: Seq<char>, sep: char)
    ensures
        split(s, sep).len() > 0,
    decreases s.len(),
{
    if s.len() > 0 {
        lemma_split_nonempty(s.drop_last(), sep);
    }
}

} // verus!
