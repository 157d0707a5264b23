//! Normalization of a pod's content-path list.
//!
//! The hub stores every pod's path list sorted and de-duplicated. The
//! order is the lexicographic order on the paths' character sequences.
//! A sorted, duplicate-free list is uniquely determined by the set of
//! paths it holds, which makes normalization idempotent: normalizing the
//! same input twice stores and broadcasts the same list.

use vstd::prelude::*;
use vstd::string::StrSliceExecFns;

verus! {

/// Strict order on characters, by code point.
pub open spec fn char_lt(a: char, b: char) -> bool {
    (a as u32) < (b as u32)
}

/// Strict lexicographic order on character sequences, decided from
/// position `i` on, given that the first `i` characters agree.
pub open spec fn lex_lt_from(a: Seq<char>, b: Seq<char>, i: int) -> bool
    decreases a.len() - i
    when 0 <= i <= a.len() && i <= b.len()
{
    if i == b.len() {
        false
    } else if i == a.len() {
        true
    } else if a[i] == b[i] {
        lex_lt_from(a, b, i + 1)
    } else {
        char_lt(a[i], b[i])
    }
}

/// Strict lexicographic order on character sequences.
pub open spec fn lex_lt(a: Seq<char>, b: Seq<char>) -> bool {
    lex_lt_from(a, b, 0)
}

/// No sequence is lexicographically below itself.
pub proof fn lemma_lex_lt_irreflexive(a: Seq<char>, i: int)
    requires
        0 <= i <= a.len(),
    ensures
        !lex_lt_from(a, a, i),
    decreases a.len() - i,
{
    if i < a.len() {
        lemma_lex_lt_irreflexive(a, i + 1);
    }
}

/// The lexicographic order is transitive.
pub proof fn lemma_lex_lt_transitive(a: Seq<char>, b: Seq<char>, c: Seq<char>, i: int)
    requires
        0 <= i <= a.len(),
        i <= b.len(),
        i <= c.len(),
        lex_lt_from(a, b, i),
        lex_lt_from(b, c, i),
    ensures
        lex_lt_from(a, c, i),
    decreases a.len() - i,
{
    if i < a.len() && i < b.len() && i < c.len() && a[i] == b[i] && b[i] == c[i] {
        lemma_lex_lt_transitive(a, b, c, i + 1);
    }
}

/// Any two distinct sequences are ordered one way or the other.
pub proof fn lemma_lex_lt_trichotomy(a: Seq<char>, b: Seq<char>, i: int)
    requires
        0 <= i <= a.len(),
        i <= b.len(),
    ensures
        lex_lt_from(a, b, i) || lex_lt_from(b, a, i) || (a.len() == b.len() && forall|j: int|
            i <= j < a.len() ==> a[j] == b[j]),
    decreases a.len() - i,
{
    if i < a.len() && i < b.len() && a[i] == b[i] {
        lemma_lex_lt_trichotomy(a, b, i + 1);
        if !lex_lt_from(a, b, i) && !lex_lt_from(b, a, i) {
            assert forall|j: int| i <= j < a.len() implies a[j] == b[j] by {
                if j > i {
                    assert(a[j] == b[j]);
                }
            }
        }
    } else if i < a.len() && i < b.len() {
        // The characters differ, so their code points differ one way or
        // the other: casting back and forth through u32 is the identity.
        if !char_lt(a[i], b[i]) && !char_lt(b[i], a[i]) {
            vstd::utf8::char_u32_cast(a[i], a[i] as u32);
            vstd::utf8::char_u32_cast(b[i], b[i] as u32);
        }
    }
}

/// A sequence below another is never also above it: the order is
/// asymmetric.
pub proof fn lemma_lex_lt_asymmetric(a: Seq<char>, b: Seq<char>)
    requires
        lex_lt(a, b),
    ensures
        !lex_lt(b, a),
{
    if lex_lt(b, a) {
        lemma_lex_lt_transitive(a, b, a, 0);
        lemma_lex_lt_irreflexive(a, 0);
    }
}

/// A path list in normal form: strictly ascending, hence duplicate-free.
pub open spec fn strictly_sorted(s: Seq<Seq<char>>) -> bool {
    forall|i: int, j: int| 0 <= i < j < s.len() ==> lex_lt(s[i], s[j])
}

/// Decides the lexicographic order on two strings.
pub fn str_lex_lt(a: &str, b: &str) -> (r: bool)
    ensures
        r == lex_lt(a@, b@),
{
    let a_len = a.unicode_len();
    let b_len = b.unicode_len();
    let mut i: usize = 0;
    loop
        invariant
            0 <= i <= a_len,
            i <= b_len,
            a_len == a@.len(),
            b_len == b@.len(),
            lex_lt(a@, b@) == lex_lt_from(a@, b@, i as int),
        decreases a_len - i,
    {
        if i == b_len {
            return false;
        }
        if i == a_len {
            return true;
        }
        let ca = a.get_char(i);
        let cb = b.get_char(i);
        if ca != cb {
            return (ca as u32) < (cb as u32);
        }
        proof {
            assert(lex_lt_from(a@, b@, i as int) == lex_lt_from(a@, b@, i as int + 1));
        }
        i = i + 1;
    }
}

/// Decides equality of two strings' character sequences.
pub fn str_eq(a: &str, b: &str) -> (r: bool)
    ensures
        r == (a@ == b@),
{
    let a_len = a.unicode_len();
    let b_len = b.unicode_len();
    if a_len != b_len {
        proof {
            assert(a@ != b@);
        }
        return false;
    }
    let mut i: usize = 0;
    while i < a_len
        invariant
            0 <= i <= a_len,
            a_len == a@.len(),
            a_len == b@.len(),
            forall|j: int| 0 <= j < i as int ==> a@[j] == b@[j],
        decreases a_len - i,
    {
        if a.get_char(i) != b.get_char(i) {
            return false;
        }
        i = i + 1;
    }
    proof {
        assert(a@ =~= b@);
    }
    true
}

/// Inserts a path into a normal-form list, keeping it in normal form; the
/// set of held paths grows by exactly the inserted path.
pub fn insert_sorted_unique(v: &mut Vec<String>, s: String)
    requires
        strictly_sorted(old(v).deep_view()),
    ensures
        strictly_sorted(final(v).deep_view()),
        final(v).deep_view().to_set() == old(v).deep_view().to_set().insert(s@),
{
    let ghost pre = v.deep_view();
    let mut i: usize = 0;
    while i < v.len()
        invariant
            0 <= i <= v.len(),
            v.deep_view() == pre,
            strictly_sorted(pre),
            forall|j: int| 0 <= j < i as int ==> lex_lt(pre[j], s@),
        ensures
            0 <= i <= v.len(),
            v.deep_view() == pre,
            forall|j: int| 0 <= j < i as int ==> lex_lt(pre[j], s@),
            (i as int) < pre.len() ==> lex_lt(s@, pre[i as int]),
        decreases v.len() - i,
    {
        if str_eq(v[i].as_str(), s.as_str()) {
            // Already present: the list is unchanged, and so is its set.
            proof {
                assert(pre[i as int] == s@);
                assert(pre.contains(s@));
                assert(pre.to_set() =~= pre.to_set().insert(s@));
            }
            return ;
        }
        if !str_lex_lt(v[i].as_str(), s.as_str()) {
            // This element is not below s, and not equal: s goes here.
            proof {
                lemma_lex_lt_trichotomy(pre[i as int], s@, 0);
                if !lex_lt(s@, pre[i as int]) {
                    assert(pre[i as int] =~= s@);
                }
            }
            break ;
        }
        i = i + 1;
    }
    // s is greater than everything before index i and, when i is inside
    // the list, smaller than the element at i, hence than all after it.
    v.insert(i, s);
    proof {
        let post = v.deep_view();
        pre.insert_ensures(i as int, s@);
        assert(post =~= pre.insert(i as int, s@));
        assert forall|p: int, q: int| 0 <= p < q < post.len() implies lex_lt(post[p], post[q]) by {
            if q < i as int {
                assert(post[p] == pre[p] && post[q] == pre[q]);
            } else if q == i as int {
                assert(post[p] == pre[p]);
            } else if p < i as int {
                assert(pre.insert(i as int, s@)[(q - 1) + 1] == pre[q - 1]);
                assert(post[p] == pre[p] && post[q] == pre[q - 1]);
                assert(lex_lt(pre[p], pre[q - 1]));
            } else if p == i as int {
                assert(pre.insert(i as int, s@)[(q - 1) + 1] == pre[q - 1]);
                assert(lex_lt(s@, pre[i as int]));
                if q - 1 > i as int {
                    assert(lex_lt(pre[i as int], pre[q - 1]));
                    lemma_lex_lt_transitive(s@, pre[i as int], pre[q - 1], 0);
                }
            } else {
                assert(pre.insert(i as int, s@)[(p - 1) + 1] == pre[p - 1]);
                assert(pre.insert(i as int, s@)[(q - 1) + 1] == pre[q - 1]);
                assert(post[p] == pre[p - 1] && post[q] == pre[q - 1]);
            }
        }
        assert forall|x: Seq<char>| post.to_set().contains(x) <==> pre.to_set().insert(
            s@,
        ).contains(x) by {
            if post.to_set().contains(x) {
                let k = choose|k: int| 0 <= k < post.len() && post[k] == x;
                if k < i as int {
                    assert(pre[k] == x);
                } else if k > i as int {
                    assert(pre.insert(i as int, s@)[(k - 1) + 1] == pre[k - 1]);
                    assert(pre[k - 1] == x);
                }
            }
            if x == s@ {
                assert(post[i as int] == x);
            } else if pre.to_set().contains(x) {
                let k = choose|k: int| 0 <= k < pre.len() && pre[k] == x;
                if k < i as int {
                    assert(post[k] == x);
                } else {
                    assert(pre.insert(i as int, s@)[k + 1] == pre[k]);
                    assert(post[k + 1] == x);
                }
            }
        }
        assert(post.to_set() =~= pre.to_set().insert(s@));
    }
}

/// Brings a path list into normal form: sorted lexicographically with
/// duplicates removed. The result holds exactly the paths of the input.
pub fn normalize_paths(paths: Vec<String>) -> (r: Vec<String>)
    ensures
        strictly_sorted(r.deep_view()),
        r.deep_view().to_set() == paths.deep_view().to_set(),
        r.deep_view() == normal_form(paths.deep_view()),
{
    let ghost all = paths.deep_view();
    let mut r: Vec<String> = Vec::new();
    let mut rest = paths;
    proof {
        assert(r.deep_view().to_set() =~= all.subrange(0, 0).to_set());
    }
    let mut i: usize = 0;
    while i < rest.len()
        invariant
            0 <= i <= rest.len(),
            rest.deep_view() == all,
            strictly_sorted(r.deep_view()),
            r.deep_view().to_set() == all.subrange(0, i as int).to_set(),
        decreases rest.len() - i,
    {
        let ghost before = r.deep_view().to_set();
        let s = rest[i].clone();
        insert_sorted_unique(&mut r, s);
        proof {
            assert(all.subrange(0, i as int + 1) =~= all.subrange(0, i as int).push(all[i as int]));
            assert forall|x: Seq<char>|
                all.subrange(0, i as int + 1).to_set().contains(x) <==> before.insert(
                    all[i as int],
                ).contains(x) by {
                let prefix = all.subrange(0, i as int);
                if prefix.push(all[i as int]).contains(x) {
                    let k = choose|k: int|
                        0 <= k < prefix.push(all[i as int]).len() && prefix.push(all[i as int])[k]
                            == x;
                    if k < prefix.len() {
                        assert(prefix[k] == x);
                    }
                }
                if prefix.to_set().contains(x) {
                    let k = choose|k: int| 0 <= k < prefix.len() && prefix[k] == x;
                    assert(prefix.push(all[i as int])[k] == x);
                }
                if x == all[i as int] {
                    assert(prefix.push(x)[prefix.len() as int] == x);
                }
            }
            assert(r.deep_view().to_set() =~= all.subrange(0, i as int + 1).to_set());
        }
        i = i + 1;
    }
    proof {
        assert(all.subrange(0, all.len() as int) =~= all);
        assert(exists|x: Seq<Seq<char>>| strictly_sorted(x) && x.to_set() == all.to_set()) by {
            assert(strictly_sorted(r.deep_view()) && r.deep_view().to_set() == all.to_set());
        }
        lemma_strictly_sorted_unique(normal_form(all), r.deep_view());
    }
    r
}

/// The normal form of a path list: the strictly sorted list holding the
/// same set of paths. By [`lemma_strictly_sorted_unique`] there is at most
/// one such list, so this picks it whenever one exists;
/// [`normalize_paths`] computes it and so witnesses that one does.
pub open spec fn normal_form(s: Seq<Seq<char>>) -> Seq<Seq<char>> {
    choose|r: Seq<Seq<char>>| strictly_sorted(r) && r.to_set() == s.to_set()
}

/// A list already in normal form is its own normal form: normalizing a
/// second time changes nothing, so repeating an update stores and
/// broadcasts exactly what the first application did.
pub proof fn lemma_normal_form_fixed(s: Seq<Seq<char>>)
    requires
        strictly_sorted(s),
    ensures
        normal_form(s) == s,
{
    assert(exists|r: Seq<Seq<char>>| strictly_sorted(r) && r.to_set() == s.to_set()) by {
        assert(strictly_sorted(s) && s.to_set() == s.to_set());
    }
    let c = normal_form(s);
    assert(strictly_sorted(c) && c.to_set() == s.to_set());
    lemma_strictly_sorted_unique(c, s);
}

/// A normal-form list is determined by the set of paths it holds: two
/// strictly sorted lists with the same set of elements are the same list.
/// Normalizing a list a second time therefore changes nothing, and the
/// broadcast that follows an update carries the same de-duplicated list
/// however the update's input was ordered or repeated.
pub proof fn lemma_strictly_sorted_unique(a: Seq<Seq<char>>, b: Seq<Seq<char>>)
    requires
        strictly_sorted(a),
        strictly_sorted(b),
        a.to_set() == b.to_set(),
    ensures
        a == b,
    decreases a.len(),
{
    if a.len() == 0 {
        if b.len() > 0 {
            assert(b.to_set().contains(b[0]));
            assert(a.contains(b[0]));
        }
        assert(a =~= b);
    } else {
        assert(a.to_set().contains(a[0]));
        assert(b.to_set().contains(b[0]));
        assert(b.contains(a[0]));
        assert(a.contains(b[0]));
        let ja = choose|j: int| 0 <= j < b.len() && b[j] == a[0];
        let jb = choose|j: int| 0 <= j < a.len() && a[j] == b[0];
        if a[0] != b[0] {
            lemma_lex_lt_trichotomy(a[0], b[0], 0);
            if lex_lt(a[0], b[0]) {
                // a[0] sits somewhere in b, after b[0]; but then b[0] < a[0].
                assert(ja > 0);
                assert(lex_lt(b[0], b[ja]));
                lemma_lex_lt_asymmetric(a[0], b[0]);
            } else {
                assert(jb > 0);
                assert(lex_lt(a[0], a[jb]));
                lemma_lex_lt_asymmetric(b[0], a[0]);
            }
        }
        // Heads agree; the head is in neither tail, so the tail sets agree.
        let at = a.skip(1);
        let bt = b.skip(1);
        assert forall|x: Seq<char>| at.to_set().contains(x) <==> a.to_set().remove(
            a[0],
        ).contains(x) by {
            if at.contains(x) {
                let k = choose|k: int| 0 <= k < at.len() && at[k] == x;
                assert(a[k + 1] == x);
                assert(lex_lt(a[0], a[k + 1]));
                if x == a[0] {
                    lemma_lex_lt_irreflexive(a[0], 0);
                }
                assert(a.contains(x));
            }
            if a.contains(x) && x != a[0] {
                let k = choose|k: int| 0 <= k < a.len() && a[k] == x;
                assert(k > 0);
                assert(at[k - 1] == x);
            }
        }
        assert forall|x: Seq<char>| bt.to_set().contains(x) <==> b.to_set().remove(
            b[0],
        ).contains(x) by {
            if bt.contains(x) {
                let k = choose|k: int| 0 <= k < bt.len() && bt[k] == x;
                assert(b[k + 1] == x);
                assert(lex_lt(b[0], b[k + 1]));
                if x == b[0] {
                    lemma_lex_lt_irreflexive(b[0], 0);
                }
                assert(b.contains(x));
            }
            if b.contains(x) && x != b[0] {
                let k = choose|k: int| 0 <= k < b.len() && b[k] == x;
                assert(k > 0);
                assert(bt[k - 1] == x);
            }
        }
        assert(at.to_set() =~= a.to_set().remove(a[0]));
        assert(bt.to_set() =~= b.to_set().remove(b[0]));
        assert(strictly_sorted(at)) by {
            assert forall|p: int, q: int| 0 <= p < q < at.len() implies lex_lt(at[p], at[q]) by {
                assert(at[p] == a[p + 1] && at[q] == a[q + 1]);
            }
        }
        assert(strictly_sorted(bt)) by {
            assert forall|p: int, q: int| 0 <= p < q < bt.len() implies lex_lt(bt[p], bt[q]) by {
                assert(bt[p] == b[p + 1] && bt[q] == b[q + 1]);
            }
        }
        lemma_strictly_sorted_unique(at, bt);
        assert(a =~= b) by {
            assert(a.len() == b.len());
            assert forall|k: int| 0 <= k < a.len() implies a[k] == b[k] by {
                if k > 0 {
                    assert(at[k - 1] == a[k]);
                    assert(bt[k - 1] == b[k]);
                }
            }
        }
    }
}

} // verus!
