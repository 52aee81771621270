use crate::table::PeriodicWords;
use vstd::prelude::*;
use vstd::string::StringSliceAdditionalSpecFns;

verus! {

/// Every key of `t` is a symbol of one or two bytes.
pub open spec fn symbols_fit(t: Map<Seq<u8>, &'static str>) -> bool {
    forall|sym: Seq<u8>| #[trigger] t.contains_key(sym) ==> 1 <= sym.len() <= 2
}

/// The `k` bytes of `w` from `i` on form a symbol of `t`.
pub open spec fn starts_symbol(t: Map<Seq<u8>, &'static str>, w: Seq<u8>, i: int, k: int) -> bool {
    0 <= i && i + k <= w.len() && t.contains_key(w.subrange(i, i + k))
}

/// `seg` is a split of `w` into consecutive symbols of `t`.
pub open spec fn is_segmentation(
    t: Map<Seq<u8>, &'static str>,
    w: Seq<u8>,
    seg: Seq<Seq<u8>>,
) -> bool {
    &&& seg.flatten() == w
    &&& forall|k: int| 0 <= k < seg.len() ==> t.contains_key(#[trigger] seg[k])
}

/// `w` can be split into symbols of `t`.
pub open spec fn segmentable(t: Map<Seq<u8>, &'static str>, w: Seq<u8>) -> bool {
    exists|seg: Seq<Seq<u8>>| is_segmentation(t, w, seg)
}

/// The element names of the symbols of `seg`, in order.
pub open spec fn names_of(t: Map<Seq<u8>, &'static str>, seg: Seq<Seq<u8>>) -> Seq<&'static str> {
    seg.map_values(|sym: Seq<u8>| t[sym])
}

/// The chosen split of `w[i..]`: the one that extends the best split of the
/// rest by a one- or two-byte symbol, whichever gives fewer symbols; on a tie
/// the two-byte symbol is taken.
pub open spec fn best_seg(t: Map<Seq<u8>, &'static str>, w: Seq<u8>, i: int) -> Option<
    Seq<Seq<u8>>,
>
    decreases w.len() - i,
{
    if i >= w.len() {
        Some(Seq::empty())
    } else {
        let one = if starts_symbol(t, w, i, 1) {
            best_seg(t, w, i + 1)
        } else {
            None
        };
        let two = if starts_symbol(t, w, i, 2) {
            best_seg(t, w, i + 2)
        } else {
            None
        };
        match (one, two) {
            (Some(a), Some(b)) => if a.len() < b.len() {
                Some(seq![w.subrange(i, i + 1)] + a)
            } else {
                Some(seq![w.subrange(i, i + 2)] + b)
            },
            (Some(a), None) => Some(seq![w.subrange(i, i + 1)] + a),
            (None, Some(b)) => Some(seq![w.subrange(i, i + 2)] + b),
            (None, None) => None,
        }
    }
}

/// `a` holds the items of `b` from last to first.
pub open spec fn is_reversed(a: Seq<&'static str>, b: Seq<&'static str>) -> bool {
    &&& a.len() == b.len()
    &&& forall|k: int| 0 <= k < a.len() ==> #[trigger] a[k] == b[b.len() - 1 - k]
}

proof fn lemma_flatten_cons(x: Seq<u8>, a: Seq<Seq<u8>>)
    ensures
        (seq![x] + a).flatten() == x + a.flatten(),
{
    assert((seq![x] + a).drop_first() =~= a);
}

/// The chosen split, when there is one, is a split of `w[i..]`.
proof fn lemma_best_sound(t: Map<Seq<u8>, &'static str>, w: Seq<u8>, i: int)
    requires
        0 <= i <= w.len(),
    ensures
        best_seg(t, w, i) matches Some(seg) ==> is_segmentation(
            t,
            w.subrange(i, w.len() as int),
            seg,
        ),
    decreases w.len() - i,
{
    if i == w.len() {
        assert(w.subrange(i, w.len() as int) =~= Seq::<u8>::empty());
    } else {
        if starts_symbol(t, w, i, 1) {
            lemma_best_sound(t, w, i + 1);
        }
        if starts_symbol(t, w, i, 2) {
            lemma_best_sound(t, w, i + 2);
        }
        if let Some(seg) = best_seg(t, w, i) {
            let k: int = if seg.len() > 0 && seg[0].len() == 1 { 1 } else { 2 };
            assert(seg[0] == w.subrange(i, i + k));
            let rest = seg.drop_first();
            assert(seg =~= seq![w.subrange(i, i + k)] + rest);
            assert(best_seg(t, w, i + k) == Some(rest));
            lemma_flatten_cons(w.subrange(i, i + k), rest);
            assert(w.subrange(i, w.len() as int) =~= w.subrange(i, i + k) + w.subrange(
                i + k,
                w.len() as int,
            ));
            assert forall|j: int| 0 <= j < seg.len() implies t.contains_key(#[trigger] seg[j]) by {
                if j > 0 {
                    assert(seg[j] == rest[j - 1]);
                }
            }
        }
    }
}

/// Every split of `w[i..]` has at least as many symbols as the chosen one,
/// which therefore exists.
proof fn lemma_best_minimal(
    t: Map<Seq<u8>, &'static str>,
    w: Seq<u8>,
    i: int,
    seg2: Seq<Seq<u8>>,
)
    requires
        symbols_fit(t),
        0 <= i <= w.len(),
        is_segmentation(t, w.subrange(i, w.len() as int), seg2),
    ensures
        best_seg(t, w, i) matches Some(seg) && seg.len() <= seg2.len(),
    decreases seg2.len(),
{
    if seg2.len() == 0 {
        assert(w.subrange(i, w.len() as int).len() == 0);
    } else {
        let x = seg2[0];
        let rest = seg2.drop_first();
        let k = x.len() as int;
        assert(t.contains_key(seg2[0]));
        assert(seg2 =~= seq![x] + rest);
        lemma_flatten_cons(x, rest);
        let tail = w.subrange(i, w.len() as int);
        assert(tail == x + rest.flatten());
        assert(w.subrange(i, i + k) =~= x) by {
            assert forall|j: int| 0 <= j < k implies w.subrange(i, i + k)[j] == x[j] by {
                assert(tail[j] == x[j]);
            }
        }
        assert(w.subrange(i + k, w.len() as int) =~= rest.flatten()) by {
            assert forall|j: int| 0 <= j < rest.flatten().len() implies w.subrange(
                i + k,
                w.len() as int,
            )[j] == rest.flatten()[j] by {
                assert(tail[k + j] == rest.flatten()[j]);
            }
        }
        assert forall|j: int| 0 <= j < rest.len() implies t.contains_key(#[trigger] rest[j]) by {
            assert(rest[j] == seg2[j + 1]);
        }
        lemma_best_minimal(t, w, i + k, rest);
        assert(starts_symbol(t, w, i, k));
    }
}

/// A copy of `base_vec` with `elem` added at the end.
pub fn appended_vec(base_vec: &Vec<&'static str>, elem: &'static str) -> (r: Vec<&'static str>)
    ensures
        r@ == base_vec@.push(elem),
{
    let mut vec = base_vec.clone();
    vec.push(elem);
    vec
}

/// What a slot of the solution table holds for the suffix from `j`: nothing
/// when the suffix has no split, else the names of its chosen split, last first.
spec fn holds_solution(
    t: Map<Seq<u8>, &'static str>,
    w: Seq<u8>,
    slot: Option<Vec<&'static str>>,
    j: int,
) -> bool {
    match best_seg(t, w, j) {
        None => slot is None,
        Some(seg) => slot matches Some(v) && is_reversed(v@, names_of(t, seg)),
    }
}

proof fn lemma_extend_names(
    t: Map<Seq<u8>, &'static str>,
    v: Seq<&'static str>,
    sym: Seq<u8>,
    seg: Seq<Seq<u8>>,
)
    requires
        is_reversed(v, names_of(t, seg)),
    ensures
        is_reversed(v.push(t[sym]), names_of(t, seq![sym] + seg)),
{
    assert(names_of(t, seq![sym] + seg) =~= seq![t[sym]] + names_of(t, seg));
}

/// The items of `v` from last to first.
fn reversed(v: &Vec<&'static str>) -> (r: Vec<&'static str>)
    ensures
        is_reversed(r@, v@),
{
    let mut out: Vec<&'static str> = Vec::new();
    let mut j: usize = v.len();
    while j > 0
        invariant
            j <= v.len(),
            out.len() == v.len() - j,
            forall|k: int| 0 <= k < out.len() ==> #[trigger] out@[k] == v@[v.len() - 1 - k],
        decreases j,
    {
        j = j - 1;
        out.push(v[j]);
    }
    out
}

impl PeriodicWords {
    /// Splits the bytes of `s` into element symbols with as few elements as
    /// possible and returns the elements' names in order, or `None` when no
    /// split exists. Where two splits have equally few elements, the one
    /// that starts with a two-letter symbol is taken (see `best_seg`). The
    /// empty word gives an empty list; a byte that starts no symbol (any
    /// non-letter, any non-ASCII byte) leaves no split.
    pub fn gen_compound(&self, s: &str) -> (r: Option<Vec<&'static str>>)
        ensures
            r is Some <==> best_seg(self@, s.spec_bytes(), 0) is Some,
            r is Some ==> r->Some_0@ == names_of(self@, best_seg(self@, s.spec_bytes(), 0)->Some_0),
            r is Some <==> segmentable(self@, s.spec_bytes()),
            r matches Some(v) ==> exists|seg: Seq<Seq<u8>>|
                is_segmentation(self@, s.spec_bytes(), seg) && v@ == names_of(self@, seg) && (
                forall|seg2: Seq<Seq<u8>>| #[trigger]
                    is_segmentation(self@, s.spec_bytes(), seg2) ==> seg.len() <= seg2.len()),
    {
        let bytes = s.as_bytes();
        let len = bytes.len();
        let ghost w = bytes@;
        let ghost t = self@;
        let none: Option<Vec<&'static str>> = None;
        // rev_sol[k] is the slot of the suffix that starts at len - k
        let mut rev_sol: Vec<Option<Vec<&'static str>>> = Vec::new();
        rev_sol.push(Some(Vec::new()));
        assert(holds_solution(t, w, rev_sol@[0], len as int)) by {
            assert(names_of(t, Seq::empty()) =~= Seq::empty());
        }
        let mut i: usize = len;
        while i > 0
            invariant
                i <= len,
                len == w.len(),
                bytes@ == w,
                t == self@,
                none is None,
                rev_sol.len() == len - i + 1,
                forall|k: int|
                    0 <= k < rev_sol.len() ==> holds_solution(t, w, #[trigger] rev_sol@[k], len - k),
            decreases i,
        {
            i = i - 1;
            let k1 = len - i - 1;
            let fst_sol = &rev_sol[k1];
            let fst = self.lookup(bytes, i, 1);
            let (snd_sol, snd) = if len - i >= 2 {
                (&rev_sol[k1 - 1], self.lookup(bytes, i, 2))
            } else {
                (&none, None)
            };
            assert(holds_solution(t, w, rev_sol@[k1 as int], i + 1));
            assert(len - i >= 2 ==> holds_solution(t, w, rev_sol@[k1 - 1], i + 2));
            let next = match (fst_sol, fst, snd_sol, snd) {
                (Some(a), Some(e1), Some(b), Some(e2)) => {
                    // favor shorter compounds
                    if a.len() < b.len() {
                        Some(appended_vec(a, e1))
                    } else {
                        Some(appended_vec(b, e2))
                    }
                },
                (Some(a), Some(e1), _, _) => Some(appended_vec(a, e1)),
                (_, _, Some(b), Some(e2)) => Some(appended_vec(b, e2)),
                _ => None,
            };
            proof {
                if let Some(seg) = best_seg(t, w, i as int) {
                    let k: int = if seg[0].len() == 1 { 1 } else { 2 };
                    let rest = seg.drop_first();
                    assert(seg =~= seq![w.subrange(i as int, i + k)] + rest);
                    let prev = best_seg(t, w, i + k)->Some_0;
                    assert(rest == prev);
                    let pv = if k == 1 { fst_sol } else { snd_sol };
                    lemma_extend_names(t, pv->Some_0@, w.subrange(i as int, i + k), prev);
                }
            }
            rev_sol.push(next);
        }
        let ghost w0 = best_seg(t, w, 0);
        proof {
            lemma_best_sound(t, w, 0);
            assert(w.subrange(0, w.len() as int) =~= w);
            self.lemma_view();
            if segmentable(t, w) {
                let seg2 = choose|seg2: Seq<Seq<u8>>| is_segmentation(t, w, seg2);
                lemma_best_minimal(t, w, 0, seg2);
            }
            if let Some(seg) = w0 {
                assert forall|seg2: Seq<Seq<u8>>| #[trigger]
                    is_segmentation(t, w, seg2) implies seg.len() <= seg2.len() by {
                    lemma_best_minimal(t, w, 0, seg2);
                }
            }
        }
        match &rev_sol[len] {
            Some(v) => {
                let out = reversed(v);
                assert(out@ =~= names_of(t, w0->Some_0));
                Some(out)
            },
            None => None,
        }
    }
}

proof fn lemma_singles_solve(t: Map<Seq<u8>, &'static str>, w: Seq<u8>, i: int)
    requires
        0 <= i <= w.len(),
        forall|j: int| 0 <= j < w.len() ==> t.contains_key(seq![#[trigger] w[j]]),
    ensures
        best_seg(t, w, i) is Some,
    decreases w.len() - i,
{
    if i < w.len() {
        lemma_singles_solve(t, w, i + 1);
        assert(w.subrange(i, i + 1) =~= seq![w[i]]);
    }
}

/// A word made only of letters that are one-letter symbols of the table
/// always has a split.
pub proof fn lemma_single_letters_solve(pw: &PeriodicWords, w: Seq<u8>)
    requires
        forall|j: int| 0 <= j < w.len() ==> pw@.contains_key(seq![#[trigger] w[j]]),
    ensures
        best_seg(pw@, w, 0) is Some,
        segmentable(pw@, w),
{
    lemma_singles_solve(pw@, w, 0);
    lemma_best_sound(pw@, w, 0);
    assert(w.subrange(0, w.len() as int) =~= w);
}

/// The symbols behind the chosen names, put together in order, give back
/// the word.
pub proof fn lemma_round_trip(pw: &PeriodicWords, w: Seq<u8>)
    ensures
        best_seg(pw@, w, 0) matches Some(seg) ==> {
            &&& seg.flatten() == w
            &&& forall|k: int| 0 <= k < seg.len() ==> pw@.contains_key(#[trigger] seg[k])
            &&& forall|k: int|
                0 <= k < seg.len() ==> #[trigger] names_of(pw@, seg)[k] == pw@[seg[k]]
        },
{
    lemma_best_sound(pw@, w, 0);
    assert(w.subrange(0, w.len() as int) =~= w);
}

/// No split of the word into symbols of the table has fewer elements than
/// the chosen one.
pub proof fn lemma_minimal(pw: &PeriodicWords, w: Seq<u8>, seg2: Seq<Seq<u8>>)
    requires
        is_segmentation(pw@, w, seg2),
    ensures
        best_seg(pw@, w, 0) matches Some(seg) && seg.len() <= seg2.len(),
{
    pw.lemma_view();
    assert(w.subrange(0, w.len() as int) =~= w);
    lemma_best_minimal(pw@, w, 0, seg2);
}

} // verus!
