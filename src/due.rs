use vstd::multiset::Multiset;
use vstd::prelude::*;
use vstd::seq_lib::lemma_multiset_commutative;

use crate::date::Date;
use crate::exercise::Exercise;

verus! {

broadcast use vstd::multiset::group_multiset_axioms;

/// An exercise is due on `today` when its due date is not later.
pub open spec fn is_due(e: Exercise, today: Date) -> bool {
    e.due_at.day_number <= today.day_number
}

/// The exercises of `s` that are due on `today`, in their order.
pub open spec fn due_among(s: Seq<Exercise>, today: Date) -> Seq<Exercise> {
    s.filter(|e: Exercise| is_due(e, today))
}

/// An id's place in the listing order; an exercise without an id comes
/// after every stored one on its day.
pub open spec fn id_rank(id: Option<i32>) -> int {
    match id {
        Some(v) => v as int,
        None => i32::MIN - 1,
    }
}

/// Whether `a` may be listed before `b`: a later due date first, and on
/// the same due date a higher id first.
pub open spec fn listed_before(a: Exercise, b: Exercise) -> bool {
    ||| a.due_at.day_number > b.due_at.day_number
    ||| (a.due_at.day_number == b.due_at.day_number && id_rank(a.id) >= id_rank(b.id))
}

/// `s` is listed by due date descending, then by id descending.
pub open spec fn in_due_order(s: Seq<Exercise>) -> bool {
    forall|i: int, j: int| 0 <= i < j < s.len() ==> listed_before(#[trigger] s[i], #[trigger] s[j])
}

fn listed_before_exec(a: &Exercise, b: &Exercise) -> (r: bool)
    ensures
        r == listed_before(*a, *b),
{
    let ra: i64 = match a.id {
        Some(v) => v as i64,
        None => i32::MIN as i64 - 1,
    };
    let rb: i64 = match b.id {
        Some(v) => v as i64,
        None => i32::MIN as i64 - 1,
    };
    a.due_at.day_number > b.due_at.day_number || (a.due_at.day_number == b.due_at.day_number
        && ra >= rb)
}

proof fn lemma_insert_multiset(s: Seq<Exercise>, k: int, e: Exercise)
    requires
        0 <= k <= s.len(),
    ensures
        s.insert(k, e).to_multiset() =~= s.to_multiset().insert(e),
{
    let a = s.subrange(0, k);
    let b = s.subrange(k, s.len() as int);
    assert(s =~= a + b);
    assert(s.insert(k, e) =~= a + (seq![e] + b));
    lemma_multiset_commutative(a, b);
    lemma_multiset_commutative(a, seq![e] + b);
    lemma_multiset_commutative(seq![e], b);
    assert(seq![e].to_multiset() =~= Multiset::empty().insert(e)) by {
        assert(seq![e] =~= Seq::<Exercise>::empty().push(e));
        Seq::<Exercise>::empty().to_multiset_ensures();
    }
}

/// The exercises of `exercises` that are due on `today`, listed by due
/// date descending and then by id descending.
pub fn select_due(exercises: Vec<Exercise>, today: Date) -> (r: Vec<Exercise>)
    ensures
        r@.to_multiset() == due_among(exercises@, today).to_multiset(),
        in_due_order(r@),
        forall|i: int| 0 <= i < r@.len() ==> is_due(#[trigger] r@[i], today),
{
    let ghost orig = exercises@;
    let ghost n = orig.len();
    let mut input = exercises;
    let mut out: Vec<Exercise> = Vec::new();
    proof {
        assert(orig.subrange(n as int, n as int) =~= Seq::<Exercise>::empty());
        assert(due_among(Seq::<Exercise>::empty(), today) =~= Seq::<Exercise>::empty());
        assert(out@.to_multiset() =~= Multiset::empty()) by {
            Seq::<Exercise>::empty().to_multiset_ensures();
        }
        assert(Seq::<Exercise>::empty().to_multiset() =~= Multiset::empty()) by {
            Seq::<Exercise>::empty().to_multiset_ensures();
        }
    }
    while input.len() > 0
        invariant
            n == orig.len(),
            input@.len() <= n,
            input@ == orig.subrange(0, input@.len() as int),
            out@.to_multiset() == due_among(
                orig.subrange(input@.len() as int, n as int),
                today,
            ).to_multiset(),
            in_due_order(out@),
            forall|i: int| 0 <= i < out@.len() ==> is_due(#[trigger] out@[i], today),
        decreases input@.len(),
    {
        let ghost m = input@.len();
        let e = input.pop().unwrap();
        let ghost rest = orig.subrange(m as int, n as int);
        proof {
            assert(e == orig[m - 1]);
            assert(orig.subrange(m - 1, n as int) =~= seq![e] + rest);
            rest.lemma_filter_prepend(e, |x: Exercise| is_due(x, today));
            lemma_multiset_commutative(
                if is_due(e, today) {
                    seq![e]
                } else {
                    Seq::empty()
                },
                due_among(rest, today),
            );
            assert(seq![e].to_multiset() =~= Multiset::empty().insert(e)) by {
                assert(seq![e] =~= Seq::<Exercise>::empty().push(e));
                Seq::<Exercise>::empty().to_multiset_ensures();
            }
            assert(Seq::<Exercise>::empty().to_multiset() =~= Multiset::empty()) by {
                Seq::<Exercise>::empty().to_multiset_ensures();
            }
        }
        if e.due_at.day_number <= today.day_number {
            let mut k: usize = 0;
            while k < out.len() && listed_before_exec(&out[k], &e)
                invariant
                    k <= out@.len(),
                    forall|i: int| 0 <= i < k ==> listed_before(#[trigger] out@[i], e),
                decreases out@.len() - k,
            {
                k = k + 1;
            }
            let ghost old_out = out@;
            proof {
                assert forall|j: int| k <= j < old_out.len() implies listed_before(
                    e,
                    #[trigger] old_out[j],
                ) by {
                    if j > k {
                        assert(listed_before(old_out[k as int], old_out[j]));
                    }
                }
                lemma_insert_multiset(old_out, k as int, e);
            }
            out.insert(k, e);
            proof {
                let s = out@;
                assert(s == old_out.insert(k as int, e));
                assert forall|i: int, j: int| 0 <= i < j < s.len() implies listed_before(
                    #[trigger] s[i],
                    #[trigger] s[j],
                ) by {
                    if i < k && j < k {
                        assert(s[i] == old_out[i] && s[j] == old_out[j]);
                    } else if i < k && j == k {
                        assert(s[i] == old_out[i]);
                    } else if i < k {
                        assert(s[i] == old_out[i] && s[j] == old_out[j - 1]);
                    } else if i == k {
                        assert(s[j] == old_out[j - 1]);
                    } else {
                        assert(s[i] == old_out[i - 1] && s[j] == old_out[j - 1]);
                    }
                }
                assert forall|i: int| 0 <= i < s.len() implies is_due(#[trigger] s[i], today) by {
                    if i < k {
                        assert(s[i] == old_out[i]);
                    } else if i > k {
                        assert(s[i] == old_out[i - 1]);
                    }
                }
            }
        }
    }
    proof {
        assert(orig.subrange(0, n as int) =~= orig);
    }
    out
}

} // verus!
