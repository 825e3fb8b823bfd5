//! The order in which blocks are listed: by their shown names, with digit sequences compared by
//! their numeric value (`alphanumeric-sort`), so that "Thruster 2" comes before "Thruster 10".
use vstd::prelude::*;

verus! {

/// How one name compares to another.
#[derive(Copy, Clone, PartialEq, Eq, Structural, Debug)]
pub enum NameOrder {
    Less,
    Equal,
    Greater,
}

/// How `alphanumeric_sort::compare_str` compares `a` to `b`.
pub uninterp spec fn alphanumeric_order(a: Seq<char>, b: Seq<char>) -> NameOrder;

/// `alphanumeric_sort::compare_str`: how `a` compares to `b` when digit sequences count by their
/// numeric value. The comparison treats its two arguments alike (running out of characters,
/// lengths of digit runs, leading zeros and characters are each compared both ways), so
/// swapping them turns `Less` into `Greater` and back.
#[verifier::external_body]
fn compare_names(a: &str, b: &str) -> (r: NameOrder)
    ensures
        r == alphanumeric_order(a@, b@),
        r == NameOrder::Greater <==> alphanumeric_order(b@, a@) == NameOrder::Less,
        r == NameOrder::Less <==> alphanumeric_order(b@, a@) == NameOrder::Greater,
{
    match alphanumeric_sort::compare_str(a, b) {
        std::cmp::Ordering::Less => NameOrder::Less,
        std::cmp::Ordering::Equal => NameOrder::Equal,
        std::cmp::Ordering::Greater => NameOrder::Greater,
    }
}

/// `a` may be listed right before `b`: `a` does not come after `b`.
pub open spec fn may_precede(a: Seq<char>, b: Seq<char>) -> bool {
    alphanumeric_order(a, b) != NameOrder::Greater
}

/// `order` lists each position of a sequence of length `n` exactly once.
pub open spec fn is_permutation(order: Seq<usize>, n: nat) -> bool {
    &&& order.len() == n
    &&& order.no_duplicates()
    &&& forall|i: int| 0 <= i < order.len() ==> #[trigger] order[i] < n
}

/// Each name of `names`, listed by `order`, does not come after the next one.
pub open spec fn listed_in_order(names: Seq<String>, order: Seq<usize>) -> bool {
    forall|i: int|
        0 <= i < order.len() - 1 ==> #[trigger] may_precede(
            names[order[i] as int]@,
            names[order[i + 1] as int]@,
        )
}

/// A name is listed before a name that comes earlier in `names` only when that earlier name
/// comes after it.
pub open spec fn moved_only_past_greater(names: Seq<String>, order: Seq<usize>) -> bool {
    forall|i: int, j: int|
        0 <= i < j < order.len() && order[i] > order[j] ==> alphanumeric_order(
            #[trigger] names[order[j] as int]@,
            #[trigger] names[order[i] as int]@,
        ) == NameOrder::Greater
}

/// The positions of `names` in the order in which they are listed: sorted by the comparison,
/// where a name moves before an earlier one only when that one comes after it (so names that
/// compare equal keep their order).
pub fn alphanumeric_positions(names: &Vec<String>) -> (r: Vec<usize>)
    ensures
        is_permutation(r@, names@.len()),
        listed_in_order(names@, r@),
        moved_only_past_greater(names@, r@),
{
    let mut r: Vec<usize> = Vec::new();
    let mut k: usize = 0;
    while k < names.len()
        invariant
            k <= names@.len(),
            is_permutation(r@, k as nat),
            listed_in_order(names@, r@),
            moved_only_past_greater(names@, r@),
        decreases names.len() - k,
    {
        let mut pos: usize = r.len();
        while pos > 0 && compare_names(names[r[pos - 1]].as_str(), names[k].as_str()) == NameOrder::Greater
            invariant
                k < names@.len(),
                pos <= r@.len(),
                is_permutation(r@, k as nat),
                listed_in_order(names@, r@),
                moved_only_past_greater(names@, r@),
                forall|m: int|
                    pos <= m < r@.len() ==> alphanumeric_order(
                        #[trigger] names@[r@[m] as int]@,
                        names@[k as int]@,
                    ) == NameOrder::Greater && alphanumeric_order(
                        names@[k as int]@,
                        names@[r@[m] as int]@,
                    ) == NameOrder::Less,
            decreases pos,
        {
            pos = pos - 1;
        }
        let ghost before = r@;
        r.insert(pos, k);
        proof {
            let s = r@;
            assert(s == before.insert(pos as int, k));
            assert forall|i: int| 0 <= i < s.len() implies #[trigger] s[i] < k + 1 by {
                if i < pos {
                    assert(s[i] == before[i]);
                } else if i > pos {
                    assert(s[i] == before[i - 1]);
                }
            }
            assert forall|i: int, j: int|
                0 <= i < s.len() && 0 <= j < s.len() && i != j implies s[i] != s[j] by {
                if i != pos && j != pos {
                    let bi = if i < pos { i } else { i - 1 };
                    let bj = if j < pos { j } else { j - 1 };
                    assert(s[i] == before[bi] && s[j] == before[bj]);
                } else if i == pos {
                    let bj = if j < pos { j } else { j - 1 };
                    assert(s[j] == before[bj]);
                    assert(before[bj] < k);
                } else {
                    let bi = if i < pos { i } else { i - 1 };
                    assert(s[i] == before[bi]);
                    assert(before[bi] < k);
                }
            }
            assert forall|i: int, j: int|
                0 <= i < j < s.len() && s[i] > s[j] implies alphanumeric_order(
                #[trigger] names@[s[j] as int]@,
                #[trigger] names@[s[i] as int]@,
            ) == NameOrder::Greater by {
                if i == pos {
                    assert(s[j] == before[j - 1]);
                    assert(alphanumeric_order(names@[before[j - 1] as int]@, names@[k as int]@) == NameOrder::Greater);
                } else if j == pos {
                    assert(s[i] == before[i]);
                    assert(before[i] < k);
                } else {
                    let bi = if i < pos { i } else { i - 1 };
                    let bj = if j < pos { j } else { j - 1 };
                    assert(s[i] == before[bi] && s[j] == before[bj]);
                    assert(bi < bj);
                    assert(alphanumeric_order(names@[before[bj] as int]@, names@[before[bi] as int]@) == NameOrder::Greater);
                }
            }
            assert forall|i: int| 0 <= i < s.len() - 1 implies #[trigger] may_precede(
                names@[s[i] as int]@,
                names@[s[i + 1] as int]@,
            ) by {
                if i + 1 < pos {
                    assert(s[i] == before[i] && s[i + 1] == before[i + 1]);
                    assert(may_precede(names@[before[i] as int]@, names@[before[i + 1] as int]@));
                } else if i + 1 == pos {
                    assert(s[i] == before[i] && s[i + 1] == k);
                } else if i == pos {
                    assert(s[i] == k && s[i + 1] == before[i]);
                } else {
                    let j = i - 1;
                    assert(s[i] == before[j] && s[i + 1] == before[j + 1]);
                    assert(may_precede(names@[before[j] as int]@, names@[before[j + 1] as int]@));
                }
            }
        }
        k = k + 1;
    }
    r
}

} // verus!
