//! Branch-name logic: decimal rendering, matching a branch against a target
//! feature name, and collision-free candidate naming.

use vstd::prelude::*;

verus! {

use vstd::string::StrSliceExecFns;
use vstd::string::StringExecFns;

/// The decimal digit character for `d` (meaningful for `d < 10`).
pub open spec fn digit_char(d: nat) -> char {
    if d == 0 {
        '0'
    } else if d == 1 {
        '1'
    } else if d == 2 {
        '2'
    } else if d == 3 {
        '3'
    } else if d == 4 {
        '4'
    } else if d == 5 {
        '5'
    } else if d == 6 {
        '6'
    } else if d == 7 {
        '7'
    } else if d == 8 {
        '8'
    } else {
        '9'
    }
}

/// The decimal representation of `n`, most significant digit first,
/// without leading zeros (except for `n == 0` itself).
pub open spec fn dec_digits(n: nat) -> Seq<char>
    decreases n,
{
    if n < 10 {
        seq![digit_char(n)]
    } else {
        dec_digits(n / 10).push(digit_char(n % 10))
    }
}

fn digit_str(d: usize) -> (r: &'static str)
    requires
        d < 10,
    ensures
        r@ == seq![digit_char(d as nat)],
{
    let r: &'static str = if d == 0 {
        "0"
    } else if d == 1 {
        "1"
    } else if d == 2 {
        "2"
    } else if d == 3 {
        "3"
    } else if d == 4 {
        "4"
    } else if d == 5 {
        "5"
    } else if d == 6 {
        "6"
    } else if d == 7 {
        "7"
    } else if d == 8 {
        "8"
    } else {
        "9"
    };
    proof {
        reveal_strlit("0");
        reveal_strlit("1");
        reveal_strlit("2");
        reveal_strlit("3");
        reveal_strlit("4");
        reveal_strlit("5");
        reveal_strlit("6");
        reveal_strlit("7");
        reveal_strlit("8");
        reveal_strlit("9");
        assert(r@ =~= seq![digit_char(d as nat)]);
    }
    r
}

/// Renders `n` in decimal.
pub fn usize_to_dec(n: usize) -> (r: String)
    ensures
        r@ == dec_digits(n as nat),
    decreases n,
{
    if n < 10 {
        String::from_str(digit_str(n))
    } else {
        assert(n / 10 < n) by (nonlinear_arith)
            requires
                n >= 10,
        ;
        let mut s = usize_to_dec(n / 10);
        s.append(digit_str(n % 10));
        proof {
            assert(s@ =~= dec_digits(n as nat));
        }
        s
    }
}

/// `c` is a decimal digit.
pub open spec fn is_digit(c: char) -> bool {
    '0' <= c && c <= '9'
}

/// `branch` names the same feature as `name`: it is `name` itself, or
/// `name` followed by `-w` and one or more decimal digits.
pub open spec fn matches_target(branch: Seq<char>, name: Seq<char>) -> bool {
    ||| branch == name
    ||| {
        &&& branch.len() >= name.len() + 3
        &&& branch.subrange(0, name.len() as int) == name
        &&& branch[name.len() as int] == '-'
        &&& branch[name.len() as int + 1] == 'w'
        &&& forall|j: int|
            name.len() + 2 <= j < branch.len() ==> is_digit(#[trigger] branch[j])
    }
}

fn prefix_eq(branch: &str, name: &str, n: usize) -> (r: bool)
    requires
        n <= branch@.len(),
        n <= name@.len(),
    ensures
        r == (branch@.subrange(0, n as int) == name@.subrange(0, n as int)),
{
    let mut i: usize = 0;
    while i < n
        invariant
            i <= n,
            n <= branch@.len(),
            n <= name@.len(),
            forall|j: int| 0 <= j < i ==> branch@[j] == name@[j],
        decreases n - i,
    {
        if branch.get_char(i) != name.get_char(i) {
            proof {
                assert(branch@.subrange(0, n as int)[i as int] != name@.subrange(
                    0,
                    n as int,
                )[i as int]);
            }
            return false;
        }
        i += 1;
    }
    proof {
        assert(branch@.subrange(0, n as int) =~= name@.subrange(0, n as int));
    }
    true
}

/// Whether the branch currently checked out already names the target
/// feature, exactly or with a `-w<digits>` suffix.
pub fn branch_matches(branch: &str, name: &str) -> (r: bool)
    ensures
        r == matches_target(branch@, name@),
{
    let bl = branch.unicode_len();
    let nl = name.unicode_len();
    if bl == nl {
        let eq = prefix_eq(branch, name, nl);
        proof {
            if eq {
                assert(branch@.subrange(0, nl as int) =~= branch@);
                assert(name@.subrange(0, nl as int) =~= name@);
                assert(branch@ == name@);
            } else {
                assert(branch@.subrange(0, nl as int) =~= branch@);
                assert(name@.subrange(0, nl as int) =~= name@);
            }
        }
        eq
    } else if bl > nl && bl - nl >= 3 {
        if !prefix_eq(branch, name, nl) {
            proof {
                assert(name@.subrange(0, nl as int) =~= name@);
            }
            return false;
        }
        proof {
            assert(name@.subrange(0, nl as int) =~= name@);
        }
        if branch.get_char(nl) != '-' {
            return false;
        }
        if branch.get_char(nl + 1) != 'w' {
            return false;
        }
        let mut i: usize = nl + 2;
        while i < bl
            invariant
                nl + 2 <= i <= bl,
                bl == branch@.len(),
                nl == name@.len(),
                forall|j: int| nl + 2 <= j < i ==> is_digit(#[trigger] branch@[j]),
            decreases bl - i,
        {
            let c = branch.get_char(i);
            if !('0' <= c && c <= '9') {
                return false;
            }
            i += 1;
        }
        true
    } else {
        assert(branch@.len() != name@.len());
        assert(branch@.len() < name@.len() + 3);
        false
    }
}

/// Candidate `i` for base name `base`: the base itself for `i == 0`,
/// otherwise `base-w<i>`.
pub open spec fn candidate_name(base: Seq<char>, i: nat) -> Seq<char> {
    if i == 0 {
        base
    } else {
        base + seq!['-', 'w'] + dec_digits(i)
    }
}

/// Renders candidate `i` for `base`.
pub fn candidate_string(base: &String, i: usize) -> (r: String)
    ensures
        r@ == candidate_name(base@, i as nat),
{
    if i == 0 {
        base.clone()
    } else {
        let mut s = base.clone();
        s.append("-w");
        let d = usize_to_dec(i);
        s.append(d.as_str());
        proof {
            reveal_strlit("-w");
            assert("-w"@ =~= seq!['-', 'w']);
            assert(s@ =~= candidate_name(base@, i as nat));
        }
        s
    }
}

/// `s` occurs among the existing branch names `names`.
pub open spec fn name_taken(names: Seq<String>, s: Seq<char>) -> bool {
    exists|k: int| 0 <= k < names.len() && names[k]@ == s
}

fn is_taken(names: &Vec<String>, cand: &String) -> (r: bool)
    ensures
        r == name_taken(names@, cand@),
{
    let mut k: usize = 0;
    while k < names.len()
        invariant
            k <= names@.len(),
            forall|j: int| 0 <= j < k ==> names@[j]@ != cand@,
        decreases names@.len() - k,
    {
        if names[k].eq(cand) {
            return true;
        }
        k += 1;
    }
    false
}

/// `i` is the least candidate index for `base` that is free among `names`.
pub open spec fn first_free(names: Seq<String>, base: Seq<char>, i: nat) -> bool {
    &&& !name_taken(names, candidate_name(base, i))
    &&& forall|j: nat| j < i ==> name_taken(names, #[trigger] candidate_name(base, j))
}

proof fn lemma_dec_len(n: nat)
    ensures
        dec_digits(n).len() >= 1,
        n >= 10 ==> dec_digits(n).len() >= 2,
    decreases n,
{
    if n >= 10 {
        lemma_dec_len(n / 10);
    }
}

proof fn lemma_digit_char_injective(m: nat, n: nat)
    requires
        m < 10,
        n < 10,
        digit_char(m) == digit_char(n),
    ensures
        m == n,
{
}

proof fn lemma_dec_injective(m: nat, n: nat)
    requires
        dec_digits(m) == dec_digits(n),
    ensures
        m == n,
    decreases m,
{
    if m < 10 && n < 10 {
        assert(dec_digits(m) == seq![digit_char(m)]);
        assert(dec_digits(n) == seq![digit_char(n)]);
        assert(dec_digits(m)[0] == digit_char(m));
        assert(dec_digits(n)[0] == digit_char(n));
        lemma_digit_char_injective(m, n);
    } else if m >= 10 && n >= 10 {
        assert(dec_digits(m).last() == digit_char(m % 10));
        assert(dec_digits(n).last() == digit_char(n % 10));
        lemma_digit_char_injective(m % 10, n % 10);
        assert(dec_digits(m).drop_last() =~= dec_digits(m / 10));
        assert(dec_digits(n).drop_last() =~= dec_digits(n / 10));
        assert(m / 10 < m) by (nonlinear_arith)
            requires
                m >= 10,
        ;
        lemma_dec_injective(m / 10, n / 10);
        vstd::arithmetic::div_mod::lemma_fundamental_div_mod(m as int, 10);
        vstd::arithmetic::div_mod::lemma_fundamental_div_mod(n as int, 10);
    } else if m < 10 {
        lemma_dec_len(n);
        assert(false);
    } else {
        lemma_dec_len(m);
        assert(false);
    }
}

proof fn lemma_candidate_injective(base: Seq<char>, i: nat, j: nat)
    requires
        candidate_name(base, i) == candidate_name(base, j),
    ensures
        i == j,
{
    if i == 0 && j > 0 {
        lemma_dec_len(j);
        assert(candidate_name(base, j).len() == base.len() + 2 + dec_digits(j).len());
        assert(false);
    } else if i > 0 && j == 0 {
        lemma_dec_len(i);
        assert(candidate_name(base, i).len() == base.len() + 2 + dec_digits(i).len());
        assert(false);
    } else if i > 0 && j > 0 {
        let ci = candidate_name(base, i);
        let cj = candidate_name(base, j);
        assert(dec_digits(i) =~= ci.subrange(base.len() as int + 2, ci.len() as int));
        assert(dec_digits(j) =~= cj.subrange(base.len() as int + 2, cj.len() as int));
        lemma_dec_injective(i, j);
    }
}

/// Within the probe bound a free candidate always exists: there are two
/// more candidates than existing branch names, and candidates are pairwise
/// distinct, so the existing names cannot take them all.
pub proof fn lemma_probe_bound_suffices(names: Seq<String>, base: Seq<char>)
    ensures
        exists|i: nat| i <= names.len() + 1 && !name_taken(names, candidate_name(base, i)),
{
    if forall|i: nat|
        i <= names.len() + 1 ==> name_taken(names, #[trigger] candidate_name(base, i)) {
        let n = names.len();
        let cands = Seq::new(n + 2, |k: int| candidate_name(base, k as nat));
        assert(cands.no_duplicates()) by {
            assert forall|p: int, q: int|
                0 <= p < cands.len() && 0 <= q < cands.len() && p != q implies cands[p]
                != cands[q] by {
                if cands[p] == cands[q] {
                    lemma_candidate_injective(base, p as nat, q as nat);
                }
            }
        }
        cands.unique_seq_to_set();
        let views = names.map_values(|s: String| s@);
        assert(cands.to_set().subset_of(views.to_set())) by {
            assert forall|c: Seq<char>| cands.to_set().contains(c) implies views.to_set().contains(
                c,
            ) by {
                let k = choose|k: int| 0 <= k < cands.len() && cands[k] == c;
                assert(name_taken(names, candidate_name(base, k as nat)));
                let m = choose|m: int| 0 <= m < names.len() && names[m]@ == c;
                assert(views[m] == c);
                assert(views.contains(c));
            }
        }
        views.lemma_cardinality_of_set();
        vstd::set_lib::lemma_len_subset(cands.to_set(), views.to_set());
        assert(false);
    }
    let w = choose|i: nat| !(i <= names.len() + 1 ==> name_taken(names, candidate_name(base, i)));
    assert(w <= names.len() + 1 && !name_taken(names, candidate_name(base, w)));
}

/// Finds a branch name derived from `base` that collides with none of the
/// existing names: `base` itself if free, otherwise `base-w1`, `base-w2`, ...
/// in increasing order, the first free candidate. The probe is bounded, and
/// the bound provably suffices: there are two more candidates than existing
/// names and no two candidates are equal.
pub fn find_available(names: &Vec<String>, base: &String) -> (r: String)
    requires
        names@.len() + 2 <= usize::MAX,
    ensures
        exists|i: nat|
            i <= names@.len() + 1 && first_free(names@, base@, i) && r@ == candidate_name(
                base@,
                i,
            ),
{
    let limit = names.len() + 1;
    let mut i: usize = 0;
    while i <= limit
        invariant
            names@.len() + 2 <= usize::MAX,
            limit == names@.len() + 1,
            i <= limit + 1,
            forall|j: nat| j < i ==> name_taken(names@, #[trigger] candidate_name(base@, j)),
        decreases limit + 1 - i,
    {
        let cand = candidate_string(base, i);
        if !is_taken(names, &cand) {
            proof {
                assert(first_free(names@, base@, i as nat));
            }
            return cand;
        }
        i += 1;
    }
    proof {
        lemma_probe_bound_suffices(names@, base@);
        let w = choose|k: nat|
            k <= names@.len() + 1 && !name_taken(names@, candidate_name(base@, k));
        assert(name_taken(names@, candidate_name(base@, w)));
        assert(false);
    }
    String::new()
}

} // verus!
