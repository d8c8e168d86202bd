//! Deterministic child naming.
//!
//! Every child pod is named `"{resourceName}-{index}"`. The name must be
//! stable across reconciles so a repeated apply targets the same object,
//! and distinct indices must give distinct names so the children never
//! collide.
use vstd::prelude::*;
use vstd::arithmetic::div_mod::lemma_fundamental_div_mod;
use vstd::string::StringExecFns;

verus! {

/// The decimal digit character for a value below ten.
pub open spec fn digit_char(d: nat) -> char {
    if d == 0 {
        '0'
    } else if d == 1 {
        '1'
    } else if d == 2 {
        '2'
    } else if d == 3 {
        '3'
    } else if d == 4 {
        '4'
    } else if d == 5 {
        '5'
    } else if d == 6 {
        '6'
    } else if d == 7 {
        '7'
    } else if d == 8 {
        '8'
    } else {
        '9'
    }
}

/// The decimal rendering of a natural number, without leading zeros
/// (a single zero for zero itself).
pub open spec fn dec_str(n: nat) -> Seq<char>
    decreases n,
{
    if n < 10 {
        seq![digit_char(n)]
    } else {
        dec_str(n / 10).push(digit_char(n % 10))
    }
}

/// The name of the child at the given index: the resource name, a dash,
/// and the decimal index.
pub open spec fn spec_child_name(resource_name: Seq<char>, i: nat) -> Seq<char> {
    resource_name + seq!['-'] + dec_str(i)
}

fn push_digit(s: &mut String, d: u64)
    requires
        d < 10,
    ensures
        final(s)@ == old(s)@.push(digit_char(d as nat)),
{
    let ds: &str = match d {
        0 => "0",
        1 => "1",
        2 => "2",
        3 => "3",
        4 => "4",
        5 => "5",
        6 => "6",
        7 => "7",
        8 => "8",
        _ => "9",
    };
    proof {
        reveal_strlit("0");
        reveal_strlit("1");
        reveal_strlit("2");
        reveal_strlit("3");
        reveal_strlit("4");
        reveal_strlit("5");
        reveal_strlit("6");
        reveal_strlit("7");
        reveal_strlit("8");
        reveal_strlit("9");
        assert(ds@ =~= seq![digit_char(d as nat)]);
    }
    s.append(ds);
}

/// Renders a number in decimal.
pub fn u64_to_dec(n: u64) -> (s: String)
    ensures
        s@ == dec_str(n as nat),
    decreases n,
{
    if n < 10 {
        let mut s = String::new();
        push_digit(&mut s, n);
        proof {
            assert(s@ =~= dec_str(n as nat));
        }
        s
    } else {
        let mut s = u64_to_dec(n / 10);
        push_digit(&mut s, n % 10);
        s
    }
}

/// Builds the deterministic name of the child at the given index.
pub fn child_name(resource_name: &str, i: u64) -> (r: String)
    ensures
        r@ == spec_child_name(resource_name@, i as nat),
{
    let mut r = resource_name.to_owned();
    r.append("-");
    let digits = u64_to_dec(i);
    r.append(digits.as_str());
    proof {
        reveal_strlit("-");
        assert(r@ =~= spec_child_name(resource_name@, i as nat));
    }
    r
}

/// A decimal rendering is never empty.
pub proof fn lemma_dec_str_nonempty(n: nat)
    ensures
        dec_str(n).len() >= 1,
    decreases n,
{
    if n >= 10 {
        lemma_dec_str_nonempty(n / 10);
    }
}

/// Two numbers with the same decimal rendering are equal.
pub proof fn lemma_dec_str_injective(a: nat, b: nat)
    requires
        dec_str(a) == dec_str(b),
    ensures
        a == b,
    decreases a,
{
    if a < 10 && b < 10 {
        assert(dec_str(a)[0] == digit_char(a));
        assert(dec_str(b)[0] == digit_char(b));
    } else if a < 10 && b >= 10 {
        lemma_dec_str_nonempty(b / 10);
        assert(dec_str(b).len() >= 2);
        assert(false);
    } else if a >= 10 && b < 10 {
        lemma_dec_str_nonempty(a / 10);
        assert(dec_str(a).len() >= 2);
        assert(false);
    } else {
        lemma_dec_str_nonempty(a / 10);
        lemma_dec_str_nonempty(b / 10);
        assert(dec_str(a).last() == digit_char(a % 10));
        assert(dec_str(b).last() == digit_char(b % 10));
        assert(a % 10 == b % 10);
        assert(dec_str(a).drop_last() =~= dec_str(a / 10));
        assert(dec_str(b).drop_last() =~= dec_str(b / 10));
        lemma_dec_str_injective(a / 10, b / 10);
        lemma_fundamental_div_mod(a as int, 10);
        lemma_fundamental_div_mod(b as int, 10);
    }
}

/// Child names are injective in the index: the same resource name with two
/// different indices never yields the same child name.
pub proof fn lemma_child_name_injective(resource_name: Seq<char>, i: nat, j: nat)
    requires
        spec_child_name(resource_name, i) == spec_child_name(resource_name, j),
    ensures
        i == j,
{
    let si = dec_str(i);
    let sj = dec_str(j);
    let prefix = resource_name.len() + 1;
    assert(spec_child_name(resource_name, i).len() == prefix + si.len());
    assert(spec_child_name(resource_name, j).len() == prefix + sj.len());
    assert forall|k: int| 0 <= k < si.len() implies si[k] == sj[k] by {
        assert(spec_child_name(resource_name, i)[prefix + k] == si[k]);
        assert(spec_child_name(resource_name, j)[prefix + k] == sj[k]);
    }
    assert(si =~= sj);
    lemma_dec_str_injective(i, j);
}

} // verus!
