//! Small verified helpers on strings, options and vectors.

use vstd::prelude::*;

verus! {

/// The text of an optional string.
pub open spec fn ov(o: Option<String>) -> Option<Seq<char>> {
    match o {
        Some(s) => Some(s@),
        None => None,
    }
}

/// The text of a doubly optional string.
pub open spec fn oov(o: Option<Option<String>>) -> Option<Option<Seq<char>>> {
    match o {
        Some(inner) => Some(ov(inner)),
        None => None,
    }
}

pub fn str_eq(a: &String, b: &String) -> (r: bool)
    ensures
        r == (a@ == b@),
{
    *a == *b
}

pub fn opt_str_eq(a: &Option<String>, b: &Option<String>) -> (r: bool)
    ensures
        r == (ov(*a) == ov(*b)),
{
    match (a, b) {
        (Some(x), Some(y)) => *x == *y,
        (None, None) => true,
        _ => false,
    }
}

pub fn clone_opt_str(a: &Option<String>) -> (r: Option<String>)
    ensures
        ov(r) == ov(*a),
{
    match a {
        Some(x) => Some(x.clone()),
        None => None,
    }
}

pub fn contains_u64(v: &Vec<u64>, x: u64) -> (r: bool)
    ensures
        r == v@.contains(x),
{
    let mut i: usize = 0;
    while i < v.len()
        invariant
            0 <= i <= v@.len(),
            forall|j: int| 0 <= j < i ==> v@[j] != x,
        decreases v@.len() - i,
    {
        if v[i] == x {
            assert(v@[i as int] == x);
            return true;
        }
        i = i + 1;
    }
    false
}

pub fn contains_u32(v: &Vec<u32>, x: u32) -> (r: bool)
    ensures
        r == v@.contains(x),
{
    let mut i: usize = 0;
    while i < v.len()
        invariant
            0 <= i <= v@.len(),
            forall|j: int| 0 <= j < i ==> v@[j] != x,
        decreases v@.len() - i,
    {
        if v[i] == x {
            return true;
        }
        i = i + 1;
    }
    false
}

/// `v` without any `x`, the rest in order.
pub fn without_u32(v: &Vec<u32>, x: u32) -> (r: Vec<u32>)
    ensures
        r@ == v@.filter(|o: u32| o != x),
{
    let mut kept: Vec<u32> = Vec::new();
    let mut j: usize = 0;
    while j < v.len()
        invariant
            0 <= j <= v@.len(),
            kept@ == v@.subrange(0, j as int).filter(|o: u32| o != x),
        decreases v@.len() - j,
    {
        proof {
            let s = v@.subrange(0, j as int + 1);
            assert(s.drop_last() =~= v@.subrange(0, j as int));
            reveal_with_fuel(Seq::filter, 1);
        }
        if v[j] != x {
            kept.push(v[j]);
        }
        j = j + 1;
    }
    assert(v@.subrange(0, v@.len() as int) =~= v@);
    kept
}

/// The double with bit pattern `b` is a NaN: all exponent bits set and a nonzero fraction.
pub open spec fn f64_is_nan(b: u64) -> bool {
    (b & 0x7ff0_0000_0000_0000) == 0x7ff0_0000_0000_0000 && (b & 0x000f_ffff_ffff_ffff) != 0
}

/// The double with bit pattern `b` is +0.0 or -0.0.
pub open spec fn f64_is_zero(b: u64) -> bool {
    (b & 0x7fff_ffff_ffff_ffff) == 0
}

/// Equality of the doubles with bit patterns `a` and `b`: a NaN equals nothing, the two zeros
/// are equal, and otherwise equal doubles have equal patterns.
pub open spec fn f64_eq(a: u64, b: u64) -> bool {
    !f64_is_nan(a) && !f64_is_nan(b) && (a == b || (f64_is_zero(a) && f64_is_zero(b)))
}

pub fn f64_bits_eq(a: u64, b: u64) -> (r: bool)
    ensures
        r == f64_eq(a, b),
{
    let a_nan = (a & 0x7ff0_0000_0000_0000) == 0x7ff0_0000_0000_0000 && (a & 0x000f_ffff_ffff_ffff) != 0;
    let b_nan = (b & 0x7ff0_0000_0000_0000) == 0x7ff0_0000_0000_0000 && (b & 0x000f_ffff_ffff_ffff) != 0;
    let zeros = (a & 0x7fff_ffff_ffff_ffff) == 0 && (b & 0x7fff_ffff_ffff_ffff) == 0;
    !a_nan && !b_nan && (a == b || zeros)
}

/// `v` without any `x`, the rest in order.
pub fn without_u64(v: &Vec<u64>, x: u64) -> (r: Vec<u64>)
    ensures
        r@ == v@.filter(|o: u64| o != x),
{
    let mut kept: Vec<u64> = Vec::new();
    let mut j: usize = 0;
    while j < v.len()
        invariant
            0 <= j <= v@.len(),
            kept@ == v@.subrange(0, j as int).filter(|o: u64| o != x),
        decreases v@.len() - j,
    {
        proof {
            let s = v@.subrange(0, j as int + 1);
            assert(s.drop_last() =~= v@.subrange(0, j as int));
            reveal_with_fuel(Seq::filter, 1);
        }
        if v[j] != x {
            kept.push(v[j]);
        }
        j = j + 1;
    }
    assert(v@.subrange(0, v@.len() as int) =~= v@);
    kept
}

/// Appends `x` unless it is already there.
pub(crate) fn push_unique(v: &mut Vec<i32>, x: i32)
    ensures
        final(v)@.to_set() == old(v)@.to_set().insert(x),
        old(v)@.no_duplicates() ==> final(v)@.no_duplicates(),
{
    let mut i: usize = 0;
    while i < v.len()
        invariant
            0 <= i <= v@.len(),
            v@ == old(v)@,
            forall|j: int| 0 <= j < i ==> v@[j] != x,
        decreases v@.len() - i,
    {
        if v[i] == x {
            proof {
                assert(v@.to_set().contains(x));
                assert(v@.to_set().insert(x) =~= v@.to_set());
            }
            return;
        }
        i = i + 1;
    }
    let ghost before = v@;
    v.push(x);
    proof {
        assert(v@.to_set() =~= before.to_set().insert(x)) by {
            assert forall|y: i32| v@.to_set().contains(y) <==> before.to_set().insert(x).contains(y) by {
                if y == x {
                    assert(v@[before.len() as int] == x);
                } else {
                    if v@.to_set().contains(y) {
                        let k = choose|k: int| 0 <= k < v@.len() && v@[k] == y;
                        assert(before[k] == y);
                    }
                    if before.to_set().contains(y) {
                        let k = choose|k: int| 0 <= k < before.len() && before[k] == y;
                        assert(v@[k] == y);
                    }
                }
            }
        }
    }
}

} // verus!
