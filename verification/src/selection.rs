//! Selection-cursor specifications: validity of the cursor with respect to
//! the filtered view, the clamping rule applied after the view changes, the
//! cyclic up/down movement, and the proof that a full cycle of moves returns
//! the cursor to its starting point.

use vstd::prelude::*;

verus! {

/// The mathematical value of the optional cursor.
pub open spec fn sel_of(sel: Option<usize>) -> Option<int> {
    match sel {
        Option::None => Option::None,
        Option::Some(i) => Option::Some(i as int),
    }
}

/// The cursor is `None` exactly when the view is empty, and otherwise a
/// valid index into the view.
pub open spec fn sel_ok(sel: Option<int>, len: int) -> bool {
    match sel {
        Option::None => len == 0,
        Option::Some(i) => 0 <= i < len,
    }
}

/// Re-clamping after the view changed to length `len`: an empty view clears
/// the cursor; a missing cursor lands on the first entry; an index past the
/// end is pulled back to the last entry; an in-range index is kept as is.
pub open spec fn clamp_sel(sel: Option<int>, len: int) -> Option<int> {
    if len <= 0 {
        Option::None
    } else {
        match sel {
            Option::None => Option::Some(0int),
            Option::Some(i) => if i < len {
                Option::Some(i)
            } else {
                Option::Some(len - 1)
            },
        }
    }
}

/// One downward move over a view of length `len`, wrapping from the last
/// entry to the first; from a missing cursor it lands on the first entry.
pub open spec fn down_sel(sel: Option<int>, len: int) -> Option<int> {
    if len <= 0 {
        Option::None
    } else {
        match sel {
            Option::None => Option::Some(0int),
            Option::Some(i) => if i + 1 < len {
                Option::Some(i + 1)
            } else {
                Option::Some(0int)
            },
        }
    }
}

/// One upward move over a view of length `len`, wrapping from the first
/// entry to the last; from a missing cursor it lands on the first entry.
pub open spec fn up_sel(sel: Option<int>, len: int) -> Option<int> {
    if len <= 0 {
        Option::None
    } else {
        match sel {
            Option::None => Option::Some(0int),
            Option::Some(i) => if i > 0 {
                Option::Some(i - 1)
            } else {
                Option::Some(len - 1)
            },
        }
    }
}

/// Clamping always yields a valid cursor for a view of length `len`.
pub proof fn lemma_clamp_ok(sel: Option<int>, len: int)
    requires
        len >= 0,
        sel matches Option::Some(i) ==> i >= 0,
    ensures
        sel_ok(clamp_sel(sel, len), len),
{
}

/// `n` downward moves in a row.
pub open spec fn iter_down(sel: Option<int>, len: int, n: nat) -> Option<int>
    decreases n,
{
    if n == 0 {
        sel
    } else {
        down_sel(iter_down(sel, len, (n - 1) as nat), len)
    }
}

/// `n` upward moves in a row.
pub open spec fn iter_up(sel: Option<int>, len: int, n: nat) -> Option<int>
    decreases n,
{
    if n == 0 {
        sel
    } else {
        up_sel(iter_up(sel, len, (n - 1) as nat), len)
    }
}

proof fn lemma_iter_down_mod(i: int, len: int, n: nat)
    requires
        0 <= i < len,
    ensures
        iter_down(Option::Some(i), len, n) == Option::Some((i + n) % len),
    decreases n,
{
    if n == 0 {
        vstd::arithmetic::div_mod::lemma_small_mod(i as nat, len as nat);
    } else {
        lemma_iter_down_mod(i, len, (n - 1) as nat);
        let m = (i + n - 1) % len;
        vstd::arithmetic::div_mod::lemma_mod_bound(i + n - 1, len);
        vstd::arithmetic::div_mod::lemma_mod_bound(i + n, len);
        if len == 1 {
        } else {
            vstd::arithmetic::div_mod::lemma_small_mod(1nat, len as nat);
            vstd::arithmetic::div_mod::lemma_add_mod_noop(i + n - 1, 1, len);
            assert((m + 1) % len == (i + n) % len);
            if m + 1 < len {
                vstd::arithmetic::div_mod::lemma_small_mod((m + 1) as nat, len as nat);
            } else {
                vstd::arithmetic::div_mod::lemma_mod_self_0(len);
            }
        }
    }
}

proof fn lemma_iter_up_mod(i: int, len: int, n: nat)
    requires
        0 <= i < len,
    ensures
        iter_up(Option::Some(i), len, n) == Option::Some((i - n) % len),
    decreases n,
{
    if n == 0 {
        vstd::arithmetic::div_mod::lemma_small_mod(i as nat, len as nat);
    } else {
        lemma_iter_up_mod(i, len, (n - 1) as nat);
        let m = (i - (n - 1)) % len;
        vstd::arithmetic::div_mod::lemma_mod_bound(i - (n - 1), len);
        vstd::arithmetic::div_mod::lemma_mod_bound(i - n, len);
        if len == 1 {
        } else {
            vstd::arithmetic::div_mod::lemma_small_mod(1nat, len as nat);
            vstd::arithmetic::div_mod::lemma_sub_mod_noop(i - (n - 1), 1, len);
            assert((m - 1) % len == (i - n) % len);
            if m > 0 {
                vstd::arithmetic::div_mod::lemma_small_mod((m - 1) as nat, len as nat);
            } else {
                vstd::arithmetic::div_mod::lemma_mod_add_multiples_vanish(-1, len);
                vstd::arithmetic::div_mod::lemma_small_mod((len - 1) as nat, len as nat);
            }
        }
    }
}

/// Law: from any valid cursor, moving down once per entry of the view
/// returns the cursor to its starting index.
pub proof fn lemma_cycle_down(i: int, len: int)
    requires
        0 <= i < len,
    ensures
        iter_down(Option::Some(i), len, len as nat) == Option::Some(i),
{
    lemma_iter_down_mod(i, len, len as nat);
    vstd::arithmetic::div_mod::lemma_mod_add_multiples_vanish(i, len);
    vstd::arithmetic::div_mod::lemma_small_mod(i as nat, len as nat);
}

/// Law: from any valid cursor, moving up once per entry of the view returns
/// the cursor to its starting index.
pub proof fn lemma_cycle_up(i: int, len: int)
    requires
        0 <= i < len,
    ensures
        iter_up(Option::Some(i), len, len as nat) == Option::Some(i),
{
    lemma_iter_up_mod(i, len, len as nat);
    vstd::arithmetic::div_mod::lemma_mod_sub_multiples_vanish(i, len);
    vstd::arithmetic::div_mod::lemma_small_mod(i as nat, len as nat);
}

} // verus!
