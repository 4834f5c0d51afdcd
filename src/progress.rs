use vstd::prelude::*;

verus! {

/// `written` out of `total`, as a whole percentage rounded to the nearest
/// integer, halves rounded up.
pub open spec fn rounded_percent(written: nat, total: nat) -> nat
    recommends
        total > 0,
{
    ((200 * written + total) / (2 * total)) as nat
}

/// One progress notification: a percentage when the total size is known
/// and positive, the raw byte count otherwise.
#[derive(Clone, Copy, Debug, PartialEq, Eq)]
pub enum Progress {
    Percent(u64),
    Bytes(u64),
}

/// The notification owed after `written` bytes out of `total`.
pub open spec fn progress_spec(written: u64, total: Option<u64>) -> Progress {
    match total {
        Some(t) if t > 0 => Progress::Percent(rounded_percent(written as nat, t as nat) as u64),
        _ => Progress::Bytes(written),
    }
}

/// The rounded percentage of `written` out of `total`.
pub fn percent(written: u64, total: u64) -> (r: u64)
    requires
        0 < total,
        written <= total,
    ensures
        r as nat == rounded_percent(written as nat, total as nat),
        r <= 100,
{
    let w = written as u128;
    let t = total as u128;
    proof {
        assert(200 * w + t <= 201 * t) by (nonlinear_arith)
            requires w <= t;
        assert((200 * w + t) / (2 * t) <= 100) by (nonlinear_arith)
            requires 200 * w + t <= 201 * t, t > 0;
    }
    let r = (200 * w + t) / (2 * t);
    r as u64
}

/// The notification to emit once `written` bytes have been stored.
pub fn progress_for(written: u64, total: Option<u64>) -> (r: Progress)
    requires
        total matches Some(t) ==> written <= t,
    ensures
        r == progress_spec(written, total),
{
    match total {
        Some(t) if t > 0 => Progress::Percent(percent(written, t)),
        _ => Progress::Bytes(written),
    }
}

/// Rounded percentages never go down as more bytes are written.
pub proof fn lemma_percent_monotone(a: nat, b: nat, total: nat)
    requires
        a <= b,
        total > 0,
    ensures
        rounded_percent(a, total) <= rounded_percent(b, total),
{
    assert((200 * a + total) / (2 * total) <= (200 * b + total) / (2 * total)) by (nonlinear_arith)
        requires a <= b, total > 0;
}

/// No more than the total is at most one hundred percent.
pub proof fn lemma_percent_at_most_full(written: nat, total: nat)
    requires
        written <= total,
        total > 0,
    ensures
        rounded_percent(written, total) <= 100,
{
    assert((200 * written + total) / (2 * total) <= 100) by (nonlinear_arith)
        requires written <= total, total > 0;
}

/// The whole of the total is one hundred percent.
pub proof fn lemma_percent_full(total: nat)
    requires
        total > 0,
    ensures
        rounded_percent(total, total) == 100,
{
    assert((200 * total + total) / (2 * total) == 100) by (nonlinear_arith)
        requires total > 0;
}

} // verus!
