use vstd::prelude::*;

verus! {

/// Rebases the timestamp of a decoded audio frame on the first timestamp seen.
/// The first frame that carries a timestamp fixes `first`. A frame is kept,
/// with its rebased timestamp, when that is not negative and fits an `i64`;
/// otherwise (no timestamp, before the first one) `None` drops it.
pub fn relative_timestamp(first: &mut Option<i64>, ts: Option<i64>) -> (r: Option<i64>)
    ensures
        *final(first) == (if *old(first) is None { ts } else { *old(first) }),
        r == (match (ts, *final(first)) {
            (Some(t), Some(f)) => if 0 <= t - f <= i64::MAX { Some((t - f) as i64) } else { None },
            _ => None,
        }),
{
    if first.is_none() {
        *first = ts;
    }
    match (ts, *first) {
        (Some(t), Some(f)) => {
            if f <= 0 {
                if t > i64::MAX + f {
                    return None;
                }
            } else if t < f {
                return None;
            }
            let d = t - f;
            if d >= 0 { Some(d) } else { None }
        },
        _ => None,
    }
}

} // verus!
