//! The texts and small decisions of the monitoring server's reports and
//! endpoints.

use vstd::prelude::*;
use crate::text::{concat2, nat_decimal, push_u64};

verus! {

/// How long ago something happened, from the seconds elapsed: seconds
/// below a minute, minutes below an hour, hours otherwise, and `unknown`
/// when the time lies in the future.
pub open spec fn spec_time_ago(elapsed: Option<u64>) -> Seq<char> {
    match elapsed {
        None => "unknown"@,
        Some(s) => if s < 60 {
            nat_decimal(s as nat) + "s ago"@
        } else if s < 3600 {
            nat_decimal((s / 60) as nat) + "m ago"@
        } else {
            nat_decimal((s / 3600) as nat) + "h ago"@
        },
    }
}

/// Returns how long ago something happened, from the seconds elapsed.
pub fn format_time_ago(elapsed_secs: Option<u64>) -> (r: String)
    ensures
        r@ == spec_time_ago(elapsed_secs),
{
    match elapsed_secs {
        None => String::from_str("unknown"),
        Some(s) => {
            let mut out = String::new();
            if s < 60 {
                push_u64(&mut out, s);
                out.append("s ago");
            } else if s < 3600 {
                push_u64(&mut out, s / 60);
                out.append("m ago");
            } else {
                push_u64(&mut out, s / 3600);
                out.append("h ago");
            }
            out
        },
    }
}

/// The text of a memory size below one megabyte, given in kilobytes.
pub fn format_small_memory(kb: u64) -> (r: String)
    requires
        kb < 1024,
    ensures
        r@ == nat_decimal(kb as nat) + " KB"@,
{
    let mut out = String::new();
    push_u64(&mut out, kb);
    out.append(" KB");
    out
}

/// The text of a byte count below one kilobyte.
pub fn format_small_bytes(bytes: u64) -> (r: String)
    requires
        bytes < 1024,
    ensures
        r@ == nat_decimal(bytes as nat) + " B"@,
{
    let mut out = String::new();
    push_u64(&mut out, bytes);
    out.append(" B");
    out
}

/// The largest of a list of core numbers, or none.
pub open spec fn max_core(ids: Seq<u32>) -> Option<u32>
    decreases ids.len(),
{
    if ids.len() == 0 {
        None
    } else {
        match max_core(ids.drop_last()) {
            None => Some(ids.last()),
            Some(m) => Some(if ids.last() > m {
                ids.last()
            } else {
                m
            }),
        }
    }
}

/// The number of cores a stress report speaks of: the reported count when
/// there is one, else one more than the highest core number with a load
/// (saturating), or 1 when there is none.
pub open spec fn spec_core_count(core_count: Option<u32>, core_ids: Seq<u32>) -> u32 {
    match core_count {
        Some(c) => c,
        None => {
            let m = match max_core(core_ids) {
                Some(m) => m,
                None => 0,
            };
            if m == u32::MAX {
                u32::MAX
            } else {
                (m + 1) as u32
            }
        },
    }
}

/// The largest core number is one of the numbers and no number exceeds it;
/// there is none exactly when there are no numbers.
pub proof fn law_max_core(ids: Seq<u32>)
    ensures
        max_core(ids) is None <==> ids.len() == 0,
        max_core(ids) matches Some(m) ==> ids.contains(m) && forall|i: int| 0 <= i < ids.len() ==> #[trigger] ids[i] <= m,
    decreases ids.len(),
{
    if ids.len() > 0 {
        let p = ids.drop_last();
        law_max_core(p);
        let m = max_core(ids)->0;
        if let Some(pm) = max_core(p) {
            let j = choose|j: int| 0 <= j < p.len() && p[j] == pm;
            assert(ids[j] == pm);
        }
        assert(ids[ids.len() - 1] == ids.last());
        assert forall|i: int| 0 <= i < ids.len() implies #[trigger] ids[i] <= m by {
            if i < p.len() {
                assert(p[i] == ids[i]);
            }
        }
    }
}

/// Without a reported count, the core count is one more than the highest
/// core number (1 with no numbers, and saturating at the top): it exceeds
/// every listed core number below the maximum `u32`, and some listed
/// number is the count less one.
pub proof fn law_core_count(core_ids: Seq<u32>)
    ensures
        core_ids.len() == 0 ==> spec_core_count(None, core_ids) == 1,
        forall|i: int| 0 <= i < core_ids.len() && #[trigger] core_ids[i] < u32::MAX ==> core_ids[i] < spec_core_count(None, core_ids),
        core_ids.len() > 0 && spec_core_count(None, core_ids) < u32::MAX ==> core_ids.contains((spec_core_count(None, core_ids) - 1) as u32),
{
    law_max_core(core_ids);
}

/// How long ago something happened reads in seconds below a minute, in
/// whole minutes below an hour and in whole hours otherwise.
pub proof fn law_time_ago(s: u64)
    ensures
        s < 60 ==> spec_time_ago(Some(s)) == nat_decimal(s as nat) + "s ago"@,
        60 <= s < 3600 ==> spec_time_ago(Some(s)) == nat_decimal((s / 60) as nat) + "m ago"@,
        3600 <= s ==> spec_time_ago(Some(s)) == nat_decimal((s / 3600) as nat) + "h ago"@,
        spec_time_ago(None) == "unknown"@,
{
}

/// Returns the number of cores a stress report speaks of.
pub fn effective_core_count(core_count: Option<u32>, core_ids: &[u32]) -> (r: u32)
    ensures
        r == spec_core_count(core_count, core_ids@),
{
    match core_count {
        Some(c) => c,
        None => {
            let mut best: Option<u32> = None;
            let n = core_ids.len();
            let mut i: usize = 0;
            while i < n
                invariant
                    n == core_ids@.len(),
                    i <= n,
                    best == max_core(core_ids@.take(i as int)),
                decreases n - i,
            {
                proof {
                    assert(core_ids@.take(i + 1).drop_last() =~= core_ids@.take(i as int));
                }
                let id = core_ids[i];
                best = match best {
                    None => Some(id),
                    Some(m) => Some(if id > m {
                        id
                    } else {
                        m
                    }),
                };
                i = i + 1;
            }
            assert(core_ids@.take(n as int) =~= core_ids@);
            let m = match best {
                Some(m) => m,
                None => 0,
            };
            m.saturating_add(1)
        },
    }
}

/// The answer of an endpoint that hands a report to the server: a
/// confirmation naming the message `message` when it was handed over,
/// else the queue's error, naming the report as `what`.
pub fn forward_reply(message: &str, what: &str, forward_error: Option<String>) -> (r: Result<String, String>)
    ensures
        match forward_error {
            None => r matches Ok(m) && m@ == "Successfully processed "@ + message@,
            Some(e) => r matches Err(m) && m@ == "cannot send "@ + what@ + ": "@ + e@,
        },
{
    match forward_error {
        None => Ok(concat2("Successfully processed ", message)),
        Some(e) => {
            let mut m = concat2("cannot send ", what);
            m.append(": ");
            m.append(e.as_str());
            Err(m)
        },
    }
}

} // verus!
