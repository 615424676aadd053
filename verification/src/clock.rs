use vstd::prelude::*;

verus! {

/// The shape every log line of the run has: the message behind a bracketed
/// timestamp, so lines from concurrently running workers can interleave and
/// still be read in stamp order.
pub open spec fn stamped(stamp: Seq<char>, msg: Seq<char>) -> Seq<char> {
    seq!['['] + stamp + seq![']', ' '] + msg
}

/// Relies on chrono's `Utc::now` and `DateTime::to_rfc3339`: the current
/// instant as an RFC 3339 date-time string. The value depends on the
/// clock, so nothing is promised of it beyond being non-empty.
#[verifier::external_body]
fn now_rfc3339() -> (r: String)
    ensures
        r@.len() > 0,
{
    chrono::Utc::now().to_rfc3339()
}

/// One timestamped log line: `[<instant in RFC 3339 form>] <message>`.
/// Stateless and safe to call from any worker without coordination; which
/// instant is stamped depends on the clock alone.
pub fn stamp_line(msg: &str) -> (r: String)
    ensures
        exists|stamp: Seq<char>| stamp.len() > 0 && r@ == stamped(stamp, msg@),
{
    let mut line: String = String::from_str("[");
    let now: String = now_rfc3339();
    line.append(now.as_str());
    line.append("] ");
    line.append(msg);
    proof {
        reveal_strlit("[");
        reveal_strlit("] ");
        assert(line@ =~= stamped(now@, msg@));
    }
    line
}

} // verus!
