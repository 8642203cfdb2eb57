//! Discovery of symmetric multiprocessing: the core count reported by the
//! boot protocol is recorded for informational logging only — this kernel
//! never runs a second ready queue.

use crate::logger::{appended, Level, Logger};
use crate::text::{dec_seq, u64_to_dec};
use vstd::prelude::*;

verus! {

/// The message logged for a detected core count.
pub open spec fn smp_message(count: nat) -> Seq<char> {
    "Detected that the processor has "@ + dec_seq(count) + " core(s)."@
}

/// Record the number of processor cores the boot protocol reported, as one
/// Debug-severity entry in the log buffer.
pub fn initialize(count: u64, logger: &mut Logger)
    ensures
        appended(old(logger).logs@, final(logger).logs@, Level::Debug, smp_message(count as nat)),
{
    let mut s = String::from_str("Detected that the processor has ");
    s.append(u64_to_dec(count).as_str());
    s.append(" core(s).");
    assert(s@ =~= smp_message(count as nat));
    logger.debug(s.as_str());
}

} // verus!
