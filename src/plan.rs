use vstd::prelude::*;

verus! {

/// How a worker splits its packet count into whole batches and a remainder.
#[derive(Debug, Clone, Copy, PartialEq, Eq, Structural)]
pub struct DispatchPlan {
    pub batch_size: usize,
    pub total_packets: usize,
    pub batch_count: usize,
    pub remainder: usize,
}

impl DispatchPlan {
    /// A plan is well formed when the batches and the remainder add up to the
    /// total and the remainder is shorter than one batch.
    pub open spec fn wf(&self) -> bool {
        &&& self.batch_size >= 1
        &&& self.total_packets >= 1
        &&& self.batch_count * self.batch_size + self.remainder == self.total_packets
        &&& self.remainder < self.batch_size
    }

    /// Splits `total_packets` into batches of `batch_size` packets each.
    pub fn new(total_packets: usize, batch_size: usize) -> (r: DispatchPlan)
        requires
            total_packets >= 1,
            batch_size >= 1,
        ensures
            r.wf(),
            r.total_packets == total_packets,
            r.batch_size == batch_size,
            r.remainder == total_packets % batch_size,
            r.batch_count == total_packets / batch_size,
    {
        proof {
            lemma_split(total_packets as int, batch_size as int);
        }
        let remainder = total_packets % batch_size;
        let batch_count = (total_packets - remainder) / batch_size;
        DispatchPlan { batch_size, total_packets, batch_count, remainder }
    }
}

proof fn lemma_split(t: int, b: int)
    requires
        t >= 0,
        b >= 1,
    ensures
        (t - t % b) / b == t / b,
        (t / b) * b + t % b == t,
        0 <= t % b < b,
{
    assert((t / b) * b + t % b == t) by (nonlinear_arith)
        requires b >= 1;
    assert(0 <= t % b < b) by (nonlinear_arith)
        requires b >= 1;
    assert((t - t % b) / b == t / b) by (nonlinear_arith)
        requires b >= 1, (t / b) * b + t % b == t;
}

} // verus!
