use vstd::prelude::*;

use crate::plan::DispatchPlan;

verus! {

/// Where a worker stands in its send/report/retry life.
#[derive(Debug, Clone, Copy, PartialEq, Eq, Structural)]
pub enum Phase {
    /// Sending whole batches of `batch_size` packets.
    Batches,
    /// Sending the one final, shorter batch.
    Remainder,
    /// Resending, one packet at a time, what the batches failed to deliver.
    Resending,
    /// Every expected packet has been confirmed as sent.
    Done,
}

/// What the worker asks its driver to do next.
#[derive(Debug, Clone, Copy, PartialEq, Eq, Structural)]
pub enum WorkerAction {
    /// Submit one batched send of this many copies of the payload.
    SendBatch(usize),
    /// Submit one single-packet send of the payload.
    SendOne,
    /// Stop: the worker has nothing left to send.
    Finish,
}

/// The state that one worker keeps for its destination.
#[derive(Debug, Clone, Copy, PartialEq, Eq, Structural)]
pub struct WorkerSession {
    pub plan: DispatchPlan,
    pub phase: Phase,
    /// Whole batches submitted so far.
    pub batches_done: usize,
    /// Packets confirmed as sent so far.
    pub packets_sent: usize,
    /// Packets attempted in batches but not confirmed as sent.
    pub lost: usize,
    /// Batched sends that did not deliver every packet they carried.
    pub failed_batches: usize,
    /// Packets delivered by the resend phase so far.
    pub resent: usize,
}

impl WorkerSession {
    /// Packets attempted by batched sends so far.
    pub open spec fn attempted(&self) -> int {
        match self.phase {
            Phase::Batches => self.batches_done * self.plan.batch_size,
            Phase::Remainder => self.plan.batch_count * self.plan.batch_size,
            _ => self.plan.total_packets as int,
        }
    }

    /// Packets that the shortfall check found missing (zero before it runs).
    pub open spec fn unsent(&self) -> int {
        match self.phase {
            Phase::Resending => self.lost as int,
            Phase::Done => self.lost as int,
            _ => 0,
        }
    }

    /// Batched sends submitted so far.
    pub open spec fn batch_sends(&self) -> int {
        match self.phase {
            Phase::Batches => self.batches_done as int,
            Phase::Remainder => self.plan.batch_count as int,
            _ => self.plan.batch_count + (if self.plan.remainder > 0 { 1int } else { 0int }),
        }
    }

    pub open spec fn wf(&self) -> bool {
        &&& self.plan.wf()
        &&& self.failed_batches <= self.batch_sends()
        &&& self.lost <= self.failed_batches * self.plan.batch_size
        &&& match self.phase {
            Phase::Batches => {
                &&& self.batches_done < self.plan.batch_count
                &&& self.resent == 0
                &&& self.packets_sent + self.lost == self.attempted()
            },
            Phase::Remainder => {
                &&& self.batches_done == self.plan.batch_count
                &&& self.plan.remainder > 0
                &&& self.resent == 0
                &&& self.packets_sent + self.lost == self.attempted()
            },
            Phase::Resending => {
                &&& self.batches_done == self.plan.batch_count
                &&& 0 <= self.resent < self.lost
                &&& self.packets_sent + self.lost - self.resent == self.plan.total_packets
            },
            Phase::Done => {
                &&& self.batches_done == self.plan.batch_count
                &&& self.resent == self.lost
                &&& self.packets_sent == self.plan.total_packets
            },
        }
    }

    /// Starts a worker on `plan`: whole batches first, or the remainder alone
    /// when the plan has no whole batch.
    pub fn new(plan: DispatchPlan) -> (r: WorkerSession)
        requires
            plan.wf(),
        ensures
            r.wf(),
            r.plan == plan,
            r.packets_sent == 0,
            r.lost == 0,
            r.failed_batches == 0,
            r.batches_done == 0,
            r.phase == (if plan.batch_count > 0 { Phase::Batches } else { Phase::Remainder }),
    {
        let phase = if plan.batch_count > 0 { Phase::Batches } else { Phase::Remainder };
        proof {
            assert(0 * plan.batch_size == 0);
        }
        WorkerSession {
            plan,
            phase,
            batches_done: 0,
            packets_sent: 0,
            lost: 0,
            failed_batches: 0,
            resent: 0,
        }
    }

    /// The packets that the next batched send carries.
    pub open spec fn batch_request(&self) -> int {
        match self.phase {
            Phase::Batches => self.plan.batch_size as int,
            Phase::Remainder => self.plan.remainder as int,
            _ => 0,
        }
    }

    pub fn next_action(&self) -> (r: WorkerAction)
        requires
            self.wf(),
        ensures
            self.phase == Phase::Batches ==> r == WorkerAction::SendBatch(self.plan.batch_size),
            self.phase == Phase::Remainder ==> r == WorkerAction::SendBatch(self.plan.remainder),
            self.phase == Phase::Resending ==> r == WorkerAction::SendOne,
            self.phase == Phase::Done ==> r == WorkerAction::Finish,
    {
        match self.phase {
            Phase::Batches => WorkerAction::SendBatch(self.plan.batch_size),
            Phase::Remainder => WorkerAction::SendBatch(self.plan.remainder),
            Phase::Resending => WorkerAction::SendOne,
            Phase::Done => WorkerAction::Finish,
        }
    }

    /// The shortfall check at the end of the batches: nothing missing ends
    /// the worker, anything missing starts the resend phase.
    fn check_shortfall(&mut self)
        requires
            old(self).plan.wf(),
            old(self).batches_done == old(self).plan.batch_count,
            old(self).resent == 0,
            old(self).packets_sent + old(self).lost == old(self).plan.total_packets,
            old(self).lost <= old(self).failed_batches * old(self).plan.batch_size,
            old(self).failed_batches <= old(self).plan.batch_count + (if old(self).plan.remainder > 0 {
                1int
            } else {
                0int
            }),
        ensures
            final(self).wf(),
            final(self).plan == old(self).plan,
            final(self).batches_done == old(self).batches_done,
            final(self).packets_sent == old(self).packets_sent,
            final(self).lost == old(self).lost,
            final(self).failed_batches == old(self).failed_batches,
            final(self).resent == 0,
            final(self).phase == (if old(self).lost == 0 { Phase::Done } else { Phase::Resending }),
    {
        if self.lost == 0 {
            self.phase = Phase::Done;
        } else {
            self.phase = Phase::Resending;
        }
    }

    /// Records the outcome of the batched send that `next_action` asked for:
    /// `confirmed` of its packets were sent, the rest are counted as lost.
    pub fn record_batch(&mut self, confirmed: usize)
        requires
            old(self).wf(),
            old(self).phase == Phase::Batches || old(self).phase == Phase::Remainder,
            confirmed <= old(self).batch_request(),
        ensures
            final(self).wf(),
            final(self).plan == old(self).plan,
            final(self).packets_sent == old(self).packets_sent + confirmed,
            final(self).lost == old(self).lost + (old(self).batch_request() - confirmed),
            final(self).failed_batches == old(self).failed_batches
                + (if confirmed < old(self).batch_request() { 1int } else { 0int }),
            final(self).attempted() == old(self).attempted() + old(self).batch_request(),
            final(self).resent == 0,
            old(self).phase == Phase::Batches && old(self).batches_done + 1 < old(self).plan.batch_count
                ==> final(self).phase == Phase::Batches,
            old(self).phase == Phase::Batches && old(self).batches_done + 1 == old(self).plan.batch_count
                && old(self).plan.remainder > 0 ==> final(self).phase == Phase::Remainder,
            (old(self).phase == Phase::Remainder || (old(self).batches_done + 1
                == old(self).plan.batch_count && old(self).plan.remainder == 0)) ==> final(self).phase
                == (if final(self).lost == 0 { Phase::Done } else { Phase::Resending }),
    {
        let request = match self.phase {
            Phase::Batches => self.plan.batch_size,
            _ => self.plan.remainder,
        };
        proof {
            let b = self.plan.batch_size as int;
            let n = self.batches_done as int;
            let c = self.plan.batch_count as int;
            if self.phase == Phase::Batches {
                assert((n + 1) * b <= c * b) by (nonlinear_arith)
                    requires n + 1 <= c, b >= 1;
                assert((n + 1) * b == n * b + b) by (nonlinear_arith);
            }
            if self.phase == Phase::Remainder {
                assert(c <= c * b) by (nonlinear_arith)
                    requires b >= 1, c >= 0;
            }
            let f = self.failed_batches as int;
            assert((f + 1) * b == f * b + b) by (nonlinear_arith);
        }
        self.packets_sent = self.packets_sent + confirmed;
        self.lost = self.lost + (request - confirmed);
        if confirmed < request {
            self.failed_batches = self.failed_batches + 1;
        }
        if self.phase == Phase::Batches {
            self.batches_done = self.batches_done + 1;
            if self.batches_done < self.plan.batch_count {
                return;
            }
            if self.plan.remainder > 0 {
                self.phase = Phase::Remainder;
                return;
            }
        }
        self.check_shortfall();
    }

    /// Records the outcome of one resend: a success moves on to the next
    /// missing packet, a failure leaves everything as it was so that the same
    /// packet is tried again.
    pub fn record_single(&mut self, sent: bool)
        requires
            old(self).wf(),
            old(self).phase == Phase::Resending,
        ensures
            final(self).wf(),
            !sent ==> *final(self) == *old(self),
            sent ==> final(self).packets_sent == old(self).packets_sent + 1,
            sent ==> final(self).resent == old(self).resent + 1,
            sent ==> final(self).lost == old(self).lost,
            sent ==> final(self).phase == (if final(self).resent == final(self).lost {
                Phase::Done
            } else {
                Phase::Resending
            }),
            final(self).plan == old(self).plan,
            final(self).failed_batches == old(self).failed_batches,
    {
        if sent {
            self.packets_sent = self.packets_sent + 1;
            self.resent = self.resent + 1;
            if self.resent == self.lost {
                self.phase = Phase::Done;
            }
        }
    }
}

/// When no batched send lost a packet, the shortfall check finds nothing
/// missing and the worker never enters the resend phase.
pub proof fn lossless_batches_skip_resend(s: WorkerSession)
    requires
        s.wf(),
        s.failed_batches == 0,
    ensures
        s.lost == 0,
        s.unsent() == 0,
        s.phase != Phase::Resending,
{
    assert(0 * s.plan.batch_size == 0);
}

/// The shortfall is at most one batch per failed batched send; the resend
/// phase has exactly the missing packets left to deliver, one successful
/// single send each, and a finished worker has sent every expected packet.
pub proof fn resend_makes_up_shortfall(s: WorkerSession)
    requires
        s.wf(),
    ensures
        s.unsent() <= s.failed_batches * s.plan.batch_size,
        s.phase == Phase::Resending ==> s.unsent() - s.resent == s.plan.total_packets - s.packets_sent,
        s.phase == Phase::Resending ==> s.unsent() > 0,
        s.phase == Phase::Done ==> s.packets_sent == s.plan.total_packets,
        s.phase == Phase::Done ==> s.resent == s.unsent(),
{
}

} // verus!
