use vstd::prelude::*;

verus! {

/// One of the two token buckets every outbound call must pass.
#[derive(Debug, Clone, Copy, PartialEq, Eq, Structural)]
pub enum Bucket {
    /// The coarse, per-minute budget.
    Long,
    /// The fine, per-second budget.
    Short,
}

/// Where one caller stands in passing the two buckets.
#[derive(Debug, Clone, Copy, PartialEq, Eq, Structural)]
pub enum GatePhase {
    /// Asking the long bucket for a token.
    Long,
    /// Holding a long-bucket token, asking the short bucket for one.
    Short,
    /// Holding a token of each bucket: the call may go out.
    Open,
}

/// What the caller does next.
#[derive(Debug, Clone, Copy, PartialEq, Eq, Structural)]
pub enum GateAction {
    /// Sleep (with jitter) until the bucket may admit, then ask it again.
    Wait(Bucket),
    /// Ask the bucket for a token now.
    Check(Bucket),
    /// Send the request.
    Send,
}

/// The bucket a phase asks for a token.
pub open spec fn asked(p: GatePhase) -> Bucket {
    match p {
        GatePhase::Short => Bucket::Short,
        _ => Bucket::Long,
    }
}

/// The phase after the bucket that `p` asks has answered `admitted`.
/// A token once taken from the long bucket is kept while the caller waits
/// on the short one; it is never handed back.
pub open spec fn next_phase(p: GatePhase, admitted: bool) -> GatePhase {
    match p {
        GatePhase::Long => if admitted {
            GatePhase::Short
        } else {
            GatePhase::Long
        },
        GatePhase::Short => if admitted {
            GatePhase::Open
        } else {
            GatePhase::Short
        },
        GatePhase::Open => GatePhase::Open,
    }
}

pub open spec fn next_action(p: GatePhase, admitted: bool) -> GateAction {
    match next_phase(p, admitted) {
        GatePhase::Open => GateAction::Send,
        q => if admitted {
            GateAction::Check(asked(q))
        } else {
            GateAction::Wait(asked(q))
        },
    }
}

/// Decides the next move after the bucket that `phase` asks answered. A
/// caller that already holds both tokens just sends.
pub fn gate_step(phase: GatePhase, admitted: bool) -> (r: (GatePhase, GateAction))
    ensures
        r.0 == next_phase(phase, admitted),
        r.1 == next_action(phase, admitted),
{
    match phase {
        GatePhase::Long => if admitted {
            (GatePhase::Short, GateAction::Check(Bucket::Short))
        } else {
            (GatePhase::Long, GateAction::Wait(Bucket::Long))
        },
        GatePhase::Short => if admitted {
            (GatePhase::Open, GateAction::Send)
        } else {
            (GatePhase::Short, GateAction::Wait(Bucket::Short))
        },
        GatePhase::Open => (GatePhase::Open, GateAction::Send),
    }
}

/// The phase of a caller that started at `Long` and received the answers
/// `answers`, in order; no answer is asked for once both tokens are held.
pub open spec fn phase_after(answers: Seq<bool>) -> GatePhase
    decreases answers.len(),
{
    if answers.len() == 0 {
        GatePhase::Long
    } else {
        next_phase(phase_after(answers.drop_last()), answers.last())
    }
}

/// How many tokens the caller took from bucket `b` over `answers`.
pub open spec fn taken(answers: Seq<bool>, b: Bucket) -> nat
    decreases answers.len(),
{
    if answers.len() == 0 {
        0
    } else {
        let p = phase_after(answers.drop_last());
        taken(answers.drop_last(), b) + if p != GatePhase::Open && asked(p) == b
            && answers.last() {
            1nat
        } else {
            0nat
        }
    }
}

/// However the buckets answer, a caller holds at most one token of each,
/// holds a short token only after a long one, and it may send exactly
/// when it holds one of each. So every request that is sent has drawn one
/// token from each bucket, and never more: the pair never lets more requests
/// through than either bucket admits on its own.
pub proof fn lemma_one_token_each(answers: Seq<bool>)
    ensures
        taken(answers, Bucket::Long) <= 1,
        taken(answers, Bucket::Short) <= taken(answers, Bucket::Long),
        (phase_after(answers) == GatePhase::Open) == (taken(answers, Bucket::Long) == 1
            && taken(answers, Bucket::Short) == 1),
        (phase_after(answers) == GatePhase::Short) == (taken(answers, Bucket::Long) == 1
            && taken(answers, Bucket::Short) == 0),
    decreases answers.len(),
{
    if answers.len() > 0 {
        lemma_one_token_each(answers.drop_last());
    }
}

} // verus!
