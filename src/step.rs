use vstd::prelude::*;

verus! {

/// The twelve steps of the handshake, in their strict forward order.
#[derive(PartialEq, Eq, Structural, Clone, Copy, Debug)]
pub enum Step {
    TransferProposalClaims,
    TransferProposalReceipt,
    TransferCommence,
    AckCommence,
    SendAssetStatus,
    LockAssertion,
    LockAssertionReceipt,
    CommitPrepare,
    CommitReady,
    CommitFinalAssertion,
    AckFinalReceipt,
    TransferCompleted,
}

impl Step {
    /// Position of the step in the handshake, starting at 0.
    pub open spec fn spec_index(self) -> nat {
        match self {
            Step::TransferProposalClaims => 0,
            Step::TransferProposalReceipt => 1,
            Step::TransferCommence => 2,
            Step::AckCommence => 3,
            Step::SendAssetStatus => 4,
            Step::LockAssertion => 5,
            Step::LockAssertionReceipt => 6,
            Step::CommitPrepare => 7,
            Step::CommitReady => 8,
            Step::CommitFinalAssertion => 9,
            Step::AckFinalReceipt => 10,
            Step::TransferCompleted => 11,
        }
    }

    /// The step that follows this one; the terminal step has none.
    pub open spec fn spec_next(self) -> Option<Step> {
        match self {
            Step::TransferProposalClaims => Some(Step::TransferProposalReceipt),
            Step::TransferProposalReceipt => Some(Step::TransferCommence),
            Step::TransferCommence => Some(Step::AckCommence),
            Step::AckCommence => Some(Step::SendAssetStatus),
            Step::SendAssetStatus => Some(Step::LockAssertion),
            Step::LockAssertion => Some(Step::LockAssertionReceipt),
            Step::LockAssertionReceipt => Some(Step::CommitPrepare),
            Step::CommitPrepare => Some(Step::CommitReady),
            Step::CommitReady => Some(Step::CommitFinalAssertion),
            Step::CommitFinalAssertion => Some(Step::AckFinalReceipt),
            Step::AckFinalReceipt => Some(Step::TransferCompleted),
            Step::TransferCompleted => None,
        }
    }

    /// The name that tags messages of this step.
    pub open spec fn spec_tag(self) -> Seq<char> {
        match self {
            Step::TransferProposalClaims => "TransferProposalClaims"@,
            Step::TransferProposalReceipt => "TransferProposalReceipt"@,
            Step::TransferCommence => "TransferCommence"@,
            Step::AckCommence => "AckCommence"@,
            Step::SendAssetStatus => "SendAssetStatus"@,
            Step::LockAssertion => "LockAssertion"@,
            Step::LockAssertionReceipt => "LockAssertionReceipt"@,
            Step::CommitPrepare => "CommitPrepare"@,
            Step::CommitReady => "CommitReady"@,
            Step::CommitFinalAssertion => "CommitFinalAssertion"@,
            Step::AckFinalReceipt => "AckFinalReceipt"@,
            Step::TransferCompleted => "TransferCompleted"@,
        }
    }

    pub fn index(&self) -> (r: u8)
        ensures
            r as nat == self.spec_index(),
    {
        match self {
            Step::TransferProposalClaims => 0,
            Step::TransferProposalReceipt => 1,
            Step::TransferCommence => 2,
            Step::AckCommence => 3,
            Step::SendAssetStatus => 4,
            Step::LockAssertion => 5,
            Step::LockAssertionReceipt => 6,
            Step::CommitPrepare => 7,
            Step::CommitReady => 8,
            Step::CommitFinalAssertion => 9,
            Step::AckFinalReceipt => 10,
            Step::TransferCompleted => 11,
        }
    }

    pub fn next(&self) -> (r: Option<Step>)
        ensures
            r == self.spec_next(),
    {
        match self {
            Step::TransferProposalClaims => Some(Step::TransferProposalReceipt),
            Step::TransferProposalReceipt => Some(Step::TransferCommence),
            Step::TransferCommence => Some(Step::AckCommence),
            Step::AckCommence => Some(Step::SendAssetStatus),
            Step::SendAssetStatus => Some(Step::LockAssertion),
            Step::LockAssertion => Some(Step::LockAssertionReceipt),
            Step::LockAssertionReceipt => Some(Step::CommitPrepare),
            Step::CommitPrepare => Some(Step::CommitReady),
            Step::CommitReady => Some(Step::CommitFinalAssertion),
            Step::CommitFinalAssertion => Some(Step::AckFinalReceipt),
            Step::AckFinalReceipt => Some(Step::TransferCompleted),
            Step::TransferCompleted => None,
        }
    }

    pub fn tag(&self) -> (r: &'static str)
        ensures
            r@ == self.spec_tag(),
    {
        match self {
            Step::TransferProposalClaims => "TransferProposalClaims",
            Step::TransferProposalReceipt => "TransferProposalReceipt",
            Step::TransferCommence => "TransferCommence",
            Step::AckCommence => "AckCommence",
            Step::SendAssetStatus => "SendAssetStatus",
            Step::LockAssertion => "LockAssertion",
            Step::LockAssertionReceipt => "LockAssertionReceipt",
            Step::CommitPrepare => "CommitPrepare",
            Step::CommitReady => "CommitReady",
            Step::CommitFinalAssertion => "CommitFinalAssertion",
            Step::AckFinalReceipt => "AckFinalReceipt",
            Step::TransferCompleted => "TransferCompleted",
        }
    }

    pub fn is_terminal(&self) -> (r: bool)
        ensures
            r <==> self.spec_next() is None,
    {
        match self {
            Step::TransferCompleted => true,
            _ => false,
        }
    }
}

/// Each step but the last is followed by the step one place further on: the
/// handshake never skips a step and never goes back.
pub proof fn lemma_steps_advance_by_one(s: Step)
    ensures
        match s.spec_next() {
            Some(n) => n.spec_index() == s.spec_index() + 1,
            None => s.spec_index() == 11,
        },
{
}

} // verus!
