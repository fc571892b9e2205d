use vstd::prelude::*;
use vstd::string::*;

verus! {

/// Where a poll stands in its life: `InProgress` leads to `Passed` or
/// `Rejected`, `Passed` leads to `Executed`; nothing leads back.
#[derive(Clone, Copy, Debug, PartialEq, Eq, Hash, Structural)]
pub enum PollStatus {
    InProgress,
    Passed,
    Rejected,
    Executed,
}

impl PollStatus {
    /// The name the status is reported under.
    pub open spec fn name(self) -> Seq<char> {
        match self {
            PollStatus::InProgress => "in_progress"@,
            PollStatus::Passed => "passed"@,
            PollStatus::Rejected => "rejected"@,
            PollStatus::Executed => "executed"@,
        }
    }

    /// The name the status is reported under, as a string.
    pub fn to_string(&self) -> (s: String)
        ensures
            s@ == self.name(),
    {
        match self {
            PollStatus::InProgress => String::from_str("in_progress"),
            PollStatus::Passed => String::from_str("passed"),
            PollStatus::Rejected => String::from_str("rejected"),
            PollStatus::Executed => String::from_str("executed"),
        }
    }

    /// Whether a poll may go from this status to `next`.
    pub open spec fn leads_to(self, next: PollStatus) -> bool {
        match self {
            PollStatus::InProgress => next == PollStatus::Passed || next == PollStatus::Rejected,
            PollStatus::Passed => next == PollStatus::Executed,
            PollStatus::Rejected => false,
            PollStatus::Executed => false,
        }
    }
}

/// What a voter can say to a proposal.
#[derive(Clone, Copy, Debug, PartialEq, Eq, Hash, Structural)]
pub enum VoteOption {
    Yes,
    No,
    Abstain,
}

impl VoteOption {
    /// The name the option is reported under.
    pub open spec fn name(self) -> Seq<char> {
        match self {
            VoteOption::Yes => "yes"@,
            VoteOption::No => "no"@,
            VoteOption::Abstain => "abstain"@,
        }
    }

    /// The name the option is reported under, as a string.
    pub fn to_string(&self) -> (s: String)
        ensures
            s@ == self.name(),
    {
        match self {
            VoteOption::Yes => String::from_str("yes"),
            VoteOption::No => String::from_str("no"),
            VoteOption::Abstain => String::from_str("abstain"),
        }
    }
}

} // verus!
