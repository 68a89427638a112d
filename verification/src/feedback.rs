//! What agents report about their experience, and how a host answers a request.
use vstd::prelude::*;

use crate::ids::FeedbackId;
use crate::record::Record;

verus! {

/// How a host's policy stands to a request.
#[derive(Debug, PartialEq, Eq)]
pub enum PolicyState {
    Allowed,
    RequiresAudit,
    RequiresHumanApproval,
    Blocked,
    Unavailable { reason: String },
}

/// What a [`PolicyState`] holds.
pub enum PolicyStateModel {
    Allowed,
    RequiresAudit,
    RequiresHumanApproval,
    Blocked,
    Unavailable { reason: Seq<char> },
}

impl DeepView for PolicyState {
    type V = PolicyStateModel;

    open spec fn deep_view(&self) -> PolicyStateModel {
        match self {
            PolicyState::Allowed => PolicyStateModel::Allowed,
            PolicyState::RequiresAudit => PolicyStateModel::RequiresAudit,
            PolicyState::RequiresHumanApproval => PolicyStateModel::RequiresHumanApproval,
            PolicyState::Blocked => PolicyStateModel::Blocked,
            PolicyState::Unavailable { reason } => PolicyStateModel::Unavailable {
                reason: reason.deep_view(),
            },
        }
    }
}

impl View for PolicyState {
    type V = PolicyStateModel;

    #[verifier::inline]
    open spec fn view(&self) -> PolicyStateModel {
        self.deep_view()
    }
}

impl Record for PolicyState {
    fn duplicate(&self) -> (r: Self) {
        match self {
            PolicyState::Allowed => PolicyState::Allowed,
            PolicyState::RequiresAudit => PolicyState::RequiresAudit,
            PolicyState::RequiresHumanApproval => PolicyState::RequiresHumanApproval,
            PolicyState::Blocked => PolicyState::Blocked,
            PolicyState::Unavailable { reason } => PolicyState::Unavailable {
                reason: reason.duplicate(),
            },
        }
    }

    fn same(&self, other: &Self) -> (r: bool) {
        match (self, other) {
            (PolicyState::Allowed, PolicyState::Allowed) => true,
            (PolicyState::RequiresAudit, PolicyState::RequiresAudit) => true,
            (PolicyState::RequiresHumanApproval, PolicyState::RequiresHumanApproval) => true,
            (PolicyState::Blocked, PolicyState::Blocked) => true,
            (
                PolicyState::Unavailable { reason: reason_a },
                PolicyState::Unavailable { reason: reason_b },
            ) => reason_a.same(reason_b),
            _ => false,
        }
    }
}

impl Clone for PolicyState {
    fn clone(&self) -> (r: Self)
        ensures
            r.deep_view() == self.deep_view(),
    {
        self.duplicate()
    }
}

#[derive(Debug, Clone, Copy, PartialEq, Eq, Structural)]
pub enum AxSeverity {
    Blocker,
    Painful,
    Confusing,
    Minor,
}

impl DeepView for AxSeverity {
    type V = AxSeverity;

    open spec fn deep_view(&self) -> AxSeverity {
        *self
    }
}

impl Record for AxSeverity {
    fn duplicate(&self) -> (r: Self) {
        *self
    }

    fn same(&self, other: &Self) -> (r: bool) {
        *self == *other
    }
}

/// Feedback on the agent experience.
#[derive(Debug, PartialEq, Eq)]
pub struct AxFeedback {
    pub id: FeedbackId,
    pub summary: String,
    pub observed: String,
    pub expected: Option<String>,
    pub severity: AxSeverity,
}

/// What a [`AxFeedback`] holds.
pub struct AxFeedbackModel {
    pub id: Seq<char>,
    pub summary: Seq<char>,
    pub observed: Seq<char>,
    pub expected: Option<Seq<char>>,
    pub severity: AxSeverity,
}

impl DeepView for AxFeedback {
    type V = AxFeedbackModel;

    open spec fn deep_view(&self) -> AxFeedbackModel {
        AxFeedbackModel {
            id: self.id.deep_view(),
            summary: self.summary.deep_view(),
            observed: self.observed.deep_view(),
            expected: self.expected.deep_view(),
            severity: self.severity.deep_view(),
        }
    }
}

impl View for AxFeedback {
    type V = AxFeedbackModel;

    #[verifier::inline]
    open spec fn view(&self) -> AxFeedbackModel {
        self.deep_view()
    }
}

impl Record for AxFeedback {
    fn duplicate(&self) -> (r: Self) {
        AxFeedback {
            id: self.id.duplicate(),
            summary: self.summary.duplicate(),
            observed: self.observed.duplicate(),
            expected: self.expected.duplicate(),
            severity: self.severity.duplicate(),
        }
    }

    fn same(&self, other: &Self) -> (r: bool) {
        self.id.same(&other.id)
            && self.summary.same(&other.summary)
            && self.observed.same(&other.observed)
            && self.expected.same(&other.expected)
            && self.severity.same(&other.severity)
    }
}

impl Clone for AxFeedback {
    fn clone(&self) -> (r: Self)
        ensures
            r.deep_view() == self.deep_view(),
    {
        self.duplicate()
    }
}

} // verus!
