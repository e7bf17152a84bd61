//! A pending approval and the user's decision on it.

use vstd::prelude::*;

verus! {

/// Approval state for pending approvals
#[derive(Debug, Clone)]
pub struct ApprovalState {
    /// Request ID for tracking the approval
    pub request_id: Option<u64>,
    /// Pending approval action
    pub action: String,
    /// Risk level
    pub risk: String,
    /// Description
    pub description: Option<String>,
    /// User's decision (Some(true) = approved, Some(false) = rejected, None = pending)
    pub decision: Option<bool>,
}

impl ApprovalState {
    pub fn pending(action: String, risk: String) -> (s: Self)
        ensures
            s.request_id.is_none(),
            s.action == action,
            s.risk == risk,
            s.description.is_none(),
            s.decision.is_none(),
    {
        ApprovalState { request_id: None, action, risk, description: None, decision: None }
    }

    pub fn with_request_id(self, request_id: u64) -> (s: Self)
        ensures
            s.request_id == Some(request_id),
            s.action == self.action,
            s.risk == self.risk,
            s.description == self.description,
            s.decision == self.decision,
    {
        let mut s = self;
        s.request_id = Some(request_id);
        s
    }

    pub fn is_pending(&self) -> (b: bool)
        ensures
            b == self.decision.is_none(),
    {
        self.decision.is_none()
    }

    pub fn approve(&mut self)
        ensures
            final(self).decision == Some(true),
            final(self).request_id == old(self).request_id,
            final(self).action == old(self).action,
            final(self).risk == old(self).risk,
            final(self).description == old(self).description,
    {
        self.decision = Some(true);
    }

    pub fn reject(&mut self)
        ensures
            final(self).decision == Some(false),
            final(self).request_id == old(self).request_id,
            final(self).action == old(self).action,
            final(self).risk == old(self).risk,
            final(self).description == old(self).description,
    {
        self.decision = Some(false);
    }
}

} // verus!
