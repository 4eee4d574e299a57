//! The research session orchestrator, as a state machine: every decision one
//! research request goes through, from session creation to the final reply.
//! The surrounding event loop performs the protocol calls (create the child
//! session, submit the prompt, receive side-channel items) and feeds each
//! outcome into the matching transition here; the transitions own all
//! registry bookkeeping, so the registry is mutated on exactly the paths the
//! contracts state.

use crate::aggregate::{aggregate, aggregated_spec};
use crate::registry::SessionRegistry;
use vstd::prelude::*;

verus! {

/// How one research orchestration can fail.
#[derive(Debug)]
pub enum OrchestratorError {
    /// The remote end rejected the session-creation request, or the
    /// transport failed before a child session existed.
    SessionCreationFailed,
    /// The transport or protocol failed while the prompt was outstanding.
    PromptFailed,
    /// The caller abandoned its reply channel before the reply was sent.
    ReplyChannelClosed,
}

/// Where one research orchestration stands.
#[derive(Debug)]
pub enum Phase {
    /// Awaiting the session-creation acknowledgment; nothing registered yet.
    Creating,
    /// The child session exists and is registered; the prompt is outstanding
    /// and side-channel items are being collected.
    Collecting,
    /// The prompt resolved and the reply payload was built; the handle is
    /// unregistered.
    Completed,
    /// Session creation or the prompt failed; no reply is owed and the
    /// handle, if one ever existed, is unregistered.
    Failed,
}

/// One in-flight research orchestration: the request's subject and prompt,
/// the child-session handle once one exists, and the side-channel items
/// collected so far, in arrival order.
pub struct Orchestrator {
    pub subject: String,
    pub prompt_text: String,
    pub handle: Option<String>,
    pub items: Vec<serde_json::Value>,
    pub phase: Phase,
}

impl Orchestrator {
    /// A handle exists exactly from registration on; before that, nothing
    /// was collected either.
    pub open spec fn wf(&self) -> bool {
        &&& (self.phase is Creating ==> self.handle is None && self.items@.len() == 0)
        &&& (self.phase is Collecting ==> self.handle is Some)
    }

    /// Accepts one research request; the orchestration starts with no child
    /// session, nothing registered and nothing collected.
    pub fn new(subject: String, prompt_text: String) -> (r: Orchestrator)
        ensures
            r.wf(),
            r.phase is Creating,
            r.subject == subject,
            r.prompt_text == prompt_text,
            r.handle is None,
            r.items@ == Seq::<serde_json::Value>::empty(),
    {
        let r = Orchestrator {
            subject,
            prompt_text,
            handle: None,
            items: Vec::new(),
            phase: Phase::Creating,
        };
        proof {
            assert(r.items@ =~= Seq::<serde_json::Value>::empty());
        }
        r
    }

    /// Session creation succeeded: the handle is recorded and registered
    /// here, before the caller may submit the prompt, so that concurrent
    /// traffic for this session is already classifiable the instant the
    /// session exists.
    pub fn session_created(&mut self, reg: &mut SessionRegistry, handle: String)
        requires
            old(self).wf(),
            old(self).phase is Creating,
            old(reg).wf(),
        ensures
            final(self).wf(),
            final(reg).wf(),
            final(self).phase is Collecting,
            final(self).handle == Some(handle),
            final(reg)@ == old(reg)@.insert(handle@),
            final(reg)@.contains(handle@),
            final(self).subject == old(self).subject,
            final(self).prompt_text == old(self).prompt_text,
            final(self).items == old(self).items,
    {
        reg.register(&handle);
        self.handle = Some(handle);
        self.phase = Phase::Collecting;
    }

    /// Session creation failed: the registry was never touched — this
    /// transition cannot even reach it — no reply is owed, and the
    /// orchestration ends with the error its caller must surface.
    pub fn session_creation_failed(&mut self) -> (e: OrchestratorError)
        requires
            old(self).wf(),
            old(self).phase is Creating,
        ensures
            final(self).wf(),
            final(self).phase is Failed,
            final(self).handle is None,
            e is SessionCreationFailed,
    {
        self.phase = Phase::Failed;
        OrchestratorError::SessionCreationFailed
    }

    /// The side channel delivered one item before the prompt resolved: it is
    /// appended to the collected buffer, after everything delivered earlier;
    /// nothing else changes, and any number of such deliveries is accepted.
    pub fn item_delivered(&mut self, item: serde_json::Value)
        requires
            old(self).wf(),
            old(self).phase is Collecting,
        ensures
            final(self).wf(),
            final(self).phase is Collecting,
            final(self).items@ == old(self).items@.push(item),
            final(self).handle == old(self).handle,
            final(self).subject == old(self).subject,
            final(self).prompt_text == old(self).prompt_text,
    {
        self.items.push(item);
    }

    /// The prompt resolved with some terminal stop reason — any one is
    /// accepted as the end of the orchestration. The handle is unregistered
    /// and the reply payload is built from the collected items by the
    /// aggregation rule.
    pub fn prompt_completed(&mut self, reg: &mut SessionRegistry) -> (reply: String)
        requires
            old(self).wf(),
            old(self).phase is Collecting,
            old(reg).wf(),
        ensures
            final(self).wf(),
            final(reg).wf(),
            final(self).phase is Completed,
            final(reg)@ == old(reg)@.remove(old(self).handle->0@),
            !final(reg)@.contains(old(self).handle->0@),
            reply@ == aggregated_spec(old(self).subject@, old(self).items@),
    {
        let handle = self.handle.as_ref().unwrap();
        reg.unregister(handle);
        self.phase = Phase::Completed;
        aggregate(&self.subject, &self.items)
    }

    /// The prompt failed with a genuine transport or protocol error: the
    /// handle is still unregistered — cleanup runs on this path too — but
    /// aggregation is skipped, no reply is owed, and the orchestration ends
    /// with the error its caller must surface.
    pub fn prompt_failed(&mut self, reg: &mut SessionRegistry) -> (e: OrchestratorError)
        requires
            old(self).wf(),
            old(self).phase is Collecting,
            old(reg).wf(),
        ensures
            final(self).wf(),
            final(reg).wf(),
            final(self).phase is Failed,
            final(reg)@ == old(reg)@.remove(old(self).handle->0@),
            !final(reg)@.contains(old(self).handle->0@),
            e is PromptFailed,
    {
        let handle = self.handle.as_ref().unwrap();
        reg.unregister(handle);
        self.phase = Phase::Failed;
        OrchestratorError::PromptFailed
    }

    /// The reply was handed to the caller's one-shot channel: classifies the
    /// outcome. A caller that abandoned its channel is named by
    /// `ReplyChannelClosed`, but since all protocol work completed the
    /// orchestration still counts as successful — the error is for the log,
    /// never escalated, and the phase stays `Completed`.
    pub fn reply_outcome(&self, delivered: bool) -> (r: Option<OrchestratorError>)
        requires
            self.phase is Completed,
        ensures
            delivered ==> r is None,
            !delivered ==> r == Some(OrchestratorError::ReplyChannelClosed),
    {
        if delivered {
            None
        } else {
            Some(OrchestratorError::ReplyChannelClosed)
        }
    }

    /// Last-resort cleanup, safe on every exit path including cancellation
    /// of the enclosing task: whatever phase the orchestration was left in,
    /// after this call its handle, if one was ever recorded, is absent from
    /// the registry. Idempotent, so racing cleanup paths may both run it.
    pub fn abandon(&mut self, reg: &mut SessionRegistry)
        requires
            old(reg).wf(),
        ensures
            final(reg).wf(),
            final(self).wf(),
            final(self).phase is Failed,
            final(self).handle is None,
            match old(self).handle {
                Some(h) => final(reg)@ == old(reg)@.remove(h@),
                None => final(reg)@ == old(reg)@,
            },
            old(self).handle is Some ==> !final(reg)@.contains(old(self).handle->0@),
    {
        match &self.handle {
            Some(h) => {
                reg.unregister(h);
            },
            None => {},
        }
        self.handle = None;
        self.phase = Phase::Failed;
    }
}

} // verus!
