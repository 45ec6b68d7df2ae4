//! The reply scope that anchors a wait: conversation, thread, reply and
//! correlation identifiers.

use vstd::prelude::*;
use crate::tenant::{opt_view, copy_opt};

verus! {

/// Where a reply is anchored.
#[derive(Debug)]
pub struct ReplyScope {
    pub conversation: String,
    pub thread: Option<String>,
    pub reply_to: Option<String>,
    pub correlation: Option<String>,
}

/// A reply scope as mathematical values.
pub struct ReplyScopeView {
    pub conversation: Seq<char>,
    pub thread: Option<Seq<char>>,
    pub reply_to: Option<Seq<char>>,
    pub correlation: Option<Seq<char>>,
}

impl View for ReplyScope {
    type V = ReplyScopeView;

    open spec fn view(&self) -> ReplyScopeView {
        ReplyScopeView {
            conversation: self.conversation@,
            thread: opt_view(self.thread),
            reply_to: opt_view(self.reply_to),
            correlation: opt_view(self.correlation),
        }
    }
}

impl ReplyScope {
    /// Builds a scope from its parts.
    pub fn new(
        conversation: String,
        thread: Option<String>,
        reply_to: Option<String>,
        correlation: Option<String>,
    ) -> (r: Self)
        ensures
            r.conversation == conversation,
            r.thread == thread,
            r.reply_to == reply_to,
            r.correlation == correlation,
    {
        ReplyScope { conversation, thread, reply_to, correlation }
    }

    /// A copy with the same text in every field.
    pub fn duplicate(&self) -> (r: Self)
        ensures
            r@ == self@,
    {
        ReplyScope {
            conversation: self.conversation.clone(),
            thread: copy_opt(&self.thread),
            reply_to: copy_opt(&self.reply_to),
            correlation: copy_opt(&self.correlation),
        }
    }
}

} // verus!
