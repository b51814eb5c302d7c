//! An interceptor that checks messages against the JSON-RPC protocol and,
//! in strict mode, blocks those that fail.
use vstd::prelude::*;
use vstd::string::StrSliceExecFns;
use crate::interceptor::{InterceptionResult, InterceptorStats, MessageContext, is_blocked_placeholder};
use crate::messages::jsonrpc::JsonRpcMessage;
use crate::text::{owned, push_str, str_equal};

verus! {

/// What is wrong with a message, if anything: a version other than "2.0",
/// an empty method, or a response with both or neither of result and error.
pub open spec fn validation_problem(m: JsonRpcMessage) -> Option<Seq<char>> {
    match m {
        JsonRpcMessage::Request(req) => if req.jsonrpc@ != "2.0"@ {
            Some("Invalid JSON-RPC version: "@ + req.jsonrpc@)
        } else if req.method@.len() == 0 {
            Some("Request method cannot be empty"@)
        } else {
            None
        },
        JsonRpcMessage::Response(resp) => if resp.jsonrpc@ != "2.0"@ {
            Some("Invalid JSON-RPC version: "@ + resp.jsonrpc@)
        } else if resp.result is Some && resp.error is Some {
            Some("Response has both result and error"@)
        } else if resp.result is None && resp.error is None {
            Some("Response must have either result or error"@)
        } else {
            None
        },
        JsonRpcMessage::Notification(n) => if n.jsonrpc@ != "2.0"@ {
            Some("Invalid JSON-RPC version: "@ + n.jsonrpc@)
        } else if n.method@.len() == 0 {
            Some("Notification method cannot be empty"@)
        } else {
            None
        },
    }
}

/// The error for a version other than "2.0".
fn version_error(version: &str) -> (r: String)
    ensures
        r@ == "Invalid JSON-RPC version: "@ + version@,
{
    let mut r = owned("Invalid JSON-RPC version: ");
    push_str(&mut r, version);
    r
}

/// What the validation interceptor does with `message`: passes a valid
/// message unchanged; blocks an invalid one in strict mode, and passes it
/// otherwise; and counts it.
pub open spec fn validation_answer(before: ValidationInterceptor, message: JsonRpcMessage, r: InterceptionResult, after: ValidationInterceptor) -> bool {
    &&& after.strict_mode == before.strict_mode
    &&& !r.modified
    &&& match validation_problem(message) {
        None => !r.block && r.message == message && r.reasoning is None,
        Some(p) => if before.strict_mode {
            r.block && is_blocked_placeholder(r.message)
                && (r.reasoning matches Some(t) && t@ == "Protocol validation failed: "@ + p)
        } else {
            !r.block && r.message == message && r.reasoning is None
        },
    }
    &&& after.stats.total_intercepted == before.stats.total_intercepted + 1
    &&& after.stats.total_modified == before.stats.total_modified
    &&& after.stats.total_blocked == before.stats.total_blocked + if r.block { 1int } else { 0int }
}

/// Interceptor that validates MCP messages for protocol compliance.
#[derive(Debug)]
pub struct ValidationInterceptor {
    /// Whether to block invalid messages (or just let them pass)
    pub strict_mode: bool,
    /// What this interceptor has seen so far
    pub stats: InterceptorStats,
}

impl ValidationInterceptor {
    /// A validation interceptor, blocking invalid messages in strict mode.
    pub fn new(strict_mode: bool) -> (r: Self)
        ensures
            r.strict_mode == strict_mode,
            r.stats == (InterceptorStats { total_intercepted: 0, total_modified: 0, total_blocked: 0 }),
    {
        ValidationInterceptor { strict_mode, stats: InterceptorStats::zero() }
    }

    /// The interceptor's name.
    pub fn name(&self) -> (r: &'static str)
        ensures
            r@ == "ValidationInterceptor"@,
    {
        "ValidationInterceptor"
    }

    /// Runs early, before anything modifies the message.
    pub fn priority(&self) -> (r: u32)
        ensures
            r == 20,
    {
        20
    }

    /// Every message is validated.
    pub fn should_intercept(&self, _context: &MessageContext) -> (r: bool)
        ensures
            r,
    {
        true
    }

    /// Checks a message against the protocol.
    pub fn validate_message(message: &JsonRpcMessage) -> (r: Result<(), String>)
        ensures
            match validation_problem(*message) {
                None => r is Ok,
                Some(p) => r matches Err(e) && e@ == p,
            },
    {
        match message {
            JsonRpcMessage::Request(req) => {
                if !str_equal(req.jsonrpc.as_str(), "2.0") {
                    return Err(version_error(req.jsonrpc.as_str()));
                }
                if req.method.as_str().unicode_len() == 0 {
                    return Err(owned("Request method cannot be empty"));
                }
                Ok(())
            },
            JsonRpcMessage::Response(resp) => {
                if !str_equal(resp.jsonrpc.as_str(), "2.0") {
                    return Err(version_error(resp.jsonrpc.as_str()));
                }
                if resp.result.is_some() && resp.error.is_some() {
                    Err(owned("Response has both result and error"))
                } else if resp.result.is_none() && resp.error.is_none() {
                    Err(owned("Response must have either result or error"))
                } else {
                    Ok(())
                }
            },
            JsonRpcMessage::Notification(n) => {
                if !str_equal(n.jsonrpc.as_str(), "2.0") {
                    return Err(version_error(n.jsonrpc.as_str()));
                }
                if n.method.as_str().unicode_len() == 0 {
                    return Err(owned("Notification method cannot be empty"));
                }
                Ok(())
            },
        }
    }

    /// Validates the message: a valid one passes unchanged; an invalid one
    /// is blocked in strict mode, with "Protocol validation failed: " and the
    /// problem as the reason, and passes unchanged otherwise.
    pub fn intercept(&mut self, context: MessageContext) -> (r: InterceptionResult)
        requires
            old(self).stats.total_intercepted < u64::MAX,
            old(self).stats.total_blocked < u64::MAX,
            old(self).stats.total_modified < u64::MAX,
        ensures
            final(self).strict_mode == old(self).strict_mode,
            !r.modified,
            match validation_problem(context.message) {
                None => !r.block && r.message == context.message && r.reasoning is None,
                Some(p) => if old(self).strict_mode {
                    r.block && is_blocked_placeholder(r.message)
                        && (r.reasoning matches Some(t) && t@ == "Protocol validation failed: "@ + p)
                } else {
                    !r.block && r.message == context.message && r.reasoning is None
                },
            },
            final(self).stats.total_intercepted == old(self).stats.total_intercepted + 1,
            final(self).stats.total_modified == old(self).stats.total_modified,
            final(self).stats.total_blocked == old(self).stats.total_blocked + if r.block { 1int } else { 0int },
            validation_answer(*old(self), context.message, r, *final(self)),
    {
        match Self::validate_message(&context.message) {
            Ok(()) => {
                self.stats = self.stats.record(false, false);
                InterceptionResult::pass_through(context.message)
            },
            Err(err) => {
                if self.strict_mode {
                    self.stats = self.stats.record(false, true);
                    let mut reason = owned("Protocol validation failed: ");
                    push_str(&mut reason, err.as_str());
                    InterceptionResult::blocked(reason)
                } else {
                    self.stats = self.stats.record(false, false);
                    InterceptionResult::pass_through(context.message)
                }
            },
        }
    }
}

} // verus!
