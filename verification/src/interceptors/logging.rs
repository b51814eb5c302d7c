//! An interceptor that lets every message through and counts what it saw,
//! for logging and monitoring.
use vstd::prelude::*;
use crate::interceptor::{InterceptionResult, InterceptorStats, MessageContext};
use crate::messages::jsonrpc::JsonRpcMessage;

verus! {

/// What the logging interceptor does with `message`: lets it through
/// unchanged and counts it.
pub open spec fn logging_answer(before: LoggingInterceptor, message: JsonRpcMessage, r: InterceptionResult, after: LoggingInterceptor) -> bool {
    &&& r.message == message
    &&& !r.modified
    &&& !r.block
    &&& r.reasoning is None
    &&& after.log_content == before.log_content
    &&& after.stats.total_intercepted == before.stats.total_intercepted + 1
    &&& after.stats.total_modified == before.stats.total_modified
    &&& after.stats.total_blocked == before.stats.total_blocked
}

/// Interceptor that observes all MCP messages without changing them.
#[derive(Debug)]
pub struct LoggingInterceptor {
    /// Whether message content is logged (can be verbose)
    pub log_content: bool,
    /// What this interceptor has seen so far
    pub stats: InterceptorStats,
}

impl LoggingInterceptor {
    /// A logging interceptor, logging message content if asked to.
    pub fn new(log_content: bool) -> (r: Self)
        ensures
            r.log_content == log_content,
            r.stats == (InterceptorStats { total_intercepted: 0, total_modified: 0, total_blocked: 0 }),
    {
        LoggingInterceptor { log_content, stats: InterceptorStats::zero() }
    }

    /// The interceptor's name.
    pub fn name(&self) -> (r: &'static str)
        ensures
            r@ == "LoggingInterceptor"@,
    {
        "LoggingInterceptor"
    }

    /// Runs first, to see every message before any change.
    pub fn priority(&self) -> (r: u32)
        ensures
            r == 10,
    {
        10
    }

    /// Every message is observed.
    pub fn should_intercept(&self, _context: &MessageContext) -> (r: bool)
        ensures
            r,
    {
        true
    }

    /// Counts the message and lets it through unchanged.
    pub fn intercept(&mut self, context: MessageContext) -> (r: InterceptionResult)
        requires
            old(self).stats.total_intercepted < u64::MAX,
            old(self).stats.total_modified < u64::MAX,
            old(self).stats.total_blocked < u64::MAX,
        ensures
            r.message == context.message,
            !r.modified,
            !r.block,
            r.reasoning is None,
            final(self).log_content == old(self).log_content,
            final(self).stats.total_intercepted == old(self).stats.total_intercepted + 1,
            final(self).stats.total_modified == old(self).stats.total_modified,
            final(self).stats.total_blocked == old(self).stats.total_blocked,
            logging_answer(*old(self), context.message, r, *final(self)),
    {
        self.stats = self.stats.record(false, false);
        InterceptionResult::pass_through(context.message)
    }
}

} // verus!
