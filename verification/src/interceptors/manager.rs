//! The interceptor manager: the registered interceptors, run in priority
//! order on each message until one blocks it, and the counters of what
//! they did.
use vstd::prelude::*;
use crate::interceptor::{ChainRun, ChainStep, InterceptionResult, InterceptorChain, ManagerStats, MessageContext,
    MessageDirection, join_with, message_method};
use crate::interceptors::logging::{LoggingInterceptor, logging_answer};
use crate::interceptors::validation::{ValidationInterceptor, validation_answer};
use crate::interceptors::rate_limit::{RateLimitInterceptor, rate_limit_answer};
use crate::interceptors::transform::{TransformInterceptor, transform_answer, rule_matches};
use crate::messages::jsonrpc::JsonRpcMessage;
use crate::text::owned;

verus! {

/// One of the built-in interceptors.
#[derive(Debug)]
pub enum AnyInterceptor {
    Logging(LoggingInterceptor),
    Validation(ValidationInterceptor),
    RateLimit(RateLimitInterceptor),
    Transform(TransformInterceptor),
}

/// The reason of a result, as a list of at most one text.
pub open spec fn reason_list(reasoning: Option<String>) -> Seq<Seq<char>> {
    match reasoning {
        Some(t) => seq![t@],
        None => Seq::empty(),
    }
}

/// Where a message stands after the given answers of the interceptors, in
/// order (`None` for one that did not look at it): the result that blocked
/// it, if one did; else the message as the answers left it, whether any
/// modified it, and the reasons of the modifications.
pub open spec fn run_back(message: JsonRpcMessage, answers: Seq<Option<InterceptionResult>>)
    -> (Option<InterceptionResult>, JsonRpcMessage, bool, Seq<Seq<char>>)
    decreases answers.len(),
{
    if answers.len() == 0 {
        (None, message, false, Seq::empty())
    } else {
        let prev = run_back(message, answers.drop_last());
        if prev.0 is Some {
            prev
        } else {
            match answers.last() {
                Some(r) => if r.block {
                    (Some(r), prev.1, prev.2, prev.3)
                } else if r.modified {
                    (None, r.message, true, prev.3 + reason_list(r.reasoning))
                } else {
                    prev
                },
                None => prev,
            }
        }
    }
}

impl AnyInterceptor {
    /// The interceptor's counters.
    pub open spec fn counters(self) -> crate::interceptor::InterceptorStats {
        match self {
            AnyInterceptor::Logging(i) => i.stats,
            AnyInterceptor::Validation(i) => i.stats,
            AnyInterceptor::RateLimit(i) => i.stats,
            AnyInterceptor::Transform(i) => i.stats,
        }
    }

    /// The interceptor can take one more message: its counters are below
    /// their limit, and a rate limiter keeps its bound.
    pub open spec fn ready(self) -> bool {
        &&& self.counters().total_intercepted < u64::MAX
        &&& self.counters().total_modified < u64::MAX
        &&& self.counters().total_blocked < u64::MAX
        &&& (self matches AnyInterceptor::RateLimit(i) ==> i.limiter.wf())
    }

    /// Whether the interceptor looks at `message` flowing in `direction`.
    pub open spec fn runs_on(self, message: JsonRpcMessage, direction: MessageDirection) -> bool {
        match self {
            AnyInterceptor::Logging(_) => true,
            AnyInterceptor::Validation(_) => true,
            AnyInterceptor::RateLimit(_) => direction == MessageDirection::Outgoing && message_method(message) is Some,
            AnyInterceptor::Transform(t) => exists|i: int|
                0 <= i < t.rules@.len() && rule_matches(#[trigger] t.rules@[i], message_method(message)),
        }
    }

    /// Whether `r` and `after` are the answer and the new state of the
    /// interceptor given `message` at `now`.
    pub open spec fn answer(self, message: JsonRpcMessage, now: u64, r: InterceptionResult, after: Self) -> bool {
        match (self, after) {
            (AnyInterceptor::Logging(a), AnyInterceptor::Logging(b)) => logging_answer(a, message, r, b),
            (AnyInterceptor::Validation(a), AnyInterceptor::Validation(b)) => validation_answer(a, message, r, b),
            (AnyInterceptor::RateLimit(a), AnyInterceptor::RateLimit(b)) => rate_limit_answer(a, message, now, r, b),
            (AnyInterceptor::Transform(a), AnyInterceptor::Transform(b)) => transform_answer(a, message, r, b),
            _ => false,
        }
    }

    /// The interceptor's name.
    pub fn name(&self) -> (r: &'static str)
        ensures
            r@ == self.name_spec(),
    {
        match self {
            AnyInterceptor::Logging(i) => i.name(),
            AnyInterceptor::Validation(i) => i.name(),
            AnyInterceptor::RateLimit(i) => i.name(),
            AnyInterceptor::Transform(i) => i.name(),
        }
    }

    /// The interceptor's priority: lower runs first.
    pub fn priority(&self) -> (r: u32)
        ensures
            r == self.priority_spec(),
    {
        match self {
            AnyInterceptor::Logging(i) => i.priority(),
            AnyInterceptor::Validation(i) => i.priority(),
            AnyInterceptor::RateLimit(i) => i.priority(),
            AnyInterceptor::Transform(i) => i.priority(),
        }
    }

    /// Whether the interceptor can take one more message.
    pub fn is_ready(&self) -> (r: bool)
        ensures
            r == self.ready(),
    {
        let s = match self {
            AnyInterceptor::Logging(i) => i.stats,
            AnyInterceptor::Validation(i) => i.stats,
            AnyInterceptor::RateLimit(i) => i.stats,
            AnyInterceptor::Transform(i) => i.stats,
        };
        let counters_ok = s.total_intercepted < u64::MAX && s.total_modified < u64::MAX && s.total_blocked < u64::MAX;
        match self {
            AnyInterceptor::RateLimit(i) => counters_ok && i.limiter.is_wf(),
            _ => counters_ok,
        }
    }

    /// Whether the interceptor looks at the message of `context`.
    pub fn should_intercept(&self, context: &MessageContext) -> (r: bool)
        ensures
            r == self.runs_on(context.message, context.direction),
    {
        match self {
            AnyInterceptor::Logging(i) => i.should_intercept(context),
            AnyInterceptor::Validation(i) => i.should_intercept(context),
            AnyInterceptor::RateLimit(i) => i.should_intercept(context),
            AnyInterceptor::Transform(i) => i.should_intercept(context),
        }
    }

    /// Lets the interceptor answer the message of `context` at `now`.
    pub fn intercept(&mut self, context: MessageContext, now: u64) -> (r: InterceptionResult)
        requires
            old(self).ready(),
        ensures
            old(self).answer(context.message, now, r, *final(self)),
    {
        match self {
            AnyInterceptor::Logging(i) => i.intercept(context),
            AnyInterceptor::Validation(i) => i.intercept(context),
            AnyInterceptor::RateLimit(i) => i.intercept(context, now),
            AnyInterceptor::Transform(i) => i.intercept(context),
        }
    }
}

/// The interceptors, ordered by priority, and the counters of the messages
/// they processed.
#[derive(Debug)]
pub struct InterceptorManager {
    pub chain: InterceptorChain<AnyInterceptor>,
    pub stats: ManagerStats,
}

/// Whether `answers` are what the interceptors `before` answered, becoming
/// `after`, when `message` flowing in `direction` at `now` went along them
/// in order: each saw the message as the answers before it left it and
/// answered when it looks at such messages; the run went on while nothing
/// blocked the message, and to the end of the chain unless something did;
/// the interceptors it did not reach are unchanged.
pub open spec fn chain_trace(
    before: Seq<AnyInterceptor>,
    after: Seq<AnyInterceptor>,
    message: JsonRpcMessage,
    direction: MessageDirection,
    now: u64,
    answers: Seq<Option<InterceptionResult>>,
) -> bool {
    &&& after.len() == before.len()
    &&& answers.len() <= before.len()
    &&& forall|j: int| 0 <= j < answers.len() ==> {
        let seen = run_back(message, #[trigger] answers.take(j));
        &&& seen.0 is None
        &&& before[j].runs_on(seen.1, direction) ==> (answers[j] matches Some(a) && before[j].answer(seen.1, now, a, after[j]))
        &&& !before[j].runs_on(seen.1, direction) ==> (answers[j] is None && after[j] == before[j])
    }
    &&& forall|j: int| answers.len() <= j < before.len() ==> #[trigger] after[j] == before[j]
    &&& answers.len() < before.len() ==> run_back(message, answers).0 is Some
}

impl InterceptorManager {
    /// No interceptors, nothing processed.
    pub fn new() -> (r: Self)
        ensures
            r.chain.wf(),
            r.chain.keys() == Seq::<(Seq<char>, u32)>::empty(),
            r.chain.items() == Seq::<AnyInterceptor>::empty(),
            r.chain.entries() == Seq::<(Seq<char>, u32, AnyInterceptor)>::empty(),
            r.stats.total_messages_processed == 0,
            r.stats.total_modifications_made == 0,
            r.stats.total_messages_blocked == 0,
            r.stats.method_entries() == Seq::<(Seq<char>, u64)>::empty(),
    {
        InterceptorManager { chain: InterceptorChain::new(), stats: ManagerStats::new() }
    }

    /// Registers an interceptor under its own name and priority: it runs
    /// after every interceptor whose priority is at most its own.
    pub fn add_interceptor(&mut self, interceptor: AnyInterceptor)
        requires
            old(self).chain.wf(),
        ensures
            final(self).chain.wf(),
            final(self).chain.keys() == old(self).chain.keys().insert(
                crate::interceptor::insert_position(old(self).chain.keys(), interceptor.priority_spec()),
                (interceptor.name_spec(), interceptor.priority_spec()),
            ),
            final(self).chain.items() == old(self).chain.items().insert(
                crate::interceptor::insert_position(old(self).chain.keys(), interceptor.priority_spec()),
                interceptor,
            ),
            final(self).chain.entries() == old(self).chain.entries().insert(
                crate::interceptor::insert_position(old(self).chain.keys(), interceptor.priority_spec()),
                (interceptor.name_spec(), interceptor.priority_spec(), interceptor),
            ),
            final(self).stats == old(self).stats,
    {
        let name = owned(interceptor.name());
        let priority = interceptor.priority();
        self.chain.add(name, priority, interceptor);
    }

    /// The names of the interceptors, in the order they run.
    pub fn list_interceptors(&self) -> (r: Vec<String>)
        ensures
            r@.len() == self.chain.keys().len(),
            forall|i: int| 0 <= i < r@.len() ==> #[trigger] r@[i]@ == self.chain.keys()[i].0,
    {
        self.chain.names()
    }

    /// The counters of the messages processed so far.
    pub fn get_stats(&self) -> (r: &ManagerStats)
        ensures
            *r == self.stats,
    {
        &self.stats
    }

    /// Unregisters every interceptor named `name`; tells whether there was
    /// one.
    pub fn remove_interceptor(&mut self, name: &str) -> (found: bool)
        requires
            old(self).chain.wf(),
        ensures
            final(self).chain.wf(),
            final(self).chain.keys() == old(self).chain.keys().filter(|e: (Seq<char>, u32)| e.0 != name@),
            final(self).chain.entries() == old(self).chain.entries().filter(|e: (Seq<char>, u32, AnyInterceptor)| e.0 != name@),
            found == exists|i: int| 0 <= i < old(self).chain.keys().len() && old(self).chain.keys()[i].0 == name@,
            final(self).stats == old(self).stats,
    {
        self.chain.remove(name)
    }

    /// Whether `message` can be processed now: every interceptor can take
    /// one more message, and none of the manager's counters, nor the count
    /// of the message's method, is at its limit.
    pub fn can_process(&self, message: &JsonRpcMessage) -> (r: bool)
        ensures
            r == ({
                &&& forall|j: int| 0 <= j < self.chain.items().len() ==> (#[trigger] self.chain.items()[j]).ready()
                &&& self.stats.total_messages_processed < u64::MAX
                &&& self.stats.total_modifications_made < u64::MAX
                &&& self.stats.total_messages_blocked < u64::MAX
                &&& (message_method(*message) matches Some(m) ==> self.stats.processed_for(m) < u64::MAX)
            }),
    {
        if self.stats.total_messages_processed == u64::MAX || self.stats.total_modifications_made == u64::MAX
            || self.stats.total_messages_blocked == u64::MAX {
            return false;
        }
        let method_ok = match message {
            JsonRpcMessage::Request(q) => self.stats.count_for(q.method.as_str()) < u64::MAX,
            JsonRpcMessage::Notification(n) => self.stats.count_for(n.method.as_str()) < u64::MAX,
            JsonRpcMessage::Response(_) => true,
        };
        if !method_ok {
            return false;
        }
        let n = self.chain.len();
        let mut i: usize = 0;
        while i < n
            invariant
                n == self.chain.items().len(),
                n == self.chain.keys().len(),
                i <= n,
                forall|j: int| 0 <= j < i ==> (#[trigger] self.chain.items()[j]).ready(),
            decreases n - i,
        {
            if !self.chain.get(i).is_ready() {
                return false;
            }
            i = i + 1;
        }
        true
    }

    /// Runs `message`, flowing in `direction` at `now`, through the
    /// interceptors in order. Each interceptor that looks at such a message
    /// sees it as the ones before left it. The first block stops the run and
    /// is the result, counted as processed and blocked. Otherwise the result
    /// is the message as the interceptors left it: modified, with their
    /// reasons joined by "; ", if any modified it, and passed through
    /// otherwise; it is counted as processed, as modified when it was, and
    /// under its method.
    pub fn process_message(&mut self, message: JsonRpcMessage, direction: MessageDirection, now: u64) -> (r: InterceptionResult)
        requires
            forall|j: int| 0 <= j < old(self).chain.items().len() ==> (#[trigger] old(self).chain.items()[j]).ready(),
            old(self).stats.total_messages_processed < u64::MAX,
            old(self).stats.total_modifications_made < u64::MAX,
            old(self).stats.total_messages_blocked < u64::MAX,
            message_method(message) matches Some(m) ==> old(self).stats.processed_for(m) < u64::MAX,
        ensures
            final(self).chain.keys() == old(self).chain.keys(),
            exists|answers: Seq<Option<InterceptionResult>>| {
                &&& #[trigger] chain_trace(old(self).chain.items(), final(self).chain.items(), message, direction, now, answers)
                &&& match run_back(message, answers).0 {
                    Some(b) => {
                        &&& r == b
                        &&& final(self).stats.total_messages_processed == old(self).stats.total_messages_processed + 1
                        &&& final(self).stats.total_messages_blocked == old(self).stats.total_messages_blocked + 1
                        &&& final(self).stats.total_modifications_made == old(self).stats.total_modifications_made
                        &&& final(self).stats.method_entries() == old(self).stats.method_entries()
                    },
                    None => {
                        let end = run_back(message, answers);
                        &&& r.message == end.1
                        &&& !r.block
                        &&& r.modified == end.2
                        &&& (end.2 ==> (r.reasoning matches Some(t) && t@ == join_with(end.3, "; "@)))
                        &&& (!end.2 ==> r.reasoning is None)
                        &&& final(self).stats.total_messages_processed == old(self).stats.total_messages_processed + 1
                        &&& final(self).stats.total_modifications_made == old(self).stats.total_modifications_made
                            + if end.2 { 1int } else { 0int }
                        &&& final(self).stats.total_messages_blocked == old(self).stats.total_messages_blocked
                        &&& forall|m: Seq<char>| #[trigger] final(self).stats.processed_for(m) == old(self).stats.processed_for(m) + (
                            match message_method(message) {
                                Some(x) => if x == m { 1int } else { 0int },
                                None => 0int,
                            })
                    },
                }
            },
    {
        let ghost before = self.chain.items();
        let ghost msg0 = message;
        let method: Option<String> = match &message {
            JsonRpcMessage::Request(q) => Some(q.method.clone()),
            JsonRpcMessage::Notification(n) => Some(n.method.clone()),
            JsonRpcMessage::Response(_) => None,
        };
        let mut run = ChainRun::start(message);
        let ghost mut answers: Seq<Option<InterceptionResult>> = Seq::empty();
        let n = self.chain.len();
        let mut i: usize = 0;
        proof {
            assert(run.reasons@.map_values(|s: String| s@) =~= Seq::<Seq<char>>::empty());
        }
        while i < n
            invariant
                n == before.len(),
                n == self.chain.keys().len(),
                self.chain.items().len() == n,
                self.chain.keys() == old(self).chain.keys(),
                before == old(self).chain.items(),
                msg0 == message,
                self.stats == old(self).stats,
                old(self).stats.total_messages_processed < u64::MAX,
                old(self).stats.total_modifications_made < u64::MAX,
                old(self).stats.total_messages_blocked < u64::MAX,
                message_method(msg0) matches Some(m) ==> old(self).stats.processed_for(m) < u64::MAX,
                forall|j: int| 0 <= j < n ==> (#[trigger] before[j]).ready(),
                i <= n,
                answers.len() == i,
                run_back(msg0, answers) == (None::<InterceptionResult>, run.message, run.was_modified,
                    run.reasons@.map_values(|s: String| s@)),
                forall|j: int| 0 <= j < i ==> {
                    let seen = run_back(msg0, #[trigger] answers.take(j));
                    &&& seen.0 is None
                    &&& before[j].runs_on(seen.1, direction) ==> (answers[j] matches Some(a) && before[j].answer(seen.1, now, a, self.chain.items()[j]))
                    &&& !before[j].runs_on(seen.1, direction) ==> (answers[j] is None && self.chain.items()[j] == before[j])
                },
                forall|j: int| i <= j < n ==> #[trigger] self.chain.items()[j] == before[j],
                method is Some == message_method(msg0) is Some,
                method matches Some(m) ==> message_method(msg0) == Some(m@),
            decreases n - i,
        {
            let ghost items_before = self.chain.items();
            let ghost prev = answers;
            proof {
                assert(answers.take(i as int) =~= answers);
            }
            let context = MessageContext::new(run.message.duplicate(), direction);
            let placeholder = AnyInterceptor::Logging(LoggingInterceptor::new(false));
            let mut item = self.chain.swap_item(i, placeholder);
            assert(item == before[i as int]);
            if item.should_intercept(&context) {
                let res = item.intercept(context, now);
                let ghost a = res;
                let ghost after_item = item;
                self.chain.swap_item(i, item);
                proof {
                    answers = prev.push(Some(a));
                    assert(answers.drop_last() =~= prev);
                    assert forall|j: int| 0 <= j < i implies #[trigger] answers.take(j) == prev.take(j) by {
                        assert(answers.take(j) =~= prev.take(j));
                    }
                    assert(answers.take(i as int) =~= prev);
                    assert(self.chain.items()[i as int] == after_item);
                }
                match run.absorb(Ok(res)) {
                    ChainStep::Stop(b) => {
                        self.stats.record_blocked();
                        proof {
                            assert(run_back(msg0, answers).0 == Some(a));
                            assert(b == a);
                            assert(chain_trace(before, self.chain.items(), msg0, direction, now, answers));
                        }
                        return b;
                    },
                    ChainStep::Continue(next) => {
                        proof {
                            assert(next.reasons@.map_values(|s: String| s@) =~= run_back(msg0, answers).3);
                        }
                        run = next;
                    },
                }
            } else {
                self.chain.swap_item(i, item);
                proof {
                    answers = prev.push(None);
                    assert(answers.drop_last() =~= prev);
                    assert forall|j: int| 0 <= j < i implies #[trigger] answers.take(j) == prev.take(j) by {
                        assert(answers.take(j) =~= prev.take(j));
                    }
                    assert(answers.take(i as int) =~= prev);
                }
            }
            i = i + 1;
        }
        let was_modified = run.was_modified;
        let ghost reasons = run.reasons@.map_values(|s: String| s@);
        let r = run.finish();
        match &method {
            Some(m) => self.stats.record_finished(was_modified, Some(m.as_str())),
            None => self.stats.record_finished(was_modified, None),
        }
        proof {
            assert(chain_trace(before, self.chain.items(), msg0, direction, now, answers));
        }
        r
    }
}

impl AnyInterceptor {
    /// The interceptor's name, as `name` gives it.
    pub open spec fn name_spec(self) -> Seq<char> {
        match self {
            AnyInterceptor::Logging(_) => "LoggingInterceptor"@,
            AnyInterceptor::Validation(_) => "ValidationInterceptor"@,
            AnyInterceptor::RateLimit(_) => "RateLimitInterceptor"@,
            AnyInterceptor::Transform(_) => "TransformInterceptor"@,
        }
    }

    /// The interceptor's priority, as `priority` gives it.
    pub open spec fn priority_spec(self) -> u32 {
        match self {
            AnyInterceptor::Logging(_) => 10u32,
            AnyInterceptor::Validation(_) => 20u32,
            AnyInterceptor::RateLimit(_) => 30u32,
            AnyInterceptor::Transform(_) => 40u32,
        }
    }
}

} // verus!
