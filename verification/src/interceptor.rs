//! Interception of MCP traffic: the context an interceptor sees, what it
//! decides, the ordered chain of interceptors and how their decisions
//! combine for one message.
use vstd::prelude::*;
use crate::error::McpError;
use crate::json::JsonObject;
use crate::messages::jsonrpc::{JsonRpcMessage, JsonRpcNotification, request_id_text};
use crate::text::{owned, push_str, str_equal};

verus! {

/// Direction of message flow.
#[derive(Debug, Clone, Copy, PartialEq, Eq, Structural)]
pub enum MessageDirection {
    /// Message from client to server
    Outgoing,
    /// Message from server to client
    Incoming,
}

/// `chrono::Utc::now().timestamp_millis()`: the current time in
/// milliseconds since the Unix epoch. Nothing is claimed of the value, which
/// depends on the clock.
#[verifier::external_body]
fn utc_now_millis() -> (t: i64) {
    chrono::Utc::now().timestamp_millis()
}

/// The method a message names: requests and notifications have one,
/// responses do not.
pub open spec fn message_method(m: JsonRpcMessage) -> Option<Seq<char>> {
    match m {
        JsonRpcMessage::Request(req) => Some(req.method@),
        JsonRpcMessage::Notification(n) => Some(n.method@),
        JsonRpcMessage::Response(_) => None,
    }
}

/// The identifier a message carries, as text: requests and responses have
/// one, notifications do not.
pub open spec fn message_id_text(m: JsonRpcMessage) -> Option<Seq<char>> {
    match m {
        JsonRpcMessage::Request(req) => Some(request_id_text(req.id)),
        JsonRpcMessage::Response(resp) => Some(request_id_text(resp.id)),
        JsonRpcMessage::Notification(_) => None,
    }
}

/// Context for an intercepted message.
#[derive(Debug)]
pub struct MessageContext {
    /// The message being intercepted
    pub message: JsonRpcMessage,
    /// Direction of message flow
    pub direction: MessageDirection,
    /// When the message was intercepted, in milliseconds since the Unix epoch
    pub timestamp_ms: i64,
    /// Session identifier
    pub session_id: Option<String>,
    /// Additional metadata
    pub metadata: JsonObject,
}

impl MessageContext {
    /// The context of `message` flowing in `direction`, stamped now, with no
    /// session and no metadata.
    pub fn new(message: JsonRpcMessage, direction: MessageDirection) -> (r: Self)
        ensures
            r.message == message,
            r.direction == direction,
            r.session_id is None,
            r.metadata == JsonObject::Nil,
    {
        MessageContext {
            message,
            direction,
            timestamp_ms: utc_now_millis(),
            session_id: None,
            metadata: JsonObject::Nil,
        }
    }

    /// The method name, for requests and notifications.
    pub fn method(&self) -> (r: Option<&str>)
        ensures
            match message_method(self.message) {
                Some(m) => r is Some && r->0@ == m,
                None => r is None,
            },
    {
        match &self.message {
            JsonRpcMessage::Request(req) => Some(req.method.as_str()),
            JsonRpcMessage::Notification(n) => Some(n.method.as_str()),
            JsonRpcMessage::Response(_) => None,
        }
    }

    /// The message identifier as text, for requests and responses.
    pub fn id(&self) -> (r: Option<String>)
        ensures
            match message_id_text(self.message) {
                Some(t) => r is Some && r->0@ == t,
                None => r is None,
            },
    {
        match &self.message {
            JsonRpcMessage::Request(req) => Some(req.id.to_string()),
            JsonRpcMessage::Response(resp) => Some(resp.id.to_string()),
            JsonRpcMessage::Notification(_) => None,
        }
    }
}

/// What an interceptor decided about a message.
#[derive(Debug)]
pub struct InterceptionResult {
    /// Whether the message was modified
    pub modified: bool,
    /// The potentially modified message
    pub message: JsonRpcMessage,
    /// Whether to block the message (don't send/receive it)
    pub block: bool,
    /// Reason for blocking/modification
    pub reasoning: Option<String>,
}

/// The placeholder that a blocked result carries instead of a message.
pub open spec fn is_blocked_placeholder(m: JsonRpcMessage) -> bool {
    m matches JsonRpcMessage::Notification(n) && n.jsonrpc@ == "2.0"@ && n.method@ == "blocked"@
        && n.params is None
}

impl InterceptionResult {
    /// The message goes on unchanged.
    pub fn pass_through(message: JsonRpcMessage) -> (r: Self)
        ensures
            !r.modified,
            r.message == message,
            !r.block,
            r.reasoning is None,
    {
        InterceptionResult { modified: false, message, block: false, reasoning: None }
    }

    /// The message goes on as `message`, changed for the given reason.
    pub fn modified(message: JsonRpcMessage, reasoning: String) -> (r: Self)
        ensures
            r.modified,
            r.message == message,
            !r.block,
            r.reasoning == Some(reasoning),
    {
        InterceptionResult { modified: true, message, block: false, reasoning: Some(reasoning) }
    }

    /// The message is stopped for the given reason.
    pub fn blocked(reasoning: String) -> (r: Self)
        ensures
            !r.modified,
            r.block,
            r.reasoning == Some(reasoning),
            is_blocked_placeholder(r.message),
    {
        InterceptionResult {
            modified: false,
            message: JsonRpcMessage::Notification(JsonRpcNotification {
                jsonrpc: owned("2.0"),
                method: owned("blocked"),
                params: None,
            }),
            block: true,
            reasoning: Some(reasoning),
        }
    }
}

/// The counters an interceptor keeps.
#[derive(Debug, Clone, Copy, Default, PartialEq, Eq, Structural)]
pub struct InterceptorStats {
    /// Total messages intercepted
    pub total_intercepted: u64,
    /// Total messages modified
    pub total_modified: u64,
    /// Total messages blocked
    pub total_blocked: u64,
}

impl InterceptorStats {
    /// All counters at zero.
    pub fn zero() -> (r: Self)
        ensures
            r == (InterceptorStats { total_intercepted: 0, total_modified: 0, total_blocked: 0 }),
    {
        InterceptorStats { total_intercepted: 0, total_modified: 0, total_blocked: 0 }
    }

    /// The counters after one more message, modified and blocked as given.
    pub fn record(self, modified: bool, blocked: bool) -> (r: Self)
        requires
            self.total_intercepted < u64::MAX,
            self.total_modified < u64::MAX,
            self.total_blocked < u64::MAX,
        ensures
            r.total_intercepted == self.total_intercepted + 1,
            r.total_modified == self.total_modified + if modified { 1int } else { 0int },
            r.total_blocked == self.total_blocked + if blocked { 1int } else { 0int },
    {
        InterceptorStats {
            total_intercepted: self.total_intercepted + 1,
            total_modified: if modified { self.total_modified + 1 } else { self.total_modified },
            total_blocked: if blocked { self.total_blocked + 1 } else { self.total_blocked },
        }
    }
}

/// One registered interceptor: its name, its priority and the interceptor.
#[derive(Debug)]
pub struct ChainEntry<T> {
    pub name: String,
    pub priority: u32,
    pub item: T,
}

/// Interceptors in the order they run: by priority, lowest first, and in
/// order of registration among equal priorities.
#[derive(Debug)]
pub struct InterceptorChain<T> {
    entries: Vec<ChainEntry<T>>,
}

/// The names and priorities of a sequence of entries.
pub open spec fn entry_keys<T>(s: Seq<ChainEntry<T>>) -> Seq<(Seq<char>, u32)> {
    s.map_values(|e: ChainEntry<T>| (e.name@, e.priority))
}

/// The names, priorities and interceptors of a sequence of entries.
pub open spec fn entry_triples<T>(s: Seq<ChainEntry<T>>) -> Seq<(Seq<char>, u32, T)> {
    s.map_values(|e: ChainEntry<T>| (e.name@, e.priority, e.item))
}

/// The priorities never decrease along the chain.
pub open spec fn sorted_by_priority(s: Seq<(Seq<char>, u32)>) -> bool {
    forall|i: int, j: int| 0 <= i <= j < s.len() ==> s[i].1 <= s[j].1
}

/// Where an interceptor of priority `p` goes: after every entry whose
/// priority is at most `p`.
pub open spec fn insert_position(s: Seq<(Seq<char>, u32)>, p: u32) -> int {
    s.filter(|e: (Seq<char>, u32)| e.1 <= p).len() as int
}

impl<T> InterceptorChain<T> {
    /// The names and priorities, in running order.
    pub closed spec fn keys(self) -> Seq<(Seq<char>, u32)> {
        entry_keys(self.entries@)
    }

    /// The interceptors, in running order.
    pub closed spec fn items(self) -> Seq<T> {
        self.entries@.map_values(|e: ChainEntry<T>| e.item)
    }

    /// The registered interceptors, in running order, each with its name
    /// and priority.
    pub closed spec fn entries(self) -> Seq<(Seq<char>, u32, T)> {
        entry_triples(self.entries@)
    }

    /// The names and priorities, and the interceptors, are the two halves
    /// of the entries.
    pub proof fn lemma_projections(self)
        ensures
            self.keys() == self.entries().map_values(|e: (Seq<char>, u32, T)| (e.0, e.1)),
            self.items() == self.entries().map_values(|e: (Seq<char>, u32, T)| e.2),
            self.keys().len() == self.entries().len(),
            self.items().len() == self.entries().len(),
    {
        assert(self.keys() =~= self.entries().map_values(|e: (Seq<char>, u32, T)| (e.0, e.1)));
        assert(self.items() =~= self.entries().map_values(|e: (Seq<char>, u32, T)| e.2));
    }

    /// The chain is ordered by priority.
    pub open spec fn wf(self) -> bool {
        sorted_by_priority(self.keys())
    }

    /// An empty chain.
    pub fn new() -> (r: Self)
        ensures
            r.wf(),
            r.keys() == Seq::<(Seq<char>, u32)>::empty(),
            r.items() == Seq::<T>::empty(),
            r.entries() == Seq::<(Seq<char>, u32, T)>::empty(),
    {
        let r = InterceptorChain { entries: Vec::new() };
        proof {
            assert(r.keys() =~= Seq::<(Seq<char>, u32)>::empty());
            assert(r.items() =~= Seq::<T>::empty());
            assert(r.entries() =~= Seq::<(Seq<char>, u32, T)>::empty());
        }
        r
    }

    /// The number of interceptors.
    pub fn len(&self) -> (n: usize)
        ensures
            n == self.keys().len(),
            n == self.items().len(),
    {
        self.entries.len()
    }

    /// The interceptor at position `i` in running order.
    pub fn get(&self, i: usize) -> (r: &T)
        requires
            i < self.keys().len(),
        ensures
            *r == self.items()[i as int],
    {
        &self.entries[i].item
    }

    /// The name of the interceptor at position `i`.
    pub fn name_at(&self, i: usize) -> (r: &str)
        requires
            i < self.keys().len(),
        ensures
            r@ == self.keys()[i as int].0,
    {
        self.entries[i].name.as_str()
    }

    /// Puts `item` at position `i` in place of the interceptor there, and
    /// gives that one back; names, priorities and the other interceptors
    /// stay.
    pub fn swap_item(&mut self, i: usize, item: T) -> (r: T)
        requires
            i < old(self).keys().len(),
        ensures
            final(self).keys() == old(self).keys(),
            final(self).items() == old(self).items().update(i as int, item),
            final(self).entries() == old(self).entries().update(i as int,
                (old(self).entries()[i as int].0, old(self).entries()[i as int].1, item)),
            r == old(self).items()[i as int],
    {
        let ghost before = self.entries@;
        let mut x = item;
        std::mem::swap(&mut x, &mut self.entries[i].item);
        proof {
            assert(self.keys() =~= entry_keys(before));
            assert(self.items() =~= before.map_values(|e: ChainEntry<T>| e.item).update(i as int, item));
            assert(self.entries() =~= entry_triples(before).update(i as int,
                (entry_triples(before)[i as int].0, entry_triples(before)[i as int].1, item)));
        }
        x
    }

    /// The names, in running order.
    pub fn names(&self) -> (r: Vec<String>)
        ensures
            r@.len() == self.keys().len(),
            forall|i: int| 0 <= i < r@.len() ==> #[trigger] r@[i]@ == self.keys()[i].0,
    {
        let mut r: Vec<String> = Vec::new();
        let mut i: usize = 0;
        while i < self.entries.len()
            invariant
                i <= self.entries@.len(),
                r@.len() == i,
                forall|j: int| 0 <= j < i ==> #[trigger] r@[j]@ == self.keys()[j].0,
            decreases self.entries@.len() - i,
        {
            r.push(self.entries[i].name.clone());
            i = i + 1;
        }
        r
    }

    /// Registers an interceptor; it runs after every interceptor whose
    /// priority is at most its own, and before the others.
    pub fn add(&mut self, name: String, priority: u32, item: T)
        requires
            old(self).wf(),
        ensures
            final(self).wf(),
            final(self).keys() == old(self).keys().insert(insert_position(old(self).keys(), priority), (name@, priority)),
            final(self).items() == old(self).items().insert(insert_position(old(self).keys(), priority), item),
            final(self).entries() == old(self).entries().insert(insert_position(old(self).keys(), priority), (name@, priority, item)),
    {
        let ghost ks = self.keys();
        let mut pos: usize = 0;
        while pos < self.entries.len() && self.entries[pos].priority <= priority
            invariant
                pos <= self.entries@.len(),
                ks == self.keys(),
                sorted_by_priority(ks),
                forall|j: int| 0 <= j < pos ==> #[trigger] ks[j].1 <= priority,
            decreases self.entries@.len() - pos,
        {
            pos = pos + 1;
        }
        proof {
            let pred = |e: (Seq<char>, u32)| e.1 <= priority;
            assert(forall|j: int| pos <= j < ks.len() ==> !(#[trigger] ks[j].1 <= priority)) by {
                if pos < ks.len() {
                    assert(ks[pos as int].1 > priority);
                }
            }
            lemma_filter_prefix(ks, pred, pos as int);
        }
        let ghost before = self.entries@;
        self.entries.insert(pos, ChainEntry { name, priority, item });
        proof {
            let k = (name@, priority);
            assert(self.keys() =~= ks.insert(pos as int, k));
            assert(self.items() =~= before.map_values(|e: ChainEntry<T>| e.item).insert(pos as int, item));
            assert(self.entries() =~= entry_triples(before).insert(pos as int, (name@, priority, item)));
            let nk = self.keys();
            assert forall|i: int, j: int| 0 <= i <= j < nk.len() implies nk[i].1 <= nk[j].1 by {
                if i < pos && j < pos {
                } else if i < pos && j == pos {
                } else if i < pos {
                    assert(nk[j] == ks[j - 1]);
                } else if i == pos && j > pos {
                    assert(nk[j] == ks[j - 1]);
                    assert(ks[j - 1].1 > priority);
                } else if i > pos {
                    assert(nk[i] == ks[i - 1]);
                    assert(nk[j] == ks[j - 1]);
                }
            }
        }
    }

    /// Unregisters every interceptor named `name`; tells whether there was
    /// one.
    pub fn remove(&mut self, name: &str) -> (found: bool)
        requires
            old(self).wf(),
        ensures
            final(self).wf(),
            final(self).keys() == old(self).keys().filter(|e: (Seq<char>, u32)| e.0 != name@),
            final(self).entries() == old(self).entries().filter(|e: (Seq<char>, u32, T)| e.0 != name@),
            found == exists|i: int| 0 <= i < old(self).keys().len() && old(self).keys()[i].0 == name@,
    {
        let ghost ks = self.keys();
        let ghost ts = self.entries();
        let ghost pred = |e: (Seq<char>, u32)| e.0 != name@;
        let ghost pred3 = |e: (Seq<char>, u32, T)| e.0 != name@;
        let mut rest: Vec<ChainEntry<T>> = Vec::new();
        std::mem::swap(&mut rest, &mut self.entries);
        let ghost orig = rest@;
        let mut kept: Vec<ChainEntry<T>> = Vec::new();
        let mut found = false;
        let mut k: usize = 0;
        let n0 = rest.len();
        proof {
            assert(entry_keys(orig).take(0).filter(pred) =~= Seq::<(Seq<char>, u32)>::empty());
            assert(entry_keys(kept@) =~= Seq::<(Seq<char>, u32)>::empty());
            assert(entry_triples(orig).take(0).filter(pred3) =~= Seq::<(Seq<char>, u32, T)>::empty());
            assert(entry_triples(kept@) =~= Seq::<(Seq<char>, u32, T)>::empty());
            assert(orig.skip(0) =~= orig);
            assert(orig.len() == rest@.len());
        }
        while rest.len() > 0
            invariant
                orig.len() <= usize::MAX,
                ks == entry_keys(orig),
                k <= orig.len(),
                rest@ == orig.skip(k as int),
                entry_keys(kept@) == ks.take(k as int).filter(pred),
                ts == entry_triples(orig),
                entry_triples(kept@) == ts.take(k as int).filter(pred3),
                found == exists|i: int| 0 <= i < k && ks[i].0 == name@,
                pred == (|e: (Seq<char>, u32)| e.0 != name@),
                pred3 == (|e: (Seq<char>, u32, T)| e.0 != name@),
            decreases rest@.len(),
        {
            let e = rest.remove(0);
            proof {
                assert(orig[k as int] == e);
                assert(rest@ =~= orig.skip(k + 1));
                ks.lemma_take_succ_push(k as int);
                ks.take(k as int).lemma_filter_push(ks[k as int], pred);
                assert(ks[k as int] == (e.name@, e.priority));
                ts.lemma_take_succ_push(k as int);
                ts.take(k as int).lemma_filter_push(ts[k as int], pred3);
                assert(ts[k as int] == (e.name@, e.priority, e.item));
            }
            if str_equal(e.name.as_str(), name) {
                found = true;
            } else {
                let ghost kb = kept@;
                kept.push(e);
                proof {
                    assert(entry_keys(kept@) =~= entry_keys(kb).push((e.name@, e.priority)));
                    assert(entry_triples(kept@) =~= entry_triples(kb).push((e.name@, e.priority, e.item)));
                }
            }
            k = k + 1;
        }
        proof {
            assert(k == orig.len()) by {
                assert(orig.skip(k as int).len() == 0);
            }
            assert(ks.take(k as int) =~= ks);
            assert(ts.take(k as int) =~= ts);
            let nk = entry_keys(kept@);
            assert forall|i: int, j: int| 0 <= i <= j < nk.len() implies nk[i].1 <= nk[j].1 by {
                lemma_filter_sorted(ks, pred, i, j);
            }
        }
        self.entries = kept;
        found
    }
}

/// When the entries satisfying `pred` form the first `n` of a sequence,
/// filtering by `pred` keeps exactly those `n`.
proof fn lemma_filter_prefix(s: Seq<(Seq<char>, u32)>, pred: spec_fn((Seq<char>, u32)) -> bool, n: int)
    requires
        0 <= n <= s.len(),
        forall|j: int| 0 <= j < n ==> pred(#[trigger] s[j]),
        forall|j: int| n <= j < s.len() ==> !pred(#[trigger] s[j]),
    ensures
        s.filter(pred).len() == n,
    decreases s.len(),
{
    if s.len() == 0 {
    } else {
        let init = s.drop_last();
        assert(s =~= init.push(s.last()));
        init.lemma_filter_push(s.last(), pred);
        if n == s.len() {
            lemma_filter_prefix(init, pred, n - 1);
        } else {
            lemma_filter_prefix(init, pred, n);
        }
    }
}

/// Filtering keeps the order of what it keeps, so a sorted sequence stays
/// sorted.
proof fn lemma_filter_sorted(s: Seq<(Seq<char>, u32)>, pred: spec_fn((Seq<char>, u32)) -> bool, i: int, j: int)
    requires
        sorted_by_priority(s),
        0 <= i <= j < s.filter(pred).len(),
    ensures
        s.filter(pred)[i].1 <= s.filter(pred)[j].1,
    decreases s.len(),
{
    if s.len() == 0 {
        assert(s.filter(pred) =~= Seq::<(Seq<char>, u32)>::empty());
    } else {
        let init = s.drop_last();
        assert(s =~= init.push(s.last()));
        init.lemma_filter_push(s.last(), pred);
        assert(sorted_by_priority(init));
        if pred(s.last()) && j == s.filter(pred).len() - 1 {
            if i < j {
                let x = init.filter(pred)[i];
                assert(init.filter(pred).contains(x));
                assert(init.contains(x)) by {
                    init.lemma_filter_contains_rev(pred, x);
                }
                let k = choose|k: int| 0 <= k < init.len() && init[k] == x;
                assert(s[k] == x);
            }
        } else {
            lemma_filter_sorted(init, pred, i, j);
        }
    }
}

/// The texts `parts` joined with `sep` between neighbours.
pub open spec fn join_with(parts: Seq<Seq<char>>, sep: Seq<char>) -> Seq<char>
    decreases parts.len(),
{
    if parts.len() == 0 {
        Seq::empty()
    } else if parts.len() == 1 {
        parts[0]
    } else {
        join_with(parts.drop_last(), sep) + sep + parts.last()
    }
}

/// The strings of `parts` joined with `sep` between neighbours.
pub fn join_strings(parts: &Vec<String>, sep: &str) -> (r: String)
    ensures
        r@ == join_with(parts@.map_values(|s: String| s@), sep@),
{
    let ghost views = parts@.map_values(|s: String| s@);
    let mut r = String::new();
    let mut i: usize = 0;
    while i < parts.len()
        invariant
            i <= parts@.len(),
            views == parts@.map_values(|s: String| s@),
            r@ == join_with(views.take(i as int), sep@),
        decreases parts@.len() - i,
    {
        proof {
            assert(views.take(i + 1).drop_last() =~= views.take(i as int));
        }
        if i > 0 {
            push_str(&mut r, sep);
        }
        push_str(&mut r, parts[i].as_str());
        proof {
            if i == 0 {
                assert(views.take(1).len() == 1);
                assert(r@ =~= views.take(1)[0]);
            }
        }
        i = i + 1;
    }
    proof {
        assert(views.take(parts@.len() as int) =~= views);
    }
    r
}

/// The state of one message part-way along the chain: the message as the
/// interceptors so far left it, whether any of them modified it, and their
/// reasons.
#[derive(Debug)]
pub struct ChainRun {
    pub message: JsonRpcMessage,
    pub was_modified: bool,
    pub reasons: Vec<String>,
}

/// The next step after an interceptor has answered.
#[derive(Debug)]
pub enum ChainStep {
    /// Go on to the next interceptor
    Continue(ChainRun),
    /// Stop: the message is blocked with this result
    Stop(InterceptionResult),
}

impl ChainRun {
    /// The chain has not yet touched `message`.
    pub fn start(message: JsonRpcMessage) -> (r: Self)
        ensures
            r.message == message,
            !r.was_modified,
            r.reasons@.len() == 0,
    {
        ChainRun { message, was_modified: false, reasons: Vec::new() }
    }

    /// Takes in one interceptor's answer: a block stops the chain with that
    /// result; a modification replaces the message and records its reason;
    /// an unmodified result or a failure of the interceptor leaves the run as
    /// it was.
    pub fn absorb(self, outcome: Result<InterceptionResult, McpError>) -> (r: ChainStep)
        ensures
            match outcome {
                Ok(res) => if res.block {
                    r == ChainStep::Stop(res)
                } else if res.modified {
                    r matches ChainStep::Continue(next) && next.message == res.message && next.was_modified
                        && next.reasons@ == (match res.reasoning {
                            Some(reason) => self.reasons@.push(reason),
                            None => self.reasons@,
                        })
                } else {
                    r == ChainStep::Continue(self)
                },
                Err(_) => r == ChainStep::Continue(self),
            },
    {
        match outcome {
            Ok(res) => {
                if res.block {
                    ChainStep::Stop(res)
                } else if res.modified {
                    let mut reasons = self.reasons;
                    match res.reasoning {
                        Some(reason) => reasons.push(reason),
                        None => {},
                    }
                    ChainStep::Continue(ChainRun { message: res.message, was_modified: true, reasons })
                } else {
                    ChainStep::Continue(self)
                }
            },
            Err(_) => ChainStep::Continue(self),
        }
    }

    /// The overall result once every interceptor has run: modified, with the
    /// reasons joined by "; ", if any interceptor modified the message, and
    /// otherwise the message passed through.
    pub fn finish(self) -> (r: InterceptionResult)
        ensures
            r.message == self.message,
            !r.block,
            r.modified == self.was_modified,
            self.was_modified ==> (r.reasoning matches Some(t) && t@ == join_with(
                self.reasons@.map_values(|s: String| s@),
                "; "@,
            )),
            !self.was_modified ==> r.reasoning is None,
    {
        if self.was_modified {
            let reasoning = join_strings(&self.reasons, "; ");
            InterceptionResult::modified(self.message, reasoning)
        } else {
            InterceptionResult::pass_through(self.message)
        }
    }
}

/// The manager's counters: messages processed, modified and blocked, and
/// how many were processed per method.
#[derive(Debug)]
pub struct ManagerStats {
    pub total_messages_processed: u64,
    pub total_modifications_made: u64,
    pub total_messages_blocked: u64,
    pub by_method: Vec<(String, u64)>,
}

/// The count recorded for `method` in a list of (method, count) pairs.
pub open spec fn method_count(entries: Seq<(Seq<char>, u64)>, method: Seq<char>) -> nat
    decreases entries.len(),
{
    if entries.len() == 0 {
        0
    } else if entries.last().0 == method {
        entries.last().1 as nat
    } else {
        method_count(entries.drop_last(), method)
    }
}

impl ManagerStats {
    /// The per-method counts, as (method, count) pairs.
    pub closed spec fn method_entries(self) -> Seq<(Seq<char>, u64)> {
        self.by_method@.map_values(|e: (String, u64)| (e.0@, e.1))
    }

    /// How many messages of `method` were processed.
    pub open spec fn processed_for(self, method: Seq<char>) -> nat {
        method_count(self.method_entries(), method)
    }

    /// Nothing processed yet.
    pub fn new() -> (r: Self)
        ensures
            r.total_messages_processed == 0,
            r.total_modifications_made == 0,
            r.total_messages_blocked == 0,
            r.method_entries() == Seq::<(Seq<char>, u64)>::empty(),
            forall|m: Seq<char>| r.processed_for(m) == 0,
    {
        let r = ManagerStats {
            total_messages_processed: 0,
            total_modifications_made: 0,
            total_messages_blocked: 0,
            by_method: Vec::new(),
        };
        proof {
            assert(r.method_entries() =~= Seq::<(Seq<char>, u64)>::empty());
        }
        r
    }

    /// How many messages of `method` were processed.
    pub fn count_for(&self, method: &str) -> (r: u64)
        ensures
            r == self.processed_for(method@),
    {
        let ghost es = self.method_entries();
        let mut i: usize = self.by_method.len();
        proof {
            assert(es.take(i as int) =~= es);
        }
        while i > 0
            invariant
                i <= self.by_method@.len(),
                es == self.method_entries(),
                method_count(es, method@) == method_count(es.take(i as int), method@),
            decreases i,
        {
            proof {
                assert(es.take(i as int).drop_last() =~= es.take(i - 1));
            }
            if str_equal(self.by_method[i - 1].0.as_str(), method) {
                return self.by_method[i - 1].1;
            }
            i = i - 1;
        }
        proof {
            assert(es.take(0) =~= Seq::<(Seq<char>, u64)>::empty());
        }
        0
    }

    /// Records a blocked message.
    pub fn record_blocked(&mut self)
        requires
            old(self).total_messages_processed < u64::MAX,
            old(self).total_messages_blocked < u64::MAX,
        ensures
            final(self).total_messages_processed == old(self).total_messages_processed + 1,
            final(self).total_messages_blocked == old(self).total_messages_blocked + 1,
            final(self).total_modifications_made == old(self).total_modifications_made,
            final(self).method_entries() == old(self).method_entries(),
    {
        self.total_messages_processed = self.total_messages_processed + 1;
        self.total_messages_blocked = self.total_messages_blocked + 1;
    }

    /// Records a message that went through the whole chain, modified or not,
    /// under its method if it has one.
    pub fn record_finished(&mut self, was_modified: bool, method: Option<&str>)
        requires
            old(self).total_messages_processed < u64::MAX,
            old(self).total_modifications_made < u64::MAX,
            method matches Some(m) ==> old(self).processed_for(m@) < u64::MAX,
        ensures
            final(self).total_messages_processed == old(self).total_messages_processed + 1,
            final(self).total_modifications_made == old(self).total_modifications_made + if was_modified { 1int } else { 0int },
            final(self).total_messages_blocked == old(self).total_messages_blocked,
            forall|m: Seq<char>| #[trigger] final(self).processed_for(m) == old(self).processed_for(m) + (
                match method {
                    Some(x) => if x@ == m { 1int } else { 0int },
                    None => 0int,
                }
            ),
    {
        self.total_messages_processed = self.total_messages_processed + 1;
        if was_modified {
            self.total_modifications_made = self.total_modifications_made + 1;
        }
        match method {
            Some(m) => {
                let c = self.count_for(m);
                let ghost before = self.method_entries();
                self.by_method.push((owned(m), c + 1));
                proof {
                    assert(self.method_entries() =~= before.push((m@, (c + 1) as u64)));
                    assert(self.method_entries().drop_last() =~= before);
                }
            },
            None => {},
        }
    }
}

} // verus!
