//! The conversation context given to a model that predicts the next tool
//! call: the session, then the most recent messages, as text.
use vstd::prelude::*;
use crate::common::{AppliedTransformation, MessageStatus, SessionStatus};
use crate::interceptor::{join_strings, join_with};
use crate::text::{int_decimal, nat_decimal, owned, push_decimal, push_str, str_debug, str_debug_text, i64_to_decimal};

verus! {

/// The text that `Debug` gives for a session status.
pub open spec fn session_status_debug(s: SessionStatus) -> Seq<char> {
    match s {
        SessionStatus::Starting => "Starting"@,
        SessionStatus::Active => "Active"@,
        SessionStatus::Idle => "Idle"@,
        SessionStatus::Completed => "Completed"@,
        SessionStatus::Failed(m) => "Failed("@ + str_debug_text(m@) + ")"@,
    }
}

/// The text that `Debug` gives for a message status.
pub open spec fn message_status_debug(s: MessageStatus) -> Seq<char> {
    match s {
        MessageStatus::Pending => "Pending"@,
        MessageStatus::InFlight => "InFlight"@,
        MessageStatus::Completed => "Completed"@,
        MessageStatus::Failed(m) => "Failed("@ + str_debug_text(m@) + ")"@,
    }
}

impl SessionStatus {
    /// The status as `Debug` writes it.
    pub fn debug_text(&self) -> (r: String)
        ensures
            r@ == session_status_debug(*self),
    {
        match self {
            SessionStatus::Starting => owned("Starting"),
            SessionStatus::Active => owned("Active"),
            SessionStatus::Idle => owned("Idle"),
            SessionStatus::Completed => owned("Completed"),
            SessionStatus::Failed(m) => {
                let mut r = owned("Failed(");
                let q = str_debug(m.as_str());
                push_str(&mut r, q.as_str());
                push_str(&mut r, ")");
                r
            },
        }
    }
}

impl MessageStatus {
    /// The status as `Debug` writes it.
    pub fn debug_text(&self) -> (r: String)
        ensures
            r@ == message_status_debug(*self),
    {
        match self {
            MessageStatus::Pending => owned("Pending"),
            MessageStatus::InFlight => owned("InFlight"),
            MessageStatus::Completed => owned("Completed"),
            MessageStatus::Failed(m) => {
                let mut r = owned("Failed(");
                let q = str_debug(m.as_str());
                push_str(&mut r, q.as_str());
                push_str(&mut r, ")");
                r
            },
        }
    }
}

/// How well the model predicted tools in a session. The ratios are given
/// as the caller formats them: the accuracy as a percentage with one
/// decimal, the optimization score with two.
#[derive(Debug)]
pub struct PredictionMetrics {
    pub accuracy_percent: String,
    pub successful_predictions: u64,
    pub total_predictions: u64,
    pub optimization_score: String,
}

/// The session a conversation belongs to.
#[derive(Debug)]
pub struct ContextSession {
    pub id: String,
    pub request_count: u64,
    pub status: SessionStatus,
    pub llm_predictions: Option<PredictionMetrics>,
}

/// A tool prediction made for a message; the confidence is given with two
/// decimals.
#[derive(Debug)]
pub struct ToolPredictionRecord {
    pub predicted_tool: String,
    pub confidence: String,
    pub actual_tool: Option<String>,
    pub was_accurate: bool,
}

/// A message of the conversation, with what the context shows of it.
#[derive(Debug)]
pub struct ContextMessage {
    /// The method the client called
    pub method: String,
    pub status: MessageStatus,
    /// Milliseconds from receipt to response, when it was answered
    pub elapsed_ms: Option<i64>,
    /// The request's parameters as pretty-printed JSON, if it had any
    pub parameters: Option<String>,
    pub llm_prediction: Option<ToolPredictionRecord>,
    pub transformations: Vec<AppliedTransformation>,
}

/// The session part of the context.
pub open spec fn session_block(s: ContextSession) -> Seq<char> {
    "=== Session Context ===\n"@
        + "Session ID: "@ + s.id@ + "\n"@
        + "Request Count: "@ + nat_decimal(s.request_count as nat) + "\n"@
        + "Status: "@ + session_status_debug(s.status) + "\n"@
        + (match s.llm_predictions {
            Some(m) => "Prediction Accuracy: "@ + m.accuracy_percent@ + "% ("@ + nat_decimal(m.successful_predictions as nat)
                + "/"@ + nat_decimal(m.total_predictions as nat) + ")\n"@
                + "Optimization Score: "@ + m.optimization_score@ + "\n"@,
            None => Seq::empty(),
        })
        + "\n"@
}

/// The names of the transformation rules, in order.
pub open spec fn rule_names(ts: Seq<AppliedTransformation>) -> Seq<Seq<char>> {
    ts.map_values(|t: AppliedTransformation| t.rule_name@)
}

/// The prediction part of a message.
pub open spec fn prediction_block(p: ToolPredictionRecord) -> Seq<char> {
    "Predicted Tool: "@ + p.predicted_tool@ + " (confidence: "@ + p.confidence@ + ")\n"@
        + match p.actual_tool {
            Some(a) => "Actual Tool: "@ + a@ + " "@ + (if p.was_accurate { "✓"@ } else { "✗"@ }) + "\n"@,
            None => Seq::empty(),
        }
}

/// The heading, method and status of message number `n`.
pub open spec fn message_head(n: nat, m: ContextMessage) -> Seq<char> {
    "\n[Message "@ + nat_decimal(n) + "]\n"@
        + "Method: "@ + m.method@ + "\n"@
        + "Status: "@ + message_status_debug(m.status) + "\n"@
}

/// How long a message took, when timing is shown.
pub open spec fn timing_part(m: ContextMessage, timing: bool) -> Seq<char> {
    if timing {
        "Duration: "@ + int_decimal(match m.elapsed_ms { Some(d) => d as int, None => 0 }) + "ms\n"@
    } else {
        Seq::empty()
    }
}

/// A message's parameters, when they are shown and it has some.
pub open spec fn parameters_part(m: ContextMessage, parameters: bool) -> Seq<char> {
    match m.parameters {
        Some(p) => if parameters { "Parameters: "@ + p@ + "\n"@ } else { Seq::empty() },
        None => Seq::empty(),
    }
}

/// A message's prediction, when predictions are shown and it has one.
pub open spec fn prediction_part(m: ContextMessage, predictions: bool) -> Seq<char> {
    match m.llm_prediction {
        Some(p) => if predictions { prediction_block(p) } else { Seq::empty() },
        None => Seq::empty(),
    }
}

/// The transformations applied to a message, if any.
pub open spec fn transformations_part(m: ContextMessage) -> Seq<char> {
    if m.transformations@.len() > 0 {
        "Transformations Applied: "@ + join_with(rule_names(m.transformations@), ", "@) + "\n"@
    } else {
        Seq::empty()
    }
}

/// The part of the context for message number `n`.
pub open spec fn message_block(n: nat, m: ContextMessage, timing: bool, parameters: bool, predictions: bool) -> Seq<char> {
    message_head(n, m) + timing_part(m, timing) + parameters_part(m, parameters) + prediction_part(m, predictions)
        + transformations_part(m)
}

/// The parts for the messages, numbered from 1.
pub open spec fn message_blocks(ms: Seq<ContextMessage>, timing: bool, parameters: bool, predictions: bool) -> Seq<char>
    decreases ms.len(),
{
    if ms.len() == 0 {
        Seq::empty()
    } else {
        message_blocks(ms.drop_last(), timing, parameters, predictions)
            + message_block(ms.len(), ms.last(), timing, parameters, predictions)
    }
}

/// The last `max` messages, or all of them when there are fewer.
pub open spec fn recent_messages(ms: Seq<ContextMessage>, max: nat) -> Seq<ContextMessage> {
    if ms.len() <= max { ms } else { ms.skip(ms.len() - max) }
}

/// Builds the context text from a session and its messages.
#[derive(Debug)]
pub struct ConversationContextBuilder {
    pub messages: Vec<ContextMessage>,
    pub session: Option<ContextSession>,
    pub max_messages: usize,
    pub include_timing: bool,
    pub include_parameters: bool,
    pub include_predictions: bool,
}

/// The context text a builder produces: the session if any, the history of
/// recent messages (or a note that there is none), and the heading of the
/// current request.
pub open spec fn context_text(b: ConversationContextBuilder) -> Seq<char> {
    let recent = recent_messages(b.messages@, b.max_messages as nat);
    (match b.session {
        Some(s) => session_block(s),
        None => Seq::empty(),
    })
        + "=== Conversation History ===\n"@
        + (if recent.len() == 0 {
            "(No previous messages)\n"@
        } else {
            message_blocks(recent, b.include_timing, b.include_parameters, b.include_predictions)
        })
        + "\n=== Current Request ===\n"@
}

/// Appends the heading, method and status of message number `n`.
fn push_message_head(ctx: &mut String, n: u64, m: &ContextMessage)
    ensures
        final(ctx)@ == old(ctx)@ + message_head(n as nat, *m),
{
    push_str(ctx, "\n[Message ");
    push_decimal(ctx, n);
    push_str(ctx, "]\n");
    push_str(ctx, "Method: ");
    push_str(ctx, m.method.as_str());
    push_str(ctx, "\n");
    push_str(ctx, "Status: ");
    let st = m.status.debug_text();
    push_str(ctx, st.as_str());
    push_str(ctx, "\n");
    proof {
        assert(final(ctx)@ =~= old(ctx)@ + message_head(n as nat, *m));
    }
}

/// Appends how long a message took, when timing is shown.
fn push_timing(ctx: &mut String, m: &ContextMessage, timing: bool)
    ensures
        final(ctx)@ == old(ctx)@ + timing_part(*m, timing),
{
    if timing {
        push_str(ctx, "Duration: ");
        let d: i64 = match m.elapsed_ms {
            Some(d) => d,
            None => 0,
        };
        let dt = i64_to_decimal(d);
        push_str(ctx, dt.as_str());
        push_str(ctx, "ms\n");
        proof {
            assert(final(ctx)@ =~= old(ctx)@ + timing_part(*m, timing));
        }
    } else {
        proof {
            assert(final(ctx)@ =~= old(ctx)@ + timing_part(*m, timing));
        }
    }
}

/// Appends a message's parameters, when shown.
fn push_parameters(ctx: &mut String, m: &ContextMessage, parameters: bool)
    ensures
        final(ctx)@ == old(ctx)@ + parameters_part(*m, parameters),
{
    match &m.parameters {
        Some(p) => if parameters {
            push_str(ctx, "Parameters: ");
            push_str(ctx, p.as_str());
            push_str(ctx, "\n");
        },
        None => {},
    }
    proof {
        assert(final(ctx)@ =~= old(ctx)@ + parameters_part(*m, parameters));
    }
}

/// Appends a message's prediction, when shown.
fn push_prediction(ctx: &mut String, m: &ContextMessage, predictions: bool)
    ensures
        final(ctx)@ == old(ctx)@ + prediction_part(*m, predictions),
{
    match &m.llm_prediction {
        Some(p) => if predictions {
            push_str(ctx, "Predicted Tool: ");
            push_str(ctx, p.predicted_tool.as_str());
            push_str(ctx, " (confidence: ");
            push_str(ctx, p.confidence.as_str());
            push_str(ctx, ")\n");
            match &p.actual_tool {
                Some(a) => {
                    push_str(ctx, "Actual Tool: ");
                    push_str(ctx, a.as_str());
                    push_str(ctx, " ");
                    push_str(ctx, if p.was_accurate { "✓" } else { "✗" });
                    push_str(ctx, "\n");
                },
                None => {},
            }
        },
        None => {},
    }
    proof {
        assert(final(ctx)@ =~= old(ctx)@ + prediction_part(*m, predictions));
    }
}

/// Appends the transformations applied to a message, if any.
fn push_transformations(ctx: &mut String, m: &ContextMessage)
    ensures
        final(ctx)@ == old(ctx)@ + transformations_part(*m),
{
    if m.transformations.len() > 0 {
        push_str(ctx, "Transformations Applied: ");
        let mut names: Vec<String> = Vec::new();
        let mut i: usize = 0;
        while i < m.transformations.len()
            invariant
                i <= m.transformations@.len(),
                names@.len() == i,
                forall|j: int| 0 <= j < i ==> #[trigger] names@[j]@ == m.transformations@[j].rule_name@,
            decreases m.transformations@.len() - i,
        {
            names.push(m.transformations[i].rule_name.clone());
            i = i + 1;
        }
        proof {
            assert(names@.map_values(|s: String| s@) =~= rule_names(m.transformations@));
        }
        let joined = join_strings(&names, ", ");
        push_str(ctx, joined.as_str());
        push_str(ctx, "\n");
    }
    proof {
        assert(final(ctx)@ =~= old(ctx)@ + transformations_part(*m));
    }
}

/// Appends the part for message number `n`.
fn push_message_block(ctx: &mut String, n: u64, m: &ContextMessage, timing: bool, parameters: bool, predictions: bool)
    ensures
        final(ctx)@ == old(ctx)@ + message_block(n as nat, *m, timing, parameters, predictions),
{
    push_message_head(ctx, n, m);
    push_timing(ctx, m, timing);
    push_parameters(ctx, m, parameters);
    push_prediction(ctx, m, predictions);
    push_transformations(ctx, m);
    proof {
        assert(final(ctx)@ =~= old(ctx)@ + message_block(n as nat, *m, timing, parameters, predictions));
    }
}

impl ConversationContextBuilder {
    /// A builder with no messages and no session, showing the last 10
    /// messages with their timing and predictions but not their
    /// parameters.
    pub fn new() -> (r: Self)
        ensures
            r.messages@.len() == 0,
            r.session is None,
            r.max_messages == 10,
            r.include_timing,
            !r.include_parameters,
            r.include_predictions,
    {
        ConversationContextBuilder {
            messages: Vec::new(),
            session: None,
            max_messages: 10,
            include_timing: true,
            include_parameters: false,
            include_predictions: true,
        }
    }

    /// The builder with these messages, oldest first.
    pub fn with_messages(self, messages: Vec<ContextMessage>) -> (r: Self)
        ensures
            r == (ConversationContextBuilder { messages, ..self }),
    {
        ConversationContextBuilder { messages, ..self }
    }

    /// The builder with this session.
    pub fn with_session(self, session: ContextSession) -> (r: Self)
        ensures
            r == (ConversationContextBuilder { session: Some(session), ..self }),
    {
        ConversationContextBuilder { session: Some(session), ..self }
    }

    /// The builder showing at most `max` messages.
    pub fn max_messages(self, max: usize) -> (r: Self)
        ensures
            r == (ConversationContextBuilder { max_messages: max, ..self }),
    {
        ConversationContextBuilder { max_messages: max, ..self }
    }

    /// The builder showing, or not, how long each message took.
    pub fn include_timing(self, shown: bool) -> (r: Self)
        ensures
            r == (ConversationContextBuilder { include_timing: shown, ..self }),
    {
        ConversationContextBuilder { include_timing: shown, ..self }
    }

    /// The builder showing, or not, the parameters of each message.
    pub fn include_parameters(self, shown: bool) -> (r: Self)
        ensures
            r == (ConversationContextBuilder { include_parameters: shown, ..self }),
    {
        ConversationContextBuilder { include_parameters: shown, ..self }
    }

    /// The builder showing, or not, earlier predictions.
    pub fn include_predictions(self, shown: bool) -> (r: Self)
        ensures
            r == (ConversationContextBuilder { include_predictions: shown, ..self }),
    {
        ConversationContextBuilder { include_predictions: shown, ..self }
    }

    /// The context text.
    pub fn build(self) -> (r: String)
        ensures
            r@ == context_text(self),
    {
        let ghost b = self;
        let mut context = String::new();
        match &self.session {
            Some(s) => {
                push_str(&mut context, "=== Session Context ===\n");
                push_str(&mut context, "Session ID: ");
                push_str(&mut context, s.id.as_str());
                push_str(&mut context, "\n");
                push_str(&mut context, "Request Count: ");
                push_decimal(&mut context, s.request_count);
                push_str(&mut context, "\n");
                push_str(&mut context, "Status: ");
                let st = s.status.debug_text();
                push_str(&mut context, st.as_str());
                push_str(&mut context, "\n");
                match &s.llm_predictions {
                    Some(m) => {
                        push_str(&mut context, "Prediction Accuracy: ");
                        push_str(&mut context, m.accuracy_percent.as_str());
                        push_str(&mut context, "% (");
                        push_decimal(&mut context, m.successful_predictions);
                        push_str(&mut context, "/");
                        push_decimal(&mut context, m.total_predictions);
                        push_str(&mut context, ")\n");
                        push_str(&mut context, "Optimization Score: ");
                        push_str(&mut context, m.optimization_score.as_str());
                        push_str(&mut context, "\n");
                    },
                    None => {},
                }
                push_str(&mut context, "\n");
                proof {
                    assert(context@ =~= session_block(*s));
                }
            },
            None => {
                proof {
                    assert(context@ =~= Seq::<char>::empty());
                }
            },
        }
        let ghost head = context@;
        push_str(&mut context, "=== Conversation History ===\n");
        let n = self.messages.len();
        let start: usize = if n > self.max_messages { n - self.max_messages } else { 0 };
        let ghost recent = recent_messages(self.messages@, self.max_messages as nat);
        proof {
            assert(recent =~= self.messages@.subrange(start as int, n as int));
        }
        let ghost before = context@;
        if start == n {
            push_str(&mut context, "(No previous messages)\n");
        } else {
            let mut i: usize = start;
            proof {
                assert(recent.take(0) =~= Seq::<ContextMessage>::empty());
            }
            while i < n
                invariant
                    start <= i <= n,
                    n == self.messages@.len(),
                    recent == self.messages@.subrange(start as int, n as int),
                    context@ == before + message_blocks(recent.take(i - start), self.include_timing,
                        self.include_parameters, self.include_predictions),
                decreases n - i,
            {
                let k = i - start;
                proof {
                    assert(recent.take(k + 1).drop_last() =~= recent.take(k as int));
                    assert(recent.take(k + 1).last() == self.messages@[i as int]);
                }
                push_message_block(&mut context, (k + 1) as u64, &self.messages[i], self.include_timing,
                    self.include_parameters, self.include_predictions);
                i = i + 1;
            }
            proof {
                assert(recent.take(n - start) =~= recent);
            }
        }
        push_str(&mut context, "\n=== Current Request ===\n");
        proof {
            assert(context@ =~= context_text(b));
        }
        context
    }
}

impl Default for ConversationContextBuilder {
    /// The same as [`ConversationContextBuilder::new`].
    fn default() -> (r: Self)
        ensures
            r.messages@.len() == 0,
            r.session is None,
            r.max_messages == 10,
            r.include_timing,
            !r.include_parameters,
            r.include_predictions,
    {
        Self::new()
    }
}

/// How often `x` occurs in `s`.
pub open spec fn occurrences(s: Seq<Seq<char>>, x: Seq<char>) -> nat
    decreases s.len(),
{
    if s.len() == 0 {
        0
    } else {
        occurrences(s.drop_last(), x) + if s.last() == x { 1nat } else { 0nat }
    }
}

/// The distinct items of `s`, in order of first occurrence.
pub open spec fn distinct_items(s: Seq<Seq<char>>) -> Seq<Seq<char>>
    decreases s.len(),
{
    if s.len() == 0 {
        Seq::empty()
    } else {
        let d = distinct_items(s.drop_last());
        if d.contains(s.last()) { d } else { d.push(s.last()) }
    }
}

/// Each distinct item of `s` with how often it occurs, in order of first
/// occurrence.
pub open spec fn frequency_table(s: Seq<Seq<char>>) -> Seq<(Seq<char>, nat)> {
    distinct_items(s).map_values(|x: Seq<char>| (x, occurrences(s, x)))
}

/// The position of the first entry with the greatest count.
pub open spec fn first_max_index(t: Seq<(Seq<char>, nat)>) -> Option<int>
    decreases t.len(),
{
    if t.len() == 0 {
        None
    } else {
        match first_max_index(t.drop_last()) {
            None => Some(t.len() - 1),
            Some(i) => if t.last().1 > t[i].1 { Some(t.len() - 1) } else { Some(i) },
        }
    }
}

/// The methods of the messages, in order.
pub open spec fn methods_of(ms: Seq<ContextMessage>) -> Seq<Seq<char>> {
    ms.map_values(|m: ContextMessage| m.method@)
}

/// The method pairs of consecutive messages, as "first -> second".
pub open spec fn method_sequences(ms: Seq<ContextMessage>) -> Seq<Seq<char>> {
    Seq::new((if ms.len() >= 2 { ms.len() - 1 } else { 0 }) as nat,
        |i: int| ms[i].method@ + " -> "@ + ms[i + 1].method@)
}

/// How many messages completed.
pub open spec fn completed_count(ms: Seq<ContextMessage>) -> nat
    decreases ms.len(),
{
    if ms.len() == 0 {
        0
    } else {
        completed_count(ms.drop_last()) + if ms.last().status is Completed { 1nat } else { 0nat }
    }
}

/// The answered messages' durations that are not negative: their sum and
/// their number.
pub open spec fn duration_totals(ms: Seq<ContextMessage>) -> (nat, nat)
    decreases ms.len(),
{
    if ms.len() == 0 {
        (0, 0)
    } else {
        let (sum, n) = duration_totals(ms.drop_last());
        match ms.last().elapsed_ms {
            Some(d) => if d >= 0 { (sum + d as nat, n + 1) } else { (sum, n) },
            None => (sum, n),
        }
    }
}

/// What the patterns of a conversation are.
#[derive(Debug)]
pub struct ConversationPatterns {
    /// Each method with how often it was called, in order of first call
    pub method_frequency: Vec<(String, usize)>,
    /// The first of the methods called most often
    pub most_common_method: Option<String>,
    /// How many messages completed, out of how many: the success rate
    pub completed_messages: usize,
    pub total_messages: usize,
    /// The mean duration of the answered messages, in whole milliseconds
    pub average_duration_ms: u64,
    /// Each pair of consecutive methods with how often it occurred
    pub sequence_patterns: Vec<(String, usize)>,
}

/// A table of texts with counts, as views.
pub open spec fn table_view(t: Seq<(String, usize)>) -> Seq<(Seq<char>, nat)> {
    t.map_values(|e: (String, usize)| (e.0@, e.1 as nat))
}

/// Adding an item counts it once more.
proof fn lemma_occurrences_push(s: Seq<Seq<char>>, x: Seq<char>, y: Seq<char>)
    ensures
        occurrences(s.push(x), y) == occurrences(s, y) + if x == y { 1nat } else { 0nat },
{
    assert(s.push(x).drop_last() =~= s);
}

/// The distinct items have no duplicates, and an item of `s` is among them.
proof fn lemma_distinct_items(s: Seq<Seq<char>>)
    ensures
        distinct_items(s).no_duplicates(),
        forall|x: Seq<char>| distinct_items(s).contains(x) <==> s.contains(x),
    decreases s.len(),
{
    if s.len() > 0 {
        let p = s.drop_last();
        let v = s.last();
        lemma_distinct_items(p);
        let d = distinct_items(p);
        assert forall|x: Seq<char>| distinct_items(s).contains(x) <==> s.contains(x) by {
            if s.contains(x) {
                let j = choose|j: int| 0 <= j < s.len() && s[j] == x;
                if j < s.len() - 1 {
                    assert(p[j] == x);
                    assert(p.contains(x));
                    assert(d.contains(x));
                    if !d.contains(v) {
                        let i = choose|i: int| 0 <= i < d.len() && d[i] == x;
                        assert(d.push(v)[i] == x);
                    }
                } else {
                    assert(x == v);
                    if !d.contains(v) {
                        assert(d.push(v)[d.len() as int] == v);
                    }
                }
            }
            if distinct_items(s).contains(x) {
                if d.contains(x) {
                    assert(p.contains(x));
                    let j = choose|j: int| 0 <= j < p.len() && p[j] == x;
                    assert(s[j] == x);
                } else {
                    let i = choose|i: int| 0 <= i < distinct_items(s).len() && distinct_items(s)[i] == x;
                    if i < d.len() {
                        assert(d[i] == x);
                    }
                    assert(x == v);
                    assert(s[s.len() - 1] == x);
                }
            }
        }
        if !d.contains(v) {
            assert forall|a: int, b: int| 0 <= a < b < d.push(v).len() implies d.push(v)[a] != d.push(v)[b] by {
                if b == d.len() {
                    assert(d.push(v)[a] == d[a]);
                }
            }
        }
    }
}

/// Counts the items of `s`, each distinct item once, in order of first
/// occurrence.
fn count_items(s: &Vec<String>) -> (r: Vec<(String, usize)>)
    requires
        s@.len() <= usize::MAX,
    ensures
        table_view(r@) == frequency_table(s@.map_values(|x: String| x@)),
{
    let ghost sv = s@.map_values(|x: String| x@);
    let mut t: Vec<(String, usize)> = Vec::new();
    let mut i: usize = 0;
    while i < s.len()
        invariant
            i <= s@.len(),
            sv == s@.map_values(|x: String| x@),
            table_view(t@) == frequency_table(sv.take(i as int)),
            forall|j: int| 0 <= j < t@.len() ==> #[trigger] t@[j].1 <= i,
        decreases s@.len() - i,
    {
        let ghost pre = sv.take(i as int);
        let ghost x = sv[i as int];
        proof {
            assert(sv.take(i + 1) =~= pre.push(x));
            lemma_distinct_items(pre);
            assert forall|y: Seq<char>| #[trigger] occurrences(pre.push(x), y) == occurrences(pre, y) + if x == y { 1nat } else { 0nat } by {
                lemma_occurrences_push(pre, x, y);
            }
        }
        let mut k: usize = 0;
        while k < t.len() && !crate::text::str_equal(t[k].0.as_str(), s[i].as_str())
            invariant
                k <= t@.len(),
                i < s@.len(),
                table_view(t@) == frequency_table(pre),
                forall|j: int| 0 <= j < k ==> #[trigger] t@[j].0@ != x,
                x == s@[i as int]@,
            decreases t@.len() - k,
        {
            k = k + 1;
        }
        if k < t.len() {
            let ghost d = distinct_items(pre);
            proof {
                assert(table_view(t@)[k as int].0 == x);
                assert(frequency_table(pre).len() == d.len());
                assert(frequency_table(pre)[k as int] == (d[k as int], occurrences(pre, d[k as int])));
                assert(d[k as int] == x);
                assert(d.contains(x));
                assert(pre.push(x).drop_last() =~= pre);
                assert(pre.push(x).last() == x);
                assert(distinct_items(pre.push(x)) == d);
            }
            let c = t[k].1;
            let name = t[k].0.clone();
            t.set(k, (name, c + 1));
            proof {
                assert forall|j: int| 0 <= j < d.len() && j != k implies #[trigger] d[j] != x by {
                    assert(d.no_duplicates());
                }
                assert forall|j: int| 0 <= j < d.len() implies #[trigger] table_view(t@)[j] == frequency_table(pre.push(x))[j] by {
                    assert(frequency_table(pre)[j] == (d[j], occurrences(pre, d[j])));
                    assert(frequency_table(pre.push(x))[j] == (d[j], occurrences(pre.push(x), d[j])));
                    if j != k {
                        assert(d[j] != x);
                    }
                }
                assert(table_view(t@) =~= frequency_table(pre.push(x)));
            }
        } else {
            let ghost d = distinct_items(pre);
            proof {
                assert(!d.contains(x)) by {
                    if d.contains(x) {
                        let j = choose|j: int| 0 <= j < d.len() && d[j] == x;
                        assert(table_view(t@).len() == t@.len());
                        assert(frequency_table(pre).len() == d.len());
                        assert(frequency_table(pre)[j] == (d[j], occurrences(pre, d[j])));
                        assert(table_view(t@)[j] == (t@[j].0@, t@[j].1 as nat));
                        assert(t@[j].0@ != x);
                    }
                }
                assert(!pre.contains(x));
                assert(occurrences(pre, x) == 0) by {
                    lemma_occurrences_absent(pre, x);
                }
            }
            let ghost t0 = t@;
            t.push((s[i].clone(), 1));
            proof {
                assert(table_view(t0) == frequency_table(pre));
                assert(table_view(t0).len() == t0.len());
                assert(frequency_table(pre).len() == d.len());
                assert(pre.push(x).drop_last() =~= pre);
                assert(pre.push(x).last() == x);
                assert(distinct_items(pre.push(x)) == d.push(x));
                assert forall|j: int| 0 <= j < d.len() implies #[trigger] table_view(t@)[j] == frequency_table(pre.push(x))[j] by {
                    assert(frequency_table(pre)[j] == (d[j], occurrences(pre, d[j])));
                    assert(t@[j] == t0[j]);
                    assert(table_view(t0)[j] == (t0[j].0@, t0[j].1 as nat));
                    assert(d[j] != x);
                }
                assert(table_view(t@) =~= frequency_table(pre.push(x)));
            }
        }
        i = i + 1;
    }
    proof {
        assert(sv.take(s@.len() as int) =~= sv);
    }
    t
}

/// An item that does not occur has no occurrences.
proof fn lemma_occurrences_absent(s: Seq<Seq<char>>, x: Seq<char>)
    requires
        !s.contains(x),
    ensures
        occurrences(s, x) == 0,
    decreases s.len(),
{
    if s.len() > 0 {
        assert(!s.drop_last().contains(x)) by {
            if s.drop_last().contains(x) {
                let j = choose|j: int| 0 <= j < s.drop_last().len() && s.drop_last()[j] == x;
                assert(s[j] == x);
            }
        }
        lemma_occurrences_absent(s.drop_last(), x);
        assert(s.last() != x) by {
            if s.last() == x {
                assert(s[s.len() - 1] == x);
            }
        }
    }
}

/// The position of the first entry with the greatest count.
fn first_max(t: &Vec<(String, usize)>) -> (r: Option<usize>)
    ensures
        r matches Some(i) ==> i < t@.len() && first_max_index(table_view(t@)) == Some(i as int),
        r is None <==> first_max_index(table_view(t@)) is None,
{
    let ghost tv = table_view(t@);
    let mut best: Option<usize> = None;
    let mut i: usize = 0;
    while i < t.len()
        invariant
            i <= t@.len(),
            tv == table_view(t@),
            match first_max_index(tv.take(i as int)) {
                Some(j) => best == Some(j as usize) && 0 <= j < i,
                None => best is None && i == 0,
            },
        decreases t@.len() - i,
    {
        proof {
            assert(tv.take(i + 1).drop_last() =~= tv.take(i as int));
            assert(tv.take(i + 1).last() == tv[i as int]);
        }
        match best {
            None => { best = Some(i); },
            Some(b) => {
                proof {
                    assert(tv.take(i + 1)[b as int] == tv[b as int]);
                }
                if t[i].1 > t[b].1 {
                    best = Some(i);
                }
            },
        }
        i = i + 1;
    }
    proof {
        assert(tv.take(t@.len() as int) =~= tv);
    }
    best
}

/// The hints that patterns give for predicting the next tool: the method
/// called most often, a low success rate (fewer than half the messages
/// completed, or no messages), a high mean latency (over 5 seconds), and
/// the most frequent pair of consecutive methods when it occurred at least
/// twice.
pub open spec fn prediction_hints(p: ConversationPatterns) -> Seq<Seq<char>> {
    let seqs = table_view(p.sequence_patterns@);
    (match p.most_common_method {
        Some(m) => seq!["Most frequently used method: "@ + m@],
        None => Seq::empty(),
    })
        + (if p.total_messages == 0 || 2 * p.completed_messages < p.total_messages {
            seq!["Low success rate - consider error handling"@]
        } else {
            Seq::empty()
        })
        + (if p.average_duration_ms > 5000 { seq!["High average latency detected"@] } else { Seq::empty() })
        + (match first_max_index(seqs) {
            Some(i) => if seqs[i].1 >= 2 {
                seq!["Common sequence: "@ + seqs[i].0 + " (observed "@ + nat_decimal(seqs[i].1) + " times)"@]
            } else {
                Seq::empty()
            },
            None => Seq::empty(),
        })
}

/// Finds patterns in a conversation.
pub struct ConversationAnalyzer;

impl ConversationAnalyzer {
    /// The patterns of a conversation: how often each method and each pair
    /// of consecutive methods occurred, the method called most often, how
    /// many messages completed, and the mean duration of the answered
    /// messages.
    pub fn analyze_patterns(messages: &Vec<ContextMessage>) -> (r: ConversationPatterns)
        requires
            duration_totals(messages@).0 <= u64::MAX,
        ensures
            table_view(r.method_frequency@) == frequency_table(methods_of(messages@)),
            match first_max_index(frequency_table(methods_of(messages@))) {
                Some(i) => r.most_common_method matches Some(m) && m@ == frequency_table(methods_of(messages@))[i].0,
                None => r.most_common_method is None,
            },
            r.completed_messages == completed_count(messages@),
            r.total_messages == messages@.len(),
            r.average_duration_ms == (if duration_totals(messages@).1 == 0 { 0 } else {
                duration_totals(messages@).0 / duration_totals(messages@).1
            }),
            table_view(r.sequence_patterns@) == frequency_table(method_sequences(messages@)),
    {
        let ghost ms = messages@;
        let n = messages.len();
        let mut methods: Vec<String> = Vec::new();
        let mut completed: usize = 0;
        let mut total_ms: u64 = 0;
        let mut timed: u64 = 0;
        let mut i: usize = 0;
        while i < n
            invariant
                i <= n,
                n == ms.len(),
                ms == messages@,
                duration_totals(ms).0 <= u64::MAX,
                methods@.map_values(|x: String| x@) == methods_of(ms.take(i as int)),
                completed == completed_count(ms.take(i as int)),
                completed <= i,
                (total_ms as nat, timed as nat) == duration_totals(ms.take(i as int)),
                timed <= i,
            decreases n - i,
        {
            let m = &messages[i];
            proof {
                assert(ms.take(i + 1).drop_last() =~= ms.take(i as int));
                assert(ms.take(i + 1).last() == ms[i as int]);
                lemma_duration_totals_prefix(ms, i + 1);
                assert(methods_of(ms.take(i + 1)) =~= methods_of(ms.take(i as int)).push(ms[i as int].method@));
            }
            methods.push(m.method.clone());
            proof {
                assert(methods@.map_values(|x: String| x@) =~= methods_of(ms.take(i + 1)));
            }
            match m.status {
                MessageStatus::Completed => { completed = completed + 1; },
                _ => {},
            }
            match m.elapsed_ms {
                Some(d) => if d >= 0 {
                    total_ms = total_ms + d as u64;
                    timed = timed + 1;
                },
                None => {},
            }
            i = i + 1;
        }
        proof {
            assert(ms.take(n as int) =~= ms);
        }
        let method_frequency = count_items(&methods);
        let most_common_method = match first_max(&method_frequency) {
            Some(b) => {
                let m = method_frequency[b].0.clone();
                proof {
                    assert(table_view(method_frequency@)[b as int] == (method_frequency@[b as int].0@, method_frequency@[b as int].1 as nat));
                }
                Some(m)
            },
            None => None,
        };
        let mut sequences: Vec<String> = Vec::new();
        let mut j: usize = 0;
        while j + 1 < n
            invariant
                j + 1 <= n || (n == 0 && j == 0),
                n == ms.len(),
                ms == messages@,
                sequences@.len() == j,
                forall|k: int| 0 <= k < j ==> #[trigger] sequences@[k]@ == method_sequences(ms)[k],
            decreases n - j,
        {
            let mut t = messages[j].method.clone();
            push_str(&mut t, " -> ");
            push_str(&mut t, messages[j + 1].method.as_str());
            sequences.push(t);
            j = j + 1;
        }
        proof {
            assert(sequences@.map_values(|x: String| x@) =~= method_sequences(ms));
        }
        let sequence_patterns = count_items(&sequences);
        let average_duration_ms = if timed == 0 { 0 } else { total_ms / timed };
        ConversationPatterns {
            method_frequency,
            most_common_method,
            completed_messages: completed,
            total_messages: n,
            average_duration_ms,
            sequence_patterns,
        }
    }

    /// The hints that patterns give for predicting the next tool.
    pub fn get_prediction_hints(patterns: &ConversationPatterns) -> (r: Vec<String>)
        ensures
            r@.map_values(|h: String| h@) == prediction_hints(*patterns),
    {
        let mut hints: Vec<String> = Vec::new();
        match &patterns.most_common_method {
            Some(m) => {
                let mut h = owned("Most frequently used method: ");
                push_str(&mut h, m.as_str());
                hints.push(h);
            },
            None => {},
        }
        let total = patterns.total_messages;
        let completed = patterns.completed_messages;
        if total == 0 || (completed < total && completed < total - completed) {
            hints.push(owned("Low success rate - consider error handling"));
        }
        if patterns.average_duration_ms > 5000 {
            hints.push(owned("High average latency detected"));
        }
        match first_max(&patterns.sequence_patterns) {
            Some(b) => {
                proof {
                    let tv = table_view(patterns.sequence_patterns@);
                    assert(tv[b as int] == (patterns.sequence_patterns@[b as int].0@, patterns.sequence_patterns@[b as int].1 as nat));
                }
                let count = patterns.sequence_patterns[b].1;
                if count >= 2 {
                    let mut h = owned("Common sequence: ");
                    push_str(&mut h, patterns.sequence_patterns[b].0.as_str());
                    push_str(&mut h, " (observed ");
                    push_decimal(&mut h, count as u64);
                    push_str(&mut h, " times)");
                    hints.push(h);
                }
            },
            None => {},
        }
        proof {
            assert(hints@.map_values(|h: String| h@) =~= prediction_hints(*patterns));
        }
        hints
    }
}

/// The totals of a prefix never exceed those of the whole.
proof fn lemma_duration_totals_prefix(ms: Seq<ContextMessage>, k: int)
    requires
        0 <= k <= ms.len(),
    ensures
        duration_totals(ms.take(k)).0 <= duration_totals(ms).0,
        duration_totals(ms.take(k)).1 <= duration_totals(ms).1,
    decreases ms.len() - k,
{
    if k < ms.len() {
        lemma_duration_totals_prefix(ms, k + 1);
        assert(ms.take(k + 1).drop_last() =~= ms.take(k));
    } else {
        assert(ms.take(k) =~= ms);
    }
}

} // verus!
