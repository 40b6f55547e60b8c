//! The request queue: submissions, the dispatch decision, and flush-time
//! batching.
//!
//! A [`QueuedRequest`] is one submission: an outbound request, an `immediate`
//! flag, and an optional response waiter.  The [`QueueWorker`] owns the
//! pending buffer.  [`QueueWorker::offer`] decides whether a submission is
//! dispatched at once or buffered; [`QueueWorker::flush`] drains the buffer on
//! a tick, coalescing the batchable capture events into one batch call.
//!
//! The worker is pure state: the runtime layer runs the control loop, feeds
//! submissions and ticks in, and performs the calls the worker hands back.

use vstd::prelude::*;

use serde_json::Value;

verus! {

/// Reports whether an HTTP status code counts as success (2xx): the rule the
/// transport decides deliveries by.
pub fn status_is_success(status: u16) -> (r: bool)
    ensures
        r == (200 <= status < 300),
{
    200 <= status && status < 300
}

/// HTTP verb of an outbound call.
#[derive(Debug, Clone, Copy, PartialEq, Eq, Structural)]
pub enum HttpMethod {
    Get,
    Post,
    Put,
    Delete,
    Patch,
}

/// Path of an outbound call, relative to the base URL.
#[derive(Debug, Clone)]
pub enum Endpoint {
    /// `capture`
    Capture,
    /// `batch`
    Batch,
    /// `decide?v=3`
    Decide,
    /// `api_early_access_features?api_key=<key>`
    EarlyAccessFeatures { api_key: String },
    /// A caller-specified path.
    Other { endpoint: String },
}

/// The characters of an endpoint's path.
pub open spec fn path_chars(e: Endpoint) -> Seq<char> {
    match e {
        Endpoint::Capture => "capture"@,
        Endpoint::Batch => "batch"@,
        Endpoint::Decide => "decide?v=3"@,
        Endpoint::EarlyAccessFeatures { api_key } => "api_early_access_features?api_key="@
            + api_key@,
        Endpoint::Other { endpoint } => endpoint@,
    }
}

impl Endpoint {
    /// The path as one string.
    pub fn path(&self) -> (r: String)
        ensures
            r@ == path_chars(*self),
    {
        match self {
            Endpoint::Capture => String::from_str("capture"),
            Endpoint::Batch => String::from_str("batch"),
            Endpoint::Decide => String::from_str("decide?v=3"),
            Endpoint::EarlyAccessFeatures { api_key } => String::from_str(
                "api_early_access_features?api_key=",
            ).concat(api_key.as_str()),
            Endpoint::Other { endpoint } => endpoint.clone(),
        }
    }
}

/// One outbound request to the remote service.
#[derive(Debug)]
pub enum PosthogRequest {
    /// Capture an event.
    ///
    /// Endpoint: `capture`, method: POST.  `api_key` mirrors the API key
    /// field inside `body`; the worker reads it when it builds a batch.
    CaptureEvent { api_key: String, body: Value },
    /// Capture multiple events in a single request.
    ///
    /// Endpoint: `batch`, method: POST.  Sent as `{api_key, batch: events}`.
    CaptureBatch { api_key: String, events: Vec<Value> },
    /// Evaluate feature flags.
    ///
    /// Endpoint: `decide?v=3`, method: POST.
    EvaluateFeatureFlags { body: Value },
    /// Get early access features.
    ///
    /// Endpoint: `api_early_access_features?api_key=<key>`, method: GET.
    GetEarlyAccessFeatures { api_key: String },
    /// Any other request.
    Other { method: HttpMethod, endpoint: String, json: Value },
}

/// The HTTP method a request is sent with: a total map over the five kinds.
pub open spec fn method_of(r: PosthogRequest) -> HttpMethod {
    match r {
        PosthogRequest::CaptureEvent { .. } => HttpMethod::Post,
        PosthogRequest::CaptureBatch { .. } => HttpMethod::Post,
        PosthogRequest::EvaluateFeatureFlags { .. } => HttpMethod::Post,
        PosthogRequest::GetEarlyAccessFeatures { .. } => HttpMethod::Get,
        PosthogRequest::Other { method, .. } => method,
    }
}

/// The endpoint a request is sent to: a total map over the five kinds.
pub open spec fn endpoint_of(r: PosthogRequest) -> Endpoint {
    match r {
        PosthogRequest::CaptureEvent { .. } => Endpoint::Capture,
        PosthogRequest::CaptureBatch { .. } => Endpoint::Batch,
        PosthogRequest::EvaluateFeatureFlags { .. } => Endpoint::Decide,
        PosthogRequest::GetEarlyAccessFeatures { api_key } => Endpoint::EarlyAccessFeatures {
            api_key,
        },
        PosthogRequest::Other { endpoint, .. } => Endpoint::Other { endpoint },
    }
}

impl PosthogRequest {
    /// Whether this request is a single capture event.
    pub fn is_capture_event(&self) -> (b: bool)
        ensures
            b == (*self is CaptureEvent),
    {
        match self {
            PosthogRequest::CaptureEvent { .. } => true,
            _ => false,
        }
    }

    /// The HTTP method this request is sent with.
    pub fn method(&self) -> (m: HttpMethod)
        ensures
            m == method_of(*self),
    {
        match self {
            PosthogRequest::CaptureEvent { .. } => HttpMethod::Post,
            PosthogRequest::CaptureBatch { .. } => HttpMethod::Post,
            PosthogRequest::EvaluateFeatureFlags { .. } => HttpMethod::Post,
            PosthogRequest::GetEarlyAccessFeatures { .. } => HttpMethod::Get,
            PosthogRequest::Other { method, .. } => *method,
        }
    }

    /// The endpoint this request is sent to.
    pub fn endpoint(&self) -> (e: Endpoint)
        ensures
            e == endpoint_of(*self),
    {
        match self {
            PosthogRequest::CaptureEvent { .. } => Endpoint::Capture,
            PosthogRequest::CaptureBatch { .. } => Endpoint::Batch,
            PosthogRequest::EvaluateFeatureFlags { .. } => Endpoint::Decide,
            PosthogRequest::GetEarlyAccessFeatures { api_key } => Endpoint::EarlyAccessFeatures {
                api_key: api_key.clone(),
            },
            PosthogRequest::Other { endpoint, .. } => Endpoint::Other {
                endpoint: endpoint.clone(),
            },
        }
    }
}

/// One submission to the queue: a request, whether it must bypass buffering,
/// and the caller's response waiter if it expects an answer.
///
/// The waiter type `W` is opaque to the queue; the runtime layer instantiates
/// it with its one-shot response sender.
#[derive(Debug)]
pub struct QueuedRequest<W> {
    pub request: PosthogRequest,
    pub immediate: bool,
    pub response_tx: Option<W>,
}

impl<W> QueuedRequest<W> {
    /// A fire-and-forget submission: no waiter; capture events wait for the
    /// next flush, every other kind is dispatched at once.
    pub fn fire(request: PosthogRequest) -> (s: Self)
        ensures
            s.request == request,
            s.immediate == !(request is CaptureEvent),
            s.response_tx is None,
    {
        let immediate = !request.is_capture_event();
        QueuedRequest { request, immediate, response_tx: None }
    }

    /// A submission whose caller awaits the result: carries the waiter and
    /// bypasses buffering.
    pub fn call(request: PosthogRequest, waiter: W) -> (s: Self)
        ensures
            s.request == request,
            s.immediate,
            s.response_tx == Some(waiter),
    {
        QueuedRequest { request, immediate: true, response_tx: Some(waiter) }
    }
}

/// Whether a submission is dispatched as soon as it is received: marked
/// immediate, or of any kind other than a single capture event.
pub open spec fn routes_now<W>(s: QueuedRequest<W>) -> bool {
    s.immediate || !(s.request is CaptureEvent)
}

/// Whether a submission may be merged into a batch: a capture event with no
/// response waiter.
pub open spec fn batchable<W>(s: QueuedRequest<W>) -> bool {
    s.request is CaptureEvent && s.response_tx is None
}

/// The bodies of the batchable submissions of `q`, in order.
pub open spec fn batch_bodies<W>(q: Seq<QueuedRequest<W>>) -> Seq<Value>
    decreases q.len(),
{
    if q.len() == 0 {
        Seq::empty()
    } else if batchable(q.last()) {
        batch_bodies(q.drop_last()).push(q.last().request->CaptureEvent_body)
    } else {
        batch_bodies(q.drop_last())
    }
}

/// The submissions of `q` that are dispatched on their own, in order.
pub open spec fn individuals<W>(q: Seq<QueuedRequest<W>>) -> Seq<QueuedRequest<W>>
    decreases q.len(),
{
    if q.len() == 0 {
        Seq::empty()
    } else if batchable(q.last()) {
        individuals(q.drop_last())
    } else {
        individuals(q.drop_last()).push(q.last())
    }
}

/// The API key of the first batchable submission of `q`, if any.
pub open spec fn first_batch_key<W>(q: Seq<QueuedRequest<W>>) -> Option<String>
    decreases q.len(),
{
    if q.len() == 0 {
        None
    } else if first_batch_key(q.drop_last()) is Some {
        first_batch_key(q.drop_last())
    } else if batchable(q.last()) {
        Some(q.last().request->CaptureEvent_api_key)
    } else {
        None
    }
}

/// What one flush of a buffer holding `q` dispatches: every non-batchable
/// submission on its own, in arrival order, then, when any batchable capture
/// was buffered, one batch call holding all their bodies in arrival order,
/// keyed by the first one's API key and carrying no waiter.
pub open spec fn is_flush_output<W>(q: Seq<QueuedRequest<W>>, out: Seq<QueuedRequest<W>>) -> bool {
    if batch_bodies(q).len() == 0 {
        out == individuals(q)
    } else {
        &&& out.len() == individuals(q).len() + 1
        &&& out.take(out.len() - 1) == individuals(q)
        &&& out.last().request matches PosthogRequest::CaptureBatch { api_key, events }
            && api_key == first_batch_key(q)->0 && events@ == batch_bodies(q)
        &&& out.last().response_tx is None
        &&& out.last().immediate == false
    }
}

/// The queue worker's state: the buffer of submissions awaiting the next
/// flush tick.  Owned and mutated by one control loop only.
#[derive(Debug)]
pub struct QueueWorker<W> {
    pending: Vec<QueuedRequest<W>>,
}

impl<W> View for QueueWorker<W> {
    type V = Seq<QueuedRequest<W>>;

    closed spec fn view(&self) -> Seq<QueuedRequest<W>> {
        self.pending@
    }
}

impl<W> QueueWorker<W> {
    /// A worker with an empty buffer.
    pub fn new() -> (w: Self)
        ensures
            w@ == Seq::<QueuedRequest<W>>::empty(),
    {
        QueueWorker { pending: Vec::new() }
    }

    /// Accept one submission.  A submission that routes now is handed back to
    /// be dispatched before any tick, leaving the buffer untouched; any other
    /// is appended to the buffer.
    pub fn offer(&mut self, s: QueuedRequest<W>) -> (now: Option<QueuedRequest<W>>)
        ensures
            routes_now(s) ==> now == Some(s) && final(self)@ == old(self)@,
            !routes_now(s) ==> now is None && final(self)@ == old(self)@.push(s),
    {
        if s.immediate || !s.request.is_capture_event() {
            Some(s)
        } else {
            self.pending.push(s);
            None
        }
    }

    /// Drain the buffer on a flush tick and return the calls to dispatch,
    /// batching the batchable capture events into one batch call.
    pub fn flush(&mut self) -> (calls: Vec<QueuedRequest<W>>)
        ensures
            final(self)@ == Seq::<QueuedRequest<W>>::empty(),
            is_flush_output(old(self)@, calls@),
    {
        let mut taken: Vec<QueuedRequest<W>> = Vec::new();
        core::mem::swap(&mut self.pending, &mut taken);
        let ghost orig = taken@;

        let mut others: Vec<QueuedRequest<W>> = Vec::new();
        let mut bodies: Vec<Value> = Vec::new();
        let mut batch_key: Option<String> = None;
        let ghost mut done: int = 0;

        while taken.len() > 0
            invariant
                0 <= done <= orig.len(),
                taken@ == orig.skip(done),
                others@ == individuals(orig.take(done)),
                bodies@ == batch_bodies(orig.take(done)),
                batch_key == first_batch_key(orig.take(done)),
            decreases taken.len(),
        {
            let s = taken.remove(0);
            proof {
                assert(s == orig[done]);
                assert(orig.skip(done).remove(0) =~= orig.skip(done + 1));
                assert(orig.take(done + 1).drop_last() =~= orig.take(done));
                assert(orig.take(done + 1).last() == orig[done]);
            }
            let QueuedRequest { request, immediate, response_tx } = s;
            match (request, response_tx) {
                (PosthogRequest::CaptureEvent { api_key, body }, None) => {
                    proof {
                        assert(batchable(orig[done]));
                    }
                    if batch_key.is_none() {
                        batch_key = Some(api_key);
                    }
                    bodies.push(body);
                }
                (request, response_tx) => {
                    proof {
                        assert(!batchable(orig[done]));
                    }
                    others.push(QueuedRequest { request, immediate, response_tx });
                }
            }
            proof {
                done = done + 1;
            }
        }
        proof {
            assert(orig.take(done) =~= orig);
        }

        if bodies.len() > 0 {
            proof {
                lemma_first_batch_key_some(orig);
            }
            let api_key = batch_key.unwrap();
            let ghost before = others@;
            others.push(
                QueuedRequest {
                    request: PosthogRequest::CaptureBatch { api_key, events: bodies },
                    immediate: false,
                    response_tx: None,
                },
            );
            proof {
                assert(others@.take(others@.len() - 1) =~= before);
                assert(others@.last() == others@[others@.len() - 1]);
            }
        }
        others
    }
}

/// The first batchable submission's key exists exactly when any batchable
/// body was collected.
proof fn lemma_first_batch_key_some<W>(q: Seq<QueuedRequest<W>>)
    ensures
        first_batch_key(q) is Some <==> batch_bodies(q).len() > 0,
    decreases q.len(),
{
    if q.len() > 0 {
        lemma_first_batch_key_some(q.drop_last());
    }
}

/// Batching correctness: when every submission buffered during one interval
/// is a fire-and-forget capture event, a flush issues exactly one call: a
/// capture batch holding all their bodies in arrival order, keyed by the
/// first submission's API key, with no waiter.
pub proof fn lemma_batching_correctness<W>(q: Seq<QueuedRequest<W>>, out: Seq<QueuedRequest<W>>)
    requires
        q.len() > 0,
        forall|i: int| 0 <= i < q.len() ==> batchable(#[trigger] q[i]),
        is_flush_output(q, out),
    ensures
        out.len() == 1,
        out[0].request matches PosthogRequest::CaptureBatch { api_key, events }
            && api_key == q[0].request->CaptureEvent_api_key && events@ == Seq::new(
            q.len(),
            |i: int| q[i].request->CaptureEvent_body,
        ),
        out[0].response_tx is None,
{
    lemma_all_batchable(q);
    assert(out.last() == out[0]);
}

/// In an all-batchable buffer nothing is dispatched individually, the batch
/// holds every body in order, and the key is the first submission's.
proof fn lemma_all_batchable<W>(q: Seq<QueuedRequest<W>>)
    requires
        forall|i: int| 0 <= i < q.len() ==> batchable(#[trigger] q[i]),
    ensures
        individuals(q) == Seq::<QueuedRequest<W>>::empty(),
        batch_bodies(q) =~= Seq::new(q.len(), |i: int| q[i].request->CaptureEvent_body),
        q.len() > 0 ==> first_batch_key(q) == Some(q[0].request->CaptureEvent_api_key),
    decreases q.len(),
{
    if q.len() > 0 {
        lemma_all_batchable(q.drop_last());
    }
}

/// No cross-contamination: a submission that is not batchable — a capture
/// event with a waiter, or any other kind — is dispatched on its own and its
/// removal leaves the batch, and its key, unchanged: it is never part of a
/// batched call.
pub proof fn lemma_no_cross_contamination<W>(q: Seq<QueuedRequest<W>>, i: int)
    requires
        0 <= i < q.len(),
        !batchable(q[i]),
    ensures
        individuals(q).contains(q[i]),
        batch_bodies(q) == batch_bodies(q.remove(i)),
        first_batch_key(q) == first_batch_key(q.remove(i)),
    decreases q.len(),
{
    if i == q.len() - 1 {
        assert(q.remove(i) =~= q.drop_last());
        assert(individuals(q).last() == q[i]);
    } else {
        lemma_no_cross_contamination(q.drop_last(), i);
        assert(q.remove(i).drop_last() =~= q.drop_last().remove(i));
        assert(q.remove(i).last() == q.last());
        if !batchable(q.last()) {
            assert(individuals(q).last() == q.last());
            assert(individuals(q).drop_last() == individuals(q.drop_last()));
            assert(individuals(q.drop_last()).contains(q[i]));
            let j = choose|j: int|
                0 <= j < individuals(q.drop_last()).len() && individuals(q.drop_last())[j] == q[i];
            assert(individuals(q)[j] == q[i]);
        }
    }
}

/// Immediate bypass: a submission marked immediate routes now — it is handed
/// out for dispatch as soon as it is received, whatever the buffer holds.
pub proof fn lemma_immediate_bypass<W>(s: QueuedRequest<W>)
    requires
        s.immediate,
    ensures
        routes_now(s),
{
}

/// Isolation: a transport outcome is never an input to the worker — its two
/// transitions take only the buffer and the submission.  What a flush
/// dispatches is determined by the buffered submissions alone: any two
/// outputs for one buffer agree call for call.  Together with `offer`'s
/// guarantee that an immediately dispatched submission leaves the buffer
/// untouched, a failed immediate dispatch cannot affect what is flushed, or
/// when.
pub proof fn lemma_flush_isolated<W>(
    q: Seq<QueuedRequest<W>>,
    out1: Seq<QueuedRequest<W>>,
    out2: Seq<QueuedRequest<W>>,
)
    requires
        is_flush_output(q, out1),
        is_flush_output(q, out2),
    ensures
        out1.len() == out2.len(),
        batch_bodies(q).len() == 0 ==> out1 == out2,
        batch_bodies(q).len() > 0 ==> out1.take(out1.len() - 1) == out2.take(out2.len() - 1)
            && out1.last().request->CaptureBatch_api_key
            == out2.last().request->CaptureBatch_api_key
            && out1.last().request->CaptureBatch_events@
            == out2.last().request->CaptureBatch_events@ && out1.last().response_tx is None
            && out2.last().response_tx is None,
{
}

/// The submissions of `q` that carry a response waiter, in order.
pub open spec fn waiter_entries<W>(q: Seq<QueuedRequest<W>>) -> Seq<QueuedRequest<W>>
    decreases q.len(),
{
    if q.len() == 0 {
        Seq::empty()
    } else if q.last().response_tx is Some {
        waiter_entries(q.drop_last()).push(q.last())
    } else {
        waiter_entries(q.drop_last())
    }
}

/// Waiter delivery, queue side: a flush hands every submission that carries a
/// waiter to exactly one dispatched call, in order, unchanged — and the batch
/// call carries none.  One dispatch makes one transport call, whose result is
/// delivered once over the submission's one-shot waiter.
pub proof fn lemma_waiter_delivery_exactly_once<W>(
    q: Seq<QueuedRequest<W>>,
    out: Seq<QueuedRequest<W>>,
)
    requires
        is_flush_output(q, out),
    ensures
        waiter_entries(out) == waiter_entries(q),
{
    lemma_waiter_entries_individuals(q);
    if batch_bodies(q).len() > 0 {
        assert(out.drop_last() =~= out.take(out.len() - 1));
        assert(waiter_entries(out) == waiter_entries(individuals(q)));
    }
}

/// Dropping the batchable submissions — none of which carries a waiter —
/// keeps the waiter-bearing ones as they are.
proof fn lemma_waiter_entries_individuals<W>(q: Seq<QueuedRequest<W>>)
    ensures
        waiter_entries(individuals(q)) == waiter_entries(q),
    decreases q.len(),
{
    if q.len() > 0 {
        lemma_waiter_entries_individuals(q.drop_last());
        if !batchable(q.last()) {
            assert(individuals(q).drop_last() == individuals(q.drop_last()));
            assert(individuals(q).last() == q.last());
        }
    }
}

} // verus!
