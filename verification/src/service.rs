//! Simple cross-task services.
//!
//! A service is a value that turns requests into responses. It is owned by
//! one worker, and reached through a cloneable [`Handle`]: each call travels
//! to the worker over a shared request queue together with the writing half
//! of a one-shot reply slot, and the caller waits on the reading half.
//!
//! This module holds the protocol's steps as ordinary functions. Driving
//! them (spawning the worker, awaiting a slot) is left to an executor.

use crate::channel;
use vstd::prelude::*;
use vstd::std_specs::convert::FromSpecImpl;

verus! {

/// An asynchronous service.
///
/// A service may say which requests it accepts, what it promises of the
/// work it returns, and how a call changes it; one that says none of these
/// takes every request and promises nothing.
pub trait Service<Req, Rsp> {
    /// Error raised if the service fails.
    type Error;

    /// The pending work that a call yields; it settles to a `Rsp` or to
    /// `Self::Error`.
    type Future;

    /// The requests that the service, as it stands, can be called with. A
    /// service that takes every request keeps the default.
    open spec fn accepts(&self, req: Req) -> bool {
        true
    }

    /// What the service, as it stands, promises of the work that a call with
    /// `req` returns. A service that promises nothing keeps the default.
    open spec fn yields(&self, req: Req, work: Self::Future) -> bool {
        true
    }

    /// What the service, as it stands, promises of itself after a call with
    /// `req`: how its state moves on. A service that promises nothing keeps
    /// the default.
    open spec fn becomes(&self, req: Req, after: &Self) -> bool {
        true
    }

    /// Execute a call against this service.
    fn call(&mut self, req: Req) -> (work: Self::Future)
        requires
            old(self).accepts(req),
        ensures
            old(self).yields(req, work),
            old(self).becomes(req, final(self)),
    ;
}

/// Any function from requests to results is a service whose work is already
/// settled when the call returns.
impl<F, Req, Rsp, E> Service<Req, Rsp> for F where F: FnMut(Req) -> Result<Rsp, E> {
    type Error = E;

    type Future = Result<Rsp, E>;

    /// A function accepts what its own precondition admits.
    open spec fn accepts(&self, req: Req) -> bool {
        call_requires(*self, (req,))
    }

    /// The work is a result that the function's own postcondition allows
    /// for the request.
    open spec fn yields(&self, req: Req, work: Result<Rsp, E>) -> bool {
        call_ensures(*self, (req,), work)
    }

    fn call(&mut self, req: Req) -> (work: Result<Rsp, E>) {
        self(req)
    }
}

/// One request on its way to the worker, with the writing half of the reply
/// slot that its caller waits on.
#[derive(Debug)]
#[verifier::reject_recursive_types(Rsp)]
pub struct Call<Req, Rsp> {
    pub req: Req,
    pub tx: tokio_channel::oneshot::Sender<Rsp>,
}

/// Error raised by a service handle.
#[derive(Debug, Copy, Clone)]
pub enum Error<T> {
    /// Failed to send request; service has failed.
    SendError(T),
    /// Response channel was cancelled; request has failed.
    Canceled,
}

impl<T> Error<T> {
    /// The text that describes each variant.
    pub open spec fn description(&self) -> Seq<char> {
        match self {
            Error::SendError(_) => "unable to send request (receiver dropped)"@,
            Error::Canceled => "request cancelled (rsp channel dropped)"@,
        }
    }

    /// A human-readable description of the error.
    pub fn as_str(&self) -> (text: &'static str)
        ensures
            text@ == self.description(),
    {
        match self {
            Error::SendError(_) => "unable to send request (receiver dropped)",
            Error::Canceled => "request cancelled (rsp channel dropped)",
        }
    }
}

/// A call that could not be delivered becomes a `SendError` that hands the
/// request back.
impl<Req, Rsp> From<Call<Req, Rsp>> for Error<Req> {
    fn from(call: Call<Req, Rsp>) -> (err: Self) {
        let Call { req, tx: _ } = call;
        Error::SendError(req)
    }
}

impl<Req, Rsp> FromSpecImpl<Call<Req, Rsp>> for Error<Req> {
    open spec fn obeys_from_spec() -> bool {
        true
    }

    open spec fn from_spec(call: Call<Req, Rsp>) -> Self {
        Error::SendError(call.req)
    }
}

/// A reply slot that was dropped unwritten becomes `Canceled`.
impl<T> From<tokio_channel::oneshot::Canceled> for Error<T> {
    fn from(canceled: tokio_channel::oneshot::Canceled) -> (err: Self) {
        Error::Canceled
    }
}

impl<T> FromSpecImpl<tokio_channel::oneshot::Canceled> for Error<T> {
    open spec fn obeys_from_spec() -> bool {
        true
    }

    open spec fn from_spec(canceled: tokio_channel::oneshot::Canceled) -> Self {
        Error::Canceled
    }
}

/// Cloneable handle to a spawned service.
///
/// Allows one or more tasks to call a service. Services are assumed to be
/// inaccessible and terminated at the point when the last copy of their
/// handle is dropped.
#[derive(Debug)]
#[verifier::reject_recursive_types(Req)]
#[verifier::reject_recursive_types(Rsp)]
pub struct Handle<Req, Rsp> {
    inner: tokio_channel::mpsc::UnboundedSender<Call<Req, Rsp>>,
}

impl<Req, Rsp> Clone for Handle<Req, Rsp> {
    /// Another handle on the same request queue.
    fn clone(&self) -> (copy: Self)
        ensures
            copy.sender() == self.sender(),
    {
        let inner = channel::clone_sender(&self.inner);
        Self { inner }
    }
}

impl<Req, Rsp> Handle<Req, Rsp> {
    /// The sending half of the request queue that this handle feeds.
    pub closed spec fn sender(&self) -> tokio_channel::mpsc::UnboundedSender<Call<Req, Rsp>> {
        self.inner
    }

    /// Wraps the sending half of a request queue.
    pub fn new(inner: tokio_channel::mpsc::UnboundedSender<Call<Req, Rsp>>) -> (handle: Self)
        ensures
            handle.sender() == inner,
    {
        Self { inner }
    }

    /// Submit a call to the associated service.
    ///
    /// Pairs the request with a fresh reply slot and puts the pair on the
    /// request queue. When the worker is gone the request comes back at once
    /// inside `Error::SendError`; no other error is possible at this stage.
    /// Otherwise the caller gets the reading half of the slot, whose outcome
    /// [`resolve`] turns into the call's result.
    pub fn call(
        &self,
        req: Req,
    ) -> (pending: Result<tokio_channel::oneshot::Receiver<Rsp>, Error<Req>>)
        ensures
            pending is Err ==> pending->Err_0 == Error::SendError(req),
    {
        let (tx, rx) = channel::oneshot::<Rsp>();
        let call = Call { req, tx };
        let sent = channel::unbounded_send(&self.inner, call);
        submitted(rx, sent)
    }
}

/// What a submission amounts to, given the reply slot's reading half and
/// what the queue said of the send.
pub open spec fn submission<Req, Rsp>(
    rx: tokio_channel::oneshot::Receiver<Rsp>,
    sent: Result<(), Call<Req, Rsp>>,
) -> Result<tokio_channel::oneshot::Receiver<Rsp>, Error<Req>> {
    match sent {
        Ok(_) => Ok(rx),
        Err(undelivered) => Err(Error::SendError(undelivered.req)),
    }
}

/// Decides what a submission amounts to: after a successful send the caller
/// waits on `rx`; a call that the queue refused gives its request back in
/// `Error::SendError`, and its reply slot is dropped.
pub fn submitted<Req, Rsp>(
    rx: tokio_channel::oneshot::Receiver<Rsp>,
    sent: Result<(), Call<Req, Rsp>>,
) -> (pending: Result<tokio_channel::oneshot::Receiver<Rsp>, Error<Req>>)
    ensures
        pending == submission(rx, sent),
{
    match sent {
        Ok(()) => Ok(rx),
        Err(undelivered) => Err(Error::from(undelivered)),
    }
}

/// The result of a delivered call, given how its reply slot settled.
pub open spec fn resolution<Req, Rsp>(
    settled: Result<Rsp, tokio_channel::oneshot::Canceled>,
) -> Result<Rsp, Error<Req>> {
    match settled {
        Ok(rsp) => Ok(rsp),
        Err(_) => Err(Error::Canceled),
    }
}

/// Turns the outcome of a reply slot into the result of the call: the
/// response that was written, or `Error::Canceled` when the slot was dropped
/// unwritten. A response is never made up, and a request is never handed
/// back at this stage.
pub fn resolve<Req, Rsp>(
    settled: Result<Rsp, tokio_channel::oneshot::Canceled>,
) -> (result: Result<Rsp, Error<Req>>)
    ensures
        result == resolution::<Req, Rsp>(settled),
{
    match settled {
        Ok(rsp) => Ok(rsp),
        Err(canceled) => Err(Error::from(canceled)),
    }
}

/// Opens a request queue: the handle that callers submit through, and the
/// receiving half from which the one worker takes the calls, first in first
/// out. The handle is usable at once, before any worker runs.
pub fn queue<Req, Rsp>() -> (ends: (Handle<Req, Rsp>, tokio_channel::mpsc::Receiver<Call<Req, Rsp>>)) {
    let (tx, rx) = channel::unbounded::<Call<Req, Rsp>>();
    (Handle::new(tx), rx)
}

/// The worker's step for one call taken from the queue: invoke the service
/// on the request, and keep the call's own reply slot beside the pending
/// work, so that the response goes to the caller who asked.
///
/// This is the only place where the service is invoked. The worker holds it
/// by `&mut`, so no two invocations overlap. The request must be one that
/// the service accepts; the work is what the service promises for it, and
/// the service moves on as it promises.
pub fn serve<Srv, Req, Rsp>(
    service: &mut Srv,
    call: Call<Req, Rsp>,
) -> (job: (Srv::Future, tokio_channel::oneshot::Sender<Rsp>)) where Srv: Service<Req, Rsp>
    requires
        old(service).accepts(call.req),
    ensures
        job.1 == call.tx,
        old(service).yields(call.req, job.0),
        old(service).becomes(call.req, final(service)),
{
    let Call { req, tx } = call;
    let work = service.call(req);
    (work, tx)
}

/// A sequential run of a service: `states[0]` is the service at the start,
/// and step `i` takes `reqs[i]`, returns `works[i]` as the service in
/// `states[i]` promises, and leaves the service as `states[i + 1]`.
pub open spec fn sequential_run<Srv: Service<Req, Rsp>, Req, Rsp>(
    states: Seq<Srv>,
    reqs: Seq<Req>,
    works: Seq<Srv::Future>,
) -> bool {
    &&& states.len() == reqs.len() + 1
    &&& works.len() == reqs.len()
    &&& forall|i: int|
        0 <= i < reqs.len() ==> {
            &&& #[trigger] states[i].yields(reqs[i], works[i])
            &&& states[i].becomes(reqs[i], &states[i + 1])
        }
}

/// One more step of the worker extends a sequential run: when the calls
/// taken so far were served as a sequential run, and the next request gets
/// what [`serve`] ensures of it, then all of them together were served as a
/// sequential run. So the work for each request is what the service promises
/// after the requests taken before it, in the order in which they were
/// taken, and after none of the others.
pub proof fn lemma_step_extends_run<Srv: Service<Req, Rsp>, Req, Rsp>(
    states: Seq<Srv>,
    reqs: Seq<Req>,
    works: Seq<Srv::Future>,
    req: Req,
    work: Srv::Future,
    after: Srv,
)
    requires
        sequential_run::<Srv, Req, Rsp>(states, reqs, works),
        states.last().yields(req, work),
        states.last().becomes(req, &after),
    ensures
        sequential_run::<Srv, Req, Rsp>(states.push(after), reqs.push(req), works.push(work)),
{
    let states2 = states.push(after);
    let reqs2 = reqs.push(req);
    let works2 = works.push(work);
    assert forall|i: int| 0 <= i < reqs2.len() implies {
        &&& #[trigger] states2[i].yields(reqs2[i], works2[i])
        &&& states2[i].becomes(reqs2[i], &states2[i + 1])
    } by {
        if i < reqs.len() {
            assert(states[i].yields(reqs[i], works[i]));
            assert(states2[i] == states[i]);
            assert(states2[i + 1] == states[i + 1]);
        } else {
            assert(states2[i] == states.last());
            assert(states2[i + 1] == after);
        }
    }
}

/// What became of a call once the service's work settled.
#[derive(Debug, Clone, Copy, PartialEq, Eq, Structural)]
pub enum Delivery {
    /// The response was written to the reply slot.
    Delivered,
    /// The caller had given up and dropped its half of the slot; the
    /// response was discarded.
    Ignored,
    /// The service failed; the slot was dropped unwritten, which the caller
    /// observes as a cancellation.
    Withheld,
}

impl Delivery {
    /// What an attempt to write a response amounts to.
    pub open spec fn of_send<Rsp>(sent: Result<(), Rsp>) -> Delivery {
        if sent is Ok {
            Delivery::Delivered
        } else {
            Delivery::Ignored
        }
    }

    /// Classifies an attempt to write a response. A refused write is no
    /// error: the response that came back is dropped.
    pub fn after_send<Rsp>(sent: Result<(), Rsp>) -> (done: Delivery)
        ensures
            done == Delivery::of_send(sent),
    {
        match sent {
            Ok(()) => Delivery::Delivered,
            Err(_) => Delivery::Ignored,
        }
    }
}

/// The response that the worker writes for settled work, if any: the
/// service's response, and nothing when the service failed.
pub open spec fn reply_of<Rsp, E>(outcome: Result<Rsp, E>) -> Option<Rsp> {
    match outcome {
        Ok(rsp) => Some(rsp),
        Err(_) => None,
    }
}

/// Routes the outcome of the service's work to the caller.
///
/// A response is written to the reply slot; whether the caller is still
/// there to read it is the caller's business. A failure is not interpreted:
/// the slot is dropped unwritten, whatever the error was.
pub fn deliver<Rsp, E>(
    tx: tokio_channel::oneshot::Sender<Rsp>,
    outcome: Result<Rsp, E>,
) -> (done: Delivery)
    ensures
        reply_of(outcome) is None <==> done == Delivery::Withheld,
        reply_of(outcome) is Some ==> done == Delivery::Delivered || done == Delivery::Ignored,
{
    match outcome {
        Ok(rsp) => Delivery::after_send(channel::send_reply(tx, rsp)),
        Err(_) => Delivery::Withheld,
    }
}

/// How a call ends for its caller: an error of the submission stands, and a
/// call that was delivered ends as its reply slot settles.
pub open spec fn call_result<Req, Rsp>(
    rx: tokio_channel::oneshot::Receiver<Rsp>,
    sent: Result<(), Call<Req, Rsp>>,
    settled: Result<Rsp, tokio_channel::oneshot::Canceled>,
) -> Result<Rsp, Error<Req>> {
    match submission(rx, sent) {
        Ok(_) => resolution(settled),
        Err(refused) => Err(refused),
    }
}

/// Every call ends in exactly one of three ways, and which one is decided by
/// the two channel events alone: the response, when the call was delivered
/// and its slot was written; `SendError` with the request of the refused
/// call, when the queue refused it; `Canceled`, when the call was delivered
/// and its slot was dropped unwritten.
pub proof fn lemma_one_outcome_per_call<Req, Rsp>(
    rx: tokio_channel::oneshot::Receiver<Rsp>,
    sent: Result<(), Call<Req, Rsp>>,
    settled: Result<Rsp, tokio_channel::oneshot::Canceled>,
)
    ensures
        (sent is Ok && settled is Ok) <==> call_result(rx, sent, settled) is Ok,
        call_result(rx, sent, settled) is Ok ==> call_result(rx, sent, settled)->Ok_0
            == settled->Ok_0,
        sent is Err <==> call_result(rx, sent, settled) matches Err(Error::SendError(_)),
        sent is Err ==> call_result(rx, sent, settled)->Err_0 == Error::SendError(
            sent->Err_0.req,
        ),
        (sent is Ok && settled is Err) <==> call_result(rx, sent, settled) matches Err(
            Error::Canceled,
        ),
{
}

/// Cancellation on failure: work that failed has no reply, so its slot is
/// dropped unwritten; and a delivered call whose slot settles as canceled
/// ends in `Error::Canceled`, never in a response.
pub proof fn lemma_failure_cancels<Req, Rsp, E>(
    rx: tokio_channel::oneshot::Receiver<Rsp>,
    sent: Result<(), Call<Req, Rsp>>,
    outcome: Result<Rsp, E>,
    canceled: tokio_channel::oneshot::Canceled,
)
    requires
        sent is Ok,
        outcome is Err,
    ensures
        reply_of(outcome) is None,
        call_result(rx, sent, Err(canceled)) matches Err(Error::Canceled),
{
}

} // verus!
