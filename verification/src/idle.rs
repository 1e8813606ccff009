//! Bodies that must not stall.

use std::time::Duration;

use vstd::prelude::*;

use crate::text::{decimal, decimal_text};
use crate::time::{duration_as_millis, whole_millis};

verus! {

/// A body wrapper that fails after a period with no body frame.
///
/// The timer belongs to this logical body, not to the connection carrying it, and
/// is kept by whoever polls the body. Every data or trailers frame resets it.
#[derive(Debug)]
pub struct IdleTimeoutBody<B> {
    inner: B,
    idle: Duration,
    done: bool,
}

/// What an [`IdleTimeoutBody`] stands for.
pub ghost struct IdleView<B> {
    pub inner: B,
    /// The longest period that may pass without a frame.
    pub idle: Duration,
    /// Whether the body is over.
    pub done: bool,
}

impl<B> View for IdleTimeoutBody<B> {
    type V = IdleView<B>;

    closed spec fn view(&self) -> IdleView<B> {
        IdleView { inner: self.inner, idle: self.idle, done: self.done }
    }
}

/// An error of an [`IdleTimeoutBody`].
#[derive(Debug)]
pub enum IdleTimeoutError<E> {
    /// The wrapped body returned an error.
    Body(E),
    /// No body frame arrived during the configured idle period.
    TimedOut { idle: Duration },
}

/// What the wrapped body has given.
#[derive(Debug)]
pub enum BodyEvent<F, E> {
    Frame(F),
    Failed(E),
    End,
    /// Nothing yet.
    Pending,
}

/// What the body gives.
#[derive(Debug)]
pub enum IdleStep<F, E> {
    /// A frame; the timer starts over with this period.
    Frame(F, Duration),
    Failed(IdleTimeoutError<E>),
    End,
    /// Nothing yet: the timer decides.
    AwaitTimer,
}

/// What a body that is not over gives, once the wrapped body has given `event`.
pub open spec fn idle_step<F, E>(event: BodyEvent<F, E>, idle: Duration) -> IdleStep<F, E> {
    match event {
        BodyEvent::Frame(frame) => IdleStep::Frame(frame, idle),
        BodyEvent::Failed(error) => IdleStep::Failed(IdleTimeoutError::Body(error)),
        BodyEvent::End => IdleStep::End,
        BodyEvent::Pending => IdleStep::AwaitTimer,
    }
}

/// Whether the body is over once the wrapped body has given `event`.
pub open spec fn ends_with<F, E>(event: BodyEvent<F, E>) -> bool {
    match event {
        BodyEvent::Frame(_) => false,
        BodyEvent::Failed(_) => true,
        BodyEvent::End => true,
        BodyEvent::Pending => false,
    }
}

impl<B> IdleTimeoutBody<B> {
    /// Wraps a body with a maximum permitted idle period.
    pub fn new(inner: B, idle: Duration) -> (body: Self)
        ensures
            body@ == (IdleView { inner, idle, done: false }),
    {
        IdleTimeoutBody { inner, idle, done: false }
    }

    /// Returns the configured idle period.
    pub fn idle_timeout(&self) -> (idle: Duration)
        ensures
            idle == self@.idle,
    {
        self.idle
    }

    /// Returns the wrapped body.
    pub fn into_inner(self) -> (inner: B)
        ensures
            inner == self@.inner,
    {
        self.inner
    }

    /// Borrows the wrapped body.
    pub fn inner(&self) -> (inner: &B)
        ensures
            *inner == self@.inner,
    {
        &self.inner
    }

    /// The wrapped body, to be polled.
    pub fn inner_mut(&mut self) -> (inner: &mut B)
        ensures
            *inner == old(self)@.inner,
            final(self)@ == (IdleView { inner: *final(inner), ..old(self)@ }),
    {
        &mut self.inner
    }

    /// Whether the body is over. One that is over is not polled any more.
    pub fn is_done(&self) -> (done: bool)
        ensures
            done == self@.done,
    {
        self.done
    }

    /// Takes what the wrapped body has given. A frame that is there counts, even
    /// where the timer has fired meanwhile.
    pub fn polled<F, E>(&mut self, event: BodyEvent<F, E>) -> (step: IdleStep<F, E>)
        ensures
            final(self)@ == (IdleView { done: old(self)@.done || ends_with(event), ..old(self)@ }),
            step == (if old(self)@.done {
                IdleStep::End
            } else {
                idle_step(event, old(self)@.idle)
            }),
    {
        if self.done {
            return IdleStep::End;
        }
        match event {
            BodyEvent::Frame(frame) => IdleStep::Frame(frame, self.idle),
            BodyEvent::Failed(error) => {
                self.done = true;
                IdleStep::Failed(IdleTimeoutError::Body(error))
            },
            BodyEvent::End => {
                self.done = true;
                IdleStep::End
            },
            BodyEvent::Pending => IdleStep::AwaitTimer,
        }
    }

    /// The timer has fired while the wrapped body had nothing to give.
    pub fn timer_fired<E>(&mut self) -> (error: IdleTimeoutError<E>)
        ensures
            final(self)@ == (IdleView { done: true, ..old(self)@ }),
            error == (IdleTimeoutError::<E>::TimedOut { idle: old(self)@.idle }),
    {
        self.done = true;
        IdleTimeoutError::TimedOut { idle: self.idle }
    }

    /// Whether no further frame will come, given whether the wrapped body says so
    /// of itself.
    pub fn is_end_stream(&self, inner_ended: bool) -> (ended: bool)
        ensures
            ended == (self@.done || inner_ended),
    {
        self.done || inner_ended
    }
}

impl<E> IdleTimeoutError<E> {
    /// Returns `true` if this is the idle-timeout case.
    pub fn is_timeout(&self) -> (timeout: bool)
        ensures
            timeout == (self is TimedOut),
    {
        match self {
            IdleTimeoutError::Body(_) => false,
            IdleTimeoutError::TimedOut { .. } => true,
        }
    }

    /// Borrows the wrapped body error, if present.
    pub fn body_error(&self) -> (error: Option<&E>)
        ensures
            error == (match *self {
                IdleTimeoutError::Body(error) => Some(&error),
                IdleTimeoutError::TimedOut { .. } => None,
            }),
    {
        match self {
            IdleTimeoutError::Body(error) => Some(error),
            IdleTimeoutError::TimedOut { .. } => None,
        }
    }

    /// The sentence that describes this error to a person, given how to describe
    /// an error of the wrapped body.
    pub fn message<D: Fn(&E) -> String>(&self, describe: D) -> (text: String)
        requires
            forall|error: &E| call_requires(describe, (error,)),
        ensures
            match *self {
                IdleTimeoutError::Body(error) => exists|described: String|
                    call_ensures(describe, (&error,), described) && text@ == "body error: "@
                        + #[trigger] described@,
                IdleTimeoutError::TimedOut { idle } => text@ == "body idle timeout after "@
                    + decimal(whole_millis(idle) as nat) + " ms"@,
            },
    {
        match self {
            IdleTimeoutError::Body(error) => {
                let described = describe(error);
                let mut text = "body error: ".to_owned();
                text.append(described.as_str());
                text
            },
            IdleTimeoutError::TimedOut { idle } => {
                let mut text = "body idle timeout after ".to_owned();
                text.append(decimal_text(duration_as_millis(*idle)).as_str());
                text.append(" ms");
                text
            },
        }
    }
}

/// Every frame resets the timer to the full period and leaves the body going, and
/// the timer decides exactly where nothing has come.
pub proof fn every_frame_resets_the_timer<F, E>(event: BodyEvent<F, E>, idle: Duration)
    ensures
        idle_step(event, idle) matches IdleStep::Frame(frame, period) ==> period == idle && event
            == BodyEvent::<F, E>::Frame(frame),
        event is Frame ==> idle_step(event, idle) is Frame && !ends_with(event),
        idle_step(event, idle) is AwaitTimer <==> event is Pending,
{
}

/// What the wrapped body gives is handed on as it is: a frame with the full idle
/// period to start over, an error as the body's own, and the end. Nothing leaves the
/// timer to decide. After an error or the end the body is over, and gives nothing but
/// its end from then on.
pub proof fn bodies_are_handed_on<B, F, E>(
    body: &mut IdleTimeoutBody<B>,
    event: BodyEvent<F, E>,
    step: IdleStep<F, E>,
)
    requires
        call_ensures(IdleTimeoutBody::<B>::polled::<F, E>, (body, event), step),
    ensures
        old(body)@.done ==> step is End && final(body)@ == old(body)@,
        !old(body)@.done ==> {
            &&& event matches BodyEvent::Frame(frame) ==> step == IdleStep::<F, E>::Frame(
                frame,
                old(body)@.idle,
            )
            &&& event matches BodyEvent::Failed(error) ==> step == IdleStep::<F, E>::Failed(
                IdleTimeoutError::Body(error),
            )
            &&& event is End ==> step is End
            &&& event is Pending ==> step is AwaitTimer
            &&& final(body)@.done <==> event is Failed || event is End
        },
        final(body)@.inner == old(body)@.inner,
        final(body)@.idle == old(body)@.idle,
{
}

/// A body that stalls ends with a timeout that tells the idle period, and is over
/// then: no further frame will come.
pub proof fn stalled_bodies_time_out<B, E>(
    body: &mut IdleTimeoutBody<B>,
    error: IdleTimeoutError<E>,
    stalled: IdleTimeoutBody<B>,
    inner_ended: bool,
    ended: bool,
)
    requires
        call_ensures(IdleTimeoutBody::<B>::timer_fired::<E>, (body,), error),
        stalled@ == final(body)@,
        call_ensures(IdleTimeoutBody::<B>::is_end_stream, (&stalled, inner_ended), ended),
    ensures
        error == (IdleTimeoutError::<E>::TimedOut { idle: old(body)@.idle }),
        final(body)@.done,
        final(body)@.inner == old(body)@.inner,
        final(body)@.idle == old(body)@.idle,
        ended,
{
}

/// An error of the wrapped body is told apart from a timeout, is found again, and is
/// described as the body's own; a timeout tells the idle period in milliseconds.
pub proof fn idle_errors_say_what_went_wrong<E, D: Fn(&E) -> String>(
    error: IdleTimeoutError<E>,
    describe: D,
    text: String,
    timeout: bool,
    cause: Option<&E>,
)
    requires
        call_ensures(IdleTimeoutError::<E>::message::<D>, (&error, describe), text),
        call_ensures(IdleTimeoutError::<E>::is_timeout, (&error,), timeout),
        call_ensures(IdleTimeoutError::<E>::body_error, (&error,), cause),
    ensures
        timeout <==> error is TimedOut,
        cause is Some <==> error is Body,
        error matches IdleTimeoutError::Body(inner) ==> cause == Some(&inner) && exists|
            described: String,
        |
            call_ensures(describe, (&inner,), described) && text@ == "body error: "@
                + #[trigger] described@,
        error matches IdleTimeoutError::TimedOut { idle } ==> text@ == "body idle timeout after "@
            + decimal(whole_millis(idle) as nat) + " ms"@,
{
}

/// A body is wrapped with its idle period and not yet over, and is given back as it
/// was.
pub proof fn bodies_are_wrapped_and_given_back<B>(
    inner: B,
    idle: Duration,
    body: IdleTimeoutBody<B>,
    period: Duration,
    returned: B,
    done: bool,
)
    requires
        call_ensures(IdleTimeoutBody::<B>::new, (inner, idle), body),
        call_ensures(IdleTimeoutBody::<B>::idle_timeout, (&body,), period),
        call_ensures(IdleTimeoutBody::<B>::into_inner, (body,), returned),
        call_ensures(IdleTimeoutBody::<B>::is_done, (&body,), done),
    ensures
        period == idle,
        returned == inner,
        !done,
{
}

} // verus!
