//! HTTP/2 session settings.

use std::time::Duration;

use vstd::prelude::*;

verus! {

/// Stable HTTP/2 client settings, independent of the protocol engine.
///
/// Every setting is opt-in: [`Http2Settings::new`] leaves the engine's defaults
/// untouched. An explicit flow-control window size disables the engine's adaptive
/// window, unless [`Http2Settings::adaptive_window`] is set too: an explicit
/// adaptive setting wins over either window size.
#[derive(Debug)]
pub struct Http2Settings {
    initial_stream_window_size: Option<u32>,
    initial_connection_window_size: Option<u32>,
    adaptive_window: Option<bool>,
    max_frame_size: Option<u32>,
    max_header_list_size: Option<u32>,
    header_table_size: Option<u32>,
    keep_alive_interval: Option<Duration>,
    keep_alive_timeout: Option<Duration>,
    keep_alive_while_idle: Option<bool>,
}

/// What an [`Http2Settings`] stands for: the overrides that were chosen.
pub ghost struct Overrides {
    pub initial_stream_window_size: Option<u32>,
    pub initial_connection_window_size: Option<u32>,
    pub adaptive_window: Option<bool>,
    pub max_frame_size: Option<u32>,
    pub max_header_list_size: Option<u32>,
    pub header_table_size: Option<u32>,
    pub keep_alive_interval: Option<Duration>,
    pub keep_alive_timeout: Option<Duration>,
    pub keep_alive_while_idle: Option<bool>,
}

impl View for Http2Settings {
    type V = Overrides;

    closed spec fn view(&self) -> Overrides {
        Overrides {
            initial_stream_window_size: self.initial_stream_window_size,
            initial_connection_window_size: self.initial_connection_window_size,
            adaptive_window: self.adaptive_window,
            max_frame_size: self.max_frame_size,
            max_header_list_size: self.max_header_list_size,
            header_table_size: self.header_table_size,
            keep_alive_interval: self.keep_alive_interval,
            keep_alive_timeout: self.keep_alive_timeout,
            keep_alive_while_idle: self.keep_alive_while_idle,
        }
    }
}

impl Clone for Http2Settings {
    fn clone(&self) -> (copy: Self)
        ensures
            copy@ == self@,
    {
        Http2Settings {
            initial_stream_window_size: self.initial_stream_window_size,
            initial_connection_window_size: self.initial_connection_window_size,
            adaptive_window: self.adaptive_window,
            max_frame_size: self.max_frame_size,
            max_header_list_size: self.max_header_list_size,
            header_table_size: self.header_table_size,
            keep_alive_interval: self.keep_alive_interval,
            keep_alive_timeout: self.keep_alive_timeout,
            keep_alive_while_idle: self.keep_alive_while_idle,
        }
    }
}

/// One override, as the protocol engine's builder takes it.
#[derive(Clone, Copy, Debug, PartialEq, Eq)]
pub enum Http2Override {
    InitialStreamWindowSize(u32),
    InitialConnectionWindowSize(u32),
    MaxFrameSize(u32),
    MaxHeaderListSize(u32),
    HeaderTableSize(u32),
    KeepAliveInterval(Duration),
    KeepAliveTimeout(Duration),
    KeepAliveWhileIdle(bool),
    AdaptiveWindow(bool),
}

/// A single override where one was chosen, and nothing otherwise.
pub open spec fn chosen(entry: Option<Http2Override>) -> Seq<Http2Override> {
    match entry {
        Some(entry) => seq![entry],
        None => Seq::empty(),
    }
}

impl Overrides {
    /// No override at all.
    pub open spec fn none() -> Overrides {
        Overrides {
            initial_stream_window_size: None,
            initial_connection_window_size: None,
            adaptive_window: None,
            max_frame_size: None,
            max_header_list_size: None,
            header_table_size: None,
            keep_alive_interval: None,
            keep_alive_timeout: None,
            keep_alive_while_idle: None,
        }
    }

    /// The chosen overrides in the order in which they take effect.
    pub open spec fn sequence(self) -> Seq<Http2Override> {
        Seq::empty() + chosen(
            match self.initial_stream_window_size {
                Some(value) => Some(Http2Override::InitialStreamWindowSize(value)),
                None => None,
            },
        ) + chosen(
            match self.initial_connection_window_size {
                Some(value) => Some(Http2Override::InitialConnectionWindowSize(value)),
                None => None,
            },
        ) + chosen(
            match self.max_frame_size {
                Some(value) => Some(Http2Override::MaxFrameSize(value)),
                None => None,
            },
        ) + chosen(
            match self.max_header_list_size {
                Some(value) => Some(Http2Override::MaxHeaderListSize(value)),
                None => None,
            },
        ) + chosen(
            match self.header_table_size {
                Some(value) => Some(Http2Override::HeaderTableSize(value)),
                None => None,
            },
        ) + chosen(
            match self.keep_alive_interval {
                Some(value) => Some(Http2Override::KeepAliveInterval(value)),
                None => None,
            },
        ) + chosen(
            match self.keep_alive_timeout {
                Some(value) => Some(Http2Override::KeepAliveTimeout(value)),
                None => None,
            },
        ) + chosen(
            match self.keep_alive_while_idle {
                Some(value) => Some(Http2Override::KeepAliveWhileIdle(value)),
                None => None,
            },
        ) + chosen(
            match self.adaptive_window {
                Some(value) => Some(Http2Override::AdaptiveWindow(value)),
                None => None,
            },
        )
    }
}

/// Adds an override to the end of `calls` where one was chosen.
fn push_chosen(calls: &mut Vec<Http2Override>, entry: Option<Http2Override>)
    ensures
        final(calls)@ == old(calls)@ + chosen(entry),
{
    if let Some(entry) = entry {
        calls.push(entry);
    }
    assert(calls@ =~= old(calls)@ + chosen(entry));
}

impl Http2Settings {
    /// Starts with no overrides, preserving the engine's defaults.
    pub fn new() -> (settings: Self)
        ensures
            settings@ == Overrides::none(),
    {
        Http2Settings {
            initial_stream_window_size: None,
            initial_connection_window_size: None,
            adaptive_window: None,
            max_frame_size: None,
            max_header_list_size: None,
            header_table_size: None,
            keep_alive_interval: None,
            keep_alive_timeout: None,
            keep_alive_while_idle: None,
        }
    }

    /// Sets the initial per-stream flow-control receive window.
    pub fn initial_stream_window_size(self, size: u32) -> (settings: Self)
        ensures
            settings@ == (Overrides { initial_stream_window_size: Some(size), ..self@ }),
    {
        Http2Settings { initial_stream_window_size: Some(size), ..self }
    }

    /// Sets the initial connection-wide flow-control receive window.
    pub fn initial_connection_window_size(self, size: u32) -> (settings: Self)
        ensures
            settings@ == (Overrides { initial_connection_window_size: Some(size), ..self@ }),
    {
        Http2Settings { initial_connection_window_size: Some(size), ..self }
    }

    /// Enables or disables the adaptive receive-window algorithm.
    pub fn adaptive_window(self, enabled: bool) -> (settings: Self)
        ensures
            settings@ == (Overrides { adaptive_window: Some(enabled), ..self@ }),
    {
        Http2Settings { adaptive_window: Some(enabled), ..self }
    }

    /// Sets the largest HTTP/2 frame accepted from the peer.
    pub fn max_frame_size(self, size: u32) -> (settings: Self)
        ensures
            settings@ == (Overrides { max_frame_size: Some(size), ..self@ }),
    {
        Http2Settings { max_frame_size: Some(size), ..self }
    }

    /// Sets the largest decoded HTTP/2 header list accepted from the peer.
    pub fn max_header_list_size(self, size: u32) -> (settings: Self)
        ensures
            settings@ == (Overrides { max_header_list_size: Some(size), ..self@ }),
    {
        Http2Settings { max_header_list_size: Some(size), ..self }
    }

    /// Advertises the maximum HPACK dynamic-table size accepted from the peer.
    pub fn header_table_size(self, size: u32) -> (settings: Self)
        ensures
            settings@ == (Overrides { header_table_size: Some(size), ..self@ }),
    {
        Http2Settings { header_table_size: Some(size), ..self }
    }

    /// Sends HTTP/2 keep-alive pings at this interval.
    pub fn keep_alive_interval(self, interval: Duration) -> (settings: Self)
        ensures
            settings@ == (Overrides { keep_alive_interval: Some(interval), ..self@ }),
    {
        Http2Settings { keep_alive_interval: Some(interval), ..self }
    }

    /// Closes a connection when a keep-alive ping is not acknowledged in time.
    ///
    /// This has no effect until [`Self::keep_alive_interval`] is configured.
    pub fn keep_alive_timeout(self, timeout: Duration) -> (settings: Self)
        ensures
            settings@ == (Overrides { keep_alive_timeout: Some(timeout), ..self@ }),
    {
        Http2Settings { keep_alive_timeout: Some(timeout), ..self }
    }

    /// Controls whether keep-alive pings continue with no active streams.
    ///
    /// This has no effect until [`Self::keep_alive_interval`] is configured.
    pub fn keep_alive_while_idle(self, enabled: bool) -> (settings: Self)
        ensures
            settings@ == (Overrides { keep_alive_while_idle: Some(enabled), ..self@ }),
    {
        Http2Settings { keep_alive_while_idle: Some(enabled), ..self }
    }

    /// The calls that put these settings into effect on a fresh builder of the
    /// protocol engine, in order. A setting that was not chosen takes no part.
    ///
    /// The adaptive-window override comes last, so that an explicit choice is not
    /// undone by a window size.
    pub fn apply(&self) -> (calls: Vec<Http2Override>)
        ensures
            calls@ == self@.sequence(),
    {
        let mut calls: Vec<Http2Override> = Vec::new();
        let entry = match self.initial_stream_window_size {
            Some(size) => Some(Http2Override::InitialStreamWindowSize(size)),
            None => None,
        };
        push_chosen(&mut calls, entry);
        let entry = match self.initial_connection_window_size {
            Some(size) => Some(Http2Override::InitialConnectionWindowSize(size)),
            None => None,
        };
        push_chosen(&mut calls, entry);
        let entry = match self.max_frame_size {
            Some(size) => Some(Http2Override::MaxFrameSize(size)),
            None => None,
        };
        push_chosen(&mut calls, entry);
        let entry = match self.max_header_list_size {
            Some(size) => Some(Http2Override::MaxHeaderListSize(size)),
            None => None,
        };
        push_chosen(&mut calls, entry);
        let entry = match self.header_table_size {
            Some(size) => Some(Http2Override::HeaderTableSize(size)),
            None => None,
        };
        push_chosen(&mut calls, entry);
        let entry = match self.keep_alive_interval {
            Some(interval) => Some(Http2Override::KeepAliveInterval(interval)),
            None => None,
        };
        push_chosen(&mut calls, entry);
        let entry = match self.keep_alive_timeout {
            Some(timeout) => Some(Http2Override::KeepAliveTimeout(timeout)),
            None => None,
        };
        push_chosen(&mut calls, entry);
        let entry = match self.keep_alive_while_idle {
            Some(enabled) => Some(Http2Override::KeepAliveWhileIdle(enabled)),
            None => None,
        };
        push_chosen(&mut calls, entry);
        let entry = match self.adaptive_window {
            Some(enabled) => Some(Http2Override::AdaptiveWindow(enabled)),
            None => None,
        };
        push_chosen(&mut calls, entry);
        calls
    }
}

impl Default for Http2Settings {
    fn default() -> (settings: Self)
        ensures
            settings@ == Overrides::none(),
    {
        Http2Settings::new()
    }
}

/// The flow-control mode that a builder is left in by `calls`: each window size
/// turns the adaptive window off, and each adaptive override decides anew.
pub open spec fn adaptive_after(calls: Seq<Http2Override>, before: bool) -> bool
    decreases calls.len(),
{
    if calls.len() == 0 {
        before
    } else {
        match calls.last() {
            Http2Override::AdaptiveWindow(enabled) => enabled,
            Http2Override::InitialStreamWindowSize(_) => false,
            Http2Override::InitialConnectionWindowSize(_) => false,
            _ => adaptive_after(calls.drop_last(), before),
        }
    }
}

proof fn lemma_adaptive_after_concat(a: Seq<Http2Override>, b: Seq<Http2Override>, before: bool)
    ensures
        adaptive_after(a + b, before) == adaptive_after(b, adaptive_after(a, before)),
    decreases b.len(),
{
    if b.len() == 0 {
        assert(a + b =~= a);
    } else {
        assert((a + b).drop_last() =~= a + b.drop_last());
        lemma_adaptive_after_concat(a, b.drop_last(), before);
    }
}

proof fn lemma_adaptive_after_chosen(entry: Option<Http2Override>, before: bool)
    ensures
        adaptive_after(chosen(entry), before) == (match entry {
            Some(Http2Override::AdaptiveWindow(enabled)) => enabled,
            Some(Http2Override::InitialStreamWindowSize(_)) => false,
            Some(Http2Override::InitialConnectionWindowSize(_)) => false,
            _ => before,
        }),
{
    reveal_with_fuel(adaptive_after, 2);
    if let Some(e) = entry {
        assert(chosen(entry).drop_last() =~= Seq::empty());
    }
}

/// An explicit adaptive setting wins over either window size, whatever else is
/// chosen; without one, an explicit window size turns the adaptive window off;
/// and with neither, the mode stays as it was.
pub proof fn explicit_adaptive_window_wins(settings: Overrides, before: bool)
    ensures
        adaptive_after(settings.sequence(), before) == (match settings.adaptive_window {
            Some(enabled) => enabled,
            None => before && settings.initial_stream_window_size is None
                && settings.initial_connection_window_size is None,
        }),
{
    let s = settings;
    let p0 = Seq::<Http2Override>::empty();
    let e0 = match s.initial_stream_window_size {
        Some(value) => Some(Http2Override::InitialStreamWindowSize(value)),
        None => None,
    };
    let p1 = p0 + chosen(e0);
    lemma_adaptive_after_concat(p0, chosen(e0), before);
    lemma_adaptive_after_chosen(e0, adaptive_after(p0, before));
    let e1 = match s.initial_connection_window_size {
        Some(value) => Some(Http2Override::InitialConnectionWindowSize(value)),
        None => None,
    };
    let p2 = p1 + chosen(e1);
    lemma_adaptive_after_concat(p1, chosen(e1), before);
    lemma_adaptive_after_chosen(e1, adaptive_after(p1, before));
    let e2 = match s.max_frame_size {
        Some(value) => Some(Http2Override::MaxFrameSize(value)),
        None => None,
    };
    let p3 = p2 + chosen(e2);
    lemma_adaptive_after_concat(p2, chosen(e2), before);
    lemma_adaptive_after_chosen(e2, adaptive_after(p2, before));
    let e3 = match s.max_header_list_size {
        Some(value) => Some(Http2Override::MaxHeaderListSize(value)),
        None => None,
    };
    let p4 = p3 + chosen(e3);
    lemma_adaptive_after_concat(p3, chosen(e3), before);
    lemma_adaptive_after_chosen(e3, adaptive_after(p3, before));
    let e4 = match s.header_table_size {
        Some(value) => Some(Http2Override::HeaderTableSize(value)),
        None => None,
    };
    let p5 = p4 + chosen(e4);
    lemma_adaptive_after_concat(p4, chosen(e4), before);
    lemma_adaptive_after_chosen(e4, adaptive_after(p4, before));
    let e5 = match s.keep_alive_interval {
        Some(value) => Some(Http2Override::KeepAliveInterval(value)),
        None => None,
    };
    let p6 = p5 + chosen(e5);
    lemma_adaptive_after_concat(p5, chosen(e5), before);
    lemma_adaptive_after_chosen(e5, adaptive_after(p5, before));
    let e6 = match s.keep_alive_timeout {
        Some(value) => Some(Http2Override::KeepAliveTimeout(value)),
        None => None,
    };
    let p7 = p6 + chosen(e6);
    lemma_adaptive_after_concat(p6, chosen(e6), before);
    lemma_adaptive_after_chosen(e6, adaptive_after(p6, before));
    let e7 = match s.keep_alive_while_idle {
        Some(value) => Some(Http2Override::KeepAliveWhileIdle(value)),
        None => None,
    };
    let p8 = p7 + chosen(e7);
    lemma_adaptive_after_concat(p7, chosen(e7), before);
    lemma_adaptive_after_chosen(e7, adaptive_after(p7, before));
    let e8 = match s.adaptive_window {
        Some(value) => Some(Http2Override::AdaptiveWindow(value)),
        None => None,
    };
    let p9 = p8 + chosen(e8);
    lemma_adaptive_after_concat(p8, chosen(e8), before);
    lemma_adaptive_after_chosen(e8, adaptive_after(p8, before));
}

/// Settings that are applied later decide over those applied before, and leave the
/// mode as it was where they say nothing of it.
pub proof fn later_settings_decide(first: Overrides, second: Overrides, before: bool)
    ensures
        adaptive_after(first.sequence() + second.sequence(), before) == (
        match second.adaptive_window {
            Some(enabled) => enabled,
            None => adaptive_after(first.sequence(), before)
                && second.initial_stream_window_size is None
                && second.initial_connection_window_size is None,
        }),
{
    lemma_adaptive_after_concat(first.sequence(), second.sequence(), before);
    explicit_adaptive_window_wins(second, adaptive_after(first.sequence(), before));
}

proof fn lemma_chosen_call(
    calls: Seq<Http2Override>,
    entry: Option<Http2Override>,
    call: Http2Override,
)
    ensures
        (calls + chosen(entry)).contains(call) <==> calls.contains(call) || entry == Some(call),
{
    let all = calls + chosen(entry);
    if all.contains(call) {
        let i = choose|i: int| 0 <= i < all.len() && all[i] == call;
        if i < calls.len() {
            assert(calls[i] == call);
        } else {
            assert(chosen(entry)[i - calls.len()] == call);
        }
    }
    if calls.contains(call) {
        let i = choose|i: int| 0 <= i < calls.len() && calls[i] == call;
        assert(all[i] == call);
    }
    if entry == Some(call) {
        assert(all[calls.len() as int] == call);
    }
}

/// The calls that a list of settings comes to are exactly the settings that were
/// chosen, each with its value.
proof fn lemma_calls_are_the_choices(s: Overrides, call: Http2Override)
    ensures
        s.sequence().contains(call) <==> (match call {
            Http2Override::InitialStreamWindowSize(value) => s.initial_stream_window_size
                == Some(value),
            Http2Override::InitialConnectionWindowSize(value) => s.initial_connection_window_size
                == Some(value),
            Http2Override::MaxFrameSize(value) => s.max_frame_size == Some(value),
            Http2Override::MaxHeaderListSize(value) => s.max_header_list_size == Some(value),
            Http2Override::HeaderTableSize(value) => s.header_table_size == Some(value),
            Http2Override::KeepAliveInterval(value) => s.keep_alive_interval == Some(value),
            Http2Override::KeepAliveTimeout(value) => s.keep_alive_timeout == Some(value),
            Http2Override::KeepAliveWhileIdle(value) => s.keep_alive_while_idle == Some(value),
            Http2Override::AdaptiveWindow(value) => s.adaptive_window == Some(value),
        }),
{
    let p0 = Seq::<Http2Override>::empty();
    let e0 = match s.initial_stream_window_size {
        Some(value) => Some(Http2Override::InitialStreamWindowSize(value)),
        None => None,
    };
    let p1 = p0 + chosen(e0);
    lemma_chosen_call(p0, e0, call);
    let e1 = match s.initial_connection_window_size {
        Some(value) => Some(Http2Override::InitialConnectionWindowSize(value)),
        None => None,
    };
    let p2 = p1 + chosen(e1);
    lemma_chosen_call(p1, e1, call);
    let e2 = match s.max_frame_size {
        Some(value) => Some(Http2Override::MaxFrameSize(value)),
        None => None,
    };
    let p3 = p2 + chosen(e2);
    lemma_chosen_call(p2, e2, call);
    let e3 = match s.max_header_list_size {
        Some(value) => Some(Http2Override::MaxHeaderListSize(value)),
        None => None,
    };
    let p4 = p3 + chosen(e3);
    lemma_chosen_call(p3, e3, call);
    let e4 = match s.header_table_size {
        Some(value) => Some(Http2Override::HeaderTableSize(value)),
        None => None,
    };
    let p5 = p4 + chosen(e4);
    lemma_chosen_call(p4, e4, call);
    let e5 = match s.keep_alive_interval {
        Some(value) => Some(Http2Override::KeepAliveInterval(value)),
        None => None,
    };
    let p6 = p5 + chosen(e5);
    lemma_chosen_call(p5, e5, call);
    let e6 = match s.keep_alive_timeout {
        Some(value) => Some(Http2Override::KeepAliveTimeout(value)),
        None => None,
    };
    let p7 = p6 + chosen(e6);
    lemma_chosen_call(p6, e6, call);
    let e7 = match s.keep_alive_while_idle {
        Some(value) => Some(Http2Override::KeepAliveWhileIdle(value)),
        None => None,
    };
    let p8 = p7 + chosen(e7);
    lemma_chosen_call(p7, e7, call);
    let e8 = match s.adaptive_window {
        Some(value) => Some(Http2Override::AdaptiveWindow(value)),
        None => None,
    };
    let p9 = p8 + chosen(e8);
    lemma_chosen_call(p8, e8, call);
    assert(s.sequence() =~= p9);
}

/// A setting takes effect exactly where it was chosen, with the value that was
/// chosen. A choice for the adaptive window comes after everything else, so that no
/// window size undoes it.
pub proof fn chosen_settings_take_effect(
    settings: Http2Settings,
    calls: Vec<Http2Override>,
    call: Http2Override,
)
    requires
        call_ensures(Http2Settings::apply, (&settings,), calls),
    ensures
        calls@.contains(call) <==> (match call {
            Http2Override::InitialStreamWindowSize(value) => settings@.initial_stream_window_size
                == Some(value),
            Http2Override::InitialConnectionWindowSize(value) => settings@.initial_connection_window_size
                == Some(value),
            Http2Override::MaxFrameSize(value) => settings@.max_frame_size == Some(value),
            Http2Override::MaxHeaderListSize(value) => settings@.max_header_list_size
                == Some(value),
            Http2Override::HeaderTableSize(value) => settings@.header_table_size == Some(value),
            Http2Override::KeepAliveInterval(value) => settings@.keep_alive_interval
                == Some(value),
            Http2Override::KeepAliveTimeout(value) => settings@.keep_alive_timeout == Some(value),
            Http2Override::KeepAliveWhileIdle(value) => settings@.keep_alive_while_idle
                == Some(value),
            Http2Override::AdaptiveWindow(value) => settings@.adaptive_window == Some(value),
        }),
        settings@.adaptive_window matches Some(enabled) ==> calls@.len() > 0 && calls@.last()
            == Http2Override::AdaptiveWindow(enabled),
        forall|before: bool| #[trigger]
            adaptive_after(calls@, before) == (match settings@.adaptive_window {
                Some(enabled) => enabled,
                None => before && settings@.initial_stream_window_size is None
                    && settings@.initial_connection_window_size is None,
            }),
{
    lemma_calls_are_the_choices(settings@, call);
    assert forall|before: bool| #[trigger]
        adaptive_after(calls@, before) == (match settings@.adaptive_window {
            Some(enabled) => enabled,
            None => before && settings@.initial_stream_window_size is None
                && settings@.initial_connection_window_size is None,
        }) by {
        explicit_adaptive_window_wins(settings@, before);
    }
}

/// Settings begin with nothing chosen, and each choice leaves the others alone.
pub proof fn settings_are_chosen_one_at_a_time(
    fresh: Http2Settings,
    before: Http2Settings,
    size: u32,
    sized: (Http2Settings, Http2Settings, Http2Settings, Http2Settings, Http2Settings),
    enabled: bool,
    switched: (Http2Settings, Http2Settings),
    period: Duration,
    timed: (Http2Settings, Http2Settings),
    call: Http2Override,
    calls: Vec<Http2Override>,
)
    requires
        call_ensures(Http2Settings::new, (), fresh),
        call_ensures(Http2Settings::apply, (&fresh,), calls),
        call_ensures(Http2Settings::initial_stream_window_size, (before, size), sized.0),
        call_ensures(Http2Settings::initial_connection_window_size, (before, size), sized.1),
        call_ensures(Http2Settings::max_frame_size, (before, size), sized.2),
        call_ensures(Http2Settings::max_header_list_size, (before, size), sized.3),
        call_ensures(Http2Settings::header_table_size, (before, size), sized.4),
        call_ensures(Http2Settings::adaptive_window, (before, enabled), switched.0),
        call_ensures(Http2Settings::keep_alive_while_idle, (before, enabled), switched.1),
        call_ensures(Http2Settings::keep_alive_interval, (before, period), timed.0),
        call_ensures(Http2Settings::keep_alive_timeout, (before, period), timed.1),
    ensures
        calls@.len() == 0,
        sized.0@ == (Overrides { initial_stream_window_size: Some(size), ..before@ }),
        sized.1@ == (Overrides { initial_connection_window_size: Some(size), ..before@ }),
        sized.2@ == (Overrides { max_frame_size: Some(size), ..before@ }),
        sized.3@ == (Overrides { max_header_list_size: Some(size), ..before@ }),
        sized.4@ == (Overrides { header_table_size: Some(size), ..before@ }),
        switched.0@ == (Overrides { adaptive_window: Some(enabled), ..before@ }),
        switched.1@ == (Overrides { keep_alive_while_idle: Some(enabled), ..before@ }),
        timed.0@ == (Overrides { keep_alive_interval: Some(period), ..before@ }),
        timed.1@ == (Overrides { keep_alive_timeout: Some(period), ..before@ }),
{
    assert(fresh@.sequence() =~= Seq::<Http2Override>::empty());
}

} // verus!
