//! The decisions of the Long Poll loop, as a state machine.
//!
//! The loop that talks to VK asks a [`Poller`] what to do next: request
//! connection data for a Long Poll server, send a Long Poll request, wait
//! before retrying, hand updates to the handler, or stop. It then performs
//! that action and reports what came of it as the next event.

use vstd::prelude::*;
use crate::types::{LongPollResponse, LongPollServer, Update, VkError};
use vstd::arithmetic::power2::{lemma_pow2_pos, lemma_pow2_unfold, pow2};

verus! {

/// The longest wait, in seconds, between retries after failures.
pub const MAX_RETRY_DELAY: u64 = 30;

/// How long, in seconds, the Long Poll server may hold a request.
pub const LONG_POLL_WAIT: &'static str = "25";

/// The pairs of a parameter list, by their views.
pub open spec fn params_view(p: Seq<(String, String)>) -> Seq<(Seq<char>, Seq<char>)> {
    p.map_values(|e: (String, String)| (e.0@, e.1@))
}

/// The parameters of a Long Poll request.
pub open spec fn poll_params(key: Seq<char>, ts: Seq<char>) -> Seq<(Seq<char>, Seq<char>)> {
    seq![("act"@, "a_check"@), ("key"@, key), ("wait"@, LONG_POLL_WAIT@), ("ts"@, ts)]
}

/// The wait after a failure that followed a wait of `d` seconds: twice as
/// long, but never more than [`MAX_RETRY_DELAY`].
pub open spec fn next_delay(d: u64) -> u64 {
    if 2 * d <= MAX_RETRY_DELAY {
        (2 * d) as u64
    } else {
        MAX_RETRY_DELAY
    }
}

/// The delay after `k` failures in a row, starting from a delay of `d`.
pub open spec fn delay_after_failures(d: u64, k: nat) -> u64
    decreases k,
{
    if k == 0 {
        d
    } else {
        next_delay(delay_after_failures(d, (k - 1) as nat))
    }
}

/// Backing off keeps the delay between one second and the maximum, and
/// never shortens it.
pub proof fn next_delay_bounded(d: u64)
    requires
        1 <= d <= MAX_RETRY_DELAY,
    ensures
        1 <= next_delay(d) <= MAX_RETRY_DELAY,
        d <= next_delay(d),
{
}

/// Backoff doubles the wait from failure to failure until it reaches the
/// maximum: after `k` failures in a row from a delay of `d`, the delay is
/// the smaller of `d * 2^k` and [`MAX_RETRY_DELAY`].
pub proof fn backoff_doubles_up_to_max(d: u64, k: nat)
    requires
        1 <= d <= MAX_RETRY_DELAY,
    ensures
        delay_after_failures(d, k) == if d * pow2(k) <= MAX_RETRY_DELAY {
            d * pow2(k)
        } else {
            MAX_RETRY_DELAY as int
        },
    decreases k,
{
    if k == 0 {
        assert(pow2(0) == 1) by {
            vstd::arithmetic::power2::lemma2_to64();
        }
    } else {
        let k1 = (k - 1) as nat;
        backoff_doubles_up_to_max(d, k1);
        lemma_pow2_unfold(k);
        lemma_pow2_pos(k1);
        let p = pow2(k1);
        assert(d * pow2(k) == 2 * (d * p)) by (nonlinear_arith)
            requires
                pow2(k) == 2 * p,
        ;
        assert(d * p >= d) by (nonlinear_arith)
            requires
                p > 0,
                d >= 1,
        ;
    }
}

/// What the loop must do next.
#[derive(Debug)]
pub enum PollAction {
    /// Ask the API for the connection data of a Long Poll server.
    RequestServer,
    /// Send a Long Poll request to `url` with the query `params`.
    Poll { url: String, params: Vec<(String, String)> },
    /// Wait `seconds`, or until shutdown is requested.
    Sleep { seconds: u64 },
    /// Hand each of `updates`, in order, to the handler.
    Deliver { updates: Vec<Update> },
    /// Leave the loop with `result`.
    Stop { result: Result<(), VkError> },
}

/// The state of the loop, as the contracts see it.
pub struct PollerView {
    /// The Long Poll server in use; `None` before the first one is known.
    pub server: Option<LongPollServer>,
    /// The marker of the last event received.
    pub ts: Seq<char>,
    /// The wait, in seconds, before the next retry after a failure.
    pub retry_delay: u64,
}

impl PollerView {
    /// The delay stays between one second and [`MAX_RETRY_DELAY`].
    pub open spec fn wf(self) -> bool {
        1 <= self.retry_delay <= MAX_RETRY_DELAY
    }

    /// Whether `a` is the Long Poll request for this state, or, while no
    /// server is known, the request for one.
    pub open spec fn polls(self, a: PollAction) -> bool {
        match self.server {
            Some(s) => a matches PollAction::Poll { url, params } && url@ == s.server@
                && params_view(params@) == poll_params(s.key@, self.ts),
            None => a is RequestServer,
        }
    }

    /// Whether `a` waits the current delay, and `next` doubles the delay and
    /// keeps the rest.
    pub open spec fn backs_off(self, next: PollerView, a: PollAction) -> bool {
        &&& a == PollAction::Sleep { seconds: self.retry_delay }
        &&& next == PollerView { retry_delay: next_delay(self.retry_delay), ..self }
    }
}

/// The decision state of the Long Poll loop.
pub struct Poller {
    server: Option<LongPollServer>,
    ts: String,
    retry_delay: u64,
}

impl View for Poller {
    type V = PollerView;

    closed spec fn view(&self) -> PollerView {
        PollerView { server: self.server, ts: self.ts@, retry_delay: self.retry_delay }
    }
}

/// After an answer that delivers updates, the delay is back to one second:
/// the next failure waits one second and doubles the delay to two.
pub proof fn delivery_resets_backoff(v: PollerView, t: Seq<char>, w: PollerView, a: PollAction)
    requires
        v.wf(),
        (PollerView { ts: t, retry_delay: 1, ..v }).backs_off(w, a),
    ensures
        a == (PollAction::Sleep { seconds: 1 }),
        w.retry_delay == 2,
        w.wf(),
{
}

/// What came of the last action, as the contracts of a run see it.
pub enum PollEvent {
    /// The answer to a request for a server: its data, or `None` on error.
    Server { received: Option<LongPollServer> },
    /// A Long Poll request failed, or its answer could not be read or parsed.
    PollFailed,
    /// The Long Poll server answered.
    Answer { response: LongPollResponse },
    /// A wait ended without a shutdown.
    SleepEnded,
    /// The updates were handed to the handler.
    Delivered,
    /// Shutdown was requested while waiting.
    Shutdown,
}

/// An action, by its view.
pub enum ActionView {
    RequestServer,
    Poll { url: Seq<char>, params: Seq<(Seq<char>, Seq<char>)> },
    Sleep { seconds: u64 },
    Deliver { updates: Seq<Update> },
    Stop { ok: bool },
}

/// The view of an action.
pub open spec fn action_view(a: PollAction) -> ActionView {
    match a {
        PollAction::RequestServer => ActionView::RequestServer,
        PollAction::Poll { url, params } => ActionView::Poll { url: url@, params: params_view(params@) },
        PollAction::Sleep { seconds } => ActionView::Sleep { seconds },
        PollAction::Deliver { updates } => ActionView::Deliver { updates: updates@ },
        PollAction::Stop { result } => ActionView::Stop { ok: result is Ok },
    }
}

/// The Long Poll request of state `v`, or the request for a server while
/// none is known.
pub open spec fn poll_of(v: PollerView) -> ActionView {
    match v.server {
        Some(s) => ActionView::Poll { url: s.server@, params: poll_params(s.key@, v.ts) },
        None => ActionView::RequestServer,
    }
}

/// Wait the current delay and double it.
pub open spec fn back_off_of(v: PollerView) -> (PollerView, ActionView) {
    (PollerView { retry_delay: next_delay(v.retry_delay), ..v }, ActionView::Sleep { seconds: v.retry_delay })
}

/// One step of the loop: the next state and action after event `e` in
/// state `v`.
pub open spec fn step(v: PollerView, e: PollEvent) -> (PollerView, ActionView) {
    match e {
        PollEvent::Server { received: Some(s) } => {
            let n = PollerView {
                server: Some(s),
                ts: s.ts@,
                retry_delay: if v.server is None {
                    v.retry_delay
                } else {
                    1
                },
            };
            (n, poll_of(n))
        },
        PollEvent::Server { received: None } => if v.server is None {
            (v, ActionView::Stop { ok: false })
        } else {
            back_off_of(v)
        },
        PollEvent::PollFailed => back_off_of(v),
        PollEvent::Answer { response } => match response.failed {
            Some(code) => if code == 1 {
                let n = PollerView {
                    ts: match response.ts {
                        Some(t) => t@,
                        None => v.ts,
                    },
                    ..v
                };
                (n, poll_of(n))
            } else if code == 2 || code == 3 {
                (v, ActionView::RequestServer)
            } else {
                back_off_of(v)
            },
            None => match response.ts {
                None => (v, poll_of(v)),
                Some(t) => (
                    PollerView { ts: t@, retry_delay: 1, ..v },
                    ActionView::Deliver {
                        updates: match response.updates {
                            Some(u) => u@,
                            None => Seq::empty(),
                        },
                    },
                ),
            },
        },
        PollEvent::SleepEnded => (v, poll_of(v)),
        PollEvent::Delivered => (v, poll_of(v)),
        PollEvent::Shutdown => (v, ActionView::Stop { ok: true }),
    }
}

/// The state of a new [`Poller`].
pub open spec fn fresh() -> PollerView {
    PollerView { server: None, ts: Seq::empty(), retry_delay: 1 }
}

/// The state of a loop started fresh after the first `k` events of `evs`.
pub open spec fn state_at(evs: Seq<PollEvent>, k: nat) -> PollerView
    decreases k,
{
    if k == 0 {
        fresh()
    } else {
        step(state_at(evs, (k - 1) as nat), evs[k - 1]).0
    }
}

/// The action decided on event `k` of `evs`.
pub open spec fn action_at(evs: Seq<PollEvent>, k: nat) -> ActionView {
    step(state_at(evs, k), evs[k as int]).1
}

/// The action that event `k` of `evs` answers: the first action of a loop
/// is the request for a server.
pub open spec fn action_before(evs: Seq<PollEvent>, k: nat) -> ActionView {
    if k == 0 {
        ActionView::RequestServer
    } else {
        action_at(evs, (k - 1) as nat)
    }
}

/// Whether `e` can come of performing `a`.
pub open spec fn answers(a: ActionView, e: PollEvent) -> bool {
    match a {
        ActionView::RequestServer => e is Server,
        ActionView::Poll { .. } => e is PollFailed || e is Answer || e is Shutdown,
        ActionView::Sleep { .. } => e is SleepEnded || e is Shutdown,
        ActionView::Deliver { .. } => e is Delivered,
        ActionView::Stop { .. } => false,
    }
}

/// Whether `evs` is a run of a loop started fresh: each event comes of the
/// action before it, and nothing follows a stop.
pub open spec fn is_run(evs: Seq<PollEvent>) -> bool {
    forall|k: nat| k < evs.len() ==> answers(#[trigger] action_before(evs, k), evs[k as int])
}

/// In a run, a server is known after every event, except after a first
/// request for a server that failed and stopped the loop.
proof fn lemma_server_known(evs: Seq<PollEvent>, k: nat)
    requires
        is_run(evs),
        1 <= k <= evs.len(),
    ensures
        state_at(evs, k).server is Some || (k == 1 && action_at(evs, 0) == ActionView::Stop {
            ok: false,
        }),
    decreases k,
{
    assert(answers(action_before(evs, (k - 1) as nat), evs[k - 1]));
    if k > 1 {
        lemma_server_known(evs, (k - 1) as nat);
        if state_at(evs, (k - 1) as nat).server is None {
            assert(action_before(evs, 1) == ActionView::Stop { ok: false });
            assert(answers(action_before(evs, 1), evs[1]));
        }
    }
}

/// Over a whole run of the loop: the server is requested again only after
/// an answer with `failed: 2` or `3`; the loop stops only when shutdown is
/// requested, or when the first request for a server fails; and every Long
/// Poll request goes to the server in use with `act=a_check`, its key,
/// `wait=25` and the last marker received.
pub proof fn run_requests_server_only_after_failed_2_or_3(evs: Seq<PollEvent>, k: nat)
    requires
        is_run(evs),
        k < evs.len(),
    ensures
        action_at(evs, k) is RequestServer ==> (evs[k as int] matches PollEvent::Answer { response }
            && (response.failed == Some(2i32) || response.failed == Some(3i32))),
        action_at(evs, k) matches ActionView::Stop { ok } ==> ((evs[k as int] is Shutdown && ok) || (
        k == 0 && !ok)),
        action_at(evs, k) matches ActionView::Poll { url, params } ==> (state_at(
            evs,
            k + 1,
        ).server matches Some(s) && url == s.server@ && params == poll_params(
            s.key@,
            state_at(evs, k + 1).ts,
        )),
{
    assert(answers(action_before(evs, k), evs[k as int]));
    if k >= 1 {
        lemma_server_known(evs, k);
        if state_at(evs, k).server is None {
            assert(action_before(evs, k) == ActionView::Stop { ok: false });
        }
    }
}

/// The number of waits since the last reset of the delay (a server received,
/// or an answer with a marker and no `failed` code) among the first `k`
/// events of `evs`.
pub open spec fn waits_since_reset(evs: Seq<PollEvent>, k: nat) -> nat
    decreases k,
{
    if k == 0 {
        0
    } else {
        let e = evs[k - 1];
        if e matches PollEvent::Server { received: Some(_) } {
            0
        } else if e matches PollEvent::Answer { response } && response.failed is None
            && response.ts is Some {
            0
        } else if action_at(evs, (k - 1) as nat) is Sleep {
            waits_since_reset(evs, (k - 1) as nat) + 1
        } else {
            waits_since_reset(evs, (k - 1) as nat)
        }
    }
}

/// In a run, the delay is the one reached by doubling from one second once
/// for each wait since the last reset.
proof fn lemma_run_delay(evs: Seq<PollEvent>, k: nat)
    requires
        is_run(evs),
        k <= evs.len(),
    ensures
        state_at(evs, k).retry_delay == delay_after_failures(1, waits_since_reset(evs, k)),
    decreases k,
{
    if k > 0 {
        let j = (k - 1) as nat;
        lemma_run_delay(evs, j);
        if j >= 1 {
            lemma_server_known(evs, j);
            if state_at(evs, j).server is None {
                assert(action_before(evs, j) == ActionView::Stop { ok: false });
                assert(answers(action_before(evs, j), evs[j as int]));
            }
        }
    }
}

/// Over a whole run of the loop: each wait lasts `min(2^c, 30)` seconds,
/// where `c` counts the waits since the delay was last reset by a server
/// received or by an answer with a marker and no `failed` code; so a streak
/// of failures waits 1, 2, 4, 8, 16, 30, 30, ... seconds.
pub proof fn run_backs_off_exponentially(evs: Seq<PollEvent>, k: nat)
    requires
        is_run(evs),
        k < evs.len(),
    ensures
        action_at(evs, k) matches ActionView::Sleep { seconds } ==> (seconds == if pow2(
            waits_since_reset(evs, k),
        ) <= MAX_RETRY_DELAY {
            pow2(waits_since_reset(evs, k)) as int
        } else {
            MAX_RETRY_DELAY as int
        }),
{
    lemma_run_delay(evs, k);
    backoff_doubles_up_to_max(1, waits_since_reset(evs, k));
    assert(1 * pow2(waits_since_reset(evs, k)) == pow2(waits_since_reset(evs, k)));
}

impl Poller {
    /// A loop that knows no server yet and waits one second after a first
    /// failure.
    pub fn new() -> (p: Poller)
        ensures
            p@ == fresh(),
            p@ == (PollerView { server: None, ts: Seq::empty(), retry_delay: 1 }),
            p@.wf(),
    {
        Poller { server: None, ts: String::new(), retry_delay: 1 }
    }

    /// The first action: request a Long Poll server.
    pub fn start(&self) -> (a: PollAction)
        ensures
            a is RequestServer,
    {
        PollAction::RequestServer
    }

    /// The Long Poll request for the current state.
    fn poll(&self) -> (a: PollAction)
        ensures
            self@.polls(a),
    {
        match &self.server {
            Some(s) => {
                let mut params: Vec<(String, String)> = Vec::new();
                params.push((String::from_str("act"), String::from_str("a_check")));
                params.push((String::from_str("key"), s.key.clone()));
                params.push((String::from_str("wait"), String::from_str(LONG_POLL_WAIT)));
                params.push((String::from_str("ts"), self.ts.clone()));
                assert(params_view(params@) =~= poll_params(s.key@, self@.ts));
                PollAction::Poll { url: s.server.clone(), params }
            },
            None => PollAction::RequestServer,
        }
    }

    /// Wait the current delay, and double it for the next failure.
    fn back_off(&mut self) -> (a: PollAction)
        requires
            old(self)@.wf(),
        ensures
            old(self)@.backs_off(final(self)@, a),
            final(self)@.wf(),
    {
        let seconds = self.retry_delay;
        self.retry_delay = if self.retry_delay <= MAX_RETRY_DELAY / 2 {
            self.retry_delay * 2
        } else {
            MAX_RETRY_DELAY
        };
        PollAction::Sleep { seconds }
    }

    /// The answer to a request for a Long Poll server.
    ///
    /// The first server starts polling at its marker; if the first request
    /// fails, the loop stops with that error. A later server replaces the
    /// current one, starts at its marker and resets the delay to one second;
    /// a later failure waits and backs off.
    pub fn on_server(&mut self, received: Result<LongPollServer, VkError>) -> (a: PollAction)
        requires
            old(self)@.wf(),
        ensures
            (final(self)@, action_view(a)) == step(old(self)@, PollEvent::Server { received: match received { Ok(s) => Some(s), Err(_) => None } }),
            final(self)@.wf(),
            match received {
                Ok(s) => {
                    &&& final(self)@.server == Some(s)
                    &&& final(self)@.ts == s.ts@
                    &&& final(self)@.retry_delay == if old(self)@.server is None {
                        old(self)@.retry_delay
                    } else {
                        1
                    }
                    &&& final(self)@.polls(a)
                },
                Err(e) => if old(self)@.server is None {
                    &&& final(self)@ == old(self)@
                    &&& a == PollAction::Stop { result: Err(e) }
                } else {
                    old(self)@.backs_off(final(self)@, a)
                },
            },
    {
        match received {
            Ok(s) => {
                if self.server.is_some() {
                    self.retry_delay = 1;
                }
                self.ts = s.ts.clone();
                self.server = Some(s);
                self.poll()
            },
            Err(e) => {
                if self.server.is_none() {
                    PollAction::Stop { result: Err(e) }
                } else {
                    self.back_off()
                }
            },
        }
    }

    /// A Long Poll request failed, or its answer could not be read or
    /// parsed: wait and back off.
    pub fn on_poll_failed(&mut self) -> (a: PollAction)
        requires
            old(self)@.wf(),
        ensures
            (final(self)@, action_view(a)) == step(old(self)@, PollEvent::PollFailed),
            final(self)@.wf(),
            old(self)@.backs_off(final(self)@, a),
    {
        self.back_off()
    }

    /// The answer of the Long Poll server.
    ///
    /// `failed: 1` moves to the marker given, if any, and polls again;
    /// `failed: 2` or `3` requests a new server; any other `failed` code
    /// waits and backs off. Without `failed`, an answer without a marker is
    /// dropped and polling goes on; otherwise the marker is taken, the delay
    /// resets to one second and the updates (none if absent) are delivered.
    pub fn on_answer(&mut self, response: LongPollResponse) -> (a: PollAction)
        requires
            old(self)@.wf(),
        ensures
            (final(self)@, action_view(a)) == step(old(self)@, PollEvent::Answer { response }),
            final(self)@.wf(),
            match response.failed {
                Some(code) => if code == 1 {
                    &&& final(self)@ == (PollerView {
                        ts: match response.ts {
                            Some(t) => t@,
                            None => old(self)@.ts,
                        },
                        ..old(self)@
                    })
                    &&& final(self)@.polls(a)
                } else if code == 2 || code == 3 {
                    &&& final(self)@ == old(self)@
                    &&& a is RequestServer
                } else {
                    old(self)@.backs_off(final(self)@, a)
                },
                None => match response.ts {
                    None => {
                        &&& final(self)@ == old(self)@
                        &&& final(self)@.polls(a)
                    },
                    Some(t) => {
                        &&& final(self)@ == (PollerView { ts: t@, retry_delay: 1, ..old(self)@ })
                        &&& a matches PollAction::Deliver { updates } && updates@ == match response.updates {
                            Some(u) => u@,
                            None => Seq::empty(),
                        }
                    },
                },
            },
    {
        match response.failed {
            Some(code) => {
                if code == 1 {
                    if let Some(t) = response.ts {
                        self.ts = t;
                    }
                    self.poll()
                } else if code == 2 || code == 3 {
                    PollAction::RequestServer
                } else {
                    self.back_off()
                }
            },
            None => match response.ts {
                None => self.poll(),
                Some(t) => {
                    self.ts = t;
                    self.retry_delay = 1;
                    let updates = match response.updates {
                        Some(u) => u,
                        None => Vec::new(),
                    };
                    PollAction::Deliver { updates }
                },
            },
        }
    }

    /// The wait after a failure ended without a shutdown: poll again.
    pub fn on_sleep_end(&self) -> (a: PollAction)
        ensures
            (self@, action_view(a)) == step(self@, PollEvent::SleepEnded),
            self@.polls(a),
    {
        self.poll()
    }

    /// The updates were handed to the handler: poll again.
    pub fn on_delivered(&self) -> (a: PollAction)
        ensures
            (self@, action_view(a)) == step(self@, PollEvent::Delivered),
            self@.polls(a),
    {
        self.poll()
    }

    /// Shutdown was requested while waiting: stop without error.
    pub fn on_shutdown(&self) -> (a: PollAction)
        ensures
            (self@, action_view(a)) == step(self@, PollEvent::Shutdown),
            a matches PollAction::Stop { result } && result is Ok,
    {
        PollAction::Stop { result: Ok(()) }
    }
}

} // verus!
