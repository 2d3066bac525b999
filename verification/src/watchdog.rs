use vstd::arithmetic::div_mod::{
    lemma_add_mod_noop_right, lemma_mod_add_multiples_vanish, lemma_small_mod, lemma_sub_mod_noop,
};
use vstd::prelude::*;

verus! {

/// The bookkeeping that lets the server shut down gracefully.
///
/// `work_count` is the number of requests in flight; `works_estimate` is the
/// number of requests that the server still owes an answer once it has begun
/// to shut down; `shutting_down` records that the stop signal has arrived.
/// Both counters move the way the server's atomic counters do: they wrap
/// around at the bounds of `usize`.
pub struct Watchdog {
    work_count: usize,
    works_estimate: usize,
    shutting_down: bool,
}

/// The mathematical state of a [`Watchdog`].
pub struct WatchdogState {
    pub work_count: usize,
    pub works_estimate: usize,
    pub shutting_down: bool,
}

/// What the server does with an incoming request.
pub enum RequestAction {
    /// Serve the request as it was sent: it is admitted before the stop.
    Proceed,
    /// Serve the given path in place of the one requested: it arrived
    /// during shutdown.
    Redirect(String),
}

/// What the server does with an outgoing response.
pub enum ResponseAction {
    /// Send the response as it is.
    Keep,
    /// Replace it with a `503 Service Unavailable` plain-text answer with
    /// this body.
    ServiceUnavailable(String),
}

impl View for Watchdog {
    type V = WatchdogState;

    closed spec fn view(&self) -> WatchdogState {
        WatchdogState {
            work_count: self.work_count,
            works_estimate: self.works_estimate,
            shutting_down: self.shutting_down,
        }
    }
}

/// The path that requests arriving during shutdown are sent to.
pub open spec fn redirect_path() -> Seq<char> {
    "/ping"@
}

/// The body of the answer that replaces a response during shutdown.
pub open spec fn busy_body() -> Seq<char> {
    "Server Busy... Shutting down... Try later."@
}

/// One more request in flight, wrapping at the top of `usize`.
pub open spec fn one_more(c: usize) -> usize {
    if c == usize::MAX {
        0
    } else {
        (c + 1) as usize
    }
}

/// One request fewer in flight, wrapping at zero.
pub open spec fn one_less(c: usize) -> usize {
    if c == 0 {
        usize::MAX
    } else {
        (c - 1) as usize
    }
}

/// The state after a request has arrived.
pub open spec fn after_request(s: WatchdogState) -> WatchdogState {
    if s.shutting_down {
        WatchdogState { work_count: one_more(s.work_count), ..s }
    } else {
        WatchdogState {
            work_count: one_more(s.work_count),
            works_estimate: one_more(s.work_count),
            shutting_down: false,
        }
    }
}

/// Whether the server is busy shutting down when a response leaves in state
/// `s`: the stop signal has come and more requests are in flight than the
/// estimate of the work still owed.
pub open spec fn busy(s: WatchdogState) -> bool {
    s.shutting_down && s.works_estimate < s.work_count
}

/// Whether a response leaving in state `s` is replaced by the busy answer.
/// `admitted` says whether its request was admitted before the stop (its
/// request was served as sent): such work always gets its answer, and only a
/// request that arrived during shutdown is refused, while the server is busy.
pub open spec fn refuses_response(s: WatchdogState, admitted: bool) -> bool {
    busy(s) && !admitted
}

/// The state after a response has left: one request fewer in flight, and,
/// during shutdown while the server is not busy, the estimate set to the
/// requests that were in flight.
pub open spec fn after_response(s: WatchdogState) -> WatchdogState {
    if s.shutting_down && !busy(s) {
        WatchdogState {
            work_count: one_less(s.work_count),
            works_estimate: s.work_count,
            shutting_down: true,
        }
    } else {
        WatchdogState { work_count: one_less(s.work_count), ..s }
    }
}

/// The state after the stop signal: only the flag changes.
pub open spec fn after_stop(s: WatchdogState) -> WatchdogState {
    WatchdogState { shutting_down: true, ..s }
}

/// The state in which the server starts.
pub open spec fn initial_state() -> WatchdogState {
    WatchdogState { work_count: 0, works_estimate: 1, shutting_down: false }
}

fn increment(c: usize) -> (r: usize)
    ensures
        r == one_more(c),
{
    c.wrapping_add(1)
}

fn decrement(c: usize) -> (r: usize)
    ensures
        r == one_less(c),
{
    c.wrapping_sub(1)
}

impl Watchdog {
    /// A watchdog for a server that has just started.
    pub fn new() -> (w: Watchdog)
        ensures
            w@ == initial_state(),
    {
        Watchdog { work_count: 0, works_estimate: 1, shutting_down: false }
    }

    /// Number of requests in flight.
    pub fn work_count(&self) -> (r: usize)
        ensures
            r == self@.work_count,
    {
        self.work_count
    }

    /// Number of requests still owed an answer during shutdown.
    pub fn works_estimate(&self) -> (r: usize)
        ensures
            r == self@.works_estimate,
    {
        self.works_estimate
    }

    /// Whether the stop signal has arrived.
    pub fn is_shutting_down(&self) -> (r: bool)
        ensures
            r == self@.shutting_down,
    {
        self.shutting_down
    }

    /// Whether no request is in flight, so that the server may stop.
    pub fn is_idle(&self) -> (r: bool)
        ensures
            r == (self@.work_count == 0),
    {
        self.work_count == 0
    }

    /// Records the stop signal; the counters are left as they are.
    pub fn begin_shutdown(&mut self)
        ensures
            final(self)@ == after_stop(old(self)@),
    {
        self.shutting_down = true;
    }

    /// Accounts for an arriving request and says how to serve it: during
    /// shutdown it is sent to `/ping`, otherwise it goes where it was sent.
    pub fn on_request(&mut self) -> (action: RequestAction)
        ensures
            final(self)@ == after_request(old(self)@),
            old(self)@.shutting_down ==> (action matches RequestAction::Redirect(p) && p@
                == redirect_path()),
            !old(self)@.shutting_down ==> action is Proceed,
    {
        if self.shutting_down {
            self.work_count = increment(self.work_count);
            RequestAction::Redirect(String::from_str("/ping"))
        } else {
            self.work_count = increment(self.work_count);
            self.works_estimate = self.work_count;
            RequestAction::Proceed
        }
    }

    /// Accounts for a leaving response and says whether it is replaced by the
    /// busy answer. `admitted` says whether its request was admitted before
    /// the stop, that is whether `on_request` answered `Proceed` for it. A
    /// response to such a request always goes out unchanged; a response to a
    /// request that arrived during shutdown is replaced exactly when more
    /// requests are in flight than the estimate. The counters move the same
    /// way in either case.
    pub fn on_response(&mut self, admitted: bool) -> (action: ResponseAction)
        ensures
            final(self)@ == after_response(old(self)@),
            refuses_response(old(self)@, admitted) ==> (action matches ResponseAction::ServiceUnavailable(b)
                && b@ == busy_body()),
            !refuses_response(old(self)@, admitted) ==> action is Keep,
            admitted ==> action is Keep,
    {
        if self.shutting_down {
            if self.works_estimate < self.work_count {
                self.work_count = decrement(self.work_count);
                if admitted {
                    ResponseAction::Keep
                } else {
                    ResponseAction::ServiceUnavailable(
                        String::from_str("Server Busy... Shutting down... Try later."),
                    )
                }
            } else {
                let previous = self.work_count;
                self.work_count = decrement(self.work_count);
                self.works_estimate = previous;
                ResponseAction::Keep
            }
        } else {
            self.work_count = decrement(self.work_count);
            ResponseAction::Keep
        }
    }
}

/// A response that answers the request just before it leaves the number of
/// requests in flight as it was before that request.
pub proof fn response_undoes_request(s: WatchdogState)
    ensures
        after_response(after_request(s)).work_count == s.work_count,
{
}

/// Once the server is shutting down it stays so, whatever requests,
/// responses and signals follow.
pub proof fn shutdown_is_permanent(s: WatchdogState)
    requires
        s.shutting_down,
    ensures
        after_request(s).shutting_down,
        after_response(s).shutting_down,
        after_stop(s) == s,
{
}

/// Work admitted before the stop signal completes: its response is never
/// replaced, before or during shutdown, whatever else is in flight.
pub proof fn admitted_work_completes(s: WatchdogState)
    ensures
        !refuses_response(s, true),
{
}

/// During shutdown the estimate never grows: arriving requests leave it
/// alone and leaving responses can only lower it.
pub proof fn estimate_never_grows_during_shutdown(s: WatchdogState)
    requires
        s.shutting_down,
    ensures
        after_request(s).works_estimate == s.works_estimate,
        after_response(s).works_estimate <= s.works_estimate,
{
}

/// Before shutdown no response is ever replaced, and the estimate covers
/// every request in flight: a request raises both to the same value and a
/// response to a request in flight lowers only the count.
pub proof fn estimate_covers_work_before_shutdown(s: WatchdogState, admitted: bool)
    requires
        !s.shutting_down,
        s.work_count <= s.works_estimate,
    ensures
        !refuses_response(s, admitted),
        after_request(s).work_count <= after_request(s).works_estimate,
        s.work_count > 0 ==> after_response(s).work_count <= after_response(s).works_estimate,
{
}

/// A request that arrives during shutdown while the estimate is within the
/// requests in flight is answered busy if its response leaves at once.
pub proof fn late_requests_are_refused(s: WatchdogState)
    requires
        s.shutting_down,
        s.works_estimate <= s.work_count,
        s.work_count < usize::MAX,
    ensures
        refuses_response(after_request(s), false),
{
}

/// The graceful shutdown. A request admitted before the stop gets its
/// response. A request arriving after the stop is answered busy while that
/// work is in flight, and is served once the work has drained.
pub proof fn graceful_shutdown(s: WatchdogState)
    requires
        !s.shutting_down,
        s.work_count + 2 <= usize::MAX,
    ensures
        ({
            let admitted = after_request(s);
            let stopping = after_stop(admitted);
            let late = after_request(stopping);
            &&& !refuses_response(late, true)
            &&& refuses_response(late, false)
            &&& !refuses_response(after_response(late), true)
            &&& !refuses_response(after_response(late), false)
        }),
{
}

/// An event that the watchdog sees.
pub enum WatchEvent {
    /// A request arrives.
    Request,
    /// A response leaves.
    Response,
    /// The stop signal arrives.
    Stop,
}

/// The state after the events `events`, taken in order, starting from `s`.
pub open spec fn run(s: WatchdogState, events: Seq<WatchEvent>) -> WatchdogState
    decreases events.len(),
{
    if events.len() == 0 {
        s
    } else {
        let p = run(s, events.drop_last());
        match events.last() {
            WatchEvent::Request => after_request(p),
            WatchEvent::Response => after_response(p),
            WatchEvent::Stop => after_stop(p),
        }
    }
}

/// The number of requests among `events` less the number of responses.
pub open spec fn net_arrivals(events: Seq<WatchEvent>) -> int
    decreases events.len(),
{
    if events.len() == 0 {
        0
    } else {
        net_arrivals(events.drop_last()) + match events.last() {
            WatchEvent::Request => 1int,
            WatchEvent::Response => -1int,
            WatchEvent::Stop => 0int,
        }
    }
}

/// The number of values of a `usize`.
pub open spec fn usize_values() -> int {
    usize::MAX + 1
}

proof fn lemma_one_more_mod(c: usize)
    ensures
        one_more(c) as int == (c + 1) % usize_values(),
{
    if c == usize::MAX {
        lemma_mod_add_multiples_vanish(0, usize_values());
        lemma_small_mod(0, usize_values() as nat);
    } else {
        lemma_small_mod((c + 1) as nat, usize_values() as nat);
    }
}

proof fn lemma_one_less_mod(c: usize)
    ensures
        one_less(c) as int == (c - 1) % usize_values(),
{
    if c == 0 {
        lemma_mod_add_multiples_vanish(-1, usize_values());
        lemma_small_mod(usize::MAX as nat, usize_values() as nat);
    } else {
        lemma_small_mod((c - 1) as nat, usize_values() as nat);
    }
}

/// The watchdog counts the requests in flight: after any events, the count
/// is the count it started from plus the requests less the responses, taken
/// modulo the number of values of a `usize` as the atomic counter wraps.
pub proof fn count_is_requests_in_flight(s: WatchdogState, events: Seq<WatchEvent>)
    ensures
        run(s, events).work_count as int == (s.work_count + net_arrivals(events)) % usize_values(),
    decreases events.len(),
{
    let m = usize_values();
    if events.len() == 0 {
        lemma_small_mod(s.work_count as nat, m as nat);
    } else {
        let rest = events.drop_last();
        count_is_requests_in_flight(s, rest);
        let p = run(s, rest);
        let n = s.work_count + net_arrivals(rest);
        match events.last() {
            WatchEvent::Request => {
                lemma_one_more_mod(p.work_count);
                lemma_add_mod_noop_right(1, n, m);
                assert(1 + n == s.work_count + net_arrivals(events));
            },
            WatchEvent::Response => {
                lemma_one_less_mod(p.work_count);
                lemma_sub_mod_noop(n, 1, m);
                lemma_small_mod(1, m as nat);
                assert(n - 1 == s.work_count + net_arrivals(events));
            },
            WatchEvent::Stop => {
                assert(n == s.work_count + net_arrivals(events));
            },
        }
    }
}

/// A stop signal is never undone: after it, whatever events follow, the
/// server is shutting down.
pub proof fn stop_is_never_undone(s: WatchdogState, before: Seq<WatchEvent>, after: Seq<WatchEvent>)
    ensures
        run(s, before.push(WatchEvent::Stop) + after).shutting_down,
    decreases after.len(),
{
    if after.len() == 0 {
        assert(before.push(WatchEvent::Stop) + after =~= before.push(WatchEvent::Stop));
    } else {
        stop_is_never_undone(s, before, after.drop_last());
        assert((before.push(WatchEvent::Stop) + after).drop_last() =~= before.push(WatchEvent::Stop)
            + after.drop_last());
    }
}

/// What an arriving request does to the counters: one more request in
/// flight (wrapping at the top of `usize`); before the stop the estimate
/// becomes that new count, during shutdown it is left alone; the stop flag
/// is left alone.
pub proof fn request_step(s: WatchdogState)
    ensures
        after_request(s).work_count == (if s.work_count == usize::MAX {
            0
        } else {
            s.work_count + 1
        }),
        after_request(s).shutting_down == s.shutting_down,
        !s.shutting_down ==> after_request(s).works_estimate == after_request(s).work_count,
        s.shutting_down ==> after_request(s).works_estimate == s.works_estimate,
{
}

/// What a leaving response does to the counters: one request fewer in
/// flight (wrapping at zero); before the stop the estimate is left alone;
/// during shutdown it is left alone while more requests are in flight than
/// the estimate, and otherwise becomes the number in flight before this
/// response; the stop flag is left alone. The response is replaced exactly
/// when the stop has come, its request arrived after the stop, and more
/// requests are in flight than the estimate.
pub proof fn response_step(s: WatchdogState, admitted: bool)
    ensures
        after_response(s).work_count == (if s.work_count == 0 {
            usize::MAX as int
        } else {
            s.work_count - 1
        }),
        after_response(s).shutting_down == s.shutting_down,
        !s.shutting_down ==> after_response(s).works_estimate == s.works_estimate,
        s.shutting_down && s.works_estimate < s.work_count ==> after_response(s).works_estimate
            == s.works_estimate,
        s.shutting_down && s.works_estimate >= s.work_count ==> after_response(s).works_estimate
            == s.work_count,
        refuses_response(s, admitted) <==> (s.shutting_down && !admitted && s.works_estimate
            < s.work_count),
{
}

/// The stop signal only sets the flag, and the server starts with nothing in
/// flight, an estimate of one, and no stop.
pub proof fn stop_and_start(s: WatchdogState)
    ensures
        after_stop(s).work_count == s.work_count,
        after_stop(s).works_estimate == s.works_estimate,
        after_stop(s).shutting_down,
        initial_state().work_count == 0,
        initial_state().works_estimate == 1,
        !initial_state().shutting_down,
{
}

/// The texts of the watchdog's answers: requests during shutdown go to
/// `/ping`, and a refused response says the server is busy shutting down.
pub proof fn watchdog_texts()
    ensures
        redirect_path() == seq!['/', 'p', 'i', 'n', 'g'],
        busy_body() == seq!['S', 'e', 'r', 'v', 'e', 'r', ' ', 'B', 'u', 's', 'y', '.', '.', '.', ' ', 'S', 'h', 'u', 't', 't', 'i', 'n', 'g', ' ', 'd', 'o', 'w', 'n', '.', '.', '.', ' ', 'T', 'r', 'y', ' ', 'l', 'a', 't', 'e', 'r', '.'],
{
    reveal_strlit("/ping");
    reveal_strlit("Server Busy... Shutting down... Try later.");
    assert(redirect_path() =~= seq!['/', 'p', 'i', 'n', 'g']);
    assert(busy_body() =~= seq!['S', 'e', 'r', 'v', 'e', 'r', ' ', 'B', 'u', 's', 'y', '.', '.', '.', ' ', 'S', 'h', 'u', 't', 't', 'i', 'n', 'g', ' ', 'd', 'o', 'w', 'n', '.', '.', '.', ' ', 'T', 'r', 'y', ' ', 'l', 'a', 't', 'e', 'r', '.']);
}

/// A stop that comes while the server is idle refuses no late request while
/// no more late requests are in flight than the estimate: with no admitted
/// work in flight, late requests are served.
pub proof fn idle_stop_serves_late_requests(s: WatchdogState)
    requires
        !s.shutting_down,
        s.work_count == 0,
        s.works_estimate >= 1,
    ensures
        !refuses_response(after_request(after_stop(s)), false),
{
}

} // verus!
