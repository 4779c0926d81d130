//! Platform-independent signing request lifecycle.
//!
//! UI and Windows integrations drive this state machine. It owns the single
//! active request slot and hands terminal responses back to its caller instead
//! of keeping completed results for a retry.

use vstd::prelude::*;

use crate::protocol::{
    is_cancellation_for, is_error_for, CancellationReason, ErrorCode, SignCancelled, SignError,
    TerminalResponse,
};

verus! {

/// Nanoseconds in one second.
pub const NANOS_PER_SEC: u128 = 1_000_000_000;

/// The unanswered-request deadline, fifteen minutes.
pub const REQUEST_TIMEOUT_SECS: u64 = 900;

/// The request deadline in nanoseconds.
pub open spec fn timeout_nanos() -> nat {
    REQUEST_TIMEOUT_SECS as nat * NANOS_PER_SEC as nat
}

/// A point on the caller's monotonic clock, measured from an arbitrary origin.
#[derive(Clone, Copy, Debug, Eq, PartialEq)]
pub struct Elapsed {
    nanos: u128,
}

impl View for Elapsed {
    type V = nat;

    closed spec fn view(&self) -> nat {
        self.nanos as nat
    }
}

impl Elapsed {
    /// The clock origin.
    pub fn zero() -> (r: Elapsed)
        ensures
            r@ == 0,
    {
        Elapsed { nanos: 0 }
    }

    /// `secs` whole seconds after the origin.
    pub fn from_secs(secs: u64) -> (r: Elapsed)
        ensures
            r@ == secs as nat * NANOS_PER_SEC as nat,
    {
        assert(secs as u128 * NANOS_PER_SEC <= u128::MAX) by (nonlinear_arith)
            requires
                secs <= u64::MAX,
        ;
        Elapsed { nanos: secs as u128 * NANOS_PER_SEC }
    }

    /// `nanos` nanoseconds after the origin.
    pub fn from_nanos(nanos: u128) -> (r: Elapsed)
        ensures
            r@ == nanos as nat,
    {
        Elapsed { nanos }
    }

    /// Nanoseconds since the origin.
    pub fn as_nanos(&self) -> (r: u128)
        ensures
            r == self@,
    {
        self.nanos
    }
}

/// The fifteen-minute request deadline.
pub fn request_timeout() -> (r: Elapsed)
    ensures
        r@ == timeout_nanos(),
{
    Elapsed::from_secs(REQUEST_TIMEOUT_SECS)
}

/// Request-owned values implement this to erase sensitive buffers before the
/// active slot is released.
pub trait ClearRequest {
    /// Every sensitive buffer of the value has been erased.
    spec fn cleared(&self) -> bool;

    /// Erases every sensitive buffer.
    fn clear(&mut self)
        ensures
            final(self).cleared(),
    ;
}

/// The lifecycle of the active request; an empty slot means idle.
#[derive(Clone, Copy, Debug, Eq, PartialEq)]
pub enum RequestState {
    Reviewing,
    DiscoveringCertificates,
    Confirming,
    Signing,
    Responding,
}

/// Position of a state in the lifecycle order.
pub open spec fn state_rank(s: RequestState) -> int {
    match s {
        RequestState::Reviewing => 0,
        RequestState::DiscoveringCertificates => 1,
        RequestState::Confirming => 2,
        RequestState::Signing => 3,
        RequestState::Responding => 4,
    }
}

/// The only non-terminal moves: one step forward along the lifecycle.
pub open spec fn legal_transition(from: RequestState, to: RequestState) -> bool {
    match (from, to) {
        (RequestState::Reviewing, RequestState::DiscoveringCertificates) => true,
        (RequestState::DiscoveringCertificates, RequestState::Confirming) => true,
        (RequestState::Confirming, RequestState::Signing) => true,
        (RequestState::Signing, RequestState::Responding) => true,
        _ => false,
    }
}

/// Once the provider operation has begun the request may no longer be
/// cancelled, timed out or dropped on disconnect.
pub open spec fn signing_started(s: RequestState) -> bool {
    s is Signing || s is Responding
}

/// A request can be cancelled, timed out or dropped on disconnect in every
/// state before signing (reviewing, discovering certificates, confirming);
/// only signing and responding are protected.
pub proof fn law_only_signing_and_responding_are_protected(s: RequestState)
    ensures
        !signing_started(RequestState::Reviewing),
        !signing_started(RequestState::DiscoveringCertificates),
        !signing_started(RequestState::Confirming),
        signing_started(RequestState::Signing),
        signing_started(RequestState::Responding),
        signing_started(s) <==> (s == RequestState::Signing || s == RequestState::Responding),
{
}

/// Identifies one accepted request; stale tokens are rejected.
#[derive(Clone, Copy, Debug, Eq, PartialEq, Hash)]
pub struct RequestToken(u64);

impl RequestToken {
    pub closed spec fn value(self) -> u64 {
        self.0
    }
}

/// The `BUSY` answer handed to a request that found the slot taken.
#[derive(Debug, Eq, PartialEq)]
pub struct Busy {
    pub response: TerminalResponse,
}

/// Why a lifecycle call was refused.
#[derive(Clone, Copy, Debug, Eq, PartialEq)]
pub enum TransitionError {
    NoActiveRequest,
    IllegalTransition,
}

struct ActiveRequest<T> {
    token: RequestToken,
    request_id: String,
    data: T,
    state: RequestState,
    accepted_at: Elapsed,
}

/// What the machine knows about the request in its slot.
pub struct ActiveView {
    pub token: u64,
    pub request_id: Seq<char>,
    pub state: RequestState,
    pub accepted_at: nat,
}

/// Abstract state of a [`RequestMachine`].
pub struct MachineView {
    pub next_token: u64,
    pub active: Option<ActiveView>,
}

impl MachineView {
    /// `token` names the request in the slot.
    pub open spec fn holds(self, token: RequestToken) -> bool {
        self.active matches Some(a) && a.token == token.value()
    }

    /// The state of the request in the slot.
    pub open spec fn state(self) -> RequestState {
        self.active->0.state
    }

    /// The request identifier of the request in the slot.
    pub open spec fn request_id(self) -> Seq<char> {
        self.active->0.request_id
    }

    /// The machine after a fresh request claims the idle slot.
    pub open spec fn claimed(self, request_id: Seq<char>, now: nat) -> MachineView {
        MachineView {
            next_token: next_token_after(self.next_token),
            active: Some(
                ActiveView {
                    token: self.next_token,
                    request_id,
                    state: RequestState::Reviewing,
                    accepted_at: now,
                },
            ),
        }
    }

    /// The machine after the active request moved to `next`.
    pub open spec fn moved_to(self, next: RequestState) -> MachineView {
        MachineView {
            next_token: self.next_token,
            active: Some(ActiveView { state: next, ..self.active->0 }),
        }
    }

    /// The machine after its request terminated and its slot was released.
    pub open spec fn released(self) -> MachineView {
        MachineView { next_token: self.next_token, active: None }
    }

    /// The request in the slot has waited out the deadline at `now`.
    pub open spec fn expired(self, now: nat) -> bool {
        now - self.active->0.accepted_at >= timeout_nanos()
    }
}

/// Tokens count up from one and skip zero when they wrap.
pub open spec fn next_token_after(t: u64) -> u64 {
    if t == u64::MAX {
        1
    } else {
        (t + 1) as u64
    }
}

/// Message of the `BUSY` envelope.
pub open spec fn busy_message() -> Seq<char> {
    "Another signing request is already active."@
}

/// Message of the `REQUEST_TIMEOUT` envelope.
pub open spec fn timeout_message() -> Seq<char> {
    "The signing request timed out."@
}

/// Message of the `EXTENSION_DISCONNECTED` envelope.
pub open spec fn disconnect_message() -> Seq<char> {
    "The browser extension disconnected."@
}

/// Owner of the single active request slot.
pub struct RequestMachine<T: ClearRequest> {
    next_token: u64,
    active: Option<ActiveRequest<T>>,
    /// The request data the machine erased most recently.
    erased: Ghost<Option<T>>,
}

impl<T: ClearRequest> View for RequestMachine<T> {
    type V = MachineView;

    closed spec fn view(&self) -> MachineView {
        MachineView {
            next_token: self.next_token,
            active: match self.active {
                Some(a) => Some(
                    ActiveView {
                        token: a.token.0,
                        request_id: a.request_id@,
                        state: a.state,
                        accepted_at: a.accepted_at@,
                    },
                ),
                None => None,
            },
        }
    }
}

impl<T: ClearRequest> Default for RequestMachine<T> {
    /// An idle machine whose first token is one.
    fn default() -> (r: Self)
        ensures
            r@.next_token == 1,
            r@.active is None,
            r.active_data() is None,
            r.erased_data() is None,
    {
        RequestMachine { next_token: 1, active: None, erased: Ghost(None) }
    }
}

impl<T: ClearRequest> RequestMachine<T> {
    /// The request data in the slot.
    pub closed spec fn active_data(self) -> Option<T> {
        match self.active {
            Some(a) => Some(a.data),
            None => None,
        }
    }

    /// The request data the machine erased most recently: the data of a
    /// request refused as busy, or of a request whose slot was released.
    pub closed spec fn erased_data(self) -> Option<T> {
        self.erased@
    }

    /// The data in the slot and the data erased last are as in `before`.
    pub open spec fn keeps_data(self, before: Self) -> bool {
        self.active_data() == before.active_data() && self.erased_data() == before.erased_data()
    }

    /// The slot holds no data, and the data erased last is erased.
    pub open spec fn erased_active(self) -> bool {
        &&& self.active_data() is None
        &&& self.erased_data() matches Some(d) && d.cleared()
    }

    /// The state of the active request, if any.
    pub fn state(&self) -> (r: Option<RequestState>)
        ensures
            r == (match self@.active {
                Some(a) => Some(a.state),
                None => None,
            }),
    {
        match &self.active {
            Some(active) => Some(active.state),
            None => None,
        }
    }

    /// The identifier of the active request, if any.
    pub fn request_id(&self) -> (r: Option<&str>)
        ensures
            r is Some <==> self@.active is Some,
            r matches Some(id) ==> id@ == self@.request_id(),
    {
        match &self.active {
            Some(active) => Some(active.request_id.as_str()),
            None => None,
        }
    }

    /// Claims the only active request slot.
    ///
    /// When another request owns the slot the incoming data is cleared and a
    /// `BUSY` response for the incoming request is returned; the active request
    /// is left exactly as it was.
    pub fn accept(&mut self, request_id: String, data: T, now: Elapsed) -> (r: Result<
        RequestToken,
        Box<Busy>,
    >)
        ensures
            match r {
                Ok(token) => {
                    &&& old(self)@.active is None
                    &&& token.value() == old(self)@.next_token
                    &&& final(self)@ == old(self)@.claimed(request_id@, now@)
                    &&& final(self).active_data() == Some(data)
                    &&& final(self).erased_data() == old(self).erased_data()
                },
                Err(busy) => {
                    &&& old(self)@.active is Some
                    &&& final(self)@ == old(self)@
                    &&& final(self).active_data() == old(self).active_data()
                    &&& final(self).erased_data() matches Some(d) && d.cleared()
                    &&& is_error_for(
                        busy.response,
                        Some(request_id@),
                        ErrorCode::Busy,
                        busy_message(),
                    )
                },
            },
    {
        let mut data = data;
        if self.active.is_some() {
            data.clear();
            self.erased = Ghost(Some(data));
            let response = error_response(
                Some(request_id),
                ErrorCode::Busy,
                "Another signing request is already active.",
            );
            return Err(Box::new(Busy { response }));
        }
        let token = RequestToken(self.next_token);
        self.next_token = if self.next_token == u64::MAX {
            1
        } else {
            self.next_token + 1
        };
        self.active = Some(
            ActiveRequest {
                token,
                request_id,
                data,
                state: RequestState::Reviewing,
                accepted_at: now,
            },
        );
        Ok(token)
    }

    /// Advances through a legal non-terminal lifecycle transition.
    pub fn transition(&mut self, token: RequestToken, next: RequestState) -> (r: Result<
        (),
        TransitionError,
    >)
        ensures
            !old(self)@.holds(token) ==> r == Err::<(), _>(TransitionError::NoActiveRequest),
            old(self)@.holds(token) && !legal_transition(old(self)@.state(), next) ==> r == Err::<
                (),
                _,
            >(TransitionError::IllegalTransition),
            r is Ok <==> old(self)@.holds(token) && legal_transition(old(self)@.state(), next),
            r is Ok ==> final(self)@ == old(self)@.moved_to(next),
            r is Err ==> final(self)@ == old(self)@,
            final(self).keeps_data(*old(self)),
    {
        let active = match self.active_mut(token) {
            Ok(active) => active,
            Err(e) => return Err(e),
        };
        let legal = match (active.state, next) {
            (RequestState::Reviewing, RequestState::DiscoveringCertificates) => true,
            (RequestState::DiscoveringCertificates, RequestState::Confirming) => true,
            (RequestState::Confirming, RequestState::Signing) => true,
            (RequestState::Signing, RequestState::Responding) => true,
            _ => false,
        };
        if !legal {
            return Err(TransitionError::IllegalTransition);
        }
        active.state = next;
        Ok(())
    }

    /// Cancels before provider signing starts and clears the request.
    pub fn cancel(&mut self, token: RequestToken, reason: CancellationReason) -> (r: Result<
        TerminalResponse,
        TransitionError,
    >)
        ensures
            !old(self)@.holds(token) ==> r == Err::<TerminalResponse, _>(
                TransitionError::NoActiveRequest,
            ),
            old(self)@.holds(token) && signing_started(old(self)@.state()) ==> r == Err::<
                TerminalResponse,
                _,
            >(TransitionError::IllegalTransition),
            r is Ok <==> old(self)@.holds(token) && !signing_started(old(self)@.state()),
            r matches Ok(response) ==> is_cancellation_for(
                response,
                old(self)@.request_id(),
                reason,
            ),
            r is Ok ==> final(self)@ == old(self)@.released(),
            r is Err ==> final(self)@ == old(self)@,
            r is Ok ==> final(self).erased_active(),
            r is Err ==> final(self).keeps_data(*old(self)),
    {
        let state = match self.active_ref(token) {
            Ok(active) => active.state,
            Err(e) => return Err(e),
        };
        if matches!(state, RequestState::Signing | RequestState::Responding) {
            return Err(TransitionError::IllegalTransition);
        }
        let request_id = match self.clear_active(token) {
            Ok(id) => id,
            Err(e) => return Err(e),
        };
        Ok(TerminalResponse::Cancelled(SignCancelled::new(request_id, request_id_reason(reason))))
    }

    /// Times out an unsigned request once the fifteen-minute deadline has
    /// passed. Signing and response delivery are deliberately not interrupted.
    pub fn poll_timeout(&mut self, token: RequestToken, now: Elapsed) -> (r: Result<
        Option<TerminalResponse>,
        TransitionError,
    >)
        ensures
            !old(self)@.holds(token) ==> r == Err::<Option<TerminalResponse>, _>(
                TransitionError::NoActiveRequest,
            ),
            old(self)@.holds(token) ==> r is Ok,
            r == Ok::<_, TransitionError>(None::<TerminalResponse>) <==> old(self)@.holds(token)
                && (signing_started(old(self)@.state()) || !old(self)@.expired(now@)),
            r matches Ok(Some(response)) ==> is_error_for(
                response,
                Some(old(self)@.request_id()),
                ErrorCode::RequestTimeout,
                timeout_message(),
            ),
            r matches Ok(Some(_)) ==> final(self)@ == old(self)@.released(),
            !(r matches Ok(Some(_))) ==> final(self)@ == old(self)@,
            r matches Ok(Some(_)) ==> final(self).erased_active(),
            !(r matches Ok(Some(_))) ==> final(self).keeps_data(*old(self)),
    {
        let (state, accepted_at) = match self.active_ref(token) {
            Ok(active) => (active.state, active.accepted_at.nanos),
            Err(e) => return Err(e),
        };
        let waited = now.nanos.saturating_sub(accepted_at);
        if matches!(state, RequestState::Signing | RequestState::Responding) || waited
            < REQUEST_TIMEOUT_SECS as u128 * NANOS_PER_SEC {
            return Ok(None);
        }
        let request_id = match self.clear_active(token) {
            Ok(id) => id,
            Err(e) => return Err(e),
        };
        Ok(
            Some(
                error_response(
                    Some(request_id),
                    ErrorCode::RequestTimeout,
                    "The signing request timed out.",
                ),
            ),
        )
    }

    /// Clears unsigned work after the browser connection disappears.
    ///
    /// The returned response may be shown locally, but must not be kept for a
    /// later browser delivery.
    pub fn extension_disconnected(&mut self, token: RequestToken) -> (r: Result<
        Option<TerminalResponse>,
        TransitionError,
    >)
        ensures
            !old(self)@.holds(token) ==> r == Err::<Option<TerminalResponse>, _>(
                TransitionError::NoActiveRequest,
            ),
            old(self)@.holds(token) ==> r is Ok,
            r == Ok::<_, TransitionError>(None::<TerminalResponse>) <==> old(self)@.holds(token)
                && signing_started(old(self)@.state()),
            r matches Ok(Some(response)) ==> is_error_for(
                response,
                Some(old(self)@.request_id()),
                ErrorCode::ExtensionDisconnected,
                disconnect_message(),
            ),
            r matches Ok(Some(_)) ==> final(self)@ == old(self)@.released(),
            !(r matches Ok(Some(_))) ==> final(self)@ == old(self)@,
            r matches Ok(Some(_)) ==> final(self).erased_active(),
            !(r matches Ok(Some(_))) ==> final(self).keeps_data(*old(self)),
    {
        let state = match self.active_ref(token) {
            Ok(active) => active.state,
            Err(e) => return Err(e),
        };
        if matches!(state, RequestState::Signing | RequestState::Responding) {
            return Ok(None);
        }
        let request_id = match self.clear_active(token) {
            Ok(id) => id,
            Err(e) => return Err(e),
        };
        Ok(
            Some(
                error_response(
                    Some(request_id),
                    ErrorCode::ExtensionDisconnected,
                    "The browser extension disconnected.",
                ),
            ),
        )
    }

    /// Completes response delivery and clears all request-owned data.
    pub fn response_delivered(&mut self, token: RequestToken) -> (r: Result<(), TransitionError>)
        ensures
            !old(self)@.holds(token) ==> r == Err::<(), _>(TransitionError::NoActiveRequest),
            old(self)@.holds(token) && !(old(self)@.state() is Responding) ==> r == Err::<(), _>(
                TransitionError::IllegalTransition,
            ),
            r is Ok <==> old(self)@.holds(token) && old(self)@.state() is Responding,
            r is Ok ==> final(self)@ == old(self)@.released(),
            r is Err ==> final(self)@ == old(self)@,
            r is Ok ==> final(self).erased_active(),
            r is Err ==> final(self).keeps_data(*old(self)),
    {
        let state = match self.active_ref(token) {
            Ok(active) => active.state,
            Err(e) => return Err(e),
        };
        if !matches!(state, RequestState::Responding) {
            return Err(TransitionError::IllegalTransition);
        }
        match self.clear_active(token) {
            Ok(_) => Ok(()),
            Err(e) => Err(e),
        }
    }

    /// Clears the active request's data and empties the slot without a
    /// terminal response; an owner calls this when it is torn down.
    pub fn discard_active(&mut self)
        ensures
            final(self)@ == old(self)@.released(),
            old(self).active_data() is Some ==> final(self).erased_active(),
            old(self).active_data() is None ==> final(self).keeps_data(*old(self)),
    {
        match self.active.take() {
            Some(active) => {
                let mut active = active;
                active.data.clear();
                self.erased = Ghost(Some(active.data));
            },
            None => {},
        }
    }

    fn active_ref(&self, token: RequestToken) -> (r: Result<&ActiveRequest<T>, TransitionError>)
        ensures
            r is Ok <==> self@.holds(token),
            r matches Ok(a) ==> self.active == Some(*a),
            r matches Err(e) ==> e == TransitionError::NoActiveRequest,
    {
        match &self.active {
            Some(active) if active.token.0 == token.0 => Ok(active),
            _ => Err(TransitionError::NoActiveRequest),
        }
    }

    fn active_mut(&mut self, token: RequestToken) -> (r: Result<
        &mut ActiveRequest<T>,
        TransitionError,
    >)
        ensures
            r is Ok <==> old(self)@.holds(token),
            r matches Ok(a) ==> old(self).active == Some(*a) && final(self).active == Some(
                *final(a),
            ) && final(self).next_token == old(self).next_token && final(self).erased
                == old(self).erased,
            r matches Err(e) ==> e == TransitionError::NoActiveRequest && *final(self) == *old(
                self,
            ),
    {
        let holds = match &self.active {
            Some(active) => active.token.0 == token.0,
            None => false,
        };
        if !holds {
            return Err(TransitionError::NoActiveRequest);
        }
        match &mut self.active {
            Some(active) => Ok(active),
            None => Err(TransitionError::NoActiveRequest),
        }
    }

    fn clear_active(&mut self, token: RequestToken) -> (r: Result<String, TransitionError>)
        ensures
            r is Ok <==> old(self)@.holds(token),
            r matches Ok(id) ==> id@ == old(self)@.request_id() && final(self)@ == old(
                self,
            )@.released(),
            r is Err ==> r == Err::<String, _>(TransitionError::NoActiveRequest) && final(self)@
                == old(self)@,
            r is Ok ==> final(self).erased_active(),
            r is Err ==> final(self).keeps_data(*old(self)),
    {
        match self.active_ref(token) {
            Ok(_) => {},
            Err(e) => return Err(e),
        }
        match self.active.take() {
            Some(active) => {
                let mut active = active;
                active.data.clear();
                self.erased = Ghost(Some(active.data));
                Ok(active.request_id)
            },
            None => Err(TransitionError::NoActiveRequest),
        }
    }
}

/// A released slot honours no token: once a request has had its terminal
/// response, every later call with its token is refused.
pub proof fn law_released_slot_refuses_every_token(m: MachineView, token: RequestToken)
    ensures
        !m.released().holds(token),
        m.released().next_token == m.next_token,
{
}

/// A claimed slot is held exactly by the token that `accept` handed out.
pub proof fn law_claimed_slot_is_held_by_its_token(
    m: MachineView,
    request_id: Seq<char>,
    now: nat,
    token: RequestToken,
)
    requires
        token.value() == m.next_token,
    ensures
        m.claimed(request_id, now).holds(token),
        m.claimed(request_id, now).state() == RequestState::Reviewing,
{
}

/// The token of the previous request is stale for the next one: consecutive
/// accepts never hand out the same token.
pub proof fn law_consecutive_requests_get_distinct_tokens(
    m: MachineView,
    first_id: Seq<char>,
    second_id: Seq<char>,
    first_at: nat,
    second_at: nat,
    first: RequestToken,
)
    requires
        first.value() == m.next_token,
    ensures
        !m.claimed(first_id, first_at).released().claimed(second_id, second_at).holds(first),
        next_token_after(m.next_token) != 0,
{
}

/// The token the `k`-th claim of a machine receives, counting from zero
/// for the first claim after `default()`: tokens count up from one and skip
/// zero when they wrap.
pub open spec fn token_of_claim(k: nat) -> u64
    decreases k,
{
    if k == 0 {
        1
    } else {
        next_token_after(token_of_claim((k - 1) as nat))
    }
}

proof fn lemma_token_of_claim_counts(k: nat)
    requires
        k < u64::MAX,
    ensures
        token_of_claim(k) == k + 1,
    decreases k,
{
    if k > 0 {
        lemma_token_of_claim_counts((k - 1) as nat);
    }
}

/// Until the counter wraps, every claim a machine makes from `default()`
/// gets a token that differs from the token of every earlier claim, so a
/// stale token never names a later request.
pub proof fn law_tokens_differ_from_every_earlier_token(earlier: nat, later: nat)
    requires
        earlier < later < u64::MAX,
    ensures
        token_of_claim(earlier) != token_of_claim(later),
        forall|m: MachineView, id: Seq<char>, at: nat|
            m.next_token == token_of_claim(earlier) ==> #[trigger] m.claimed(id, at).next_token
                == token_of_claim(earlier + 1),
{
    lemma_token_of_claim_counts(earlier);
    lemma_token_of_claim_counts(later);
}

/// Legal transitions advance exactly one step along the lifecycle, so a
/// request never returns to an earlier state.
pub proof fn law_transitions_only_advance(from: RequestState, to: RequestState)
    requires
        legal_transition(from, to),
    ensures
        state_rank(to) == state_rank(from) + 1,
{
}

/// Once provider signing has begun, every later state is still signing or
/// responding, so cancellation, timeout and disconnect can no longer end it.
pub proof fn law_signing_is_never_interrupted(from: RequestState, to: RequestState)
    requires
        legal_transition(from, to),
        signing_started(from),
    ensures
        signing_started(to),
{
}

/// The deadline never un-expires: once past it, any later poll is past it too.
pub proof fn law_expiry_is_monotonic(m: MachineView, earlier: nat, later: nat)
    requires
        m.expired(earlier),
        earlier <= later,
    ensures
        m.expired(later),
{
}

/// A transition changes only the state of the active request.
pub proof fn law_transition_keeps_identity(m: MachineView, next: RequestState, token: RequestToken)
    requires
        m.holds(token),
    ensures
        m.moved_to(next).holds(token),
        m.moved_to(next).request_id() == m.request_id(),
        m.moved_to(next).state() == next,
{
}

fn request_id_reason(reason: CancellationReason) -> (r: CancellationReason)
    ensures
        r == reason,
{
    reason
}

fn error_response(request_id: Option<String>, code: ErrorCode, message: &str) -> (r:
    TerminalResponse)
    ensures
        is_error_for(
            r,
            match request_id {
                Some(id) => Some(id@),
                None => None,
            },
            code,
            message@,
        ),
{
    TerminalResponse::Error(SignError::new(request_id, code, message.to_owned()))
}

} // verus!
