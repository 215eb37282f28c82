//! What becomes of one request.
//!
//! A gate is a small state machine. It is opened for a request, tells the
//! host what it needs next (the request's `Authorization` header, then the
//! validator's verdict on the credential found in it) and takes each answer
//! as an event, until the request is admitted with an identity or rejected
//! with a reason. The host does the waiting; every decision is taken here.

use crate::claims::claim_text;
use crate::credential::{credential_of, extract};
use crate::extractor::{CognitoInfo, InfoView};
use vstd::prelude::*;

verus! {

/// Why a request is turned away.
#[derive(Debug, Clone, Copy, PartialEq, Eq, Structural)]
pub enum Rejection {
    /// The request carries no bearer credential.
    MissingCredential,
    /// The request's bearer credential did not pass validation.
    InvalidCredential,
}

impl Rejection {
    /// The text sent to the client for each reason.
    pub open spec fn text(self) -> Seq<char> {
        match self {
            Rejection::MissingCredential => "No Token"@,
            Rejection::InvalidCredential => "Invalid Token"@,
        }
    }

    /// The HTTP status that answers the request: 401, unauthorized, whatever
    /// the reason.
    pub fn status(&self) -> (code: u16)
        ensures
            code == 401,
    {
        401
    }

    /// The text that answers the request. It names the reason and nothing of
    /// how validation failed.
    pub fn message(&self) -> (text: &'static str)
        ensures
            text@ == self.text(),
    {
        match self {
            Rejection::MissingCredential => "No Token",
            Rejection::InvalidCredential => "Invalid Token",
        }
    }
}

/// Where a gate stands with a request.
#[derive(Debug, Clone)]
pub enum GateState {
    /// Nothing is known of the request yet.
    Start,
    /// The request carries this bearer credential, which is to be validated.
    CredentialPresent { token: String },
    /// The request goes on to the wrapped service with this identity.
    Admitted { info: CognitoInfo },
    /// The request is answered here and goes no further.
    Rejected { reason: Rejection },
}

/// A [`GateState`] as plain values.
pub enum StateView {
    Start,
    CredentialPresent { token: Seq<char> },
    Admitted { info: InfoView },
    Rejected { reason: Rejection },
}

/// What the host reports to a gate.
#[derive(Debug, Clone)]
pub enum GateEvent {
    /// The value of the request's `Authorization` header, if it has one.
    Authorization(Option<Vec<u8>>),
    /// Whether the credential passed validation.
    Verdict(bool),
}

/// A [`GateEvent`] as plain values.
pub enum EventView {
    Authorization(Option<Seq<u8>>),
    Verdict(bool),
}

/// What the host has to do next for the request.
#[derive(Debug, Clone, Copy)]
pub enum GateAction<'a> {
    /// Read the request's `Authorization` header and report it.
    Extract,
    /// Validate this credential and report the verdict.
    Validate(&'a str),
    /// Attach this identity to the request and pass it to the wrapped
    /// service, once.
    Forward(&'a CognitoInfo),
    /// Answer the request with this rejection; the wrapped service is not
    /// called.
    Refuse(Rejection),
}

/// A [`GateAction`] as plain values.
pub enum ActionView {
    Extract,
    Validate(Seq<char>),
    Forward(InfoView),
    Refuse(Rejection),
}

impl View for GateState {
    type V = StateView;

    open spec fn view(&self) -> StateView {
        match self {
            GateState::Start => StateView::Start,
            GateState::CredentialPresent { token } => StateView::CredentialPresent { token: token@ },
            GateState::Admitted { info } => StateView::Admitted { info: info@ },
            GateState::Rejected { reason } => StateView::Rejected { reason: *reason },
        }
    }
}

impl View for GateEvent {
    type V = EventView;

    open spec fn view(&self) -> EventView {
        match self {
            GateEvent::Authorization(Some(header)) => EventView::Authorization(Some(header@)),
            GateEvent::Authorization(None) => EventView::Authorization(None),
            GateEvent::Verdict(valid) => EventView::Verdict(*valid),
        }
    }
}

impl<'a> View for GateAction<'a> {
    type V = ActionView;

    open spec fn view(&self) -> ActionView {
        match self {
            GateAction::Extract => ActionView::Extract,
            GateAction::Validate(token) => ActionView::Validate(token@),
            GateAction::Forward(info) => ActionView::Forward(info@),
            GateAction::Refuse(reason) => ActionView::Refuse(*reason),
        }
    }
}

impl StateView {
    /// The state of a gate that has just been opened for a request. A
    /// disabled gate admits at once, with an identity that names no user and
    /// no token; nothing of the request is looked at.
    pub open spec fn open(disabled: bool) -> StateView {
        if disabled {
            StateView::Admitted { info: InfoView::disabled() }
        } else {
            StateView::Start
        }
    }

    /// The state after an event.
    ///
    /// At the start a gate waits for the `Authorization` header: if there
    /// is no bearer credential in it the request is rejected, and if there is
    /// one the verdict on it is waited for. A favourable verdict admits
    /// the request with the identity carried by the token, an unfavourable
    /// one rejects it. Any other event changes nothing; in particular nothing
    /// moves a request that was admitted or rejected.
    pub open spec fn next(self, event: EventView) -> StateView {
        match (self, event) {
            (StateView::Start, EventView::Authorization(header)) => match credential_of(header) {
                None => StateView::Rejected { reason: Rejection::MissingCredential },
                Some(token) => StateView::CredentialPresent { token },
            },
            (StateView::CredentialPresent { token }, EventView::Verdict(true)) => StateView::Admitted {
                info: InfoView::enabled(token),
            },
            (StateView::CredentialPresent { token }, EventView::Verdict(false)) => StateView::Rejected {
                reason: Rejection::InvalidCredential,
            },
            _ => self,
        }
    }

    /// What the host has to do in this state.
    pub open spec fn action(self) -> ActionView {
        match self {
            StateView::Start => ActionView::Extract,
            StateView::CredentialPresent { token } => ActionView::Validate(token),
            StateView::Admitted { info } => ActionView::Forward(info),
            StateView::Rejected { reason } => ActionView::Refuse(reason),
        }
    }

    /// The request has been decided.
    pub open spec fn decided(self) -> bool {
        self is Admitted || self is Rejected
    }

    /// The state after a sequence of events, taken in order.
    pub open spec fn run(self, events: Seq<EventView>) -> StateView
        decreases events.len(),
    {
        if events.len() == 0 {
            self
        } else {
            self.next(events.first()).run(events.drop_first())
        }
    }

    /// What is decided for a request, given whether validation is disabled,
    /// the request's `Authorization` header and whether the credential in it
    /// is valid.
    pub open spec fn decision(disabled: bool, authorization: Option<Seq<u8>>, valid: bool) -> StateView {
        if disabled {
            StateView::Admitted { info: InfoView::disabled() }
        } else {
            match credential_of(authorization) {
                None => StateView::Rejected { reason: Rejection::MissingCredential },
                Some(token) => if valid {
                    StateView::Admitted { info: InfoView::enabled(token) }
                } else {
                    StateView::Rejected { reason: Rejection::InvalidCredential }
                },
            }
        }
    }
}

impl GateState {
    /// Opens a gate for a request.
    pub fn open(disabled: bool) -> (state: GateState)
        ensures
            state@ == StateView::open(disabled),
    {
        if disabled {
            GateState::Admitted { info: CognitoInfo::disabled() }
        } else {
            GateState::Start
        }
    }

    /// Takes an event and moves to the next state.
    pub fn next(self, event: GateEvent) -> (state: GateState)
        ensures
            state@ == self@.next(event@),
    {
        match self {
            GateState::Start => match event {
                GateEvent::Authorization(header) => {
                    let credential = match &header {
                        Some(value) => extract(Some(value.as_slice())),
                        None => extract(None),
                    };
                    match credential {
                        None => GateState::Rejected { reason: Rejection::MissingCredential },
                        Some(token) => GateState::CredentialPresent { token },
                    }
                },
                GateEvent::Verdict(_) => GateState::Start,
            },
            GateState::CredentialPresent { token } => match event {
                GateEvent::Verdict(true) => GateState::Admitted { info: CognitoInfo::enabled(token) },
                GateEvent::Verdict(false) => GateState::Rejected {
                    reason: Rejection::InvalidCredential,
                },
                GateEvent::Authorization(_) => GateState::CredentialPresent { token },
            },
            GateState::Admitted { info } => GateState::Admitted { info },
            GateState::Rejected { reason } => GateState::Rejected { reason },
        }
    }

    /// What the host has to do next.
    pub fn action(&self) -> (action: GateAction<'_>)
        ensures
            action@ == self@.action(),
    {
        match self {
            GateState::Start => GateAction::Extract,
            GateState::CredentialPresent { token } => GateAction::Validate(token.as_str()),
            GateState::Admitted { info } => GateAction::Forward(info),
            GateState::Rejected { reason } => GateAction::Refuse(*reason),
        }
    }

    /// Whether the request has been decided.
    pub fn decided(&self) -> (done: bool)
        ensures
            done == self@.decided(),
    {
        match self {
            GateState::Admitted { .. } => true,
            GateState::Rejected { .. } => true,
            _ => false,
        }
    }
}

impl StateView {
    /// How far a gate has come with a request: 0 at the start, 1 with a
    /// credential in hand, 2 once the request is decided.
    pub open spec fn stage(self) -> nat {
        match self {
            StateView::Start => 0,
            StateView::CredentialPresent { .. } => 1,
            StateView::Admitted { .. } => 2,
            StateView::Rejected { .. } => 2,
        }
    }
}

/// A decided request stays decided: no sequence of events changes a state
/// that admits or rejects.
pub proof fn lemma_decided_is_final(state: StateView, events: Seq<EventView>)
    requires
        state.decided(),
    ensures
        state.run(events) == state,
    decreases events.len(),
{
    if events.len() > 0 {
        lemma_decided_is_final(state, events.drop_first());
    }
}

/// A gate only moves forward: the header is asked for before the verdict,
/// the verdict before the request is decided, and no event takes a gate
/// back. The wrapped service is asked for only once a request is admitted,
/// and a rejected request is only ever refused.
pub proof fn lemma_gate_moves_forward(state: StateView, event: EventView)
    ensures
        state.stage() <= state.next(event).stage(),
        state.action() is Extract <==> state.stage() == 0,
        state.action() is Validate <==> state.stage() == 1,
        state.action() is Forward <==> state is Admitted,
        state.action() is Refuse <==> state is Rejected,
        state.decided() <==> state.stage() == 2,
        state.decided() ==> state.next(event) == state,
{
}

/// A disabled gate admits every request, whatever the host reports of it,
/// and the identity it attaches names no user and no token.
pub proof fn lemma_disabled_gate_admits(events: Seq<EventView>)
    ensures
        StateView::open(true).run(events) == (StateView::Admitted { info: InfoView::disabled() }),
        StateView::open(true).run(events).action() == ActionView::Forward(
            InfoView { user: None, token: None },
        ),
{
    lemma_decided_is_final(StateView::open(true), events);
}

/// A request without an `Authorization` header, or with one that holds no
/// bearer credential, is rejected for that reason by an enabled gate. The
/// header is asked for first, and from that report on nothing else is asked
/// for, whatever is reported later: in particular validation never is.
pub proof fn lemma_missing_credential_rejects(authorization: Option<Seq<u8>>, later: Seq<EventView>)
    requires
        credential_of(authorization) is None,
    ensures
        StateView::open(false).action() == ActionView::Extract,
        StateView::open(false).next(EventView::Authorization(authorization)).run(later) == (
        StateView::Rejected { reason: Rejection::MissingCredential }),
        StateView::open(false).next(EventView::Authorization(authorization)).run(later).action()
            == ActionView::Refuse(Rejection::MissingCredential),
        Rejection::MissingCredential.text() == "No Token"@,
{
    lemma_decided_is_final(
        StateView::open(false).next(EventView::Authorization(authorization)),
        later,
    );
}

/// A request whose header holds a credential is decided by the verdict on
/// it: admitted with the identity carried by the token, its user being the
/// token's `sub` claim, or rejected as invalid. Later events change nothing.
pub proof fn lemma_verdict_decides(
    authorization: Option<Seq<u8>>,
    token: Seq<char>,
    valid: bool,
    later: Seq<EventView>,
)
    requires
        credential_of(authorization) == Some(token),
    ensures
        StateView::open(false).next(EventView::Authorization(authorization)).action()
            == ActionView::Validate(token),
        StateView::open(false).next(EventView::Authorization(authorization)).next(
            EventView::Verdict(valid),
        ).run(later) == StateView::decision(false, authorization, valid),
        StateView::decision(false, authorization, true) == (StateView::Admitted {
            info: InfoView {
                user: claim_text(token, InfoView::subject()),
                token: Some(token),
            },
        }),
        StateView::decision(false, authorization, false) == (StateView::Rejected {
            reason: Rejection::InvalidCredential,
        }),
        Rejection::InvalidCredential.text() == "Invalid Token"@,
{
    lemma_decided_is_final(
        StateView::open(false).next(EventView::Authorization(authorization)).next(
            EventView::Verdict(valid),
        ),
        later,
    );
}

/// Driving a gate with what the host observes, in the order in which it is
/// asked for, ends in the decision for those observations.
pub proof fn lemma_run_reaches_decision(disabled: bool, authorization: Option<Seq<u8>>, valid: bool)
    ensures
        StateView::open(disabled).run(
            seq![EventView::Authorization(authorization), EventView::Verdict(valid)],
        ) == StateView::decision(disabled, authorization, valid),
        StateView::decision(disabled, authorization, valid).decided(),
{
    let events = seq![EventView::Authorization(authorization), EventView::Verdict(valid)];
    let rest = events.drop_first();
    assert(rest.first() == EventView::Verdict(valid));
    reveal_with_fuel(StateView::run, 3);
}

/// With a credential in hand, the only way to admission is a favourable
/// verdict, and the identity admitted is the one carried by that credential.
proof fn lemma_admitted_after_credential(token: Seq<char>, events: Seq<EventView>) -> (j: int)
    requires
        (StateView::CredentialPresent { token }).run(events) is Admitted,
    ensures
        0 <= j < events.len(),
        events[j] == EventView::Verdict(true),
        (StateView::CredentialPresent { token }).run(events) == (StateView::Admitted {
            info: InfoView::enabled(token),
        }),
    decreases events.len(),
{
    let state = StateView::CredentialPresent { token };
    if events.len() == 0 {
        0
    } else {
        let rest = events.drop_first();
        match events.first() {
            EventView::Verdict(true) => {
                lemma_decided_is_final(state.next(events.first()), rest);
                0
            },
            EventView::Verdict(false) => {
                lemma_decided_is_final(state.next(events.first()), rest);
                0
            },
            EventView::Authorization(_) => {
                assert(state.next(events.first()) == state);
                let j = lemma_admitted_after_credential(token, rest);
                assert(rest[j] == events[j + 1]);
                j + 1
            },
        }
    }
}

/// An enabled gate admits no request without a credential and a favourable
/// verdict on it: if a sequence of events ends in admission, it reports a
/// header that holds a credential, reports later that the credential is
/// valid, and the identity admitted is the one carried by that credential.
pub proof fn lemma_admission_needs_verdict(events: Seq<EventView>) -> (at: (int, int))
    requires
        StateView::open(false).run(events) is Admitted,
    ensures
        0 <= at.0 < at.1 < events.len(),
        events[at.0] is Authorization,
        credential_of(events[at.0]->Authorization_0) is Some,
        events[at.1] == EventView::Verdict(true),
        StateView::open(false).run(events) == (StateView::Admitted {
            info: InfoView::enabled(credential_of(events[at.0]->Authorization_0)->Some_0),
        }),
    decreases events.len(),
{
    let state = StateView::Start;
    if events.len() == 0 {
        (0, 0)
    } else {
        let rest = events.drop_first();
        match events.first() {
            EventView::Authorization(header) => {
                match credential_of(header) {
                    None => {
                        lemma_decided_is_final(state.next(events.first()), rest);
                        (0, 0)
                    },
                    Some(token) => {
                        let j = lemma_admitted_after_credential(token, rest);
                        assert(rest[j] == events[j + 1]);
                        (0, j + 1)
                    },
                }
            },
            EventView::Verdict(_) => {
                assert(state.next(events.first()) == state);
                let at = lemma_admission_needs_verdict(rest);
                assert(rest[at.0] == events[at.0 + 1]);
                assert(rest[at.1] == events[at.1 + 1]);
                (at.0 + 1, at.1 + 1)
            },
        }
    }
}

/// Whatever the host reports, an identity that is admitted is sound: its
/// user is the `sub` claim of its token, so that there is no user without a
/// token, and it has a token exactly where validation is enabled.
pub proof fn lemma_admitted_identity_is_sound(disabled: bool, events: Seq<EventView>)
    requires
        StateView::open(disabled).run(events) is Admitted,
    ensures
        StateView::open(disabled).run(events)->info.wf(),
        StateView::open(disabled).run(events)->info.user is Some ==> StateView::open(
            disabled,
        ).run(events)->info.token is Some,
        StateView::open(disabled).run(events)->info.token is None <==> disabled,
{
    if disabled {
        lemma_disabled_gate_admits(events);
    } else {
        let _ = lemma_admission_needs_verdict(events);
    }
}

} // verus!
