//! Single-slot, two-channel rendezvous between one password producer (the
//! operator-facing front-end) and one consumer (the authorization loop of the
//! signing service).
//!
//! The coordinator holds the whole rendezvous state: whether a front-end is
//! attached (`armed`), the single password slot, the single retry-verdict
//! slot, the consumer's `waiting` flag (a delivered password still awaits its
//! verdict), and whether either party is parked at its suspension point. Each
//! blocking call of the protocol is split at its suspension point into a step
//! that starts it and a poll that finishes it, so every transition is a total
//! function of the state; the runtime that owns the real channels drives the
//! same transitions and parks tasks wherever a step reports it would block.

use crate::secret::Password;
use crate::secret::PasswordModel;
use crate::CoreError;
use vstd::prelude::*;

verus! {

/// The rendezvous state, as contracts speak of it.
pub struct CoordinatorModel {
    /// Whether a front-end is attached: the channel pair exists.
    pub armed: bool,
    /// Whether a password delivered to the consumer still awaits its
    /// retry/accept verdict.
    pub waiting: bool,
    /// The single password slot from producer to consumer.
    pub password_slot: Option<PasswordModel>,
    /// The single verdict slot from consumer to producer.
    pub retry_slot: Option<bool>,
    /// Whether a submission has delivered its password and is parked until
    /// the verdict for it arrives.
    pub submit_pending: bool,
    /// Whether a password request has passed its signalling phase and is
    /// parked until a password arrives.
    pub recv_pending: bool,
}

/// The state of a coordinator that no front-end has attached to yet.
pub open spec fn initial_model() -> CoordinatorModel {
    CoordinatorModel {
        armed: false,
        waiting: false,
        password_slot: None,
        retry_slot: None,
        submit_pending: false,
        recv_pending: false,
    }
}

/// The state right after a front-end attaches: armed, both slots empty,
/// nobody waiting or parked.
pub open spec fn armed_model() -> CoordinatorModel {
    CoordinatorModel { armed: true, ..initial_model() }
}

/// The state after the front-end detaches: disarmed with both slots cleared;
/// parked parties observe the closure at their next poll.
pub open spec fn detach_spec(state: CoordinatorModel) -> CoordinatorModel {
    CoordinatorModel { armed: false, password_slot: None, retry_slot: None, ..state }
}

/// Whether a submission is accepted now: a front-end is attached, the
/// password slot is free, and no earlier submission still awaits its verdict.
pub open spec fn submit_accepted(state: CoordinatorModel) -> bool {
    state.armed && state.password_slot is None && !state.submit_pending
}

/// The state after a submission attempt. An accepted password occupies the
/// slot and its producer parks for the verdict; otherwise nothing changes.
pub open spec fn submit_spec(state: CoordinatorModel, password: PasswordModel) -> CoordinatorModel {
    if submit_accepted(state) {
        CoordinatorModel { password_slot: Some(password), submit_pending: true, ..state }
    } else {
        state
    }
}

/// The verdict a parked submission observes now: the slotted verdict if one
/// is there, `false` if the coordinator is detached, nothing otherwise.
pub open spec fn poll_verdict_spec(state: CoordinatorModel) -> Option<bool> {
    if state.retry_slot is Some {
        state.retry_slot
    } else if !state.armed {
        Some(false)
    } else {
        None
    }
}

/// The state after a parked submission polls for its verdict.
pub open spec fn poll_verdict_post(state: CoordinatorModel) -> CoordinatorModel {
    if state.retry_slot is Some {
        CoordinatorModel { retry_slot: None, submit_pending: false, ..state }
    } else if !state.armed {
        CoordinatorModel { submit_pending: false, ..state }
    } else {
        state
    }
}

/// Whether a fire-and-forget delivery is accepted now: a front-end is
/// attached and the password slot is free. No verdict is awaited, so a
/// pending submission does not stand in the way.
pub open spec fn offer_accepted(state: CoordinatorModel) -> bool {
    state.armed && state.password_slot is None
}

/// The state after a fire-and-forget delivery attempt.
pub open spec fn offer_spec(state: CoordinatorModel, password: PasswordModel) -> CoordinatorModel {
    if offer_accepted(state) {
        CoordinatorModel { password_slot: Some(password), ..state }
    } else {
        state
    }
}

/// Whether a password request passes its signalling phase now: the
/// coordinator is armed and, if a retry signal is owed, the verdict slot can
/// take it.
pub open spec fn request_started(state: CoordinatorModel) -> bool {
    state.armed && (!state.waiting || state.retry_slot is None)
}

/// The state after the signalling phase of a password request: when a prior
/// password is still waiting on its verdict, the retry verdict `true` is
/// placed in the verdict slot; then the consumer parks for a password.
pub open spec fn request_password_spec(state: CoordinatorModel) -> CoordinatorModel {
    if !request_started(state) {
        state
    } else if state.waiting {
        CoordinatorModel { retry_slot: Some(true), recv_pending: true, ..state }
    } else {
        CoordinatorModel { recv_pending: true, ..state }
    }
}

/// Whether a parked password request is served now.
pub open spec fn password_ready(state: CoordinatorModel) -> bool {
    state.password_slot is Some
}

/// Whether a parked password request observes closure now: no password will
/// ever arrive because the front-end detached.
pub open spec fn password_closed(state: CoordinatorModel) -> bool {
    state.password_slot is None && !state.armed
}

/// The state after a parked password request polls the password slot. A
/// served request empties the slot and records in `waiting` whether the
/// password it took was known.
pub open spec fn poll_password_spec(state: CoordinatorModel) -> CoordinatorModel {
    if password_ready(state) {
        CoordinatorModel {
            password_slot: None,
            waiting: state.password_slot->0.known,
            recv_pending: false,
            ..state
        }
    } else if !state.armed {
        CoordinatorModel { recv_pending: false, ..state }
    } else {
        state
    }
}

/// Whether the round-closing verdict is sent now.
pub open spec fn close_sent(state: CoordinatorModel) -> bool {
    state.armed && state.retry_slot is None
}

/// The state after the consumer closes a round: `waiting` is always cleared,
/// and the verdict `false` is placed in the verdict slot when it is free.
/// Closing is insensitive to whether the round ended in success or failure.
pub open spec fn close_round_spec(state: CoordinatorModel) -> CoordinatorModel {
    if close_sent(state) {
        CoordinatorModel { waiting: false, retry_slot: Some(false), ..state }
    } else {
        CoordinatorModel { waiting: false, ..state }
    }
}

/// Outcome of a step that places a value without parking.
#[derive(Clone, Copy, Debug, PartialEq, Eq, Structural)]
pub enum SendOutcome {
    /// The value was placed in its slot.
    Sent,
    /// The slot is occupied: the real call would block here.
    Blocked,
    /// No front-end is attached: the call is a no-op.
    Detached,
}

/// Outcome of a submission attempt.
pub enum SubmitAttempt {
    /// The password occupies the slot; the producer is parked for a verdict.
    Sent,
    /// A previous submission is not resolved yet: the real call would block
    /// here. The password is handed back so that it can be resubmitted.
    Blocked(Password),
    /// No front-end is attached: the submission returns `false` at once,
    /// without blocking.
    Detached,
}

/// Outcome of the signalling phase of a password request.
#[derive(Clone, Copy, Debug, PartialEq, Eq, Structural)]
pub enum RequestStart {
    /// Any owed retry signal was sent; the consumer is parked for a password.
    Started,
    /// An earlier verdict still occupies the verdict slot: the real call
    /// would block here.
    Blocked,
    /// No front-end is attached.
    Closed,
}

/// Outcome of a parked password request's poll.
pub enum PasswordPoll {
    /// A password arrived.
    Ready(Password),
    /// Nothing arrived yet: the real call stays parked.
    Pending,
    /// The front-end detached: the request fails rather than hang forever.
    Closed,
}

/// The rendezvous coordinator: one producer of passwords, one consumer,
/// single-slot channels in both directions.
pub struct Coordinator {
    armed: bool,
    waiting: bool,
    password_slot: Option<Password>,
    retry_slot: Option<bool>,
    submit_pending: bool,
    recv_pending: bool,
}

impl View for Coordinator {
    type V = CoordinatorModel;

    closed spec fn view(&self) -> CoordinatorModel {
        CoordinatorModel {
            armed: self.armed,
            waiting: self.waiting,
            password_slot: match self.password_slot {
                Some(password) => Some(password@),
                None => None,
            },
            retry_slot: self.retry_slot,
            submit_pending: self.submit_pending,
            recv_pending: self.recv_pending,
        }
    }
}

impl Coordinator {
    /// A coordinator that no front-end has attached to yet.
    pub fn new() -> (result: Self)
        ensures
            result@ == initial_model(),
    {
        Coordinator {
            armed: false,
            waiting: false,
            password_slot: None,
            retry_slot: None,
            submit_pending: false,
            recv_pending: false,
        }
    }

    /// Arms the coordinator when a front-end attaches: the channel pair comes
    /// into being, empty. A coordinator is armed exactly once per attachment,
    /// with no party parked from an earlier life.
    pub fn attach(&mut self)
        requires
            !old(self)@.armed,
            !old(self)@.submit_pending,
            !old(self)@.recv_pending,
        ensures
            final(self)@ == armed_model(),
    {
        self.armed = true;
        self.waiting = false;
        self.password_slot = None;
        self.retry_slot = None;
    }

    /// Disarms the coordinator when the front-end detaches. Both slots are
    /// cleared; a party parked at a suspension point observes the closure at
    /// its next poll.
    pub fn detach(&mut self)
        ensures
            final(self)@ == detach_spec(old(self)@),
    {
        self.armed = false;
        self.password_slot = None;
        self.retry_slot = None;
    }

    /// Whether a front-end is attached.
    pub fn is_armed(&self) -> (result: bool)
        ensures
            result == self@.armed,
    {
        self.armed
    }

    /// Whether a submission has delivered its password and still awaits the
    /// verdict for it.
    pub fn has_pending_submission(&self) -> (result: bool)
        ensures
            result == self@.submit_pending,
    {
        self.submit_pending
    }

    /// Whether a password request has passed its signalling phase and still
    /// awaits a password.
    pub fn has_pending_request(&self) -> (result: bool)
        ensures
            result == self@.recv_pending,
    {
        self.recv_pending
    }

    /// The producer submits a password. When no front-end is attached the
    /// submission reports `Detached` at once — the real call returns `false`
    /// immediately, it neither blocks nor fails. When accepted, the password
    /// occupies the slot and the producer parks for its verdict
    /// (`poll_verdict`). When an earlier submission is unresolved, the
    /// password is handed back untouched.
    pub fn submit(&mut self, password: Password) -> (result: SubmitAttempt)
        ensures
            final(self)@ == submit_spec(old(self)@, password@),
            result is Sent <==> submit_accepted(old(self)@),
            result is Detached <==> !old(self)@.armed,
            result matches SubmitAttempt::Blocked(returned) ==> returned@ == password@,
    {
        if !self.armed {
            SubmitAttempt::Detached
        } else if self.password_slot.is_some() || self.submit_pending {
            SubmitAttempt::Blocked(password)
        } else {
            self.password_slot = Some(password);
            self.submit_pending = true;
            SubmitAttempt::Sent
        }
    }

    /// Collects the verdict owed to an accepted submission, once one stands
    /// in the verdict slot. After detachment the answer is `false`.
    pub fn poll_verdict(&mut self) -> (result: Option<bool>)
        requires
            old(self)@.submit_pending,
        ensures
            final(self)@ == poll_verdict_post(old(self)@),
            result == poll_verdict_spec(old(self)@),
    {
        match self.retry_slot {
            Some(verdict) => {
                self.retry_slot = None;
                self.submit_pending = false;
                Some(verdict)
            },
            None => {
                if !self.armed {
                    self.submit_pending = false;
                    Some(false)
                } else {
                    None
                }
            },
        }
    }

    /// The producer delivers a password without awaiting a verdict. Used
    /// right after account creation, when the service must receive the
    /// freshly chosen password but no retry round is open.
    pub fn load_exact(&mut self, password: Password) -> (result: SubmitAttempt)
        ensures
            final(self)@ == offer_spec(old(self)@, password@),
            result is Sent <==> offer_accepted(old(self)@),
            result is Detached <==> !old(self)@.armed,
            result matches SubmitAttempt::Blocked(returned) ==> returned@ == password@,
    {
        if !self.armed {
            SubmitAttempt::Detached
        } else if self.password_slot.is_some() {
            SubmitAttempt::Blocked(password)
        } else {
            self.password_slot = Some(password);
            SubmitAttempt::Sent
        }
    }

    /// The producer withdraws the attempt: an unknown password is sent,
    /// fire-and-forget, to tell the signing service that the operator gave
    /// up. On a detached coordinator this is a no-op, never an error.
    pub fn cancel(&mut self) -> (result: SendOutcome)
        ensures
            final(self)@ == offer_spec(
                old(self)@,
                PasswordModel { known: false, bytes: Seq::<u8>::empty() },
            ),
            result == SendOutcome::Sent <==> offer_accepted(old(self)@),
            result == SendOutcome::Detached <==> !old(self)@.armed,
    {
        if !self.armed {
            SendOutcome::Detached
        } else if self.password_slot.is_some() {
            SendOutcome::Blocked
        } else {
            self.password_slot = Some(Password::from_unknown());
            SendOutcome::Sent
        }
    }

    /// The consumer starts a password request. When a password delivered
    /// earlier is still waiting on its verdict, the retry verdict `true` is
    /// sent first — it unparks a submission that is waiting to learn whether
    /// to prompt again. Then the consumer parks for the next password
    /// (`poll_password`). Two password requests never overlap: that is the
    /// calling convention of the capability, kept by the single consumer.
    pub fn request_password(&mut self) -> (result: RequestStart)
        requires
            !old(self)@.recv_pending,
        ensures
            final(self)@ == request_password_spec(old(self)@),
            result == RequestStart::Started <==> request_started(old(self)@),
            result == RequestStart::Closed <==> !old(self)@.armed,
    {
        if !self.armed {
            RequestStart::Closed
        } else if self.waiting && self.retry_slot.is_some() {
            RequestStart::Blocked
        } else {
            if self.waiting {
                self.retry_slot = Some(true);
            }
            self.recv_pending = true;
            RequestStart::Started
        }
    }

    /// A parked password request polls the password slot. A password that
    /// arrives is taken, and `waiting` records whether it was known: an
    /// unknown password closes nothing by itself, but it never awaits a
    /// verdict. When the front-end detached, the request fails with closure
    /// rather than hang forever.
    pub fn poll_password(&mut self) -> (result: PasswordPoll)
        requires
            old(self)@.recv_pending,
        ensures
            final(self)@ == poll_password_spec(old(self)@),
            result is Ready <==> password_ready(old(self)@),
            result matches PasswordPoll::Ready(password) ==> Some(password@) == old(
                self,
            )@.password_slot,
            result is Closed <==> password_closed(old(self)@),
    {
        let slot = self.password_slot.take();
        match slot {
            Some(password) => {
                self.waiting = password.is_known();
                self.recv_pending = false;
                PasswordPoll::Ready(password)
            },
            None => {
                if !self.armed {
                    self.recv_pending = false;
                    PasswordPoll::Closed
                } else {
                    PasswordPoll::Pending
                }
            },
        }
    }

    /// The consumer closes the round, success and failure alike: `waiting`
    /// is cleared, and the verdict `false` is sent — the single point that
    /// releases a producer parked after its password was accepted.
    pub fn close_round(&mut self) -> (result: SendOutcome)
        ensures
            final(self)@ == close_round_spec(old(self)@),
            result == SendOutcome::Sent <==> close_sent(old(self)@),
            result == SendOutcome::Detached <==> !old(self)@.armed,
    {
        self.waiting = false;
        if !self.armed {
            SendOutcome::Detached
        } else if self.retry_slot.is_some() {
            SendOutcome::Blocked
        } else {
            self.retry_slot = Some(false);
            SendOutcome::Sent
        }
    }
}

/// The capability-level reading of a finished password request: the password
/// that arrived, or the communication-closed failure when the front-end
/// detached while the request was parked.
pub fn finish_request(poll: PasswordPoll) -> (result: Result<Password, CoreError>)
    requires
        !(poll is Pending),
    ensures
        poll matches PasswordPoll::Ready(password) ==> result matches Ok(delivered)
            && delivered == password,
        poll is Closed ==> result == Err::<Password, CoreError>(CoreError::CommunicationClosed),
{
    match poll {
        PasswordPoll::Ready(password) => Ok(password),
        PasswordPoll::Closed => Err(CoreError::CommunicationClosed),
        PasswordPoll::Pending => Err(CoreError::CommunicationClosed),
    }
}

/// Law: one full round trip. From an armed, idle coordinator, a first
/// submission is accepted and parks for its verdict; the consumer's password
/// request is served with exactly the submitted password; a second
/// submission attempted before any verdict is issued is not accepted (the
/// real call blocks), though the coordinator is still attached; and when the
/// consumer closes the round, the parked first submission observes the
/// verdict `false`.
pub proof fn lemma_round_trip(p1: PasswordModel)
    ensures
        ({
            let s0 = armed_model();
            let s1 = submit_spec(s0, p1);
            let s2 = request_password_spec(s1);
            let s3 = poll_password_spec(s2);
            let s4 = close_round_spec(s3);
            &&& submit_accepted(s0)
            &&& request_started(s1)
            &&& password_ready(s2)
            &&& s2.password_slot == Some(p1)
            &&& !submit_accepted(s3)
            &&& s3.armed
            &&& s3.submit_pending
            &&& close_sent(s3)
            &&& poll_verdict_spec(s4) == Some(false)
        }),
{
}

/// Law: retry sequencing. From an armed, idle coordinator, a known password
/// is submitted and served to the consumer; no retry verdict is sent for
/// that first request. When the consumer requests a password a second time
/// without closing the round, the retry verdict `true` stands in the verdict
/// slot before the second request can be served, and the submission parked
/// since the first delivery observes exactly that `true`.
pub proof fn lemma_retry_sequencing(p1: PasswordModel)
    requires
        p1.known,
    ensures
        ({
            let s0 = armed_model();
            let s1 = submit_spec(s0, p1);
            let s2 = request_password_spec(s1);
            let s3 = poll_password_spec(s2);
            let s4 = request_password_spec(s3);
            &&& submit_accepted(s0)
            &&& s2.retry_slot is None
            &&& s3.waiting
            &&& request_started(s3)
            &&& s4.retry_slot == Some(true)
            &&& s4.submit_pending
            &&& poll_verdict_spec(s4) == Some(true)
            &&& !password_ready(s4)
        }),
{
}

/// Law: a submission against a detached coordinator changes nothing and is
/// never accepted — the call reports detachment at once, so it neither
/// blocks nor panics, whatever the rest of the state holds.
pub proof fn lemma_detached_submit(state: CoordinatorModel, password: PasswordModel)
    requires
        !state.armed,
    ensures
        submit_spec(state, password) == state,
        !submit_accepted(state),
{
}

/// Law: detaching the front-end leaves the password slot empty and the
/// coordinator disarmed, so a password request parked at that moment
/// observes closure at its next poll instead of hanging forever.
pub proof fn lemma_detach_closes_requests(state: CoordinatorModel)
    ensures
        password_closed(detach_spec(state)),
{
}

/// Holds of every state a coordinator can reach: while no front-end is
/// attached, both slots are empty, so nothing is ever served or collected
/// out of a disarmed coordinator.
pub open spec fn disarmed_slots_empty(state: CoordinatorModel) -> bool {
    !state.armed ==> state.password_slot is None && state.retry_slot is None
}

/// Law: every transition of the rendezvous preserves `disarmed_slots_empty`,
/// and the initial, armed and detached states satisfy it; values are only
/// ever placed in a slot while the coordinator is armed.
pub proof fn lemma_disarmed_slots_stay_empty(state: CoordinatorModel, password: PasswordModel)
    requires
        disarmed_slots_empty(state),
    ensures
        disarmed_slots_empty(initial_model()),
        disarmed_slots_empty(armed_model()),
        disarmed_slots_empty(detach_spec(state)),
        disarmed_slots_empty(submit_spec(state, password)),
        disarmed_slots_empty(poll_verdict_post(state)),
        disarmed_slots_empty(offer_spec(state, password)),
        disarmed_slots_empty(request_password_spec(state)),
        disarmed_slots_empty(poll_password_spec(state)),
        disarmed_slots_empty(close_round_spec(state)),
{
}

} // verus!

