//! The presence session: one application identity, its connection state and
//! the time of its last update. The session decides; the caller runs the
//! transport. Each operation is a `begin_*` call that says whether the
//! transport is to be used (and with what), and a `finish_*` call that takes
//! the transport's outcome and moves the session to its next state.

use vstd::prelude::*;
use crate::activity::Activity;
use crate::error::Error;
use crate::wire::{to_wire, wire_of, WireActivity};

verus! {

/// The least time between two updates or clears, in milliseconds.
pub const MIN_UPDATE_INTERVAL_MS: u64 = 15000;

/// `needle` occurs in `haystack` as a contiguous run of characters.
pub open spec fn is_substring(needle: Seq<char>, haystack: Seq<char>) -> bool {
    exists|i: int|
        0 <= i && i + needle.len() <= haystack.len() && #[trigger] haystack.subrange(i, i + needle.len()) == needle
}

/// Relies on str::contains with a `&str` pattern: true exactly when the
/// pattern occurs in the string.
#[verifier::external_body]
fn str_contains(haystack: &str, needle: &str) -> (r: bool)
    ensures
        r == is_substring(needle@, haystack@),
{
    haystack.contains(needle)
}

/// A transport message that means no host process listens.
pub open spec fn means_not_running(message: Seq<char>) -> bool {
    is_substring("No such file or directory"@, message) || is_substring("Connection refused"@, message)
}

/// The error for a failed handshake with the transport message `message`.
pub open spec fn connect_error_spec(message: String) -> Error {
    if means_not_running(message@) {
        Error::DiscordNotRunning
    } else {
        Error::ConnectionFailed(message)
    }
}

/// Milliseconds from `last` to `now`; a clock that reads earlier than `last`
/// counts as no time at all.
pub open spec fn elapsed_ms(last: u64, now: u64) -> int {
    if now >= last {
        now - last
    } else {
        0
    }
}

/// Whether an update at `now` comes too soon after the one at `last`.
pub open spec fn too_soon(last: Option<u64>, now: u64) -> bool {
    match last {
        Some(t) => elapsed_ms(t, now) < MIN_UPDATE_INTERVAL_MS,
        None => false,
    }
}

/// Maps a failed handshake to the library's error.
pub fn connect_error(message: String) -> (r: Error)
    ensures
        r == connect_error_spec(message),
{
    let not_running = str_contains(message.as_str(), "No such file or directory")
        || str_contains(message.as_str(), "Connection refused");
    if not_running {
        Error::DiscordNotRunning
    } else {
        Error::ConnectionFailed(message)
    }
}

/// A presence session bound to one application identity.
#[derive(Debug)]
pub struct PresenceSession {
    application_id: String,
    connected: bool,
    last_update: Option<u64>,
}

impl PresenceSession {
    pub closed spec fn spec_application_id(self) -> Seq<char> {
        self.application_id@
    }

    pub closed spec fn spec_connected(self) -> bool {
        self.connected
    }

    pub closed spec fn spec_last_update(self) -> Option<u64> {
        self.last_update
    }

    /// The session after a successful handshake.
    pub closed spec fn connected_state(self) -> PresenceSession {
        PresenceSession { connected: true, ..self }
    }

    /// The session after an update or a clear at `now` went through.
    pub closed spec fn recorded(self, now: u64) -> PresenceSession {
        PresenceSession { last_update: Some(now), ..self }
    }

    /// The session after the transport was closed.
    pub closed spec fn disconnected_state(self) -> PresenceSession {
        PresenceSession { connected: false, last_update: None, ..self }
    }

    /// A disconnected session has no last-update time. `new` establishes
    /// this and every `finish_*` call keeps it.
    pub open spec fn wf(self) -> bool {
        !self.spec_connected() ==> self.spec_last_update() is None
    }

    /// Whether an update or a clear at `now` is accepted, and if not, why.
    pub open spec fn gate(self, now: u64) -> Result<(), Error> {
        if !self.spec_connected() {
            Err(Error::Disconnected)
        } else if too_soon(self.spec_last_update(), now) {
            Err(Error::RateLimited)
        } else {
            Ok(())
        }
    }

    /// A session for `application_id`, disconnected and with no update yet.
    /// An empty identity is refused.
    pub fn new(application_id: String) -> (r: Result<PresenceSession, Error>)
        ensures
            application_id@.len() == 0 <==> r is Err,
            r is Err ==> r->Err_0 is InvalidApplicationId,
            r is Ok ==> {
                &&& r->Ok_0.spec_application_id() == application_id@
                &&& !r->Ok_0.spec_connected()
                &&& r->Ok_0.spec_last_update() is None
                &&& r->Ok_0.wf()
            },
    {
        if application_id.as_str().is_empty() {
            return Err(Error::InvalidApplicationId("application identity is empty".to_string()));
        }
        Ok(PresenceSession { application_id, connected: false, last_update: None })
    }

    /// The identity the session is bound to.
    pub fn application_id(&self) -> (r: &str)
        ensures
            r@ == self.spec_application_id(),
    {
        self.application_id.as_str()
    }

    /// Whether the session is connected.
    pub fn is_connected(&self) -> (r: bool)
        ensures
            r == self.spec_connected(),
    {
        self.connected
    }

    /// When the last update or clear succeeded, if one did since connecting.
    pub fn last_update(&self) -> (r: Option<u64>)
        ensures
            r == self.spec_last_update(),
    {
        self.last_update
    }

    /// Whether connecting needs a handshake.
    pub open spec fn needs_handshake(self) -> bool {
        !self.spec_connected()
    }

    /// Whether connecting needs a handshake: only a disconnected session
    /// performs one; connecting a connected session succeeds at once.
    pub fn begin_connect(&self) -> (r: bool)
        ensures
            r == self.needs_handshake(),
    {
        !self.connected
    }

    /// Takes the outcome of the handshake. On success the session is
    /// connected; on failure it is left as it was.
    pub fn finish_connect(&mut self, handshake: Result<(), String>) -> (r: Result<(), Error>)
        ensures
            handshake is Ok ==> r is Ok && *final(self) == old(self).connected_state(),
            handshake is Ok ==> final(self).spec_connected() && final(self).spec_last_update()
                == old(self).spec_last_update(),
            handshake is Err ==> {
                &&& r == Err::<(), Error>(connect_error_spec(handshake->Err_0))
                &&& *final(self) == *old(self)
            },
            final(self).spec_application_id() == old(self).spec_application_id(),
            old(self).wf() ==> final(self).wf(),
    {
        match handshake {
            Ok(()) => {
                self.connected = true;
                Ok(())
            },
            Err(message) => Err(connect_error(message)),
        }
    }

    /// Decides an update at `now`. A disconnected session refuses it with
    /// `Disconnected`; one whose last update is under the least interval old
    /// refuses it with `RateLimited`. Otherwise the payload to send is
    /// returned. The session is not changed either way.
    pub fn begin_update(&self, activity: Activity, now: u64) -> (r: Result<WireActivity, Error>)
        ensures
            self.gate(now) is Ok ==> r == Ok::<WireActivity, Error>(wire_of(activity)),
            self.gate(now) is Err ==> r == Err::<WireActivity, Error>(self.gate(now)->Err_0),
    {
        match self.check_gate(now) {
            Ok(()) => Ok(to_wire(activity)),
            Err(e) => Err(e),
        }
    }

    /// Decides a clear at `now`, under the same rules as an update.
    pub fn begin_clear(&self, now: u64) -> (r: Result<(), Error>)
        ensures
            r == self.gate(now),
    {
        self.check_gate(now)
    }

    fn check_gate(&self, now: u64) -> (r: Result<(), Error>)
        ensures
            r == self.gate(now),
    {
        if !self.connected {
            return Err(Error::Disconnected);
        }
        match self.last_update {
            Some(t) => {
                let elapsed: u64 = if now >= t { now - t } else { 0 };
                if elapsed < MIN_UPDATE_INTERVAL_MS {
                    Err(Error::RateLimited)
                } else {
                    Ok(())
                }
            },
            None => Ok(()),
        }
    }

    /// Takes the outcome of sending an update or a clear at `now`. A success
    /// records `now` as the last update; a failure gives
    /// `ActivityUpdateFailed` and leaves the session as it was. A disconnected
    /// session records nothing and gives `Disconnected`. The session stays
    /// connected or disconnected as it was.
    pub fn finish_update(&mut self, sent: Result<(), String>, now: u64) -> (r: Result<(), Error>)
        ensures
            !old(self).spec_connected() ==> {
                &&& r == Err::<(), Error>(Error::Disconnected)
                &&& *final(self) == *old(self)
            },
            old(self).spec_connected() && sent is Ok ==> r is Ok && *final(self) == old(self).recorded(now),
            old(self).spec_connected() && sent is Ok ==> final(self).spec_connected() && final(self).spec_last_update()
                == Some(now),
            old(self).spec_connected() && sent is Err ==> {
                &&& r == Err::<(), Error>(Error::ActivityUpdateFailed(sent->Err_0))
                &&& *final(self) == *old(self)
            },
            final(self).spec_application_id() == old(self).spec_application_id(),
            old(self).wf() ==> final(self).wf(),
    {
        if !self.connected {
            return Err(Error::Disconnected);
        }
        match sent {
            Ok(()) => {
                self.last_update = Some(now);
                Ok(())
            },
            Err(message) => Err(Error::ActivityUpdateFailed(message)),
        }
    }

    /// Whether disconnecting needs the transport closed: only a connected
    /// session closes it; disconnecting a disconnected one succeeds at once.
    pub fn begin_disconnect(&self) -> (r: bool)
        ensures
            r == self.spec_connected(),
    {
        self.connected
    }

    /// Takes the outcome of closing the transport. The session is
    /// disconnected and forgets its last update whatever the outcome; a
    /// failed close is still reported, as `ConnectionFailed`.
    pub fn finish_disconnect(&mut self, closed: Result<(), String>) -> (r: Result<(), Error>)
        ensures
            *final(self) == old(self).disconnected_state(),
            !final(self).spec_connected(),
            final(self).spec_last_update() is None,
            final(self).spec_application_id() == old(self).spec_application_id(),
            final(self).wf(),
            closed is Ok ==> r is Ok,
            closed is Err ==> r == Err::<(), Error>(Error::ConnectionFailed(closed->Err_0)),
    {
        self.connected = false;
        self.last_update = None;
        match closed {
            Ok(()) => Ok(()),
            Err(message) => Err(Error::ConnectionFailed(message)),
        }
    }
}

/// What each step does to the observable state: a handshake connects and
/// keeps the last-update time, a successful update or clear records its time,
/// a close disconnects and forgets it; none of them changes the identity.
pub proof fn lemma_transitions(s: PresenceSession, now: u64)
    ensures
        s.connected_state().spec_connected(),
        s.connected_state().spec_last_update() == s.spec_last_update(),
        s.connected_state().spec_application_id() == s.spec_application_id(),
        s.recorded(now).spec_connected() == s.spec_connected(),
        s.recorded(now).spec_last_update() == Some(now),
        s.recorded(now).spec_application_id() == s.spec_application_id(),
        !s.disconnected_state().spec_connected(),
        s.disconnected_state().spec_last_update() is None,
        s.disconnected_state().spec_application_id() == s.spec_application_id(),
        s.wf() ==> s.connected_state().wf(),
        s.spec_connected() ==> s.recorded(now).wf(),
        s.disconnected_state().wf(),
{
}

/// A disconnected session, and so a new one, refuses every update and clear
/// with `Disconnected`, whatever the time.
pub proof fn lemma_disconnected_refuses(s: PresenceSession, now: u64)
    requires
        !s.spec_connected(),
    ensures
        s.gate(now) == Err::<(), Error>(Error::Disconnected),
{
}

/// After an update at `t1` went through on a connected session, an update
/// at `t2` is refused with `RateLimited` when under the least interval has
/// passed, leaving the recorded time at `t1`, and accepted once the interval
/// has passed.
pub proof fn lemma_rate_limit(s: PresenceSession, t1: u64, t2: u64)
    requires
        s.spec_connected(),
        t1 <= t2,
    ensures
        s.recorded(t1).spec_last_update() == Some(t1),
        t2 - t1 < MIN_UPDATE_INTERVAL_MS ==> s.recorded(t1).gate(t2) == Err::<(), Error>(Error::RateLimited),
        t2 - t1 >= MIN_UPDATE_INTERVAL_MS ==> s.recorded(t1).gate(t2) == Ok::<(), Error>(()),
{
}

/// Connecting twice: once the first handshake went through, the second
/// connect needs none and leaves the session connected as it was.
pub proof fn lemma_connect_idempotent(s: PresenceSession)
    ensures
        s.connected_state().spec_connected(),
        !s.connected_state().needs_handshake(),
        s.connected_state().connected_state() == s.connected_state(),
{
}

/// Disconnecting twice: after the first, whatever the close reported, the
/// session is disconnected with no last-update time, so the second needs no
/// close, reports no error and changes nothing.
pub proof fn lemma_disconnect_idempotent(s: PresenceSession)
    ensures
        !s.disconnected_state().spec_connected(),
        s.disconnected_state().spec_last_update() is None,
        s.disconnected_state().disconnected_state() == s.disconnected_state(),
{
}

} // verus!
