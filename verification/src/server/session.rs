//! The session of a server: which diagnostic session is active, until when it
//! is kept without further requests, and which security level is unlocked.

use crate::subfunction::SessionType;
use vstd::prelude::*;

verus! {

/// How long a non-default session is kept without being renewed, in
/// milliseconds, when nothing else is asked for.
pub const DEFAULT_KEEP_MS: u64 = 5_000;

/// What a session manager holds.
pub struct SessionState {
    pub session: SessionType,
    /// The moment, in milliseconds, from which the session falls back to the
    /// default session; `None` while no fall-back is armed.
    pub keep_deadline: Option<u64>,
    pub keep_duration: u64,
    pub sa_level: u8,
}

/// In the default session no security level is unlocked.
pub open spec fn session_wf(s: SessionState) -> bool {
    s.session == SessionType::Default ==> s.sa_level == 0
}

/// The state of a fresh manager: default session, nothing armed, security
/// access locked.
pub open spec fn initial_session(keep_duration: u64) -> SessionState {
    SessionState {
        session: SessionType::Default,
        keep_deadline: None,
        keep_duration,
        sa_level: 0,
    }
}

/// The state after falling back to the default session.
pub open spec fn reverted(s: SessionState) -> SessionState {
    SessionState {
        session: SessionType::Default,
        keep_deadline: None,
        keep_duration: s.keep_duration,
        sa_level: 0,
    }
}

/// A deadline: the given moment plus the given duration, or the last
/// representable moment where the sum lies beyond it.
pub open spec fn deadline_after(now: u64, duration: u64) -> u64 {
    if now + duration > u64::MAX {
        u64::MAX
    } else {
        (now + duration) as u64
    }
}

/// The state after the timer looked at the clock: once the deadline is
/// reached, the session falls back; before that, and while no deadline is
/// armed, nothing changes.
pub open spec fn after_tick(s: SessionState, now: u64) -> SessionState {
    match s.keep_deadline {
        Some(deadline) => if deadline <= now {
            reverted(s)
        } else {
            s
        },
        None => s,
    }
}

/// The state after a change of session. Entering the default session locks
/// security access again.
pub open spec fn after_change(s: SessionState, session: SessionType) -> SessionState {
    SessionState {
        session,
        keep_deadline: s.keep_deadline,
        keep_duration: s.keep_duration,
        sa_level: if session == SessionType::Default {
            0
        } else {
            s.sa_level
        },
    }
}

/// The state after the session was renewed at the given moment.
pub open spec fn after_keep(s: SessionState, now: u64) -> SessionState {
    SessionState {
        session: s.session,
        keep_deadline: Some(deadline_after(now, s.keep_duration)),
        keep_duration: s.keep_duration,
        sa_level: s.sa_level,
    }
}

/// The state after an attempt to unlock a security level. The default session
/// unlocks nothing.
pub open spec fn after_unlock(s: SessionState, level: u8) -> SessionState {
    SessionState {
        session: s.session,
        keep_deadline: s.keep_deadline,
        keep_duration: s.keep_duration,
        sa_level: if s.session == SessionType::Default {
            0
        } else {
            level
        },
    }
}

/// Session manager.
#[derive(Debug)]
pub struct SessionManager {
    session: SessionType,
    keep_deadline: Option<u64>,
    keep_duration: u64,
    sa_level: u8,
}

impl View for SessionManager {
    type V = SessionState;

    closed spec fn view(&self) -> SessionState {
        SessionState {
            session: self.session,
            keep_deadline: self.keep_deadline,
            keep_duration: self.keep_duration,
            sa_level: self.sa_level,
        }
    }
}

impl Clone for SessionManager {
    fn clone(&self) -> (m: SessionManager)
        ensures
            m@ == self@,
    {
        proof {
            use_type_invariant(self);
        }
        SessionManager {
            session: self.session,
            keep_deadline: self.keep_deadline,
            keep_duration: self.keep_duration,
            sa_level: self.sa_level,
        }
    }
}

impl SessionManager {
    #[verifier::type_invariant]
    spec fn well_formed(self) -> bool {
        self.session == SessionType::Default ==> self.sa_level == 0
    }

    /// A manager in the default session that keeps a non-default session for
    /// the given number of seconds, or for five seconds.
    pub fn new(second: Option<u64>) -> (m: SessionManager)
        ensures
            m@ == initial_session(
                match second {
                    Some(s) => if s * 1000 > u64::MAX {
                        u64::MAX
                    } else {
                        (s * 1000) as u64
                    },
                    None => DEFAULT_KEEP_MS,
                },
            ),
    {
        let keep_duration = match second {
            Some(s) => if s > u64::MAX / 1000 {
                u64::MAX
            } else {
                s * 1000
            },
            None => DEFAULT_KEEP_MS,
        };
        SessionManager {
            session: SessionType::Default,
            keep_deadline: None,
            keep_duration,
            sa_level: 0,
        }
    }

    /// Back to the default session, with no deadline armed and security
    /// access locked.
    pub fn reset(&mut self)
        ensures
            final(self)@ == reverted(old(self)@),
            session_wf(final(self)@),
    {
        self.sa_level = 0;
        self.session = SessionType::Default;
        self.keep_deadline = None;
    }

    /// Change session type.
    pub fn change(&mut self, session: SessionType)
        ensures
            final(self)@ == after_change(old(self)@, session),
            session_wf(final(self)@),
    {
        if session.is_default() {
            self.sa_level = 0;
        }
        self.session = session;
    }

    /// Keep the session: arm the fall-back one keep duration from `now`.
    pub fn keep(&mut self, now: u64)
        ensures
            final(self)@ == after_keep(old(self)@, now),
            session_wf(final(self)@),
    {
        proof {
            use_type_invariant(&*self);
        }
        self.keep_deadline = Some(now.saturating_add(self.keep_duration));
    }

    /// Same as `change`.
    pub fn set_session_type(&mut self, session: SessionType)
        ensures
            final(self)@ == after_change(old(self)@, session),
            session_wf(final(self)@),
    {
        self.change(session)
    }

    /// Get current session type.
    pub fn get_session_type(&self) -> (s: SessionType)
        ensures
            s == self@.session,
            session_wf(self@),
    {
        proof {
            use_type_invariant(self);
        }
        self.session
    }

    /// Unlocks a security level; in the default session the level stays 0.
    pub fn set_security_access_level(&mut self, level: u8)
        ensures
            final(self)@ == after_unlock(old(self)@, level),
            session_wf(final(self)@),
    {
        if self.session.is_default() {
            self.sa_level = 0;
        } else {
            self.sa_level = level;
        }
    }

    pub fn get_security_access_level(&self) -> (l: u8)
        ensures
            l == self@.sa_level,
            session_wf(self@),
    {
        proof {
            use_type_invariant(self);
        }
        self.sa_level
    }

    /// The moment from which the session falls back, if one is armed.
    pub fn keep_deadline(&self) -> (d: Option<u64>)
        ensures
            d == self@.keep_deadline,
    {
        self.keep_deadline
    }

    /// How long a session is kept, in milliseconds.
    pub fn keep_duration(&self) -> (d: u64)
        ensures
            d == self@.keep_duration,
    {
        self.keep_duration
    }

    /// One look of the timer at the clock. Returns whether the session fell
    /// back to the default session.
    pub fn work(&mut self, now: u64) -> (fell_back: bool)
        ensures
            final(self)@ == after_tick(old(self)@, now),
            fell_back == (old(self)@.keep_deadline matches Some(d) && d <= now),
            session_wf(final(self)@),
    {
        proof {
            use_type_invariant(&*self);
        }
        match self.keep_deadline {
            Some(deadline) => {
                if deadline <= now {
                    self.keep_deadline = None;
                    self.sa_level = 0;
                    self.session = SessionType::Default;
                    true
                } else {
                    false
                }
            },
            None => false,
        }
    }
}

impl Default for SessionManager {
    fn default() -> (m: SessionManager)
        ensures
            m@ == initial_session(DEFAULT_KEEP_MS),
    {
        SessionManager::new(None)
    }
}

/// Whether the fall-back is armed wherever it is needed: a session other than
/// the default session has a deadline.
pub open spec fn armed(s: SessionState) -> bool {
    s.session != SessionType::Default ==> s.keep_deadline is Some
}

/// A server that is left alone until the deadline of its session has passed
/// is in the default session with security access locked, at the next look
/// of the timer.
pub proof fn lemma_idle_session_reverts(s: SessionState, now: u64)
    requires
        session_wf(s),
        armed(s),
        s.keep_deadline matches Some(d) ==> d <= now,
    ensures
        after_tick(s, now).session == SessionType::Default,
        after_tick(s, now).sa_level == 0,
{
}

/// The timer keeps a session well formed and its fall-back armed.
pub proof fn lemma_tick_keeps_armed(s: SessionState, now: u64)
    requires
        session_wf(s),
        armed(s),
    ensures
        session_wf(after_tick(s, now)),
        armed(after_tick(s, now)),
{
}

/// A deadline that has passed brings the default session back and locks
/// security access, whatever the session was.
pub proof fn lemma_expired_session_reverts(s: SessionState, now: u64)
    requires
        s.keep_deadline matches Some(d) && d <= now,
    ensures
        after_tick(s, now).session == SessionType::Default,
        after_tick(s, now).sa_level == 0,
        after_tick(s, now).keep_deadline is None,
{
}

/// A session renewed at `start` and left alone is the default session at
/// every look of the timer from one keep duration later on, with security
/// access locked and no deadline armed.
pub proof fn lemma_kept_session_reverts(s: SessionState, start: u64, now: u64)
    requires
        now >= start + s.keep_duration,
    ensures
        after_tick(after_keep(s, start), now) == reverted(s),
        after_tick(after_keep(s, start), now).session == SessionType::Default,
        after_tick(after_keep(s, start), now).sa_level == 0,
        after_tick(after_keep(s, start), now).keep_deadline is None,
{
}

/// A session renewed at `start` and left alone stays as it is at every look
/// of the timer before one keep duration has passed. The last moment of the
/// clock is left out where the duration ends beyond it: the deadline is then
/// that moment.
pub proof fn lemma_kept_session_stays(s: SessionState, start: u64, now: u64)
    requires
        now < start + s.keep_duration,
        now < u64::MAX || start + s.keep_duration <= u64::MAX,
    ensures
        after_tick(after_keep(s, start), now) == after_keep(s, start),
        after_tick(after_keep(s, start), now).session == s.session,
        after_tick(after_keep(s, start), now).sa_level == s.sa_level,
{
}

/// While no deadline is armed the timer changes nothing.
pub proof fn lemma_tick_without_deadline(s: SessionState, now: u64)
    requires
        s.keep_deadline is None,
    ensures
        after_tick(s, now) == s,
{
}

/// Before the deadline the timer changes nothing.
pub proof fn lemma_tick_before_deadline(s: SessionState, now: u64)
    requires
        s.keep_deadline matches Some(d) ==> now < d,
    ensures
        after_tick(s, now) == s,
{
}

} // verus!
