//! The visitor's session: its record, the test that a stored session is still
//! good, and the flow that finds or creates the session for a request.

use vstd::prelude::*;
use crate::instant::{Instant, can_go_back_minutes, minutes_back_defined, minutes_before};
use crate::session_id::{is_session_id, is_valid_session_id};

verus! {

/// The view of an optional string.
pub open spec fn opt_string_view(o: Option<String>) -> Option<Seq<char>> {
    match o {
        Some(s) => Some(s@),
        None => None,
    }
}

/// What the service remembers about a visitor between requests.
pub struct Session {
    pub sessid: String,
    pub user_agent: String,
    pub shooter_id: Option<i32>,
    pub shooter_name: Option<String>,
    pub email_address: Option<String>,
    pub last_access: Option<Instant>,
    pub google_oauth: bool,
    pub facebook_oauth: bool,
}

/// A session as values.
pub struct SessionView {
    pub sessid: Seq<char>,
    pub user_agent: Seq<char>,
    pub shooter_id: Option<i32>,
    pub shooter_name: Option<Seq<char>>,
    pub email_address: Option<Seq<char>>,
    pub last_access: Option<Instant>,
    pub google_oauth: bool,
    pub facebook_oauth: bool,
}

impl View for Session {
    type V = SessionView;

    open spec fn view(&self) -> SessionView {
        SessionView {
            sessid: self.sessid@,
            user_agent: self.user_agent@,
            shooter_id: self.shooter_id,
            shooter_name: opt_string_view(self.shooter_name),
            email_address: opt_string_view(self.email_address),
            last_access: self.last_access,
            google_oauth: self.google_oauth,
            facebook_oauth: self.facebook_oauth,
        }
    }
}

/// A session that has just been opened: its identifier and the visitor's user
/// agent, and nothing else known yet.
pub open spec fn spec_fresh_session(sessid: Seq<char>, user_agent: Seq<char>) -> SessionView {
    SessionView {
        sessid,
        user_agent,
        shooter_id: None,
        shooter_name: None,
        email_address: None,
        last_access: None,
        google_oauth: false,
        facebook_oauth: false,
    }
}

impl SessionView {
    /// The same session, last used at `now`.
    pub open spec fn touched(self, now: Instant) -> SessionView {
        SessionView { last_access: Some(now), ..self }
    }
}

impl Default for Session {
    /// An empty session: empty identifier and user agent, nothing else known.
    fn default() -> (s: Session)
        ensures
            s@ == spec_fresh_session(Seq::empty(), Seq::empty()),
    {
        Session {
            sessid: String::new(),
            user_agent: String::new(),
            shooter_id: None,
            shooter_name: None,
            email_address: None,
            last_access: None,
            google_oauth: false,
            facebook_oauth: false,
        }
    }
}

impl Session {
    /// A new session with the given identifier for a visitor with the given user agent.
    pub fn fresh(sessid: String, user_agent: &String) -> (s: Session)
        ensures
            s@ == spec_fresh_session(sessid@, user_agent@),
    {
        Session {
            sessid,
            user_agent: user_agent.clone(),
            shooter_id: None,
            shooter_name: None,
            email_address: None,
            last_access: None,
            google_oauth: false,
            facebook_oauth: false,
        }
    }

    /// Records that the session was used at `now`; nothing else changes.
    pub fn touch(&mut self, now: Instant)
        ensures
            final(self)@ == old(self)@.touched(now),
    {
        self.last_access = Some(now);
    }
}

/// What the check of a stored session concludes.
#[derive(PartialEq, Eq, Structural, Clone, Copy, Debug)]
pub enum StoredVerdict {
    /// Used within the expiry window, by the same user agent: keep it.
    Valid,
    /// Too old, or presented by another user agent: drop it.
    Stale,
    /// Stored without a last-access time: drop it.
    NoLastAccess,
}

/// Whether `last` lies after the instant `expire_minutes` minutes before `now`.
pub open spec fn spec_within_expiry(last: Instant, now: Instant, expire_minutes: i64) -> bool {
    let cutoff = now.total_nanos() - expire_minutes * 60 * 1_000_000_000;
    last.secs > cutoff / 1_000_000_000 || (last.secs == cutoff / 1_000_000_000 && last.nanos
        > cutoff % 1_000_000_000)
}

/// The verdict on a stored session presented by a visitor with user agent `user_agent` at `now`.
pub open spec fn spec_judge(
    stored: SessionView,
    user_agent: Seq<char>,
    now: Instant,
    expire_minutes: i64,
) -> StoredVerdict {
    match stored.last_access {
        Some(last) => if spec_within_expiry(last, now, expire_minutes) && stored.user_agent
            == user_agent {
            StoredVerdict::Valid
        } else {
            StoredVerdict::Stale
        },
        None => StoredVerdict::NoLastAccess,
    }
}

/// Judges a session found in the store: it stays valid while it was last used
/// less than `expire_minutes` minutes ago and by the same user agent.
pub fn judge_stored_session(
    stored: &Session,
    user_agent: &String,
    now: Instant,
    expire_minutes: i64,
) -> (v: StoredVerdict)
    requires
        stored.last_access is Some ==> minutes_back_defined(now, expire_minutes),
    ensures
        v == spec_judge(stored@, user_agent@, now, expire_minutes),
{
    match stored.last_access {
        Some(last) => {
            let cutoff = minutes_before(now, expire_minutes);
            proof {
                vstd::arithmetic::div_mod::lemma_fundamental_div_mod_converse(
                    cutoff.total_nanos(),
                    1_000_000_000,
                    cutoff.secs as int,
                    cutoff.nanos as int,
                );
            }
            if last.later_than(&cutoff) && stored.user_agent == *user_agent {
                StoredVerdict::Valid
            } else {
                StoredVerdict::Stale
            }
        },
        None => StoredVerdict::NoLastAccess,
    }
}


/// Where an identifier under check came from.
#[derive(PartialEq, Eq, Structural, Clone, Copy, Debug)]
pub enum IdSource {
    /// The visitor's session cookie.
    Cookie,
    /// A freshly derived candidate for a new session.
    Candidate,
}

/// What a lookup of a session identifier in the session store gave.
pub enum StoredLookup {
    /// The store could not be asked.
    Failed,
    /// No item, or an item without a stored session.
    Absent,
    /// The session stored under the identifier.
    Found(Session),
}

/// A lookup's result as values.
pub enum StoredLookupView {
    Failed,
    Absent,
    Found(SessionView),
}

impl View for StoredLookup {
    type V = StoredLookupView;

    open spec fn view(&self) -> StoredLookupView {
        match self {
            StoredLookup::Failed => StoredLookupView::Failed,
            StoredLookup::Absent => StoredLookupView::Absent,
            StoredLookup::Found(s) => StoredLookupView::Found(s@),
        }
    }
}

/// Where the flow that finds or opens a session stands.
pub enum SetupState {
    Start,
    AwaitCookie,
    AwaitLookup { source: IdSource, sessid: String },
    AwaitDelete { source: IdSource, sessid: String },
    AwaitCandidate,
    AwaitSave { session: Session, fresh: bool },
    AwaitCookieSet { session: Session },
    Done,
}

/// The flow's state as values.
pub enum SetupStateView {
    Start,
    AwaitCookie,
    AwaitLookup { source: IdSource, sessid: Seq<char> },
    AwaitDelete { source: IdSource, sessid: Seq<char> },
    AwaitCandidate,
    AwaitSave { session: SessionView, fresh: bool },
    AwaitCookieSet { session: SessionView },
    Done,
}

impl View for SetupState {
    type V = SetupStateView;

    open spec fn view(&self) -> SetupStateView {
        match self {
            SetupState::Start => SetupStateView::Start,
            SetupState::AwaitCookie => SetupStateView::AwaitCookie,
            SetupState::AwaitLookup { source, sessid } => SetupStateView::AwaitLookup {
                source: *source,
                sessid: sessid@,
            },
            SetupState::AwaitDelete { source, sessid } => SetupStateView::AwaitDelete {
                source: *source,
                sessid: sessid@,
            },
            SetupState::AwaitCandidate => SetupStateView::AwaitCandidate,
            SetupState::AwaitSave { session, fresh } => SetupStateView::AwaitSave {
                session: session@,
                fresh: *fresh,
            },
            SetupState::AwaitCookieSet { session } => SetupStateView::AwaitCookieSet {
                session: session@,
            },
            SetupState::Done => SetupStateView::Done,
        }
    }
}

/// What the caller reports back after carrying out an action.
pub enum SetupEvent {
    /// The flow is to start.
    Begin,
    /// The value of the `sessid` cookie, if the request has one.
    Cookie(Option<String>),
    /// The result of a lookup in the session store.
    Looked(StoredLookup),
    /// The stored session was deleted.
    Deleted,
    /// A candidate identifier (see `new_session_id_candidate`).
    Candidate(String),
    /// The session was written to the store.
    Saved,
    /// The `sessid` cookie was set.
    CookieSet,
}

/// An event as values.
pub enum SetupEventView {
    Begin,
    Cookie(Option<Seq<char>>),
    Looked(StoredLookupView),
    Deleted,
    Candidate(Seq<char>),
    Saved,
    CookieSet,
}

impl View for SetupEvent {
    type V = SetupEventView;

    open spec fn view(&self) -> SetupEventView {
        match self {
            SetupEvent::Begin => SetupEventView::Begin,
            SetupEvent::Cookie(c) => SetupEventView::Cookie(opt_string_view(*c)),
            SetupEvent::Looked(l) => SetupEventView::Looked(l@),
            SetupEvent::Deleted => SetupEventView::Deleted,
            SetupEvent::Candidate(c) => SetupEventView::Candidate(c@),
            SetupEvent::Saved => SetupEventView::Saved,
            SetupEvent::CookieSet => SetupEventView::CookieSet,
        }
    }
}

/// What the caller is to do next.
pub enum SetupAction {
    /// Read the private `sessid` cookie.
    ReadCookie,
    /// Look the identifier up in the session store.
    Lookup(String),
    /// Delete the item stored under this identifier.
    Delete(String),
    /// Derive a new candidate identifier.
    DrawCandidate,
    /// Write this session to the store.
    Save(Session),
    /// Set the private `sessid` cookie (path `/`, secure) to this value.
    SetCookie(String),
    /// The request's session is this one.
    Finish(Session),
    /// The event does not fit the state; nothing changed.
    Ignored,
}

/// An action as values.
pub enum SetupActionView {
    ReadCookie,
    Lookup(Seq<char>),
    Delete(Seq<char>),
    DrawCandidate,
    Save(SessionView),
    SetCookie(Seq<char>),
    Finish(SessionView),
    Ignored,
}

impl View for SetupAction {
    type V = SetupActionView;

    open spec fn view(&self) -> SetupActionView {
        match self {
            SetupAction::ReadCookie => SetupActionView::ReadCookie,
            SetupAction::Lookup(id) => SetupActionView::Lookup(id@),
            SetupAction::Delete(id) => SetupActionView::Delete(id@),
            SetupAction::DrawCandidate => SetupActionView::DrawCandidate,
            SetupAction::Save(s) => SetupActionView::Save(s@),
            SetupAction::SetCookie(id) => SetupActionView::SetCookie(id@),
            SetupAction::Finish(s) => SetupActionView::Finish(s@),
            SetupAction::Ignored => SetupActionView::Ignored,
        }
    }
}

/// The flow that finds the session of a request, or opens a new one.
pub struct SessionSetup {
    pub state: SetupState,
    /// The user agent that the request presents.
    pub user_agent: String,
    /// Minutes after its last use that a session expires.
    pub expire_minutes: i64,
}

/// A step of the flow as values: the new state and the action.
pub type SetupStep = (SetupStateView, SetupActionView);

/// No session was found under `sessid`: a cookie's identifier is given up and a
/// candidate is drawn; a candidate that nobody uses becomes a new session, last
/// used at `now`, to be saved.
pub open spec fn spec_after_missing(
    source: IdSource,
    sessid: Seq<char>,
    user_agent: Seq<char>,
    now: Instant,
) -> SetupStep {
    match source {
        IdSource::Cookie => (SetupStateView::AwaitCandidate, SetupActionView::DrawCandidate),
        IdSource::Candidate => {
            let s = spec_fresh_session(sessid, user_agent).touched(now);
            (SetupStateView::AwaitSave { session: s, fresh: true }, SetupActionView::Save(s))
        },
    }
}

/// Checking an identifier begins: an empty candidate is drawn again; one
/// without the shape of a session identifier is taken as not found; any other
/// is looked up.
pub open spec fn spec_begin_check(
    source: IdSource,
    sessid: Seq<char>,
    user_agent: Seq<char>,
    now: Instant,
) -> SetupStep {
    if source == IdSource::Candidate && sessid.len() == 0 {
        (SetupStateView::AwaitCandidate, SetupActionView::DrawCandidate)
    } else if is_session_id(sessid) {
        (SetupStateView::AwaitLookup { source, sessid }, SetupActionView::Lookup(sessid))
    } else {
        spec_after_missing(source, sessid, user_agent, now)
    }
}

/// A stored session was found under a looked-up identifier: a valid one
/// behind the cookie is kept and saved, last used at `now`; a valid one under a
/// candidate means the candidate is taken, so another is drawn; one that fails
/// the check is deleted.
pub open spec fn spec_after_found(
    source: IdSource,
    sessid: Seq<char>,
    stored: SessionView,
    user_agent: Seq<char>,
    now: Instant,
    expire_minutes: i64,
) -> SetupStep {
    if spec_judge(stored, user_agent, now, expire_minutes) == StoredVerdict::Valid {
        match source {
            IdSource::Cookie => {
                let s = stored.touched(now);
                (SetupStateView::AwaitSave { session: s, fresh: false }, SetupActionView::Save(s))
            },
            IdSource::Candidate => (SetupStateView::AwaitCandidate, SetupActionView::DrawCandidate),
        }
    } else {
        (SetupStateView::AwaitDelete { source, sessid }, SetupActionView::Delete(stored.sessid))
    }
}

/// One step of the flow, from `state` on `event` at `now`.
pub open spec fn spec_setup_step(
    state: SetupStateView,
    event: SetupEventView,
    user_agent: Seq<char>,
    expire_minutes: i64,
    now: Instant,
) -> SetupStep {
    let ignored = (state, SetupActionView::Ignored);
    match state {
        SetupStateView::Start => match event {
            SetupEventView::Begin => (SetupStateView::AwaitCookie, SetupActionView::ReadCookie),
            _ => ignored,
        },
        SetupStateView::AwaitCookie => match event {
            SetupEventView::Cookie(None) => (
                SetupStateView::AwaitCandidate,
                SetupActionView::DrawCandidate,
            ),
            SetupEventView::Cookie(Some(c)) => spec_begin_check(
                IdSource::Cookie,
                c,
                user_agent,
                now,
            ),
            _ => ignored,
        },
        SetupStateView::AwaitCandidate => match event {
            SetupEventView::Candidate(c) => spec_begin_check(
                IdSource::Candidate,
                c,
                user_agent,
                now,
            ),
            _ => ignored,
        },
        SetupStateView::AwaitLookup { source, sessid } => match event {
            SetupEventView::Looked(StoredLookupView::Found(stored)) => spec_after_found(
                source,
                sessid,
                stored,
                user_agent,
                now,
                expire_minutes,
            ),
            SetupEventView::Looked(_) => spec_after_missing(source, sessid, user_agent, now),
            _ => ignored,
        },
        SetupStateView::AwaitDelete { source, sessid } => match event {
            SetupEventView::Deleted => spec_after_missing(source, sessid, user_agent, now),
            _ => ignored,
        },
        SetupStateView::AwaitSave { session, fresh } => match event {
            SetupEventView::Saved => if fresh {
                (
                    SetupStateView::AwaitCookieSet { session },
                    SetupActionView::SetCookie(session.sessid),
                )
            } else {
                (SetupStateView::Done, SetupActionView::Finish(session))
            },
            _ => ignored,
        },
        SetupStateView::AwaitCookieSet { session } => match event {
            SetupEventView::CookieSet => (SetupStateView::Done, SetupActionView::Finish(session)),
            _ => ignored,
        },
        SetupStateView::Done => ignored,
    }
}

/// Whether the step on `event` from `state` reads the clock against the expiry
/// window: only when a looked-up session with a last-access time comes back.
pub open spec fn spec_step_checks_expiry(state: SetupStateView, event: SetupEventView) -> bool {
    &&& state is AwaitLookup
    &&& event matches SetupEventView::Looked(StoredLookupView::Found(stored))
    &&& stored.last_access is Some
}

impl SessionSetup {
    /// The flow for a request with the given user agent, before its first step.
    pub fn new(user_agent: String, expire_minutes: i64) -> (m: SessionSetup)
        ensures
            m.state@ == SetupStateView::Start,
            m.user_agent@ == user_agent@,
            m.expire_minutes == expire_minutes,
    {
        SessionSetup { state: SetupState::Start, user_agent, expire_minutes }
    }

    fn after_missing(source: IdSource, sessid: String, user_agent: &String, now: Instant) -> (res: (
        SetupState,
        SetupAction,
    ))
        ensures
            (res.0@, res.1@) == spec_after_missing(source, sessid@, user_agent@, now),
    {
        match source {
            IdSource::Cookie => (SetupState::AwaitCandidate, SetupAction::DrawCandidate),
            IdSource::Candidate => {
                let mut s = Session::fresh(sessid, user_agent);
                s.touch(now);
                let saved = copy_session(&s);
                (SetupState::AwaitSave { session: s, fresh: true }, SetupAction::Save(saved))
            },
        }
    }

    fn begin_check(source: IdSource, sessid: String, user_agent: &String, now: Instant) -> (res: (
        SetupState,
        SetupAction,
    ))
        ensures
            (res.0@, res.1@) == spec_begin_check(source, sessid@, user_agent@, now),
    {
        if source == IdSource::Candidate && sessid.as_str().is_empty() {
            (SetupState::AwaitCandidate, SetupAction::DrawCandidate)
        } else if is_valid_session_id(sessid.as_str()) {
            let looked = sessid.clone();
            (SetupState::AwaitLookup { source, sessid }, SetupAction::Lookup(looked))
        } else {
            Self::after_missing(source, sessid, user_agent, now)
        }
    }

    fn after_found(
        source: IdSource,
        sessid: String,
        stored: Session,
        user_agent: &String,
        now: Instant,
        expire_minutes: i64,
    ) -> (res: (SetupState, SetupAction))
        requires
            stored.last_access is Some ==> minutes_back_defined(now, expire_minutes),
        ensures
            (res.0@, res.1@) == spec_after_found(
                source,
                sessid@,
                stored@,
                user_agent@,
                now,
                expire_minutes,
            ),
    {
        let verdict = judge_stored_session(&stored, user_agent, now, expire_minutes);
        if verdict == StoredVerdict::Valid {
            match source {
                IdSource::Cookie => {
                    let mut s = stored;
                    s.touch(now);
                    let saved = copy_session(&s);
                    (SetupState::AwaitSave { session: s, fresh: false }, SetupAction::Save(saved))
                },
                IdSource::Candidate => (SetupState::AwaitCandidate, SetupAction::DrawCandidate),
            }
        } else {
            let doomed = stored.sessid;
            (SetupState::AwaitDelete { source, sessid }, SetupAction::Delete(doomed))
        }
    }

    /// Whether `step` may be taken on `event` at `now`: false only where the step
    /// would have to compute a time that chrono cannot, where the service panics.
    pub fn step_is_defined(&self, event: &SetupEvent, now: Instant) -> (res: bool)
        ensures
            res == (spec_step_checks_expiry(self.state@, event@) ==> minutes_back_defined(
                now,
                self.expire_minutes,
            )),
    {
        let checks = match (&self.state, event) {
            (SetupState::AwaitLookup { .. }, SetupEvent::Looked(StoredLookup::Found(stored))) => stored.last_access.is_some(),
            _ => false,
        };
        !checks || can_go_back_minutes(now, self.expire_minutes)
    }

    /// Takes one step of the flow: `event` is what came of the last action, `now`
    /// the current time. Returns the flow after the step and the next action.
    pub fn step(self, event: SetupEvent, now: Instant) -> (res: (SessionSetup, SetupAction))
        requires
            spec_step_checks_expiry(self.state@, event@) ==> minutes_back_defined(
                now,
                self.expire_minutes,
            ),
        ensures
            res.0.user_agent@ == self.user_agent@,
            res.0.expire_minutes == self.expire_minutes,
            (res.0.state@, res.1@) == spec_setup_step(
                self.state@,
                event@,
                self.user_agent@,
                self.expire_minutes,
                now,
            ),
    {
        let SessionSetup { state, user_agent, expire_minutes } = self;
        let (next, action) = match state {
            SetupState::Start => match event {
                SetupEvent::Begin => (SetupState::AwaitCookie, SetupAction::ReadCookie),
                _ => (SetupState::Start, SetupAction::Ignored),
            },
            SetupState::AwaitCookie => match event {
                SetupEvent::Cookie(None) => (SetupState::AwaitCandidate, SetupAction::DrawCandidate),
                SetupEvent::Cookie(Some(c)) => Self::begin_check(
                    IdSource::Cookie,
                    c,
                    &user_agent,
                    now,
                ),
                _ => (SetupState::AwaitCookie, SetupAction::Ignored),
            },
            SetupState::AwaitCandidate => match event {
                SetupEvent::Candidate(c) => Self::begin_check(
                    IdSource::Candidate,
                    c,
                    &user_agent,
                    now,
                ),
                _ => (SetupState::AwaitCandidate, SetupAction::Ignored),
            },
            SetupState::AwaitLookup { source, sessid } => match event {
                SetupEvent::Looked(StoredLookup::Found(stored)) => Self::after_found(
                    source,
                    sessid,
                    stored,
                    &user_agent,
                    now,
                    expire_minutes,
                ),
                SetupEvent::Looked(_) => Self::after_missing(source, sessid, &user_agent, now),
                _ => (SetupState::AwaitLookup { source, sessid }, SetupAction::Ignored),
            },
            SetupState::AwaitDelete { source, sessid } => match event {
                SetupEvent::Deleted => Self::after_missing(source, sessid, &user_agent, now),
                _ => (SetupState::AwaitDelete { source, sessid }, SetupAction::Ignored),
            },
            SetupState::AwaitSave { session, fresh } => match event {
                SetupEvent::Saved => if fresh {
                    let id = session.sessid.clone();
                    (SetupState::AwaitCookieSet { session }, SetupAction::SetCookie(id))
                } else {
                    let handed = copy_session(&session);
                    (SetupState::Done, SetupAction::Finish(handed))
                },
                _ => (SetupState::AwaitSave { session, fresh }, SetupAction::Ignored),
            },
            SetupState::AwaitCookieSet { session } => match event {
                SetupEvent::CookieSet => {
                    let handed = copy_session(&session);
                    (SetupState::Done, SetupAction::Finish(handed))
                },
                _ => (SetupState::AwaitCookieSet { session }, SetupAction::Ignored),
            },
            SetupState::Done => (SetupState::Done, SetupAction::Ignored),
        };
        (SessionSetup { state: next, user_agent, expire_minutes }, action)
    }
}

/// A copy of a session, field by field.
pub fn copy_session(s: &Session) -> (c: Session)
    ensures
        c@ == s@,
{
    Session {
        sessid: s.sessid.clone(),
        user_agent: s.user_agent.clone(),
        shooter_id: s.shooter_id,
        shooter_name: copy_opt_string(&s.shooter_name),
        email_address: copy_opt_string(&s.email_address),
        last_access: s.last_access,
        google_oauth: s.google_oauth,
        facebook_oauth: s.facebook_oauth,
    }
}

fn copy_opt_string(o: &Option<String>) -> (c: Option<String>)
    ensures
        opt_string_view(c) == opt_string_view(*o),
{
    match o {
        Some(s) => Some(s.clone()),
        None => None,
    }
}


/// A session just opened for a visitor with user agent `user_agent`: nothing
/// known but its identifier, the user agent and the time it was last used.
pub open spec fn is_opened_for(s: SessionView, user_agent: Seq<char>) -> bool {
    &&& s.last_access is Some
    &&& s == spec_fresh_session(s.sessid, user_agent).touched(s.last_access->0)
}

/// What holds at every point of the flow: a session about to be saved or
/// handed back carries the request's user agent and a last-access time, and a
/// session for which a cookie is set was just opened.
pub open spec fn setup_invariant(state: SetupStateView, user_agent: Seq<char>) -> bool {
    match state {
        SetupStateView::AwaitSave { session, fresh } => {
            &&& session.user_agent == user_agent
            &&& session.last_access is Some
            &&& fresh ==> is_opened_for(session, user_agent)
        },
        SetupStateView::AwaitCookieSet { session } => is_opened_for(session, user_agent),
        _ => true,
    }
}

/// Each step keeps the invariant of the flow, and a session it hands back
/// carries the request's user agent and the time of its last use; once it has
/// handed one back the flow is done and does nothing more; a cookie is only
/// ever set to the identifier of a session just opened.
pub proof fn setup_step_keeps_invariant(
    state: SetupStateView,
    event: SetupEventView,
    user_agent: Seq<char>,
    expire_minutes: i64,
    now: Instant,
)
    requires
        setup_invariant(state, user_agent),
    ensures
        ({
            let (next, action) = spec_setup_step(state, event, user_agent, expire_minutes, now);
            &&& setup_invariant(next, user_agent)
            &&& action matches SetupActionView::Finish(s) ==> {
                &&& s.user_agent == user_agent
                &&& s.last_access is Some
                &&& next is Done
            }
            &&& state is Done ==> next is Done && action is Ignored
            &&& action matches SetupActionView::SetCookie(id) ==> {
                &&& next matches SetupStateView::AwaitCookieSet { session }
                &&& session.sessid == id
                &&& is_opened_for(session, user_agent)
            }
        }),
{
}

/// Only identifiers with the shape of a session identifier are looked up, and
/// a stored session is deleted only when it fails its check.
pub proof fn lookups_and_deletions(
    state: SetupStateView,
    event: SetupEventView,
    user_agent: Seq<char>,
    expire_minutes: i64,
    now: Instant,
)
    ensures
        ({
            let (next, action) = spec_setup_step(state, event, user_agent, expire_minutes, now);
            &&& action matches SetupActionView::Lookup(id) ==> is_session_id(id)
            &&& action matches SetupActionView::Delete(id) ==> {
                &&& state is AwaitLookup
                &&& event matches SetupEventView::Looked(StoredLookupView::Found(stored))
                &&& stored.sessid == id
                &&& spec_judge(stored, user_agent, now, expire_minutes) != StoredVerdict::Valid
            }
        }),
{
}

/// A cookie that names a stored session still valid keeps that session: it is
/// saved again unchanged but for its last use, which becomes `now`. A candidate
/// that names a valid stored session is never used: another is drawn.
pub proof fn valid_sessions_are_kept(
    source: IdSource,
    sessid: Seq<char>,
    stored: SessionView,
    user_agent: Seq<char>,
    expire_minutes: i64,
    now: Instant,
)
    requires
        spec_judge(stored, user_agent, now, expire_minutes) == StoredVerdict::Valid,
    ensures
        ({
            let (next, action) = spec_setup_step(
                SetupStateView::AwaitLookup { source, sessid },
                SetupEventView::Looked(StoredLookupView::Found(stored)),
                user_agent,
                expire_minutes,
                now,
            );
            match source {
                IdSource::Cookie => {
                    &&& action == SetupActionView::Save(stored.touched(now))
                    &&& next == SetupStateView::AwaitSave {
                        session: stored.touched(now),
                        fresh: false,
                    }
                },
                IdSource::Candidate => action == SetupActionView::DrawCandidate,
            }
        }),
{
}


/// The state and the actions after the flow has taken `events`, each with the
/// time of its step, one by one from `state`.
pub open spec fn spec_setup_run(
    state: SetupStateView,
    events: Seq<(SetupEventView, Instant)>,
    user_agent: Seq<char>,
    expire_minutes: i64,
) -> (SetupStateView, Seq<SetupActionView>)
    decreases events.len(),
{
    if events.len() == 0 {
        (state, Seq::empty())
    } else {
        let (next, action) = spec_setup_step(
            state,
            events[0].0,
            user_agent,
            expire_minutes,
            events[0].1,
        );
        let (last, actions) = spec_setup_run(next, events.drop_first(), user_agent, expire_minutes);
        (last, seq![action] + actions)
    }
}

/// A session saved at `saved` and read back as it was saved is still valid
/// for the same user agent at `now`, while less than `expire_minutes` minutes
/// have passed since.
pub proof fn saved_session_is_valid_within_window(
    s: SessionView,
    saved: Instant,
    now: Instant,
    expire_minutes: i64,
)
    requires
        saved.is_regular(),
        now.total_nanos() - saved.total_nanos() < expire_minutes * 60 * 1_000_000_000,
    ensures
        spec_judge(s.touched(saved), s.user_agent, now, expire_minutes) == StoredVerdict::Valid,
{
    let cutoff = now.total_nanos() - expire_minutes * 60 * 1_000_000_000;
    vstd::arithmetic::div_mod::lemma_fundamental_div_mod(cutoff, 1_000_000_000);
    let q = cutoff / 1_000_000_000;
    let r = cutoff % 1_000_000_000;
    assert(cutoff == q * 1_000_000_000 + r);
    assert(0 <= r < 1_000_000_000);
    assert(saved.total_nanos() > cutoff);
    if saved.secs < q {
        assert(saved.secs * 1_000_000_000 + 1_000_000_000 <= q * 1_000_000_000);
    }
    assert(spec_within_expiry(saved, now, expire_minutes));
}

/// A session survives from one request to the next: when the next request
/// presents the session's identifier in its cookie, the store gives back the
/// session as it was saved at `saved`, and less than `expire_minutes` minutes
/// have passed at the lookup, the flow hands back the same session, last used
/// at the lookup and otherwise unchanged, and sets no new cookie.
pub proof fn session_survives_next_request(
    s: SessionView,
    user_agent: Seq<char>,
    expire_minutes: i64,
    saved: Instant,
    begin_at: Instant,
    cookie_at: Instant,
    lookup_at: Instant,
    saved_at: Instant,
)
    requires
        s.user_agent == user_agent,
        is_session_id(s.sessid),
        s.last_access == Some(saved),
        saved.is_regular(),
        lookup_at.total_nanos() - saved.total_nanos() < expire_minutes * 60 * 1_000_000_000,
    ensures
        spec_setup_run(
            SetupStateView::Start,
            seq![
                (SetupEventView::Begin, begin_at),
                (SetupEventView::Cookie(Some(s.sessid)), cookie_at),
                (SetupEventView::Looked(StoredLookupView::Found(s)), lookup_at),
                (SetupEventView::Saved, saved_at),
            ],
            user_agent,
            expire_minutes,
        ) == (
            SetupStateView::Done,
            seq![
                SetupActionView::ReadCookie,
                SetupActionView::Lookup(s.sessid),
                SetupActionView::Save(s.touched(lookup_at)),
                SetupActionView::Finish(s.touched(lookup_at)),
            ],
        ),
{
    assert(s.touched(saved) == s);
    saved_session_is_valid_within_window(s, saved, lookup_at, expire_minutes);
    let events = seq![
        (SetupEventView::Begin, begin_at),
        (SetupEventView::Cookie(Some(s.sessid)), cookie_at),
        (SetupEventView::Looked(StoredLookupView::Found(s)), lookup_at),
        (SetupEventView::Saved, saved_at),
    ];
    let st1 = SetupStateView::AwaitCookie;
    let st2 = SetupStateView::AwaitLookup { source: IdSource::Cookie, sessid: s.sessid };
    let st3 = SetupStateView::AwaitSave { session: s.touched(lookup_at), fresh: false };
    assert(events.drop_first() =~= events.subrange(1, 4));
    assert(events.drop_first().drop_first() =~= events.subrange(2, 4));
    assert(events.drop_first().drop_first().drop_first() =~= events.subrange(3, 4));
    assert(events.subrange(3, 4).drop_first() =~= Seq::<(SetupEventView, Instant)>::empty());
    let r4 = spec_setup_run(SetupStateView::Done, Seq::empty(), user_agent, expire_minutes);
    let r3 = spec_setup_run(st3, events.subrange(3, 4), user_agent, expire_minutes);
    assert(r3.0 == SetupStateView::Done);
    assert(r3.1 =~= seq![SetupActionView::Finish(s.touched(lookup_at))]);
    let r2 = spec_setup_run(st2, events.subrange(2, 4), user_agent, expire_minutes);
    assert(r2.1 =~= seq![
        SetupActionView::Save(s.touched(lookup_at)),
        SetupActionView::Finish(s.touched(lookup_at)),
    ]);
    let r1 = spec_setup_run(st1, events.subrange(1, 4), user_agent, expire_minutes);
    assert(r1.1 =~= seq![
        SetupActionView::Lookup(s.sessid),
        SetupActionView::Save(s.touched(lookup_at)),
        SetupActionView::Finish(s.touched(lookup_at)),
    ]);
    let r0 = spec_setup_run(SetupStateView::Start, events, user_agent, expire_minutes);
    assert(r0.1 =~= seq![
        SetupActionView::ReadCookie,
        SetupActionView::Lookup(s.sessid),
        SetupActionView::Save(s.touched(lookup_at)),
        SetupActionView::Finish(s.touched(lookup_at)),
    ]);
}


/// For an instant that is not a leap second, lying within the expiry window
/// means lying less than `expire_minutes` minutes before `now`.
proof fn within_expiry_is_recent(last: Instant, now: Instant, expire_minutes: i64)
    requires
        last.is_regular(),
    ensures
        spec_within_expiry(last, now, expire_minutes) <==> now.total_nanos()
            - last.total_nanos() < expire_minutes * 60 * 1_000_000_000,
{
    let cutoff = now.total_nanos() - expire_minutes * 60 * 1_000_000_000;
    vstd::arithmetic::div_mod::lemma_fundamental_div_mod(cutoff, 1_000_000_000);
    let q = cutoff / 1_000_000_000;
    let r = cutoff % 1_000_000_000;
    assert(cutoff == q * 1_000_000_000 + r);
    assert(0 <= r < 1_000_000_000);
    if last.secs < q {
        assert(last.secs * 1_000_000_000 + 1_000_000_000 <= q * 1_000_000_000);
    }
    if last.secs > q {
        assert(last.secs * 1_000_000_000 >= q * 1_000_000_000 + 1_000_000_000);
    }
}

/// What the check of a stored session decides, for any session, user agent,
/// time and expiry: it is valid exactly when it records a last use less than
/// `expire_minutes` minutes before `now` and was opened by the same user agent,
/// whoever is logged in; without a last use it is flagged as such; otherwise
/// it is stale.
pub proof fn stored_session_verdict(
    stored: SessionView,
    user_agent: Seq<char>,
    now: Instant,
    expire_minutes: i64,
)
    ensures
        (spec_judge(stored, user_agent, now, expire_minutes) == StoredVerdict::NoLastAccess)
            <==> stored.last_access is None,
        spec_judge(stored, user_agent, now, expire_minutes) == StoredVerdict::Valid
            ==> stored.last_access is Some && stored.user_agent == user_agent,
        match stored.last_access {
            Some(last) => last.is_regular() ==> (spec_judge(stored, user_agent, now, expire_minutes)
                == StoredVerdict::Valid <==> (stored.user_agent == user_agent && now.total_nanos()
                - last.total_nanos() < expire_minutes * 60 * 1_000_000_000)),
            None => true,
        },
{
    if let Some(last) = stored.last_access {
        if last.is_regular() {
            within_expiry_is_recent(last, now, expire_minutes);
        }
    }
}

/// Where the flow stands with a cookie's identifier that the store does not
/// hold (the lookup failed or found nothing), or whose stored session was
/// deleted: the identifier is given up and a fresh candidate is drawn.
pub proof fn missing_cookie_session_draws_candidate(
    sessid: Seq<char>,
    lookup: StoredLookupView,
    user_agent: Seq<char>,
    expire_minutes: i64,
    now: Instant,
)
    requires
        !(lookup is Found),
    ensures
        spec_setup_step(
            SetupStateView::AwaitLookup { source: IdSource::Cookie, sessid },
            SetupEventView::Looked(lookup),
            user_agent,
            expire_minutes,
            now,
        ) == (SetupStateView::AwaitCandidate, SetupActionView::DrawCandidate),
        spec_setup_step(
            SetupStateView::AwaitDelete { source: IdSource::Cookie, sessid },
            SetupEventView::Deleted,
            user_agent,
            expire_minutes,
            now,
        ) == (SetupStateView::AwaitCandidate, SetupActionView::DrawCandidate),
{
}

/// A candidate the store does not hold (the lookup failed or found nothing),
/// or whose stale session was deleted, is taken: a session is opened under it
/// for the request's user agent, last used `now`, with no shooter, name,
/// address or sign-in recorded, and it is saved.
pub proof fn free_candidate_opens_session(
    sessid: Seq<char>,
    lookup: StoredLookupView,
    user_agent: Seq<char>,
    expire_minutes: i64,
    now: Instant,
)
    requires
        !(lookup is Found),
    ensures
        ({
            let opened = SessionView {
                sessid,
                user_agent,
                shooter_id: None,
                shooter_name: None,
                email_address: None,
                last_access: Some(now),
                google_oauth: false,
                facebook_oauth: false,
            };
            &&& spec_setup_step(
                SetupStateView::AwaitLookup { source: IdSource::Candidate, sessid },
                SetupEventView::Looked(lookup),
                user_agent,
                expire_minutes,
                now,
            ) == (SetupStateView::AwaitSave { session: opened, fresh: true }, SetupActionView::Save(opened))
            &&& spec_setup_step(
                SetupStateView::AwaitDelete { source: IdSource::Candidate, sessid },
                SetupEventView::Deleted,
                user_agent,
                expire_minutes,
                now,
            ) == (SetupStateView::AwaitSave { session: opened, fresh: true }, SetupActionView::Save(opened))
        }),
{
}

/// A session opened fresh (to be saved, then given a cookie) always carries an
/// identifier that arrived as a candidate: either on this very step, as a
/// `Candidate` event, or earlier, as the identifier of the candidate under
/// check or deletion. A cookie's identifier never becomes a new session's.
pub proof fn fresh_sessions_take_candidate_ids(
    state: SetupStateView,
    event: SetupEventView,
    user_agent: Seq<char>,
    expire_minutes: i64,
    now: Instant,
)
    ensures
        ({
            let (next, action) = spec_setup_step(state, event, user_agent, expire_minutes, now);
            &&& match next {
                SetupStateView::AwaitSave { session, fresh } => fresh ==> {
                    ||| state == next
                    ||| (state is AwaitCandidate && event == SetupEventView::Candidate(
                        session.sessid,
                    ))
                    ||| state == SetupStateView::AwaitLookup {
                        source: IdSource::Candidate,
                        sessid: session.sessid,
                    }
                    ||| state == SetupStateView::AwaitDelete {
                        source: IdSource::Candidate,
                        sessid: session.sessid,
                    }
                },
                SetupStateView::AwaitLookup { source, sessid } => source == IdSource::Candidate
                    ==> {
                    ||| state == next
                    ||| (state is AwaitCandidate && event == SetupEventView::Candidate(sessid))
                },
                SetupStateView::AwaitDelete { source, sessid } => source == IdSource::Candidate
                    ==> {
                    ||| state == next
                    ||| state == SetupStateView::AwaitLookup { source, sessid }
                },
                _ => true,
            }
        }),
{
}


/// How the flow begins: it reads the cookie; with no cookie it draws a
/// candidate; a cookie with the shape of a session identifier is looked up,
/// and any other cookie is given up for a candidate.
pub proof fn cookie_is_read_then_checked(
    cookie: Option<Seq<char>>,
    user_agent: Seq<char>,
    expire_minutes: i64,
    now: Instant,
)
    ensures
        spec_setup_step(SetupStateView::Start, SetupEventView::Begin, user_agent, expire_minutes, now)
            == (SetupStateView::AwaitCookie, SetupActionView::ReadCookie),
        spec_setup_step(
            SetupStateView::AwaitCookie,
            SetupEventView::Cookie(cookie),
            user_agent,
            expire_minutes,
            now,
        ) == match cookie {
            Some(id) => if is_session_id(id) {
                (
                    SetupStateView::AwaitLookup { source: IdSource::Cookie, sessid: id },
                    SetupActionView::Lookup(id),
                )
            } else {
                (SetupStateView::AwaitCandidate, SetupActionView::DrawCandidate)
            },
            None => (SetupStateView::AwaitCandidate, SetupActionView::DrawCandidate),
        },
{
}

/// How a candidate is handled: an empty one is drawn again; one with the shape
/// of a session identifier is looked up; any other is taken as free, and a
/// session is opened under it.
pub proof fn candidate_is_checked(
    candidate: Seq<char>,
    user_agent: Seq<char>,
    expire_minutes: i64,
    now: Instant,
)
    ensures
        ({
            let opened = SessionView {
                sessid: candidate,
                user_agent,
                shooter_id: None,
                shooter_name: None,
                email_address: None,
                last_access: Some(now),
                google_oauth: false,
                facebook_oauth: false,
            };
            spec_setup_step(
                SetupStateView::AwaitCandidate,
                SetupEventView::Candidate(candidate),
                user_agent,
                expire_minutes,
                now,
            ) == if candidate.len() == 0 {
                (SetupStateView::AwaitCandidate, SetupActionView::DrawCandidate)
            } else if is_session_id(candidate) {
                (
                    SetupStateView::AwaitLookup { source: IdSource::Candidate, sessid: candidate },
                    SetupActionView::Lookup(candidate),
                )
            } else {
                (SetupStateView::AwaitSave { session: opened, fresh: true }, SetupActionView::Save(opened))
            }
        }),
{
}

/// A stored session that fails its check is deleted under its own stored
/// identifier, whichever identifier led to it.
pub proof fn failing_session_is_deleted(
    source: IdSource,
    sessid: Seq<char>,
    stored: SessionView,
    user_agent: Seq<char>,
    expire_minutes: i64,
    now: Instant,
)
    requires
        spec_judge(stored, user_agent, now, expire_minutes) != StoredVerdict::Valid,
    ensures
        spec_setup_step(
            SetupStateView::AwaitLookup { source, sessid },
            SetupEventView::Looked(StoredLookupView::Found(stored)),
            user_agent,
            expire_minutes,
            now,
        ) == (SetupStateView::AwaitDelete { source, sessid }, SetupActionView::Delete(stored.sessid)),
{
}

/// After a save, a session opened fresh gets its cookie, set to its
/// identifier, and is handed back once the cookie is set; a kept session is
/// handed back at once, with no cookie set.
pub proof fn saved_session_is_handed_back(
    session: SessionView,
    fresh: bool,
    user_agent: Seq<char>,
    expire_minutes: i64,
    now: Instant,
)
    ensures
        spec_setup_step(
            SetupStateView::AwaitSave { session, fresh },
            SetupEventView::Saved,
            user_agent,
            expire_minutes,
            now,
        ) == if fresh {
            (
                SetupStateView::AwaitCookieSet { session },
                SetupActionView::SetCookie(session.sessid),
            )
        } else {
            (SetupStateView::Done, SetupActionView::Finish(session))
        },
        spec_setup_step(
            SetupStateView::AwaitCookieSet { session },
            SetupEventView::CookieSet,
            user_agent,
            expire_minutes,
            now,
        ) == (SetupStateView::Done, SetupActionView::Finish(session)),
{
}

/// An event that the flow ignores leaves it where it was.
pub proof fn ignored_events_change_nothing(
    state: SetupStateView,
    event: SetupEventView,
    user_agent: Seq<char>,
    expire_minutes: i64,
    now: Instant,
)
    ensures
        spec_setup_step(state, event, user_agent, expire_minutes, now).1 == SetupActionView::Ignored
            ==> spec_setup_step(state, event, user_agent, expire_minutes, now).0 == state,
{
}

} // verus!
