//! Linking a sign-in at an OAuth provider to a shooter.

use vstd::prelude::*;
use crate::model::{NewOauth, NewShooter, Oauth, Shooter, new_shooter, is_generated_password};
use crate::session::{Session, SessionView};

verus! {

/// An OAuth provider that visitors sign in with.
#[derive(PartialEq, Eq, Structural, Clone, Copy, Debug)]
pub enum Vendor {
    Google,
    Facebook,
}

/// The name under which links to a provider are stored.
pub open spec fn spec_vendor_name(v: Vendor) -> Seq<char> {
    match v {
        Vendor::Google => seq!['g', 'o', 'o', 'g', 'l', 'e'],
        Vendor::Facebook => seq!['f', 'a', 'c', 'e', 'b', 'o', 'o', 'k'],
    }
}

/// The stored name of a provider: `"google"` or `"facebook"`.
pub fn vendor_name(v: Vendor) -> (name: String)
    ensures
        name@ == spec_vendor_name(v),
{
    match v {
        Vendor::Google => {
            let name = String::from_str("google");
            proof {
                reveal_strlit("google");
            }
            name
        },
        Vendor::Facebook => {
            let name = String::from_str("facebook");
            proof {
                reveal_strlit("facebook");
            }
            name
        },
    }
}

/// The status given to a shooter created at sign-in: `"active"`.
pub open spec fn spec_active_status() -> Seq<char> {
    seq!['a', 'c', 't', 'i', 'v', 'e']
}

/// Where the linking of a sign-in stands.
#[derive(PartialEq, Eq, Structural, Clone, Copy, Debug)]
pub enum LinkState {
    Start,
    /// Waiting for the stored link of the provider's identity, if any.
    AwaitOauth,
    /// Waiting for the shooter that a stored link belongs to, to log the visitor in.
    AwaitOwner,
    /// Waiting for the shooter with the visitor's email address, if any.
    AwaitShooter,
    /// Waiting for a new shooter to be created.
    AwaitShooterCreated,
    /// Waiting for a new link to be stored.
    AwaitLinkCreated,
    Done,
}

/// What the caller reports back after carrying out an action.
pub enum LinkEvent {
    /// The linking is to start.
    Begin,
    /// The stored link for the vendor and the provider's identity.
    OauthFound(Oauth),
    /// No link is stored for them.
    OauthMissing,
    /// The shooter that the stored link belongs to.
    OwnerFound(Shooter),
    /// That shooter could not be loaded.
    OwnerMissing,
    /// The shooter stored with the visitor's email address.
    ShooterFound(Shooter),
    /// No shooter has that email address.
    ShooterMissing,
    /// The shooter that was just created.
    ShooterCreated(Shooter),
    /// The link that was just stored.
    LinkCreated(Oauth),
}

/// An event as values: of a stored link only the shooter it names matters, and
/// of a shooter its identifier, name and email address.
pub enum LinkEventView {
    Begin,
    OauthFound(i32),
    OauthMissing,
    OwnerFound { id: i32, name: Seq<char>, email: Seq<char> },
    OwnerMissing,
    ShooterFound(i32),
    ShooterMissing,
    ShooterCreated(i32),
    LinkCreated,
}

impl View for LinkEvent {
    type V = LinkEventView;

    open spec fn view(&self) -> LinkEventView {
        match self {
            LinkEvent::Begin => LinkEventView::Begin,
            LinkEvent::OauthFound(o) => LinkEventView::OauthFound(o.shooter_id),
            LinkEvent::OauthMissing => LinkEventView::OauthMissing,
            LinkEvent::OwnerFound(s) => LinkEventView::OwnerFound {
                id: s.shooter_id,
                name: s.shooter_name@,
                email: s.shooter_email@,
            },
            LinkEvent::OwnerMissing => LinkEventView::OwnerMissing,
            LinkEvent::ShooterFound(s) => LinkEventView::ShooterFound(s.shooter_id),
            LinkEvent::ShooterMissing => LinkEventView::ShooterMissing,
            LinkEvent::ShooterCreated(s) => LinkEventView::ShooterCreated(s.shooter_id),
            LinkEvent::LinkCreated(_) => LinkEventView::LinkCreated,
        }
    }
}

/// What the caller is to do next.
pub enum LinkAction {
    /// Find the stored link with this vendor name and provider identity.
    FindOauth { vendor: String, user: String },
    /// Load the shooter with this identifier, the owner of a stored link.
    FindOwner { shooter_id: i32 },
    /// Find the shooter with this email address.
    FindShooter { email: String },
    /// Insert this shooter.
    CreateShooter(NewShooter),
    /// Insert this link.
    CreateLink(NewOauth),
    /// The sign-in is accepted (`true`) or refused (`false`).
    Finish(bool),
    /// The event does not fit the state; nothing changed.
    Ignored,
}

/// An action as values. Of a new shooter, the password is left out: it is
/// drawn at random (see `LinkFlow::step`).
pub enum LinkActionView {
    FindOauth { vendor: Seq<char>, user: Seq<char> },
    FindOwner { shooter_id: i32 },
    FindShooter { email: Seq<char> },
    CreateShooter { name: Seq<char>, real_name: Seq<char>, email: Seq<char>, status: Seq<char> },
    CreateLink { vendor: Seq<char>, user: Seq<char>, shooter_id: i32 },
    Finish(bool),
    Ignored,
}

impl View for LinkAction {
    type V = LinkActionView;

    open spec fn view(&self) -> LinkActionView {
        match self {
            LinkAction::FindOauth { vendor, user } => LinkActionView::FindOauth {
                vendor: vendor@,
                user: user@,
            },
            LinkAction::FindOwner { shooter_id } => LinkActionView::FindOwner {
                shooter_id: *shooter_id,
            },
            LinkAction::FindShooter { email } => LinkActionView::FindShooter { email: email@ },
            LinkAction::CreateShooter(s) => LinkActionView::CreateShooter {
                name: s.shooter_name@,
                real_name: s.shooter_real_name@,
                email: s.shooter_email@,
                status: s.shooter_status@,
            },
            LinkAction::CreateLink(o) => LinkActionView::CreateLink {
                vendor: o.oauth_vendor@,
                user: o.oauth_user@,
                shooter_id: o.shooter_id,
            },
            LinkAction::Finish(b) => LinkActionView::Finish(*b),
            LinkAction::Ignored => LinkActionView::Ignored,
        }
    }
}

/// The linking of one sign-in: the provider, the identity it vouched for, and
/// the name and email address that the visitor gave.
pub struct LinkFlow {
    pub state: LinkState,
    pub vendor: Vendor,
    pub token: String,
    pub name: String,
    pub email: String,
}

/// The session with the visitor logged in as the shooter `id`, named `name`,
/// with email address `email`.
pub open spec fn spec_logged_in(s: SessionView, id: i32, name: Seq<char>, email: Seq<char>) -> SessionView {
    SessionView { shooter_id: Some(id), shooter_name: Some(name), email_address: Some(email), ..s }
}

/// One step of the linking, from `state` on `event`, for the visitor's session
/// `session`: the new state, the session after the step, and the action.
///
/// An identity that is already linked is accepted when it is linked to the
/// session's shooter, and refused when it is linked to another; a visitor who
/// is not logged in is logged in as the shooter it is linked to. An identity
/// not linked yet is linked to the session's shooter, or else to the shooter
/// with the visitor's email address, or else to a new shooter, which the
/// session then belongs to.
pub open spec fn spec_link_step(
    state: LinkState,
    event: LinkEventView,
    session: SessionView,
    vendor: Vendor,
    token: Seq<char>,
    name: Seq<char>,
    email: Seq<char>,
) -> (LinkState, SessionView, LinkActionView) {
    let ignored = (state, session, LinkActionView::Ignored);
    let link = |id: i32|
        LinkActionView::CreateLink { vendor: spec_vendor_name(vendor), user: token, shooter_id: id };
    match state {
        LinkState::Start => match event {
            LinkEventView::Begin => (
                LinkState::AwaitOauth,
                session,
                LinkActionView::FindOauth { vendor: spec_vendor_name(vendor), user: token },
            ),
            _ => ignored,
        },
        LinkState::AwaitOauth => match event {
            LinkEventView::OauthFound(owner) => match session.shooter_id {
                Some(id) => (LinkState::Done, session, LinkActionView::Finish(id == owner)),
                None => (
                    LinkState::AwaitOwner,
                    session,
                    LinkActionView::FindOwner { shooter_id: owner },
                ),
            },
            LinkEventView::OauthMissing => match session.shooter_id {
                Some(id) => (LinkState::AwaitLinkCreated, session, link(id)),
                None => (LinkState::AwaitShooter, session, LinkActionView::FindShooter { email }),
            },
            _ => ignored,
        },
        LinkState::AwaitOwner => match event {
            LinkEventView::OwnerFound { id, name: owner_name, email: owner_email } => (
                LinkState::Done,
                spec_logged_in(session, id, owner_name, owner_email),
                LinkActionView::Finish(true),
            ),
            LinkEventView::OwnerMissing => (LinkState::Done, session, LinkActionView::Finish(false)),
            _ => ignored,
        },
        LinkState::AwaitShooter => match event {
            LinkEventView::ShooterFound(id) => (LinkState::AwaitLinkCreated, session, link(id)),
            LinkEventView::ShooterMissing => (
                LinkState::AwaitShooterCreated,
                session,
                LinkActionView::CreateShooter {
                    name,
                    real_name: name,
                    email,
                    status: spec_active_status(),
                },
            ),
            _ => ignored,
        },
        LinkState::AwaitShooterCreated => match event {
            LinkEventView::ShooterCreated(id) => (
                LinkState::AwaitLinkCreated,
                SessionView { shooter_id: Some(id), ..session },
                link(id),
            ),
            _ => ignored,
        },
        LinkState::AwaitLinkCreated => match event {
            LinkEventView::LinkCreated => (LinkState::Done, session, LinkActionView::Finish(true)),
            _ => ignored,
        },
        LinkState::Done => ignored,
    }
}

impl LinkFlow {
    /// The linking of a sign-in with `vendor` for the identity `token`.
    pub fn new(vendor: Vendor, token: String, name: String, email: String) -> (f: LinkFlow)
        ensures
            f.state == LinkState::Start,
            f.vendor == vendor,
            f.token@ == token@,
            f.name@ == name@,
            f.email@ == email@,
    {
        LinkFlow { state: LinkState::Start, vendor, token, name, email }
    }

    /// Takes one step of the linking. `event` is what came of the last action;
    /// `session` is the visitor's session, which the linking may log in.
    /// A new shooter gets 64 random letters and digits as its password.
    pub fn step(self, event: LinkEvent, session: &mut Session) -> (res: (LinkFlow, LinkAction))
        ensures
            res.0.vendor == self.vendor,
            res.0.token@ == self.token@,
            res.0.name@ == self.name@,
            res.0.email@ == self.email@,
            (res.0.state, final(session)@, res.1@) == spec_link_step(
                self.state,
                event@,
                old(session)@,
                self.vendor,
                self.token@,
                self.name@,
                self.email@,
            ),
            res.1 matches LinkAction::CreateShooter(s) ==> is_generated_password(
                s.shooter_password@,
            ),
    {
        let LinkFlow { state, vendor, token, name, email } = self;
        let (next, action) = match state {
            LinkState::Start => match event {
                LinkEvent::Begin => (
                    LinkState::AwaitOauth,
                    LinkAction::FindOauth { vendor: vendor_name(vendor), user: token.clone() },
                ),
                _ => (state, LinkAction::Ignored),
            },
            LinkState::AwaitOauth => match event {
                LinkEvent::OauthFound(o) => match session.shooter_id {
                    Some(id) => (LinkState::Done, LinkAction::Finish(id == o.shooter_id)),
                    None => (LinkState::AwaitOwner, LinkAction::FindOwner { shooter_id: o.shooter_id }),
                },
                LinkEvent::OauthMissing => match session.shooter_id {
                    Some(id) => (
                        LinkState::AwaitLinkCreated,
                        LinkAction::CreateLink(NewOauth::new(&vendor_name(vendor), &token, id)),
                    ),
                    None => (
                        LinkState::AwaitShooter,
                        LinkAction::FindShooter { email: email.clone() },
                    ),
                },
                _ => (state, LinkAction::Ignored),
            },
            LinkState::AwaitOwner => match event {
                LinkEvent::OwnerFound(s) => {
                    session.shooter_id = Some(s.shooter_id);
                    session.shooter_name = Some(s.shooter_name);
                    session.email_address = Some(s.shooter_email);
                    (LinkState::Done, LinkAction::Finish(true))
                },
                LinkEvent::OwnerMissing => (LinkState::Done, LinkAction::Finish(false)),
                _ => (state, LinkAction::Ignored),
            },
            LinkState::AwaitShooter => match event {
                LinkEvent::ShooterFound(s) => (
                    LinkState::AwaitLinkCreated,
                    LinkAction::CreateLink(NewOauth::new(&vendor_name(vendor), &token, s.shooter_id)),
                ),
                LinkEvent::ShooterMissing => {
                    let status = "active";
                    proof {
                        reveal_strlit("active");
                        assert(status@ =~= spec_active_status());
                    }
                    let record = new_shooter(name.as_str(), None, email.as_str(), status);
                    (LinkState::AwaitShooterCreated, LinkAction::CreateShooter(record))
                },
                _ => (state, LinkAction::Ignored),
            },
            LinkState::AwaitShooterCreated => match event {
                LinkEvent::ShooterCreated(s) => {
                    session.shooter_id = Some(s.shooter_id);
                    (
                        LinkState::AwaitLinkCreated,
                        LinkAction::CreateLink(NewOauth::new(&vendor_name(vendor), &token, s.shooter_id)),
                    )
                },
                _ => (state, LinkAction::Ignored),
            },
            LinkState::AwaitLinkCreated => match event {
                LinkEvent::LinkCreated(_) => (LinkState::Done, LinkAction::Finish(true)),
                _ => (state, LinkAction::Ignored),
            },
            LinkState::Done => (state, LinkAction::Ignored),
        };
        (LinkFlow { state: next, vendor, token, name, email }, action)
    }
}

/// The state and the session after the linking has taken `events` one by one
/// from `state`, with the visitor's session at `session`.
pub open spec fn spec_link_run(
    state: LinkState,
    session: SessionView,
    events: Seq<LinkEventView>,
    vendor: Vendor,
    token: Seq<char>,
    name: Seq<char>,
    email: Seq<char>,
) -> (LinkState, SessionView)
    decreases events.len(),
{
    if events.len() == 0 {
        (state, session)
    } else {
        let (next, after, _) = spec_link_step(
            state,
            events[0],
            session,
            vendor,
            token,
            name,
            email,
        );
        spec_link_run(next, after, events.drop_first(), vendor, token, name, email)
    }
}

/// How many steps the linking has at most still to take from `state`.
pub open spec fn link_steps_left(state: LinkState) -> nat {
    match state {
        LinkState::Start => 5,
        LinkState::AwaitOauth => 4,
        LinkState::AwaitShooter => 3,
        LinkState::AwaitShooterCreated => 2,
        LinkState::AwaitOwner => 1,
        LinkState::AwaitLinkCreated => 1,
        LinkState::Done => 0,
    }
}

/// What holds at every point of the linking: while it loads a stored link's
/// owner, or looks for or creates a shooter by email address, the session has
/// no shooter.
pub open spec fn link_invariant(state: LinkState, session: SessionView) -> bool {
    (state == LinkState::AwaitOwner || state == LinkState::AwaitShooter || state
        == LinkState::AwaitShooterCreated) ==> session.shooter_id is None
}

/// A sign-in is refused exactly when the provider's identity is already linked
/// to a shooter other than the session's own, or the shooter it is linked to
/// cannot be loaded.
pub proof fn refused_exactly_when_linked_elsewhere(
    state: LinkState,
    event: LinkEventView,
    session: SessionView,
    vendor: Vendor,
    token: Seq<char>,
    name: Seq<char>,
    email: Seq<char>,
)
    ensures
        spec_link_step(state, event, session, vendor, token, name, email).2
            == LinkActionView::Finish(false) <==> {
            ||| {
                &&& state == LinkState::AwaitOauth
                &&& event matches LinkEventView::OauthFound(owner)
                &&& session.shooter_id matches Some(id)
                &&& id != owner
            }
            ||| state == LinkState::AwaitOwner && event is OwnerMissing
        },
{
}

/// A returning visitor who is not logged in is logged in by a sign-in: the
/// linking loads the shooter that the stored link belongs to, and the session
/// takes its identifier, name and email address.
pub proof fn returning_visitor_is_logged_in(
    session: SessionView,
    owner: i32,
    owner_name: Seq<char>,
    owner_email: Seq<char>,
    vendor: Vendor,
    token: Seq<char>,
    name: Seq<char>,
    email: Seq<char>,
)
    requires
        session.shooter_id is None,
    ensures
        spec_link_step(
            LinkState::AwaitOauth,
            LinkEventView::OauthFound(owner),
            session,
            vendor,
            token,
            name,
            email,
        ) == (LinkState::AwaitOwner, session, LinkActionView::FindOwner { shooter_id: owner }),
        spec_link_step(
            LinkState::AwaitOwner,
            LinkEventView::OwnerFound { id: owner, name: owner_name, email: owner_email },
            session,
            vendor,
            token,
            name,
            email,
        ) == (
            LinkState::Done,
            spec_logged_in(session, owner, owner_name, owner_email),
            LinkActionView::Finish(true),
        ),
{
}

/// A step of the linking either ignores its event, leaving everything as it
/// was, or moves closer to its end; from the start it ends within five steps,
/// and it gives its verdict exactly once, on the step that ends it.
pub proof fn linking_makes_progress(
    state: LinkState,
    event: LinkEventView,
    session: SessionView,
    vendor: Vendor,
    token: Seq<char>,
    name: Seq<char>,
    email: Seq<char>,
)
    ensures
        ({
            let (next, after, action) = spec_link_step(
                state,
                event,
                session,
                vendor,
                token,
                name,
                email,
            );
            &&& if action == LinkActionView::Ignored {
                next == state && after == session
            } else {
                link_steps_left(next) < link_steps_left(state)
            }
            &&& action is Finish <==> next == LinkState::Done && state != LinkState::Done
        }),
        link_steps_left(state) <= 5,
{
}

/// Every link the linking stores ties the provider's name and the identity it
/// vouched for to a shooter: the session's own if it has one. A shooter it
/// creates has the visitor's name as name and as real name, the visitor's
/// email address, and the status `"active"`.
pub proof fn links_and_shooters_name_the_sign_in(
    state: LinkState,
    event: LinkEventView,
    session: SessionView,
    vendor: Vendor,
    token: Seq<char>,
    name: Seq<char>,
    email: Seq<char>,
)
    ensures
        ({
            let action = spec_link_step(state, event, session, vendor, token, name, email).2;
            &&& action matches LinkActionView::CreateLink { vendor: v, user: u, shooter_id: id }
                ==> {
                &&& v == spec_vendor_name(vendor)
                &&& u == token
                &&& link_invariant(state, session) && session.shooter_id is Some
                    ==> session.shooter_id == Some(id)
            }
            &&& action matches LinkActionView::CreateShooter { name: n, real_name: r, email: e, status: st }
                ==> n == name && r == name && e == email && st == spec_active_status()
        }),
{
}

/// Each step keeps the invariant of the linking. It changes the session's
/// shooter only from none, and only to a shooter just created or to the owner
/// of a stored link; the name and email address only when logging in as that
/// owner; and nothing else of the session.
pub proof fn link_step_keeps_invariant(
    state: LinkState,
    event: LinkEventView,
    session: SessionView,
    vendor: Vendor,
    token: Seq<char>,
    name: Seq<char>,
    email: Seq<char>,
)
    requires
        link_invariant(state, session),
    ensures
        ({
            let (next, after, _) = spec_link_step(state, event, session, vendor, token, name, email);
            &&& link_invariant(next, after)
            &&& after == SessionView {
                shooter_id: after.shooter_id,
                shooter_name: after.shooter_name,
                email_address: after.email_address,
                ..session
            }
            &&& after.shooter_id != session.shooter_id ==> {
                &&& session.shooter_id is None
                &&& {
                    ||| {
                        &&& state == LinkState::AwaitShooterCreated
                        &&& event matches LinkEventView::ShooterCreated(id)
                        &&& after.shooter_id == Some(id)
                    }
                    ||| {
                        &&& state == LinkState::AwaitOwner
                        &&& event matches LinkEventView::OwnerFound { id, .. }
                        &&& after.shooter_id == Some(id)
                    }
                }
            }
            &&& (after.shooter_name != session.shooter_name || after.email_address
                != session.email_address) ==> state == LinkState::AwaitOwner
        }),
{
}

/// A session that already has a shooter keeps it, whatever the linking is told.
pub proof fn linking_keeps_session_shooter(
    state: LinkState,
    session: SessionView,
    events: Seq<LinkEventView>,
    vendor: Vendor,
    token: Seq<char>,
    name: Seq<char>,
    email: Seq<char>,
)
    requires
        link_invariant(state, session),
        session.shooter_id is Some,
    ensures
        spec_link_run(state, session, events, vendor, token, name, email).1.shooter_id
            == session.shooter_id,
    decreases events.len(),
{
    if events.len() > 0 {
        let (next, after, _) = spec_link_step(
            state,
            events[0],
            session,
            vendor,
            token,
            name,
            email,
        );
        link_step_keeps_invariant(state, events[0], session, vendor, token, name, email);
        linking_keeps_session_shooter(next, after, events.drop_first(), vendor, token, name, email);
    }
}


/// A stored link as values.
pub struct LinkRow {
    pub vendor: Seq<char>,
    pub user: Seq<char>,
    pub shooter_id: i32,
}

/// A stored shooter as values.
pub struct ShooterRowView {
    pub id: i32,
    pub name: Seq<char>,
    pub email: Seq<char>,
}

/// The two tables that the linking reads and writes.
pub struct LinkTables {
    pub oauth: Seq<LinkRow>,
    pub shooters: Seq<ShooterRowView>,
}

/// Whether a link is stored for the vendor name `vendor` and the identity `user`.
pub open spec fn has_link(rows: Seq<LinkRow>, vendor: Seq<char>, user: Seq<char>) -> bool {
    exists|i: int| 0 <= i < rows.len() && #[trigger] rows[i].vendor == vendor && rows[i].user == user
}

/// No two links are stored for the same vendor name and identity.
pub open spec fn links_unique(rows: Seq<LinkRow>) -> bool {
    forall|i: int, j: int|
        0 <= i < j < rows.len() ==> !(#[trigger] rows[i].vendor == #[trigger] rows[j].vendor
            && rows[i].user == rows[j].user)
}

/// How the tables answer an action of the linking: a search finds a stored row
/// that matches, if there is one; an insertion appends the row, and a new
/// shooter receives the identifier `new_id`.
pub open spec fn tables_answer(t: LinkTables, action: LinkActionView, new_id: i32) -> (
    LinkTables,
    LinkEventView,
) {
    match action {
        LinkActionView::FindOauth { vendor, user } => if has_link(t.oauth, vendor, user) {
            let i = choose|i: int|
                0 <= i < t.oauth.len() && #[trigger] t.oauth[i].vendor == vendor && t.oauth[i].user
                    == user;
            (t, LinkEventView::OauthFound(t.oauth[i].shooter_id))
        } else {
            (t, LinkEventView::OauthMissing)
        },
        LinkActionView::FindOwner { shooter_id } => if exists|i: int|
            0 <= i < t.shooters.len() && #[trigger] t.shooters[i].id == shooter_id {
            let i = choose|i: int| 0 <= i < t.shooters.len() && #[trigger] t.shooters[i].id == shooter_id;
            (
                t,
                LinkEventView::OwnerFound {
                    id: t.shooters[i].id,
                    name: t.shooters[i].name,
                    email: t.shooters[i].email,
                },
            )
        } else {
            (t, LinkEventView::OwnerMissing)
        },
        LinkActionView::FindShooter { email } => if exists|i: int|
            0 <= i < t.shooters.len() && #[trigger] t.shooters[i].email == email {
            let i = choose|i: int| 0 <= i < t.shooters.len() && #[trigger] t.shooters[i].email == email;
            (t, LinkEventView::ShooterFound(t.shooters[i].id))
        } else {
            (t, LinkEventView::ShooterMissing)
        },
        LinkActionView::CreateShooter { name, real_name, email, status } => (
            LinkTables {
                shooters: t.shooters.push(ShooterRowView { id: new_id, name, email }),
                ..t
            },
            LinkEventView::ShooterCreated(new_id),
        ),
        LinkActionView::CreateLink { vendor, user, shooter_id } => (
            LinkTables { oauth: t.oauth.push(LinkRow { vendor, user, shooter_id }), ..t },
            LinkEventView::LinkCreated,
        ),
        _ => (t, LinkEventView::Begin),
    }
}

/// The linking run against the tables `tables`, from `state` on `event`, for
/// at most `fuel` steps: the state, the session and the tables at the end,
/// and the verdict, if it gave one.
pub open spec fn link_against_tables(
    state: LinkState,
    session: SessionView,
    tables: LinkTables,
    event: LinkEventView,
    new_id: i32,
    vendor: Vendor,
    token: Seq<char>,
    name: Seq<char>,
    email: Seq<char>,
    fuel: nat,
) -> (LinkState, SessionView, LinkTables, Option<bool>)
    decreases fuel,
{
    if fuel == 0 {
        (state, session, tables, None)
    } else {
        let (next, after, action) = spec_link_step(state, event, session, vendor, token, name, email);
        match action {
            LinkActionView::Finish(b) => (next, after, tables, Some(b)),
            LinkActionView::Ignored => (next, after, tables, None),
            _ => {
                let (answered, reply) = tables_answer(tables, action, new_id);
                link_against_tables(
                    next,
                    after,
                    answered,
                    reply,
                    new_id,
                    vendor,
                    token,
                    name,
                    email,
                    (fuel - 1) as nat,
                )
            },
        }
    }
}

proof fn pushed_link_keeps_links_unique(rows: Seq<LinkRow>, row: LinkRow)
    requires
        links_unique(rows),
        !has_link(rows, row.vendor, row.user),
    ensures
        links_unique(rows.push(row)),
        has_link(rows.push(row), row.vendor, row.user),
{
    let pushed = rows.push(row);
    assert(pushed[rows.len() as int].vendor == row.vendor);
    assert forall|i: int, j: int| 0 <= i < j < pushed.len() implies !(#[trigger] pushed[i].vendor
        == #[trigger] pushed[j].vendor && pushed[i].user == pushed[j].user) by {
        if j == rows.len() {
            assert(pushed[i] == rows[i]);
        } else {
            assert(pushed[i] == rows[i] && pushed[j] == rows[j]);
        }
    }
}

/// A sign-in run against tables that hold at most one link per vendor and
/// identity ends with a verdict, and leaves exactly one link for the provider
/// and the identity it vouched for: the one stored before, or one it added.
/// Every stored row is kept as it was, and at most one row is added to each
/// table.
pub proof fn sign_in_leaves_one_link(
    session: SessionView,
    tables: LinkTables,
    new_id: i32,
    vendor: Vendor,
    token: Seq<char>,
    name: Seq<char>,
    email: Seq<char>,
)
    requires
        links_unique(tables.oauth),
    ensures
        ({
            let (state, after, t, verdict) = link_against_tables(
                LinkState::Start,
                session,
                tables,
                LinkEventView::Begin,
                new_id,
                vendor,
                token,
                name,
                email,
                6,
            );
            &&& verdict is Some
            &&& state == LinkState::Done
            &&& has_link(t.oauth, spec_vendor_name(vendor), token)
            &&& links_unique(t.oauth)
            &&& tables.oauth.len() <= t.oauth.len() <= tables.oauth.len() + 1
            &&& t.oauth.subrange(0, tables.oauth.len() as int) == tables.oauth
            &&& tables.shooters.len() <= t.shooters.len() <= tables.shooters.len() + 1
            &&& t.shooters.subrange(0, tables.shooters.len() as int) == tables.shooters
        }),
{
    reveal_with_fuel(link_against_tables, 7);
    let v = spec_vendor_name(vendor);
    let row = LinkRow { vendor: v, user: token, shooter_id: 0 };
    assert(tables.oauth.push(row).subrange(0, tables.oauth.len() as int) =~= tables.oauth);
    assert(tables.shooters.subrange(0, tables.shooters.len() as int) =~= tables.shooters);
    assert(tables.oauth.subrange(0, tables.oauth.len() as int) =~= tables.oauth);
    if !has_link(tables.oauth, v, token) {
        match session.shooter_id {
            Some(id) => {
                let r = LinkRow { vendor: v, user: token, shooter_id: id };
                pushed_link_keeps_links_unique(tables.oauth, r);
                assert(tables.oauth.push(r).subrange(0, tables.oauth.len() as int) =~= tables.oauth);
            },
            None => {
                if exists|i: int| 0 <= i < tables.shooters.len() && #[trigger] tables.shooters[i].email == email {
                    let k = choose|i: int|
                        0 <= i < tables.shooters.len() && #[trigger] tables.shooters[i].email == email;
                    let r = LinkRow { vendor: v, user: token, shooter_id: tables.shooters[k].id };
                    pushed_link_keeps_links_unique(tables.oauth, r);
                    assert(tables.oauth.push(r).subrange(0, tables.oauth.len() as int) =~= tables.oauth);
                } else {
                    let r = LinkRow { vendor: v, user: token, shooter_id: new_id };
                    pushed_link_keeps_links_unique(tables.oauth, r);
                    assert(tables.oauth.push(r).subrange(0, tables.oauth.len() as int) =~= tables.oauth);
                    let sh = ShooterRowView { id: new_id, name, email };
                    assert(tables.shooters.push(sh).subrange(0, tables.shooters.len() as int)
                        =~= tables.shooters);
                }
            },
        }
    }
}


/// How the linking treats an identity that no stored link names, for every
/// provider: a visitor with a shooter has the identity linked to that shooter;
/// a visitor without one is looked up by email address, the session unchanged.
pub proof fn unlinked_identity_is_linked(
    session: SessionView,
    vendor: Vendor,
    token: Seq<char>,
    name: Seq<char>,
    email: Seq<char>,
)
    ensures
        spec_link_step(
            LinkState::AwaitOauth,
            LinkEventView::OauthMissing,
            session,
            vendor,
            token,
            name,
            email,
        ) == match session.shooter_id {
            Some(id) => (
                LinkState::AwaitLinkCreated,
                session,
                LinkActionView::CreateLink {
                    vendor: spec_vendor_name(vendor),
                    user: token,
                    shooter_id: id,
                },
            ),
            None => (LinkState::AwaitShooter, session, LinkActionView::FindShooter { email }),
        },
{
}

/// A visitor found by email address has the identity linked to that shooter;
/// one not found gets a new shooter with the visitor's name as name and real
/// name, the visitor's email address and the status `"active"`. Neither step
/// changes the session.
pub proof fn visitor_without_shooter_gets_one(
    session: SessionView,
    found: i32,
    vendor: Vendor,
    token: Seq<char>,
    name: Seq<char>,
    email: Seq<char>,
)
    ensures
        spec_link_step(
            LinkState::AwaitShooter,
            LinkEventView::ShooterFound(found),
            session,
            vendor,
            token,
            name,
            email,
        ) == (
            LinkState::AwaitLinkCreated,
            session,
            LinkActionView::CreateLink {
                vendor: spec_vendor_name(vendor),
                user: token,
                shooter_id: found,
            },
        ),
        spec_link_step(
            LinkState::AwaitShooter,
            LinkEventView::ShooterMissing,
            session,
            vendor,
            token,
            name,
            email,
        ) == (
            LinkState::AwaitShooterCreated,
            session,
            LinkActionView::CreateShooter {
                name,
                real_name: name,
                email,
                status: seq!['a', 'c', 't', 'i', 'v', 'e'],
            },
        ),
{
}

/// Whatever the provider, a visitor for whom a shooter was just created is
/// logged in as that shooter, with nothing else of the session changed, and
/// the provider's identity is linked to it; once the link is stored, the
/// sign-in is accepted.
pub proof fn new_shooter_becomes_session_shooter(
    session: SessionView,
    created: i32,
    vendor: Vendor,
    token: Seq<char>,
    name: Seq<char>,
    email: Seq<char>,
)
    ensures
        ({
            let (next, after, action) = spec_link_step(
                LinkState::AwaitShooterCreated,
                LinkEventView::ShooterCreated(created),
                session,
                vendor,
                token,
                name,
                email,
            );
            &&& next == LinkState::AwaitLinkCreated
            &&& after.shooter_id == Some(created)
            &&& after.sessid == session.sessid
            &&& after.user_agent == session.user_agent
            &&& after.shooter_name == session.shooter_name
            &&& after.email_address == session.email_address
            &&& after.last_access == session.last_access
            &&& after.google_oauth == session.google_oauth
            &&& after.facebook_oauth == session.facebook_oauth
            &&& action == LinkActionView::CreateLink {
                vendor: spec_vendor_name(vendor),
                user: token,
                shooter_id: created,
            }
        }),
        spec_link_step(
            LinkState::AwaitLinkCreated,
            LinkEventView::LinkCreated,
            session,
            vendor,
            token,
            name,
            email,
        ) == (LinkState::Done, session, LinkActionView::Finish(true)),
{
}

/// A stored link of the session's own shooter is accepted, leaving the session
/// as it was; the linking starts by looking for the stored link of the
/// provider's name and the identity.
pub proof fn linked_identity_of_own_shooter_is_accepted(
    session: SessionView,
    owner: i32,
    vendor: Vendor,
    token: Seq<char>,
    name: Seq<char>,
    email: Seq<char>,
)
    ensures
        session.shooter_id == Some(owner) ==> spec_link_step(
            LinkState::AwaitOauth,
            LinkEventView::OauthFound(owner),
            session,
            vendor,
            token,
            name,
            email,
        ) == (LinkState::Done, session, LinkActionView::Finish(true)),
        spec_link_step(LinkState::Start, LinkEventView::Begin, session, vendor, token, name, email)
            == (
            LinkState::AwaitOauth,
            session,
            LinkActionView::FindOauth { vendor: spec_vendor_name(vendor), user: token },
        ),
{
}

} // verus!
