//! The session of a request and the identity resolved from it.

use crate::error::{AuthError, AuthErrorView};
use crate::models::{clone_optional, SessionUser, SessionUserView};
use vstd::prelude::*;

verus! {

impl SessionUser {
    /// A copy of the identity.
    pub fn duplicate(&self) -> (copy: SessionUser)
        ensures
            copy@ == self@,
    {
        SessionUser {
            id: self.id.clone(),
            email: self.email.clone(),
            username: self.username.clone(),
            full_name: self.full_name.clone(),
            avatar_url: clone_optional(&self.avatar_url),
        }
    }
}

/// What the session of a request carries once its token is decoded: the
/// identity of the logged-in visitor, or nothing for an anonymous visitor
/// and for a token that is missing or does not decode.
#[derive(Debug, Clone, PartialEq, Eq)]
pub struct Session {
    pub user: Option<SessionUser>,
}

impl View for Session {
    type V = Option<SessionUserView>;

    open spec fn view(&self) -> Option<SessionUserView> {
        self.user.deep_view()
    }
}

/// The identity of a request that must be authenticated.
#[derive(Debug, Clone, PartialEq, Eq)]
pub struct AuthUser(pub SessionUser);

/// The identity of a request that may be anonymous.
#[derive(Debug, Clone, PartialEq, Eq)]
pub struct OptionalAuthUser(pub Option<SessionUser>);

impl View for AuthUser {
    type V = SessionUserView;

    open spec fn view(&self) -> SessionUserView {
        self.0@
    }
}

impl View for OptionalAuthUser {
    type V = Option<SessionUserView>;

    open spec fn view(&self) -> Option<SessionUserView> {
        self.0.deep_view()
    }
}

impl Session {
    /// The session of an anonymous visitor.
    pub fn anonymous() -> (session: Session)
        ensures
            session@ is None,
    {
        Session { user: None }
    }
}

/// The identity of a request that must be authenticated: the one that the
/// session carries, and `Unauthorized` where it carries none.
pub open spec fn resolve_required(session: Option<SessionUserView>) -> Result<
    SessionUserView,
    AuthErrorView,
> {
    match session {
        Some(identity) => Ok(identity),
        None => Err(AuthErrorView::Unauthorized),
    }
}

/// The identity of a request that may be anonymous: the one that the
/// session carries, if any.
pub open spec fn resolve_optional(session: Option<SessionUserView>) -> Option<SessionUserView> {
    session
}

/// The session once `identity` has logged in, whatever it carried before.
pub open spec fn logged_in(
    session: Option<SessionUserView>,
    identity: SessionUserView,
) -> Option<SessionUserView> {
    Some(identity)
}

/// The session once the visitor has logged out, whatever it carried before.
pub open spec fn logged_out(session: Option<SessionUserView>) -> Option<SessionUserView> {
    None
}

impl AuthUser {
    /// The identity that the session carries; `Unauthorized` where it
    /// carries none.
    pub fn from_session(session: &Session) -> (resolved: Result<AuthUser, AuthError>)
        ensures
            match resolve_required(session@) {
                Ok(identity) => resolved matches Ok(user) && user@ == identity,
                Err(refusal) => resolved matches Err(error) && error@ == refusal,
            },
    {
        match &session.user {
            Some(identity) => Ok(AuthUser(identity.duplicate())),
            None => Err(AuthError::Unauthorized),
        }
    }
}

impl OptionalAuthUser {
    /// The identity that the session carries, if any. Never fails.
    pub fn from_session(session: &Session) -> (resolved: OptionalAuthUser)
        ensures
            resolved@ == resolve_optional(session@),
    {
        match &session.user {
            Some(identity) => OptionalAuthUser(Some(identity.duplicate())),
            None => OptionalAuthUser(None),
        }
    }
}

/// Where a visitor is sent after logging out.
pub open spec fn logged_out_location() -> Seq<char> {
    "/login?msg=logged_out"@
}

/// Puts the identity into the session, in place of whatever it carried.
pub fn login_user(session: &mut Session, user: SessionUser)
    ensures
        final(session).user == Some(user),
        final(session)@ == logged_in(old(session)@, user@),
{
    session.user = Some(user);
}

/// Clears the session and names the page to go to. A session that is
/// already anonymous stays so.
pub fn logout(session: &mut Session) -> (location: String)
    ensures
        final(session)@ == logged_out(old(session)@),
        location@ == logged_out_location(),
{
    session.user = None;
    "/login?msg=logged_out".to_string()
}

} // verus!
