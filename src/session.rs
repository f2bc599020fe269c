use vstd::prelude::*;

verus! {

/// A login session: its subject, the key thumbprint its tokens are bound to, and its times
/// (Unix seconds).
#[derive(Clone, Debug)]
pub struct Session {
    pub id: u128,
    pub subject: u128,
    pub bound_key_thumbprint: Option<String>,
    pub created_at: i64,
    pub last_used_at: Option<i64>,
    pub revoked_at: Option<i64>,
}

/// A change to a session.
#[derive(Clone, Debug)]
pub enum SessionOp {
    /// Record a use at the given time.
    Touch(i64),
    /// Bind the session's tokens to a key thumbprint.
    BindKey(String),
    /// Revoke the session at the given time.
    Revoke(i64),
}

/// Why a change to a session was refused.
#[derive(Clone, Copy, Debug, PartialEq, Eq)]
pub enum SessionError {
    Revoked,
    AlreadyBound,
}

pub struct SessionView {
    pub id: u128,
    pub subject: u128,
    pub bound: Option<Seq<char>>,
    pub created_at: i64,
    pub last_used_at: Option<i64>,
    pub revoked_at: Option<i64>,
}

pub enum SessionOpView {
    Touch(i64),
    BindKey(Seq<char>),
    Revoke(i64),
}

impl View for Session {
    type V = SessionView;

    open spec fn view(&self) -> SessionView {
        SessionView {
            id: self.id,
            subject: self.subject,
            bound: match self.bound_key_thumbprint {
                Some(t) => Some(t@),
                None => None,
            },
            created_at: self.created_at,
            last_used_at: self.last_used_at,
            revoked_at: self.revoked_at,
        }
    }
}

impl View for SessionOp {
    type V = SessionOpView;

    open spec fn view(&self) -> SessionOpView {
        match self {
            SessionOp::Touch(t) => SessionOpView::Touch(*t),
            SessionOp::BindKey(k) => SessionOpView::BindKey(k@),
            SessionOp::Revoke(t) => SessionOpView::Revoke(*t),
        }
    }
}

/// A session is active while it is not revoked.
pub open spec fn active(s: SessionView) -> bool {
    s.revoked_at is None
}

/// The session after one change: uses and bindings only on an active session, a binding only
/// where none is set, a revocation only once.
pub open spec fn apply_op(s: SessionView, op: SessionOpView) -> SessionView {
    match op {
        SessionOpView::Touch(t) => if active(s) {
            SessionView { last_used_at: Some(t), ..s }
        } else {
            s
        },
        SessionOpView::BindKey(k) => if active(s) && s.bound is None {
            SessionView { bound: Some(k), ..s }
        } else {
            s
        },
        SessionOpView::Revoke(t) => if active(s) {
            SessionView { revoked_at: Some(t), ..s }
        } else {
            s
        },
    }
}

/// The session after a sequence of changes, in order.
pub open spec fn apply_ops(s: SessionView, ops: Seq<SessionOpView>) -> SessionView
    decreases ops.len(),
{
    if ops.len() == 0 {
        s
    } else {
        apply_ops(apply_op(s, ops[0]), ops.drop_first())
    }
}

impl Session {
    /// A new active session, created at `now`.
    pub fn new(id: u128, subject: u128, bound_key_thumbprint: Option<String>, now: i64) -> (r:
        Session)
        ensures
            r.id == id,
            r.subject == subject,
            r.bound_key_thumbprint == bound_key_thumbprint,
            r.created_at == now,
            r.last_used_at is None,
            r.revoked_at is None,
    {
        Session { id, subject, bound_key_thumbprint, created_at: now, last_used_at: None, revoked_at: None }
    }

    pub fn is_active(&self) -> (r: bool)
        ensures
            r == active(self@),
    {
        self.revoked_at.is_none()
    }

    /// Records a use at `now`; refused on a revoked session.
    pub fn touch(&mut self, now: i64) -> (r: Result<(), SessionError>)
        ensures
            final(self)@ == apply_op(old(self)@, SessionOpView::Touch(now)),
            r is Ok <==> active(old(self)@),
            r is Err ==> r == Err::<(), SessionError>(SessionError::Revoked),
    {
        if self.revoked_at.is_some() {
            return Err(SessionError::Revoked);
        }
        self.last_used_at = Some(now);
        Ok(())
    }

    /// Binds the session to a key thumbprint, once: refused on a revoked session or where a
    /// thumbprint is already set.
    pub fn bind_key(&mut self, jkt: String) -> (r: Result<(), SessionError>)
        ensures
            final(self)@ == apply_op(old(self)@, SessionOpView::BindKey(jkt@)),
            r is Ok <==> active(old(self)@) && old(self)@.bound is None,
            !active(old(self)@) ==> r == Err::<(), SessionError>(SessionError::Revoked),
            active(old(self)@) && old(self)@.bound is Some ==> r == Err::<(), SessionError>(
                SessionError::AlreadyBound,
            ),
    {
        if self.revoked_at.is_some() {
            return Err(SessionError::Revoked);
        }
        if self.bound_key_thumbprint.is_some() {
            return Err(SessionError::AlreadyBound);
        }
        self.bound_key_thumbprint = Some(jkt);
        Ok(())
    }

    /// Revokes the session at `now`; a revoked session keeps its first revocation time.
    pub fn revoke(&mut self, now: i64) -> (r: bool)
        ensures
            final(self)@ == apply_op(old(self)@, SessionOpView::Revoke(now)),
            r == active(old(self)@),
    {
        if self.revoked_at.is_some() {
            return false;
        }
        self.revoked_at = Some(now);
        true
    }

    /// Applies one change; see `apply_op`.
    pub fn apply(&mut self, op: SessionOp) -> (r: bool)
        ensures
            final(self)@ == apply_op(old(self)@, op@),
            r == (final(self)@ != old(self)@ || (op@ is Touch && active(old(self)@))),
    {
        match op {
            SessionOp::Touch(t) => self.touch(t).is_ok(),
            SessionOp::BindKey(k) => self.bind_key(k).is_ok(),
            SessionOp::Revoke(t) => self.revoke(t),
        }
    }
}

/// Whatever changes a session goes through, a bound key thumbprint is never replaced or
/// cleared, a revocation is never undone, and its identity and subject never change.
pub proof fn lemma_session_write_once(s: SessionView, ops: Seq<SessionOpView>)
    ensures
        s.bound is Some ==> apply_ops(s, ops).bound == s.bound,
        s.revoked_at is Some ==> apply_ops(s, ops).revoked_at == s.revoked_at,
        apply_ops(s, ops).id == s.id,
        apply_ops(s, ops).subject == s.subject,
    decreases ops.len(),
{
    if ops.len() > 0 {
        lemma_session_write_once(apply_op(s, ops[0]), ops.drop_first());
    }
}

} // verus!
