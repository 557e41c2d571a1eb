//! Login sessions: which user a session id stands for.

use crate::auth::UserData;
use crate::ids::random_uuid;
use crate::table::{Keyed, KeyedTable};
use crate::utility::acquire_lock;
use std::ops::{Deref, DerefMut};
use std::sync::{Arc, Mutex};
use vstd::prelude::*;

verus! {

/// What a session knows of its user.
#[derive(Debug, Clone)]
pub struct SessionUserInfo {
    user_id: String,
}

impl SessionUserInfo {
    pub closed spec fn id(&self) -> Seq<char> {
        self.user_id@
    }

    pub fn new(user_id: &str) -> (s: SessionUserInfo)
        ensures
            s.id() == user_id@,
    {
        SessionUserInfo { user_id: user_id.to_owned() }
    }

    pub fn get_id(&self) -> (r: &str)
        ensures
            r@ == self.id(),
    {
        self.user_id.as_str()
    }
}

/// A session id with the user it stands for.
pub struct Session {
    session_id: String,
    info: SessionUserInfo,
}

impl Session {
    pub closed spec fn info(&self) -> SessionUserInfo {
        self.info
    }
}

impl Keyed for Session {
    closed spec fn key_of(&self) -> Seq<char> {
        self.session_id@
    }

    fn key(&self) -> (k: &str) {
        self.session_id.as_str()
    }

    fn duplicate(&self) -> (r: Session) {
        Session {
            session_id: self.session_id.clone(),
            info: SessionUserInfo { user_id: self.info.user_id.clone() },
        }
    }
}

/// Why a session operation failed.
#[derive(Debug, Clone, Copy, PartialEq, Eq, Structural)]
pub enum SessionError {
    ParseError,
    /// The session id is unknown to the pool.
    DbError,
    /// No session to delete under that id.
    NotFound,
    /// The pool's lock was poisoned, or a fresh session id was already taken.
    UnexpectedError,
}

/// The sessions: each session id under the user id it stands for.
pub struct SessionTable {
    sessions: KeyedTable<Session>,
}

impl View for SessionTable {
    type V = Map<Seq<char>, Seq<char>>;

    closed spec fn view(&self) -> Map<Seq<char>, Seq<char>> {
        self.sessions@.map_values(|s: Session| s.info().id())
    }
}

impl SessionTable {
    pub fn new() -> (t: SessionTable)
        ensures
            t@ == Map::<Seq<char>, Seq<char>>::empty(),
    {
        let t = SessionTable { sessions: KeyedTable::new() };
        assert(t@ =~= Map::<Seq<char>, Seq<char>>::empty());
        t
    }

    /// Opens the session `session_id` for the user `user_id`. A session id
    /// that is already open is refused and the table stays as it was.
    pub fn add(&mut self, session_id: String, user_id: &str) -> (r: Result<(), SessionError>)
        ensures
            old(self)@.contains_key(session_id@) ==> r == Err::<(), SessionError>(
                SessionError::UnexpectedError,
            ) && final(self)@ == old(self)@,
            !old(self)@.contains_key(session_id@) ==> r == Ok::<(), SessionError>(())
                && final(self)@ == old(self)@.insert(session_id@, user_id@),
    {
        let entry = Session { session_id, info: SessionUserInfo::new(user_id) };
        match self.sessions.insert_new(entry) {
            Ok(()) => {
                assert(self@ =~= old(self)@.insert(session_id@, user_id@));
                Ok(())
            },
            Err(_entry) => Err(SessionError::UnexpectedError),
        }
    }

    /// The user of session `session_id`; an unknown id is a `DbError`.
    pub fn verify(&self, session_id: &str) -> (r: Result<Option<SessionUserInfo>, SessionError>)
        ensures
            self@.contains_key(session_id@) ==> (r matches Ok(Some(info)) && info.id()
                == self@[session_id@]),
            !self@.contains_key(session_id@) ==> r == Err::<Option<SessionUserInfo>, SessionError>(
                SessionError::DbError,
            ),
    {
        match self.sessions.get(session_id) {
            Some(entry) => Ok(Some(entry.info)),
            None => Err(SessionError::DbError),
        }
    }

    /// Closes session `session_id`, or `NotFound` when it is not open.
    pub fn delete(&mut self, session_id: &str) -> (r: Result<(), SessionError>)
        ensures
            old(self)@.contains_key(session_id@) ==> r == Ok::<(), SessionError>(())
                && final(self)@ == old(self)@.remove(session_id@),
            !old(self)@.contains_key(session_id@) ==> r == Err::<(), SessionError>(
                SessionError::NotFound,
            ) && final(self)@ == old(self)@,
    {
        match self.sessions.remove(session_id) {
            Some(_entry) => {
                assert(self@ =~= old(self)@.remove(session_id@));
                Ok(())
            },
            None => Err(SessionError::NotFound),
        }
    }
}

/// The shared session pool: one [`SessionTable`] behind one lock. Clones
/// share the table.
#[derive(Clone)]
pub struct SessionPool {
    pool: Arc<Mutex<SessionTable>>,
}

impl SessionPool {
    pub fn new() -> SessionPool {
        SessionPool { pool: Arc::new(Mutex::new(SessionTable::new())) }
    }

    /// Opens a session for `session_data`'s user under a fresh random id and
    /// returns that id.
    pub fn add_session(&self, session_data: UserData) -> (r: Result<String, SessionError>)
        ensures
            match r {
                Ok(id) => id@.len() == 36,
                Err(e) => e == SessionError::UnexpectedError,
            },
    {
        let session_id = random_uuid();
        let mut guard = match acquire_lock(&*self.pool) {
            Some(g) => g,
            None => return Err(SessionError::UnexpectedError),
        };
        let table: &mut SessionTable = guard.deref_mut();
        match table.add(session_id.clone(), session_data.get_user_id().get_id_txt()) {
            Ok(()) => Ok(session_id),
            Err(e) => Err(e),
        }
    }

    /// The user of session `session_id`.
    pub fn verify_session(&self, session_id: &str) -> (r: Result<
        Option<SessionUserInfo>,
        SessionError,
    >)
        ensures
            match r {
                Ok(found) => found is Some,
                Err(e) => e == SessionError::DbError || e == SessionError::UnexpectedError,
            },
    {
        let guard = match acquire_lock(&*self.pool) {
            Some(g) => g,
            None => return Err(SessionError::UnexpectedError),
        };
        let table: &SessionTable = guard.deref();
        table.verify(session_id)
    }

    /// Closes session `session_id`.
    pub fn delete_session(&self, session_id: &str) -> (r: Result<(), SessionError>)
        ensures
            r matches Err(e) ==> e == SessionError::NotFound || e == SessionError::UnexpectedError,
    {
        let mut guard = match acquire_lock(&*self.pool) {
            Some(g) => g,
            None => return Err(SessionError::UnexpectedError),
        };
        let table: &mut SessionTable = guard.deref_mut();
        table.delete(session_id)
    }
}

} // verus!
