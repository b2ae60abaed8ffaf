pub mod stores;

use crate::api::middlewares::sessions::stores::{text_of, SessionStore};
use crate::api::transport::{RequestError, RequestErrorKind, RequestInternalErrorKind};
use vstd::prelude::*;

verus! {

/// A value that can be kept in a session, under a key of its own type.
///
/// An implementation that does not give the model (the three predicates)
/// says nothing of itself: they then hold of everything.
pub trait SessionValue: Sized {
    /// `key` is the key under which values of this type are kept.
    open spec fn is_key(key: Seq<char>) -> bool {
        true
    }

    /// `raw` is the stored form of `self`.
    open spec fn encodes(self, raw: Seq<char>) -> bool {
        true
    }

    /// `found` is what the stored form `raw` stands for (`None`: no value).
    open spec fn decodes(raw: Seq<char>, found: Option<Self>) -> bool {
        true
    }

    /// The key under which values of this type are kept.
    fn get_key() -> (key: &'static str)
        ensures
            Self::is_key(key@),
    ;

    /// The stored form of the value.
    fn into_raw(self) -> (raw: String)
        ensures
            self.encodes(raw@),
    ;

    /// The value a stored form stands for, if any.
    fn from_raw(value: String) -> (found: Option<Self>)
        ensures
            Self::decodes(value@, found),
    ;
}

/// The error of a session that cannot give a value.
pub open spec fn sessions_store_error() -> RequestError {
    RequestError { kind: RequestErrorKind::InternalError(RequestInternalErrorKind::SessionsStore) }
}

/// The answer to a session read that found `found`.
pub open spec fn lookup_outcome<T>(found: Option<T>) -> Result<T, RequestError> {
    match found {
        Some(value) => Ok(value),
        None => Err(sessions_store_error()),
    }
}

/// `found` is what a read of a `T` that got `raw` from the store finds: what
/// the stored form stands for, or nothing when nothing was stored.
pub open spec fn read_finds<T: SessionValue>(raw: Option<Seq<char>>, found: Option<T>) -> bool {
    match raw {
        Some(text) => T::decodes(text, found),
        None => found is None,
    }
}

/// `err` is the error of a session that cannot give a value.
pub open spec fn is_sessions_store_error(err: RequestError) -> bool {
    err.kind == RequestErrorKind::InternalError(RequestInternalErrorKind::SessionsStore)
}

/// The values of the current request's session.
pub struct Session<S> {
    inner: S,
}

/// The answer to a session read: the value when the store had one of the
/// requested type, otherwise the internal error of the session store.
pub fn session_value<T>(found: Option<T>) -> (res: Result<T, RequestError>)
    ensures
        match found {
            Some(value) => res == Ok::<T, RequestError>(value),
            None => res matches Err(err) && is_sessions_store_error(err),
        },
{
    match found {
        Some(v) => Ok(v),
        None => Err(
            RequestError::new(RequestErrorKind::InternalError(RequestInternalErrorKind::SessionsStore)),
        ),
    }
}

/// The id of the session a request names by its bearer token; a request
/// without a token comes from a caller who is not authenticated.
pub fn session_id_from_bearer(token: Option<String>) -> (res: Result<String, RequestError>)
    ensures
        match token {
            Some(t) => res == Ok::<String, RequestError>(t),
            None => res matches Err(err) && err.kind is Unauthorized,
        },
{
    match token {
        Some(t) => Ok(t),
        None => Err(RequestError::new(RequestErrorKind::Unauthorized)),
    }
}

/// What a request carries once its session is set up: a session on the store
/// the backend gave, or the error the backend reported.
pub fn attach_session<S: SessionStore>(store: Result<S, RequestError>) -> (res: Result<
    Session<S>,
    RequestError,
>)
    ensures
        match store {
            Ok(s) => res matches Ok(session) && session.store() == s,
            Err(err) => res == Err::<Session<S>, RequestError>(err),
        },
{
    match store {
        Ok(s) => Ok(Session::new(s)),
        Err(e) => Err(e),
    }
}

impl<S: SessionStore> Session<S> {
    /// The store behind the session.
    pub closed spec fn store(&self) -> S {
        self.inner
    }

    /// A session kept in `s`.
    pub fn new(s: S) -> (session: Self)
        ensures
            session.store() == s,
    {
        Session { inner: s }
    }

    /// Hands the stored form of `value` to the store, under the key of its
    /// type.
    pub fn set<T: SessionValue>(&mut self, value: T)
        ensures
            final(self).store() == old(self).store(),
            exists|key: Seq<char>, raw: Seq<char>|
                #![trigger T::is_key(key), value.encodes(raw)]
                T::is_key(key) && value.encodes(raw) && old(self).store().receives(key, raw),
    {
        let key = T::get_key();
        let raw = value.into_raw();
        self.inner.set_raw(key, raw)
    }

    /// The value of type `T` in the session: the value when the store has a
    /// stored form under the key of `T` that stands for one, otherwise the
    /// internal error of the session store.
    pub fn get<T: SessionValue>(&self) -> (res: Result<T, RequestError>)
        ensures
            exists|key: Seq<char>, raw: Option<Seq<char>>, found: Option<T>|
                #![trigger T::is_key(key), self.store().read_gives(key, raw), read_finds::<T>(raw, found)]
                {
                    &&& T::is_key(key)
                    &&& self.store().read_gives(key, raw)
                    &&& read_finds::<T>(raw, found)
                    &&& res == lookup_outcome(found)
                },
            res matches Err(err) ==> is_sessions_store_error(err),
    {
        let key = T::get_key();
        let raw = self.inner.get_raw(key);
        let ghost raw_text = text_of(raw);
        let found = match raw {
            Some(raw_value) => T::from_raw(raw_value),
            None => None,
        };
        let res = session_value(found);
        assert(T::is_key(key@) && self.store().read_gives(key@, raw_text) && read_finds::<T>(raw_text, found));
        assert(res == lookup_outcome(found));
        res
    }
}

} // verus!
