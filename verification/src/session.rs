//! The session store: the login sessions kept between runs, one per account.

use uuid::Uuid;
use vstd::prelude::*;
use vstd::string::*;

use crate::text::same_text;

verus! {

/// The credentials of one logged-in account.
#[derive(Debug, PartialEq, Eq)]
pub struct Session {
    pub user_id: String,
    pub device_id: String,
    pub access_token: String,
    pub refresh_token: Option<String>,
}

/// The mathematical value of a [`Session`].
pub struct SessionView {
    pub user_id: Seq<char>,
    pub device_id: Seq<char>,
    pub access_token: Seq<char>,
    pub refresh_token: Option<Seq<char>>,
}

impl View for Session {
    type V = SessionView;

    open spec fn view(&self) -> SessionView {
        SessionView {
            user_id: self.user_id@,
            device_id: self.device_id@,
            access_token: self.access_token@,
            refresh_token: match self.refresh_token {
                Some(token) => Some(token@),
                None => None,
            },
        }
    }
}

impl Clone for Session {
    fn clone(&self) -> (r: Self)
        ensures
            r == *self,
    {
        Session {
            user_id: self.user_id.clone(),
            device_id: self.device_id.clone(),
            access_token: self.access_token.clone(),
            refresh_token: match &self.refresh_token {
                Some(token) => Some(token.clone()),
                None => None,
            },
        }
    }
}

/// The sessions of all logged-in accounts, in the order in which they are
/// stored.
#[derive(Debug, PartialEq, Eq)]
pub struct SessionsFile {
    pub sessions: Vec<Session>,
}

/// Whether `i` is the first position in `sessions` that belongs to `user_id`.
pub open spec fn is_first_session_of(sessions: Seq<Session>, user_id: Seq<char>, i: int) -> bool {
    &&& 0 <= i < sessions.len()
    &&& sessions[i].user_id@ == user_id
    &&& forall|j: int| 0 <= j < i ==> sessions[j].user_id@ != user_id
}

/// Whether some session in `sessions` belongs to `user_id`.
pub open spec fn has_session_of(sessions: Seq<Session>, user_id: Seq<char>) -> bool {
    exists|i: int| 0 <= i < sessions.len() && sessions[i].user_id@ == user_id
}

/// Whether no two sessions in `sessions` belong to the same account.
pub open spec fn one_session_per_user(sessions: Seq<Session>) -> bool {
    forall|i: int, j: int|
        0 <= i < j < sessions.len() ==> sessions[i].user_id@ != sessions[j].user_id@
}

/// What is reported when no session of `user_id` is stored.
pub open spec fn missing_session_message(user_id: Seq<char>) -> Seq<char> {
    "Couldn't find currently-existing login session for user_id "@ + user_id + "."@
}

/// What is reported when a session of `user_id` is stored already.
pub open spec fn duplicate_session_message(user_id: Seq<char>) -> Seq<char> {
    "Tried to create new session with user_id "@ + user_id
        + ", but you already have a logged-in session with that user ID."@
}

/// What `user_id` is once the leading `@` that users may leave out is put in
/// front.
pub open spec fn with_leading_at(user_id: Seq<char>) -> Seq<char> {
    if user_id.len() > 0 && user_id[0] == '@' {
        user_id
    } else {
        "@"@ + user_id
    }
}

/// Puts the leading `@` in front of an account identifier that lacks it.
pub fn add_at_to_user_id_if_applicable(user_id: &str) -> (r: String)
    ensures
        r@ == with_leading_at(user_id@),
{
    if !user_id.is_empty() && user_id.get_char(0) == '@' {
        user_id.to_owned()
    } else {
        let mut normalized = "@".to_owned();
        normalized.append(user_id);
        normalized
    }
}

fn missing_session(user_id: &str) -> (r: String)
    ensures
        r@ == missing_session_message(user_id@),
{
    let mut message = "Couldn't find currently-existing login session for user_id ".to_owned();
    message.append(user_id);
    message.append(".");
    message
}

fn duplicate_session(user_id: &str) -> (r: String)
    ensures
        r@ == duplicate_session_message(user_id@),
{
    let mut message = "Tried to create new session with user_id ".to_owned();
    message.append(user_id);
    message.append(", but you already have a logged-in session with that user ID.");
    message
}

impl SessionsFile {
    /// The position of the first session of `user_id`, if one is stored.
    fn position(&self, user_id: &str) -> (r: Option<usize>)
        ensures
            match r {
                Some(i) => is_first_session_of(self.sessions@, user_id@, i as int),
                None => !has_session_of(self.sessions@, user_id@),
            },
    {
        let mut i: usize = 0;
        while i < self.sessions.len()
            invariant
                i <= self.sessions.len(),
                forall|j: int| 0 <= j < i ==> self.sessions@[j].user_id@ != user_id@,
            decreases self.sessions.len() - i,
        {
            if same_text(self.sessions[i].user_id.as_str(), user_id) {
                return Some(i);
            }
            i += 1;
        }
        None
    }

    /// The stored session of `user_id`: the first one, should the store hold
    /// several. Without one the error says which account was asked for.
    pub fn get(&self, user_id: &str) -> (r: Result<Session, String>)
        ensures
            r is Ok <==> has_session_of(self.sessions@, user_id@),
            match r {
                Ok(session) => exists|i: int|
                    #[trigger] is_first_session_of(self.sessions@, user_id@, i)
                        && session == self.sessions@[i],
                Err(message) => message@ == missing_session_message(user_id@),
            },
    {
        match self.position(user_id) {
            Some(i) => Ok(self.sessions[i].clone()),
            None => Err(missing_session(user_id)),
        }
    }

    /// Removes the stored session of `user_id`: the first one, should the
    /// store hold several. Without one the store is left as it is.
    pub fn delete_session(&mut self, user_id: &str) -> (r: Result<(), String>)
        ensures
            r is Ok <==> has_session_of(old(self).sessions@, user_id@),
            match r {
                Ok(_) => exists|i: int|
                    #[trigger] is_first_session_of(old(self).sessions@, user_id@, i)
                        && final(self).sessions@ == old(self).sessions@.remove(i),
                Err(message) => *final(self) == *old(self)
                    && message@ == missing_session_message(user_id@),
            },
    {
        match self.position(user_id) {
            Some(i) => {
                self.sessions.remove(i);
                Ok(())
            },
            None => Err(missing_session(user_id)),
        }
    }

    /// Stores `session` behind the sessions already held, unless its account
    /// has a session already: then the store is left as it is.
    pub fn new_session(&mut self, session: Session) -> (r: Result<(), String>)
        ensures
            r is Ok <==> !has_session_of(old(self).sessions@, session.user_id@),
            match r {
                Ok(_) => final(self).sessions@ == old(self).sessions@.push(session),
                Err(message) => *final(self) == *old(self)
                    && message@ == duplicate_session_message(session.user_id@),
            },
    {
        match self.position(session.user_id.as_str()) {
            None => {
                self.sessions.push(session);
                Ok(())
            },
            Some(_) => Err(duplicate_session(session.user_id.as_str())),
        }
    }
}

/// What is reported when a login is asked for an account that has a
/// session already.
pub open spec fn already_logged_in_message(user_id: Seq<char>) -> Seq<char> {
    "Tried to log into account "@ + user_id
        + ", but you already have a session logged into this account."@
}

impl SessionsFile {
    /// Admits a login: the account as a user typed it is put in its full
    /// form, and refused where the store holds a session of it already.
    pub fn check_new_login(&self, user_id: &str) -> (r: Result<String, String>)
        ensures
            match r {
                Ok(normalized) => {
                    &&& normalized@ == with_leading_at(user_id@)
                    &&& !has_session_of(self.sessions@, normalized@)
                },
                Err(message) => {
                    &&& has_session_of(self.sessions@, with_leading_at(user_id@))
                    &&& message@ == already_logged_in_message(with_leading_at(user_id@))
                },
            },
    {
        let normalized = add_at_to_user_id_if_applicable(user_id);
        match self.position(normalized.as_str()) {
            Some(_) => {
                let mut message = "Tried to log into account ".to_owned();
                message.append(normalized.as_str());
                message.append(", but you already have a session logged into this account.");
                Err(message)
            },
            None => Ok(normalized),
        }
    }
}

/// The name that a session gets where the user gave none, from a freshly
/// drawn identifier.
pub open spec fn default_session_name_text(uuid: Seq<char>) -> Seq<char> {
    "Trace (Session UUID: "@ + uuid + ")"@
}

/// Writes the name that a session gets where the user gave none.
pub fn default_session_name(uuid: &str) -> (r: String)
    ensures
        r@ == default_session_name_text(uuid@),
{
    let mut name = "Trace (Session UUID: ".to_owned();
    name.append(uuid);
    name.append(")");
    name
}

/// `Uuid::new_v4`, written out with the identifier's `Display`. The
/// identifier is drawn at random, so nothing is claimed of the text.
#[verifier::external_body]
fn fresh_uuid() -> (r: String) {
    Uuid::new_v4().to_string()
}

/// The name of a new session: the one that the user gave, or else the
/// default name around a freshly drawn identifier.
pub fn session_name_or_default(session_name: Option<String>) -> (r: String)
    ensures
        match session_name {
            Some(name) => r == name,
            None => exists|uuid: Seq<char>| r@ == default_session_name_text(uuid),
        },
{
    match session_name {
        Some(name) => name,
        None => {
            let uuid = fresh_uuid();
            default_session_name(uuid.as_str())
        },
    }
}

/// A store with one session for each account still has one for each once a
/// session of a new account is put behind the others.
pub proof fn lemma_new_session_keeps_one_per_user(sessions: Seq<Session>, session: Session)
    requires
        one_session_per_user(sessions),
        !has_session_of(sessions, session.user_id@),
    ensures
        one_session_per_user(sessions.push(session)),
        is_first_session_of(sessions.push(session), session.user_id@, sessions.len() as int),
{
    let after = sessions.push(session);
    assert forall|i: int, j: int| 0 <= i < j < after.len() implies after[i].user_id@
        != after[j].user_id@ by {
        if j == sessions.len() {
            assert(0 <= i < sessions.len() && sessions[i].user_id@ != session.user_id@);
        }
    }
    assert forall|j: int| 0 <= j < sessions.len() implies after[j].user_id@ != session.user_id@ by {
        assert(0 <= j < sessions.len() && sessions[j].user_id@ != session.user_id@);
    }
}

/// A store with one session for each account holds none of an account once
/// its session is taken out, and still one for each other account.
pub proof fn lemma_deleted_session_is_gone(sessions: Seq<Session>, user_id: Seq<char>, i: int)
    requires
        one_session_per_user(sessions),
        is_first_session_of(sessions, user_id, i),
    ensures
        one_session_per_user(sessions.remove(i)),
        !has_session_of(sessions.remove(i), user_id),
{
    let after = sessions.remove(i);
    assert forall|k: int| 0 <= k < after.len() implies after[k].user_id@ != user_id by {
        let origin = if k < i { k } else { k + 1 };
        assert(after[k] == sessions[origin]);
    }
    assert forall|k: int, l: int| 0 <= k < l < after.len() implies after[k].user_id@
        != after[l].user_id@ by {
        let ko = if k < i { k } else { k + 1 };
        let lo = if l < i { l } else { l + 1 };
        assert(after[k] == sessions[ko] && after[l] == sessions[lo]);
    }
}

} // verus!
