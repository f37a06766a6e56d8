//! Sessions of authenticated users, found by their tokens.
use vstd::hash_map::StringHashMap;
use vstd::prelude::*;

verus! {

/// A new session token.
///
/// Calls `uuid::Uuid::new_v4` and writes the result with `to_string`: a
/// random version-4 UUID in its hyphenated form, which always has 36
/// characters. Which token comes out is a matter of chance, so nothing else
/// is claimed. `new_v4` panics when the operating system cannot provide
/// random bytes.
#[verifier::external_body]
fn fresh_token() -> (token: String)
    ensures
        token@.len() == 36,
{
    uuid::Uuid::new_v4().to_string()
}

/// Keeps, for every token handed out, the user it was handed to.
pub struct AuthenticationManager {
    user_sessions: StringHashMap<String>,
}

impl AuthenticationManager {
    /// The sessions: the user of each token.
    pub closed spec fn sessions(&self) -> Map<Seq<char>, String> {
        self.user_sessions@
    }

    /// A manager without sessions.
    pub fn new() -> (manager: Self)
        ensures
            manager.sessions() == Map::<Seq<char>, String>::empty(),
    {
        AuthenticationManager { user_sessions: StringHashMap::new() }
    }

    /// Records that `token` belongs to `user_id`. A token that was in use is
    /// handed over to `user_id`.
    pub fn open_session(&mut self, token: String, user_id: &str)
        ensures
            final(self).sessions().dom() == old(self).sessions().dom().insert(token@),
            final(self).sessions()[token@]@ == user_id@,
            forall|other: Seq<char>|
                other != token@ && old(self).sessions().contains_key(other) ==> final(self).sessions()[other]
                    == old(self).sessions()[other],
    {
        self.user_sessions.insert(token, user_id.to_string());
    }

    /// Opens a session for `user_id` under a new random token and returns
    /// the token.
    pub fn create_session(&mut self, user_id: &str) -> (token: String)
        ensures
            token@.len() == 36,
            final(self).sessions().dom() == old(self).sessions().dom().insert(token@),
            final(self).sessions()[token@]@ == user_id@,
            forall|other: Seq<char>|
                other != token@ && old(self).sessions().contains_key(other) ==> final(self).sessions()[other]
                    == old(self).sessions()[other],
    {
        let token = fresh_token();
        self.open_session(token.clone(), user_id);
        token
    }

    /// Whether `token` names a session.
    pub fn validate_token(&self, token: &str) -> (valid: bool)
        ensures
            valid == self.sessions().contains_key(token@),
    {
        self.user_sessions.contains_key(token)
    }

    /// The user that `token` was handed to, or `None` for an unknown token.
    pub fn get_user_id(&self, token: &str) -> (user_id: Option<String>)
        ensures
            self.sessions().contains_key(token@) ==> user_id == Some(self.sessions()[token@]),
            !self.sessions().contains_key(token@) ==> user_id is None,
    {
        match self.user_sessions.get(token) {
            Some(user_id) => Some(user_id.clone()),
            None => None,
        }
    }
}

} // verus!
