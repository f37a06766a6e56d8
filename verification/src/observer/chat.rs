//! A chat room whose users see every message posted to it.
use crate::observer::laws::lemma_outcome_delivers_to_all;
use crate::observer::registry::{
    delivered_to_all, reports, Delivery, Handle, Listener, ListenerFailure, Refused, Registry, RegistryView,
};
use crate::text::{replace_all, replaced};
use vstd::prelude::*;
use vstd::string::StringExecFns;

verus! {

/// A user who sees messages as plain text.
#[derive(Debug)]
pub struct TextUser {
    pub username: String,
}

impl TextUser {
    /// The line that shows a message.
    pub open spec fn shown(&self, message: Seq<char>) -> Seq<char> {
        self.username@ + " (text): "@ + message
    }

    /// A user called `username`.
    pub fn new(username: &str) -> (user: Self)
        ensures
            user.username@ == username@,
    {
        TextUser { username: username.to_string() }
    }

    /// The line that shows `message` to this user.
    pub fn display_message(&self, message: &str) -> (line: String)
        ensures
            line@ == self.shown(message@),
    {
        let mut line = self.username.clone();
        line.append(" (text): ");
        line.append(message);
        line
    }
}

impl Listener<String> for TextUser {
    open spec fn accepts(&self, payload: String) -> bool {
        true
    }

    open spec fn after(&self, payload: String) -> Self {
        *self
    }

    open spec fn emitted(&self, payload: String) -> Seq<char> {
        self.shown(payload@)
    }

    fn receive(&mut self, payload: &String) -> (outcome: Result<String, Refused>) {
        Ok(self.display_message(payload.as_str()))
    }
}

/// `message` with `:)` and `:(` turned into faces, the smiles first.
pub open spec fn with_emoticons(message: Seq<char>) -> Seq<char> {
    replaced(replaced(message, ":)"@, "\u{1F60A}"@), ":("@, "\u{1F622}"@)
}

/// A user who sees `:)` and `:(` as faces.
#[derive(Debug)]
pub struct EmoticonUser {
    pub username: String,
}

impl EmoticonUser {
    /// The line that shows a message.
    pub open spec fn shown(&self, message: Seq<char>) -> Seq<char> {
        self.username@ + " (emoticon): "@ + with_emoticons(message)
    }

    /// A user called `username`.
    pub fn new(username: &str) -> (user: Self)
        ensures
            user.username@ == username@,
    {
        EmoticonUser { username: username.to_string() }
    }

    /// The line that shows `message` to this user, with faces for `:)` and
    /// `:(`.
    pub fn display_message(&self, message: &str) -> (line: String)
        ensures
            line@ == self.shown(message@),
    {
        let smiling = replace_all(message, ":)", "\u{1F60A}");
        let emoticon_message = replace_all(smiling.as_str(), ":(", "\u{1F622}");
        let mut line = self.username.clone();
        line.append(" (emoticon): ");
        line.append(emoticon_message.as_str());
        line
    }
}

impl Listener<String> for EmoticonUser {
    open spec fn accepts(&self, payload: String) -> bool {
        true
    }

    open spec fn after(&self, payload: String) -> Self {
        *self
    }

    open spec fn emitted(&self, payload: String) -> Seq<char> {
        self.shown(payload@)
    }

    fn receive(&mut self, payload: &String) -> (outcome: Result<String, Refused>) {
        Ok(self.display_message(payload.as_str()))
    }
}

/// A user who sees messages under a theme.
#[derive(Debug)]
pub struct ThemedUser {
    pub username: String,
    pub theme: String,
}

impl ThemedUser {
    /// The line that shows a message.
    pub open spec fn shown(&self, message: Seq<char>) -> Seq<char> {
        self.username@ + " ("@ + self.theme@ + " theme): "@ + message
    }

    /// A user called `username` with the theme `theme`.
    pub fn new(username: &str, theme: &str) -> (user: Self)
        ensures
            user.username@ == username@,
            user.theme@ == theme@,
    {
        ThemedUser { username: username.to_string(), theme: theme.to_string() }
    }

    /// The line that shows `message` to this user.
    pub fn display_message(&self, message: &str) -> (line: String)
        ensures
            line@ == self.shown(message@),
    {
        let mut line = self.username.clone();
        line.append(" (");
        line.append(self.theme.as_str());
        line.append(" theme): ");
        line.append(message);
        line
    }
}

impl Listener<String> for ThemedUser {
    open spec fn accepts(&self, payload: String) -> bool {
        true
    }

    open spec fn after(&self, payload: String) -> Self {
        *self
    }

    open spec fn emitted(&self, payload: String) -> Seq<char> {
        self.shown(payload@)
    }

    fn receive(&mut self, payload: &String) -> (outcome: Result<String, Refused>) {
        Ok(self.display_message(payload.as_str()))
    }
}

/// The users that a chat room can have.
#[derive(Debug)]
pub enum ChatUser {
    Text(TextUser),
    Emoticon(EmoticonUser),
    Themed(ThemedUser),
}

impl Listener<String> for ChatUser {
    open spec fn accepts(&self, payload: String) -> bool {
        true
    }

    open spec fn after(&self, payload: String) -> Self {
        *self
    }

    open spec fn emitted(&self, payload: String) -> Seq<char> {
        match *self {
            ChatUser::Text(user) => user.shown(payload@),
            ChatUser::Emoticon(user) => user.shown(payload@),
            ChatUser::Themed(user) => user.shown(payload@),
        }
    }

    fn receive(&mut self, payload: &String) -> (outcome: Result<String, Refused>) {
        match self {
            ChatUser::Text(user) => Ok(user.display_message(payload.as_str())),
            ChatUser::Emoticon(user) => Ok(user.display_message(payload.as_str())),
            ChatUser::Themed(user) => Ok(user.display_message(payload.as_str())),
        }
    }
}

/// The chat room: its messages in the order they were posted, and its users.
/// The state of its registry is the message posted last.
pub struct ChatRoom {
    registry: Registry<String, ChatUser>,
    messages: Vec<String>,
}

impl View for ChatRoom {
    type V = RegistryView<String, ChatUser>;

    closed spec fn view(&self) -> RegistryView<String, ChatUser> {
        self.registry@
    }
}

impl ChatRoom {
    /// Every registered handle names a user of this room.
    pub open spec fn wf(&self) -> bool {
        self@.wf()
    }

    /// The messages posted so far, oldest first.
    pub closed spec fn history(&self) -> Seq<String> {
        self.messages@
    }

    /// A room without messages and without users.
    pub fn new() -> (room: Self)
        ensures
            room.wf(),
            room.history().len() == 0,
            room@.state@.len() == 0,
            room@.listeners.len() == 0,
            room@.pool.len() == 0,
    {
        ChatRoom { registry: Registry::new(String::new()), messages: Vec::new() }
    }

    /// Takes `observer` in and registers it behind those already registered.
    /// The handle names it from now on.
    pub fn register_observer(&mut self, observer: ChatUser) -> (handle: Handle)
        requires
            old(self).wf(),
        ensures
            final(self).wf(),
            handle.slot() == old(self)@.pool.len(),
            final(self)@ == old(self)@.enroll(observer).register(handle),
            final(self)@.listeners == old(self)@.listeners.push(handle),
            final(self).history() == old(self).history(),
    {
        let handle = self.registry.enroll(observer);
        self.registry.register(handle);
        handle
    }

    /// Registers the listener that `handle` names once more, behind those
    /// already registered: one that was removed comes back, one that is still
    /// registered stands twice. Returns whether `handle` names a listener; one
    /// that does not is left out.
    pub fn register(&mut self, handle: Handle) -> (known: bool)
        requires
            old(self).wf(),
        ensures
            final(self).wf(),
            known == old(self)@.knows(handle),
            final(self)@ == old(self)@.register(handle),
            final(self).history() == old(self).history(),
    {
        self.registry.register(handle)
    }

    /// Removes the user that `handle` names from the room. Nothing happens if
    /// the user is not in it.
    pub fn remove_observer(&mut self, handle: Handle)
        requires
            old(self).wf(),
        ensures
            final(self).wf(),
            final(self)@ == old(self)@.remove(handle),
            final(self).history() == old(self).history(),
    {
        self.registry.remove(handle);
    }

    /// Shows the message posted last to every user again, in registration
    /// order.
    pub fn notify_observers(&mut self) -> (outcome: Result<Vec<Delivery>, ListenerFailure>)
        requires
            old(self).wf(),
        ensures
            final(self).wf(),
            final(self)@ == old(self)@.notified(),
            reports(outcome, old(self)@.cycle()),
            delivered_to_all(outcome, old(self)@.listeners),
            final(self).history() == old(self).history(),
    {
        let outcome = self.registry.notify_all();
        proof {
            lemma_outcome_delivers_to_all(outcome, old(self)@.pool, old(self)@.listeners, old(self)@.state);
        }
        outcome
    }

    /// Posts `message` and shows it to every user, in registration order.
    pub fn post_message(&mut self, message: &str) -> (outcome: Result<Vec<Delivery>, ListenerFailure>)
        requires
            old(self).wf(),
        ensures
            final(self).wf(),
            final(self).history().len() == old(self).history().len() + 1,
            final(self).history().drop_last() == old(self).history(),
            final(self).history().last()@ == message@,
            final(self)@.state@ == message@,
            final(self)@ == old(self)@.commit(final(self)@.state).notified(),
            reports(outcome, old(self)@.commit(final(self)@.state).cycle()),
            delivered_to_all(outcome, old(self)@.listeners),
    {
        self.messages.push(message.to_string());
        proof {
            assert(self.messages@.drop_last() =~= old(self).messages@);
        }
        let outcome = self.registry.set_state(message.to_string());
        proof {
            lemma_outcome_delivers_to_all(outcome, old(self)@.pool, old(self)@.listeners, self@.state);
        }
        outcome
    }

    /// The messages posted so far, oldest first.
    pub fn messages(&self) -> (messages: &Vec<String>)
        ensures
            messages@ == self.history(),
    {
        &self.messages
    }

    /// The user that `handle` names, in the room or not.
    pub fn observer(&self, handle: Handle) -> (user: Option<&ChatUser>)
        ensures
            self@.knows(handle) ==> user == Some(&self@.pool[handle.slot()]),
            !self@.knows(handle) ==> user is None,
    {
        self.registry.listener(handle)
    }
}

} // verus!
