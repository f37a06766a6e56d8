//! A blog whose subscribers are told of every new post.
use crate::observer::laws::lemma_outcome_delivers_to_all;
use crate::observer::registry::{
    delivered_to_all, reports, Delivery, Handle, Listener, ListenerFailure, Refused, Registry, RegistryView,
};
use vstd::prelude::*;
use vstd::string::StringExecFns;

verus! {

/// A subscriber reached by email.
#[derive(Debug)]
pub struct EmailSubscriber {
    pub email: String,
}

impl EmailSubscriber {
    /// The notice for a post.
    pub open spec fn notice(&self, blog_title: Seq<char>) -> Seq<char> {
        "Sending email to "@ + self.email@ + " about new post: "@ + blog_title
    }

    /// A subscriber with the address `email`, kept as it is given.
    pub fn new(email: &str) -> (subscriber: Self)
        ensures
            subscriber.email@ == email@,
    {
        EmailSubscriber { email: email.to_string() }
    }

    /// The email notice for the post `blog_title`.
    pub fn send_email(&self, blog_title: &str) -> (line: String)
        ensures
            line@ == self.notice(blog_title@),
    {
        let mut line = String::from_str("Sending email to ");
        line.append(self.email.as_str());
        line.append(" about new post: ");
        line.append(blog_title);
        line
    }
}

impl Listener<String> for EmailSubscriber {
    open spec fn accepts(&self, payload: String) -> bool {
        true
    }

    open spec fn after(&self, payload: String) -> Self {
        *self
    }

    open spec fn emitted(&self, payload: String) -> Seq<char> {
        self.notice(payload@)
    }

    fn receive(&mut self, payload: &String) -> (outcome: Result<String, Refused>) {
        Ok(self.send_email(payload.as_str()))
    }
}

/// A subscriber reached by text message.
#[derive(Debug)]
pub struct SmsSubscriber {
    pub phone_number: String,
}

impl SmsSubscriber {
    /// The notice for a post.
    pub open spec fn notice(&self, blog_title: Seq<char>) -> Seq<char> {
        "Sending SMS to "@ + self.phone_number@ + " about new post: "@ + blog_title
    }

    /// A subscriber with the number `phone_number`, kept as it is given.
    pub fn new(phone_number: &str) -> (subscriber: Self)
        ensures
            subscriber.phone_number@ == phone_number@,
    {
        SmsSubscriber { phone_number: phone_number.to_string() }
    }

    /// The text message for the post `blog_title`.
    pub fn send_sms(&self, blog_title: &str) -> (line: String)
        ensures
            line@ == self.notice(blog_title@),
    {
        let mut line = String::from_str("Sending SMS to ");
        line.append(self.phone_number.as_str());
        line.append(" about new post: ");
        line.append(blog_title);
        line
    }
}

impl Listener<String> for SmsSubscriber {
    open spec fn accepts(&self, payload: String) -> bool {
        true
    }

    open spec fn after(&self, payload: String) -> Self {
        *self
    }

    open spec fn emitted(&self, payload: String) -> Seq<char> {
        self.notice(payload@)
    }

    fn receive(&mut self, payload: &String) -> (outcome: Result<String, Refused>) {
        Ok(self.send_sms(payload.as_str()))
    }
}

/// A subscriber reached by a push notification on a device.
#[derive(Debug)]
pub struct PushNotificationSubscriber {
    pub device_id: String,
}

impl PushNotificationSubscriber {
    /// The notice for a post.
    pub open spec fn notice(&self, blog_title: Seq<char>) -> Seq<char> {
        "Sending push notification to device "@ + self.device_id@ + " about new post: "@ + blog_title
    }

    /// A subscriber on the device `device_id`, kept as it is given.
    pub fn new(device_id: &str) -> (subscriber: Self)
        ensures
            subscriber.device_id@ == device_id@,
    {
        PushNotificationSubscriber { device_id: device_id.to_string() }
    }

    /// The push notification for the post `blog_title`.
    pub fn send_push_notification(&self, blog_title: &str) -> (line: String)
        ensures
            line@ == self.notice(blog_title@),
    {
        let mut line = String::from_str("Sending push notification to device ");
        line.append(self.device_id.as_str());
        line.append(" about new post: ");
        line.append(blog_title);
        line
    }
}

impl Listener<String> for PushNotificationSubscriber {
    open spec fn accepts(&self, payload: String) -> bool {
        true
    }

    open spec fn after(&self, payload: String) -> Self {
        *self
    }

    open spec fn emitted(&self, payload: String) -> Seq<char> {
        self.notice(payload@)
    }

    fn receive(&mut self, payload: &String) -> (outcome: Result<String, Refused>) {
        Ok(self.send_push_notification(payload.as_str()))
    }
}

/// The subscribers that a blog can have.
#[derive(Debug)]
pub enum BlogSubscriber {
    Email(EmailSubscriber),
    Sms(SmsSubscriber),
    Push(PushNotificationSubscriber),
}

impl Listener<String> for BlogSubscriber {
    open spec fn accepts(&self, payload: String) -> bool {
        true
    }

    open spec fn after(&self, payload: String) -> Self {
        *self
    }

    open spec fn emitted(&self, payload: String) -> Seq<char> {
        match *self {
            BlogSubscriber::Email(subscriber) => subscriber.notice(payload@),
            BlogSubscriber::Sms(subscriber) => subscriber.notice(payload@),
            BlogSubscriber::Push(subscriber) => subscriber.notice(payload@),
        }
    }

    fn receive(&mut self, payload: &String) -> (outcome: Result<String, Refused>) {
        match self {
            BlogSubscriber::Email(subscriber) => Ok(subscriber.send_email(payload.as_str())),
            BlogSubscriber::Sms(subscriber) => Ok(subscriber.send_sms(payload.as_str())),
            BlogSubscriber::Push(subscriber) => Ok(subscriber.send_push_notification(payload.as_str())),
        }
    }
}

/// The blog: its posts in the order they were added, and its subscribers.
/// The state of its registry is the title announced last.
pub struct Blog {
    registry: Registry<String, BlogSubscriber>,
    posts: Vec<String>,
}

impl View for Blog {
    type V = RegistryView<String, BlogSubscriber>;

    closed spec fn view(&self) -> RegistryView<String, BlogSubscriber> {
        self.registry@
    }
}

impl Blog {
    /// Every registered handle names a subscriber of this blog.
    pub open spec fn wf(&self) -> bool {
        self@.wf()
    }

    /// The titles posted so far, oldest first.
    pub closed spec fn titles(&self) -> Seq<String> {
        self.posts@
    }

    /// A blog without posts and without subscribers.
    pub fn new() -> (blog: Self)
        ensures
            blog.wf(),
            blog.titles().len() == 0,
            blog@.state@.len() == 0,
            blog@.listeners.len() == 0,
            blog@.pool.len() == 0,
    {
        Blog { registry: Registry::new(String::new()), posts: Vec::new() }
    }

    /// Takes `observer` in and registers it behind those already registered.
    /// The handle names it from now on.
    pub fn register_observer(&mut self, observer: BlogSubscriber) -> (handle: Handle)
        requires
            old(self).wf(),
        ensures
            final(self).wf(),
            handle.slot() == old(self)@.pool.len(),
            final(self)@ == old(self)@.enroll(observer).register(handle),
            final(self)@.listeners == old(self)@.listeners.push(handle),
            final(self).titles() == old(self).titles(),
    {
        let handle = self.registry.enroll(observer);
        self.registry.register(handle);
        handle
    }

    /// Registers the listener that `handle` names once more, behind those
    /// already registered: one that was removed comes back, one that is still
    /// registered stands twice. Returns whether `handle` names a listener; one
    /// that does not is left out.
    pub fn register(&mut self, handle: Handle) -> (known: bool)
        requires
            old(self).wf(),
        ensures
            final(self).wf(),
            known == old(self)@.knows(handle),
            final(self)@ == old(self)@.register(handle),
            final(self).titles() == old(self).titles(),
    {
        self.registry.register(handle)
    }

    /// Removes the subscriber that `handle` names. Nothing happens if it is
    /// not subscribed.
    pub fn remove_observer(&mut self, handle: Handle)
        requires
            old(self).wf(),
        ensures
            final(self).wf(),
            final(self)@ == old(self)@.remove(handle),
            final(self).titles() == old(self).titles(),
    {
        self.registry.remove(handle);
    }

    /// Announces the title announced last to every subscriber again, in
    /// registration order.
    pub fn notify_observers(&mut self) -> (outcome: Result<Vec<Delivery>, ListenerFailure>)
        requires
            old(self).wf(),
        ensures
            final(self).wf(),
            final(self)@ == old(self)@.notified(),
            reports(outcome, old(self)@.cycle()),
            delivered_to_all(outcome, old(self)@.listeners),
            final(self).titles() == old(self).titles(),
    {
        let outcome = self.registry.notify_all();
        proof {
            lemma_outcome_delivers_to_all(outcome, old(self)@.pool, old(self)@.listeners, old(self)@.state);
        }
        outcome
    }

    /// Adds the post `title` and announces it to every subscriber, in
    /// registration order.
    pub fn add_post(&mut self, title: &str) -> (outcome: Result<Vec<Delivery>, ListenerFailure>)
        requires
            old(self).wf(),
        ensures
            final(self).wf(),
            final(self).titles().len() == old(self).titles().len() + 1,
            final(self).titles().drop_last() == old(self).titles(),
            final(self).titles().last()@ == title@,
            final(self)@.state@ == title@,
            final(self)@ == old(self)@.commit(final(self)@.state).notified(),
            reports(outcome, old(self)@.commit(final(self)@.state).cycle()),
            delivered_to_all(outcome, old(self)@.listeners),
    {
        self.posts.push(title.to_string());
        proof {
            assert(self.posts@.drop_last() =~= old(self).posts@);
        }
        let outcome = self.registry.set_state(title.to_string());
        proof {
            lemma_outcome_delivers_to_all(outcome, old(self)@.pool, old(self)@.listeners, self@.state);
        }
        outcome
    }

    /// The titles posted so far, oldest first.
    pub fn posts(&self) -> (posts: &Vec<String>)
        ensures
            posts@ == self.titles(),
    {
        &self.posts
    }

    /// The subscriber that `handle` names, subscribed or not.
    pub fn observer(&self, handle: Handle) -> (subscriber: Option<&BlogSubscriber>)
        ensures
            self@.knows(handle) ==> subscriber == Some(&self@.pool[handle.slot()]),
            !self@.knows(handle) ==> subscriber is None,
    {
        self.registry.listener(handle)
    }
}

} // verus!
