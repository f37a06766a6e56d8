//! Notifications to one recipient: each factory makes one kind.
use vstd::prelude::*;
use vstd::string::StringExecFns;

verus! {

/// A notification that can be sent.
pub trait Notification {
    /// The line that sending `message` to `recipient` gives.
    spec fn sent(&self, recipient: Seq<char>, message: Seq<char>) -> Seq<char>;

    /// Sends `message` to `recipient` and returns the line that says so.
    fn send(&self, recipient: &str, message: &str) -> (line: String)
        ensures
            line@ == self.sent(recipient@, message@),
    ;
}

/// A notification by email.
#[derive(Debug)]
pub struct EmailNotification;

impl Notification for EmailNotification {
    open spec fn sent(&self, recipient: Seq<char>, message: Seq<char>) -> Seq<char> {
        "Email sent to "@ + recipient + ": "@ + message
    }

    fn send(&self, recipient: &str, message: &str) -> (line: String) {
        let mut line = String::from_str("Email sent to ");
        line.append(recipient);
        line.append(": ");
        line.append(message);
        line
    }
}

/// A notification by text message.
#[derive(Debug)]
pub struct SMSNotification;

impl Notification for SMSNotification {
    open spec fn sent(&self, recipient: Seq<char>, message: Seq<char>) -> Seq<char> {
        "SMS sent to "@ + recipient + ": "@ + message
    }

    fn send(&self, recipient: &str, message: &str) -> (line: String) {
        let mut line = String::from_str("SMS sent to ");
        line.append(recipient);
        line.append(": ");
        line.append(message);
        line
    }
}

/// A notification by push.
#[derive(Debug)]
pub struct PushNotification;

impl Notification for PushNotification {
    open spec fn sent(&self, recipient: Seq<char>, message: Seq<char>) -> Seq<char> {
        "Push notification sent to "@ + recipient + ": "@ + message
    }

    fn send(&self, recipient: &str, message: &str) -> (line: String) {
        let mut line = String::from_str("Push notification sent to ");
        line.append(recipient);
        line.append(": ");
        line.append(message);
        line
    }
}

/// Makes notifications of one kind.
pub trait NotificationFactory {
    /// The notification this factory makes.
    type Product: Notification;

    /// Makes a notification.
    fn create_notification(&self) -> (notification: Self::Product);
}

/// Makes notifications by email.
#[derive(Debug)]
pub struct EmailNotificationFactory;

impl NotificationFactory for EmailNotificationFactory {
    type Product = EmailNotification;

    fn create_notification(&self) -> (notification: EmailNotification)
        ensures
            notification == EmailNotification,
    {
        EmailNotification
    }
}

/// Makes notifications by text message.
#[derive(Debug)]
pub struct SMSNotificationFactory;

impl NotificationFactory for SMSNotificationFactory {
    type Product = SMSNotification;

    fn create_notification(&self) -> (notification: SMSNotification)
        ensures
            notification == SMSNotification,
    {
        SMSNotification
    }
}

/// Makes notifications by push.
#[derive(Debug)]
pub struct PushNotificationFactory;

impl NotificationFactory for PushNotificationFactory {
    type Product = PushNotification;

    fn create_notification(&self) -> (notification: PushNotification)
        ensures
            notification == PushNotification,
    {
        PushNotification
    }
}

} // verus!
