//! Notifications over three channels: a factory makes the sender, the
//! formatter and the logger that belong together.
use vstd::prelude::*;
use vstd::string::StringExecFns;

verus! {

/// Sends a notification.
pub trait NotificationSender {
    /// The line that sending `message` gives.
    spec fn sent(&self, message: Seq<char>) -> Seq<char>;

    /// Sends `message` and returns the line that says so.
    fn send(&self, message: &str) -> (line: String)
        ensures
            line@ == self.sent(message@),
    ;
}

/// Formats a message for its channel.
pub trait MessageFormatter {
    /// `message` as this channel formats it.
    spec fn formatted(&self, message: Seq<char>) -> Seq<char>;

    /// Formats `message`.
    fn format(&self, message: &str) -> (formatted: String)
        ensures
            formatted@ == self.formatted(message@),
    ;
}

/// Logs a notification.
pub trait NotificationLogger {
    /// The line that logging `message` gives.
    spec fn logged(&self, message: Seq<char>) -> Seq<char>;

    /// Logs `message` and returns the line that says so.
    fn log(&self, message: &str) -> (line: String)
        ensures
            line@ == self.logged(message@),
    ;
}

/// Sends notifications by email.
#[derive(Debug)]
pub struct EmailNotificationSender;

impl NotificationSender for EmailNotificationSender {
    open spec fn sent(&self, message: Seq<char>) -> Seq<char> {
        "Sending email notification: "@ + message
    }

    fn send(&self, message: &str) -> (line: String) {
        let mut line = String::from_str("Sending email notification: ");
        line.append(message);
        line
    }
}

/// Formats messages for email.
#[derive(Debug)]
pub struct EmailMessageFormatter;

impl MessageFormatter for EmailMessageFormatter {
    open spec fn formatted(&self, message: Seq<char>) -> Seq<char> {
        "Email formatted message: "@ + message
    }

    fn format(&self, message: &str) -> (formatted: String) {
        let mut formatted = String::from_str("Email formatted message: ");
        formatted.append(message);
        formatted
    }
}

/// Logs the notifications sent by email.
#[derive(Debug)]
pub struct EmailNotificationLogger;

impl NotificationLogger for EmailNotificationLogger {
    open spec fn logged(&self, message: Seq<char>) -> Seq<char> {
        "Logging email notification: "@ + message
    }

    fn log(&self, message: &str) -> (line: String) {
        let mut line = String::from_str("Logging email notification: ");
        line.append(message);
        line
    }
}

/// Sends notifications by text message.
#[derive(Debug)]
pub struct SMSNotificationSender;

impl NotificationSender for SMSNotificationSender {
    open spec fn sent(&self, message: Seq<char>) -> Seq<char> {
        "Sending SMS notification: "@ + message
    }

    fn send(&self, message: &str) -> (line: String) {
        let mut line = String::from_str("Sending SMS notification: ");
        line.append(message);
        line
    }
}

/// Formats messages for text message.
#[derive(Debug)]
pub struct SMSMessageFormatter;

impl MessageFormatter for SMSMessageFormatter {
    open spec fn formatted(&self, message: Seq<char>) -> Seq<char> {
        "SMS formatted message: "@ + message
    }

    fn format(&self, message: &str) -> (formatted: String) {
        let mut formatted = String::from_str("SMS formatted message: ");
        formatted.append(message);
        formatted
    }
}

/// Logs the notifications sent by text message.
#[derive(Debug)]
pub struct SMSNotificationLogger;

impl NotificationLogger for SMSNotificationLogger {
    open spec fn logged(&self, message: Seq<char>) -> Seq<char> {
        "Logging SMS notification: "@ + message
    }

    fn log(&self, message: &str) -> (line: String) {
        let mut line = String::from_str("Logging SMS notification: ");
        line.append(message);
        line
    }
}

/// Sends notifications by push notification.
#[derive(Debug)]
pub struct PushNotificationSender;

impl NotificationSender for PushNotificationSender {
    open spec fn sent(&self, message: Seq<char>) -> Seq<char> {
        "Sending push notification: "@ + message
    }

    fn send(&self, message: &str) -> (line: String) {
        let mut line = String::from_str("Sending push notification: ");
        line.append(message);
        line
    }
}

/// Formats messages for push notification.
#[derive(Debug)]
pub struct PushMessageFormatter;

impl MessageFormatter for PushMessageFormatter {
    open spec fn formatted(&self, message: Seq<char>) -> Seq<char> {
        "Push formatted message: "@ + message
    }

    fn format(&self, message: &str) -> (formatted: String) {
        let mut formatted = String::from_str("Push formatted message: ");
        formatted.append(message);
        formatted
    }
}

/// Logs the notifications sent by push notification.
#[derive(Debug)]
pub struct PushNotificationLogger;

impl NotificationLogger for PushNotificationLogger {
    open spec fn logged(&self, message: Seq<char>) -> Seq<char> {
        "Logging push notification: "@ + message
    }

    fn log(&self, message: &str) -> (line: String) {
        let mut line = String::from_str("Logging push notification: ");
        line.append(message);
        line
    }
}

/// Makes the parts of one channel.
pub trait NotificationFactory {
    /// The sender this factory makes.
    type Sender: NotificationSender;

    /// The formatter this factory makes.
    type Formatter: MessageFormatter;

    /// The logger this factory makes.
    type Logger: NotificationLogger;

    /// Makes a sender.
    fn create_sender(&self) -> (sender: Self::Sender);

    /// Makes a formatter.
    fn create_formatter(&self) -> (formatter: Self::Formatter);

    /// Makes a logger.
    fn create_logger(&self) -> (logger: Self::Logger);
}

/// Makes the parts of the email channel.
#[derive(Debug)]
pub struct EmailNotificationFactory;

impl NotificationFactory for EmailNotificationFactory {
    type Sender = EmailNotificationSender;

    type Formatter = EmailMessageFormatter;

    type Logger = EmailNotificationLogger;

    fn create_sender(&self) -> (sender: EmailNotificationSender)
        ensures
            sender == EmailNotificationSender,
    {
        EmailNotificationSender
    }

    fn create_formatter(&self) -> (formatter: EmailMessageFormatter)
        ensures
            formatter == EmailMessageFormatter,
    {
        EmailMessageFormatter
    }

    fn create_logger(&self) -> (logger: EmailNotificationLogger)
        ensures
            logger == EmailNotificationLogger,
    {
        EmailNotificationLogger
    }
}

/// Makes the parts of the text message channel.
#[derive(Debug)]
pub struct SMSNotificationFactory;

impl NotificationFactory for SMSNotificationFactory {
    type Sender = SMSNotificationSender;

    type Formatter = SMSMessageFormatter;

    type Logger = SMSNotificationLogger;

    fn create_sender(&self) -> (sender: SMSNotificationSender)
        ensures
            sender == SMSNotificationSender,
    {
        SMSNotificationSender
    }

    fn create_formatter(&self) -> (formatter: SMSMessageFormatter)
        ensures
            formatter == SMSMessageFormatter,
    {
        SMSMessageFormatter
    }

    fn create_logger(&self) -> (logger: SMSNotificationLogger)
        ensures
            logger == SMSNotificationLogger,
    {
        SMSNotificationLogger
    }
}

/// Makes the parts of the push notification channel.
#[derive(Debug)]
pub struct PushNotificationFactory;

impl NotificationFactory for PushNotificationFactory {
    type Sender = PushNotificationSender;

    type Formatter = PushMessageFormatter;

    type Logger = PushNotificationLogger;

    fn create_sender(&self) -> (sender: PushNotificationSender)
        ensures
            sender == PushNotificationSender,
    {
        PushNotificationSender
    }

    fn create_formatter(&self) -> (formatter: PushMessageFormatter)
        ensures
            formatter == PushMessageFormatter,
    {
        PushMessageFormatter
    }

    fn create_logger(&self) -> (logger: PushNotificationLogger)
        ensures
            logger == PushNotificationLogger,
    {
        PushNotificationLogger
    }
}

} // verus!
