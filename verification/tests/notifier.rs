use design_patterns::factory::notifier::Notification;
use design_patterns::factory::notifier::{
        EmailNotificationFactory, NotificationFactory, PushNotificationFactory, SMSNotificationFactory,
    };

#[test]
fn notifications_to_a_recipient() {
    assert_eq!(
        EmailNotificationFactory.create_notification().send("user@example.com", "This is a notification message."),
        "Email sent to user@example.com: This is a notification message."
    );
    assert_eq!(SMSNotificationFactory.create_notification().send("r", "m"), "SMS sent to r: m");
    assert_eq!(PushNotificationFactory.create_notification().send("r", "m"), "Push notification sent to r: m");
}
