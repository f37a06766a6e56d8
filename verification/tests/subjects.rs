use design_patterns::observer::blog::{Blog, BlogSubscriber, EmailSubscriber, PushNotificationSubscriber, SmsSubscriber};
use design_patterns::observer::chat::{ChatRoom, ChatUser, EmoticonUser, TextUser, ThemedUser};
use design_patterns::observer::registry::Delivery;
use design_patterns::observer::traffic::{
    EmergencyResponseUnit, TrafficData, TrafficLightController, TrafficObserver, TrafficReportGenerator,
};
use design_patterns::store::{Customer, OrderSystem};

fn lines(deliveries: Vec<Delivery>) -> Vec<String> {
    deliveries.into_iter().map(|d| d.line).collect()
}

#[test]
fn blog_scenario() {
    let mut blog = Blog::new();
    let email = blog.register_observer(BlogSubscriber::Email(EmailSubscriber::new("subscrible@example.com")));
    blog.register_observer(BlogSubscriber::Sms(SmsSubscriber::new("+123456789")));
    blog.register_observer(BlogSubscriber::Push(PushNotificationSubscriber::new("device123")));

    assert_eq!(
        lines(blog.add_post("Observer Pattern in Rust").unwrap()),
        vec![
            "Sending email to subscrible@example.com about new post: Observer Pattern in Rust",
            "Sending SMS to +123456789 about new post: Observer Pattern in Rust",
            "Sending push notification to device device123 about new post: Observer Pattern in Rust",
        ]
    );
    blog.add_post("Understanding Rust Ownership").unwrap();
    blog.remove_observer(email);
    assert_eq!(
        lines(blog.add_post("Advanced Rust Programming").unwrap()),
        vec![
            "Sending SMS to +123456789 about new post: Advanced Rust Programming",
            "Sending push notification to device device123 about new post: Advanced Rust Programming",
        ]
    );
    assert_eq!(
        blog.posts(),
        &vec![
            "Observer Pattern in Rust".to_string(),
            "Understanding Rust Ownership".to_string(),
            "Advanced Rust Programming".to_string()
        ]
    );
    assert_eq!(lines(blog.notify_observers().unwrap()).len(), 2);
    assert_eq!(blog.posts().len(), 3);
    assert!(matches!(blog.observer(email), Some(BlogSubscriber::Email(_))));
}

#[test]
fn blog_subscribers_keep_their_addresses() {
    assert_eq!(EmailSubscriber::new("a@b.c").email, "a@b.c");
    assert_eq!(SmsSubscriber::new("+1").phone_number, "+1");
    assert_eq!(PushNotificationSubscriber::new("d").device_id, "d");
    assert_eq!(EmailSubscriber::new("").send_email(""), "Sending email to  about new post: ");
    assert_eq!(SmsSubscriber::new("+1").send_sms("T"), "Sending SMS to +1 about new post: T");
    assert_eq!(
        PushNotificationSubscriber::new("d").send_push_notification("T"),
        "Sending push notification to device d about new post: T"
    );
}

#[test]
fn chat_scenario() {
    let mut room = ChatRoom::new();
    let alice = room.register_observer(ChatUser::Text(TextUser::new("Alice")));
    room.register_observer(ChatUser::Emoticon(EmoticonUser::new("Bob")));
    room.register_observer(ChatUser::Themed(ThemedUser::new("Charlie", "Dark")));

    assert_eq!(
        lines(room.post_message("Hello, everyone! :)").unwrap()),
        vec![
            "Alice (text): Hello, everyone! :)",
            "Bob (emoticon): Hello, everyone! \u{1F60A}",
            "Charlie (Dark theme): Hello, everyone! :)",
        ]
    );
    assert_eq!(
        lines(room.post_message("How's it going? :(").unwrap())[1],
        "Bob (emoticon): How's it going? \u{1F622}"
    );
    room.remove_observer(alice);
    assert_eq!(
        lines(room.post_message("Alice has left the chat.").unwrap()),
        vec!["Bob (emoticon): Alice has left the chat.", "Charlie (Dark theme): Alice has left the chat."]
    );
    assert_eq!(room.messages().len(), 3);
    assert_eq!(room.messages()[2], "Alice has left the chat.");
    assert_eq!(lines(room.notify_observers().unwrap()).len(), 2);
}

#[test]
fn emoticon_user_turns_every_face() {
    let user = EmoticonUser::new("Bob");
    assert_eq!(user.display_message(":):(:)"), "Bob (emoticon): \u{1F60A}\u{1F622}\u{1F60A}");
    assert_eq!(user.display_message("::)("), "Bob (emoticon): :\u{1F60A}(");
    assert_eq!(user.display_message(""), "Bob (emoticon): ");
}

#[test]
fn traffic_scenario() {
    let mut data = TrafficData::new();
    assert_eq!(data.condition(), "");
    data.register_observer(TrafficObserver::LightController(TrafficLightController::new("Controller A")));
    let reporter = data.register_observer(TrafficObserver::ReportGenerator(TrafficReportGenerator::new()));
    data.register_observer(TrafficObserver::ResponseUnit(EmergencyResponseUnit::new("Unit 1")));

    assert_eq!(
        lines(data.set_condition("Heavy Traffice").unwrap()),
        vec![
            "TrafficLightController Controller A: Adjusting signals for traffic condition: Heavy Traffice",
            "TrafficReportGenerator: Generating report for traffic condition: Heavy Traffice",
            "EmergencyResponseUnit Unit 1: Preparing response for traffic condition: Heavy Traffice",
        ]
    );
    assert_eq!(data.condition(), "Heavy Traffice");
    data.remove_observer(reporter);
    assert_eq!(lines(data.set_condition("Accident on Highway").unwrap()).len(), 2);
    assert_eq!(
        lines(data.notify_observers().unwrap())[1],
        "EmergencyResponseUnit Unit 1: Preparing response for traffic condition: Accident on Highway"
    );
    assert!(matches!(data.observer(reporter), Some(TrafficObserver::ReportGenerator(_))));
}

#[test]
fn order_system_scenario() {
    let mut system = OrderSystem::new();
    let alice = system.register_observer(Customer::new("Alice"));
    let bob = system.register_observer(Customer::new("Bob"));
    assert_eq!(
        lines(system.notify_observers("Order placed with credit card").unwrap()),
        vec![
            "Customer Alice: Your order status is 'Order placed with credit card'",
            "Customer Bob: Your order status is 'Order placed with credit card'",
        ]
    );
    system.remove_observer(alice);
    system.remove_observer(alice);
    let deliveries = system.notify_observers("Order placed with PayPal").unwrap();
    assert_eq!(deliveries.len(), 1);
    assert_eq!(deliveries[0].handle, bob);
    assert_eq!(system.observer(alice).unwrap().name, "Alice");
}

#[test]
fn subjects_register_an_enrolled_handle_again() {
    let mut blog = Blog::new();
    let email = blog.register_observer(BlogSubscriber::Email(EmailSubscriber::new("a@b.c")));
    blog.remove_observer(email);
    assert!(blog.add_post("one").unwrap().is_empty());
    assert!(blog.register(email));
    assert_eq!(lines(blog.add_post("two").unwrap()), vec!["Sending email to a@b.c about new post: two"]);
    assert_eq!(blog.posts().len(), 2);

    let mut room = ChatRoom::new();
    let alice = room.register_observer(ChatUser::Text(TextUser::new("Alice")));
    assert!(room.register(alice));
    assert_eq!(
        lines(room.post_message("hi").unwrap()),
        vec!["Alice (text): hi", "Alice (text): hi"]
    );
    room.remove_observer(alice);
    assert!(room.post_message("gone").unwrap().is_empty());
    assert_eq!(room.messages().len(), 2);

    let mut data = TrafficData::new();
    let unit = data.register_observer(TrafficObserver::ResponseUnit(EmergencyResponseUnit::new("U")));
    data.remove_observer(unit);
    assert!(data.register(unit));
    assert_eq!(lines(data.set_condition("c").unwrap()).len(), 1);
    let mut empty = TrafficData::new();
    assert!(!empty.register(unit));

    let mut system = OrderSystem::new();
    let bob = system.register_observer(Customer::new("Bob"));
    system.remove_observer(bob);
    assert!(system.notify_observers("s").unwrap().is_empty());
    assert!(system.register(bob));
    assert_eq!(lines(system.notify_observers("t").unwrap()), vec!["Customer Bob: Your order status is 't'"]);
}
