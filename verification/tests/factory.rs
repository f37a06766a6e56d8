use design_patterns::text_map::TextMap;
use design_patterns::factory::coffee_machine::{CappuccinoFactory, Coffee, CoffeeFactory, EspressoFactory, LatteFactory};
use design_patterns::factory::content::{BlogPost, BlogPostFactory, Content, ContentFactory, Video, VideoFactory};
use design_patterns::factory::database::{
    DBCommand, DBConnection, DBFactory, DBReader, MySQLFactory, PostgreSQLFactory, SQLServerFactory,
};
use design_patterns::factory::db_connection::{
    ConnectionFactory, DatabaseConnection, MySQLConnectionFactory, PostgreSQLConnectionFactory,
    SQLiteConnectionFactory,
};
use design_patterns::factory::ecu::{
    BMSFactory, ConnectedEcu, ECUConfiguration, ECUDataCollector, ECUDiagnostics, ECUFactory, MotorControllerFactory,
    OnBoardChargerFactory, VehicleControlECU, VehicleControlECUFactory, ECU,
};
use design_patterns::factory::file_system::{
    DirectoryHandler, FileReader, FileSystemFactory, FileWriter, LinuxFactory, MacOSFactory, WindowsFactory,
};
use design_patterns::factory::gui::{Button, Checkbox, GUIFactory};
use design_patterns::factory::notification::{
    EmailNotificationFactory, MessageFormatter, NotificationFactory, NotificationLogger, NotificationSender,
    PushNotificationFactory, SMSNotificationFactory,
};
use design_patterns::factory::peer::{
    ChatPeerFactory, ConnectionHandler, DataProcessor, FileSharingPeerFactory, MessageProtocol, PeerFactory,
    StreamingPeerFactory,
};

fn pair(key: &str, value: &str) -> (String, String) {
    (key.to_string(), value.to_string())
}

fn entries_of(map: TextMap) -> Vec<(String, String)> {
    map.entries().clone()
}

#[test]
fn coffee_machine_brews_what_the_factory_makes() {
    assert_eq!(EspressoFactory.create_coffee().brew(), "Brewing Espresso");
    assert_eq!(CappuccinoFactory.create_coffee().brew(), "Brewing Cappuccino");
    assert_eq!(LatteFactory.create_coffee().brew(), "Brewing Latte");
}

#[test]
fn content_is_made_shown_and_described() {
    let post = BlogPostFactory.create_content("Design Patterns", "Factory Method Pattern");
    assert_eq!(post.title, "Design Patterns");
    assert_eq!(post.body, "Factory Method Pattern");
    assert!(post.tags.is_empty());
    assert_eq!(
        post.create("Design Patterns", "Factory Method Pattern"),
        "Creating Blog Post: Design Patterns - Factory Method Pattern"
    );
    assert_eq!(post.display(), "Displaying Blog Post: Design Patterns - Factory Method Pattern");
    assert_eq!(
        entries_of(post.metadata()),
        vec![pair("type", "BlogPost"), pair("title", "Design Patterns"), pair("body", "Factory Method Pattern")]
    );

    let video = VideoFactory.create_content("Design Patterns", "Factory Method Pattern");
    assert_eq!(video.url, "https://www.youtube.com/");
    assert_eq!(video.duration, 60);
    assert_eq!(
        video.create("Design Patterns", "Factory Method Pattern"),
        "Creating Video: Design Patterns - Factory Method Pattern"
    );
    assert_eq!(
        video.display(),
        "Displaying video: Design Patterns\nURL: https://www.youtube.com/\nDuration: 60 seconds"
    );
    assert_eq!(
        entries_of(video.metadata()),
        vec![
            pair("type", "Video"),
            pair("title", "Design Patterns"),
            pair("url", "https://www.youtube.com/"),
            pair("duration", "60")
        ]
    );
    assert_eq!(Video::new("t", "u", u32::MAX).metadata().get("duration"), Some(&"4294967295".to_string()));
    assert_eq!(BlogPost::new("t", "b").title, "t");
}

#[test]
fn database_families() {
    assert_eq!(SQLServerFactory.create_connection().connect(), "Connecting to SQL Server");
    assert_eq!(
        SQLServerFactory.create_command().execute("SELECT 1"),
        "Executing SQL Server query: SELECT 1"
    );
    assert_eq!(SQLServerFactory.create_reader().read(), vec!["SQL Server data"]);
    assert_eq!(MySQLFactory.create_connection().connect(), "Connecting to MySQL");
    assert_eq!(MySQLFactory.create_command().execute("q"), "Executing MySQL query: q");
    assert_eq!(MySQLFactory.create_reader().read(), vec!["MySQL data"]);
    assert_eq!(PostgreSQLFactory.create_connection().connect(), "Connecting to PostgreSQL");
    assert_eq!(
        PostgreSQLFactory.create_command().execute("SELECT * FROM users"),
        "Executing PostgreSQL query: SELECT * FROM users"
    );
    assert_eq!(PostgreSQLFactory.create_reader().read(), vec!["PostgreSQL data"]);
}

#[test]
fn database_connections() {
    let mysql = MySQLConnectionFactory.create_connection();
    assert_eq!(mysql.connect(), "Connecting to MySQL database...");
    assert_eq!(mysql.execute_query("SELECT * FROM users"), "Executing query: SELECT * FROM users");
    assert_eq!(PostgreSQLConnectionFactory.create_connection().connect(), "Connecting to PostgreSQL database...");
    assert_eq!(SQLiteConnectionFactory.create_connection().connect(), "Connecting to SQLite database...");
    assert_eq!(SQLiteConnectionFactory.create_connection().execute_query(""), "Executing query: ");
}

#[test]
fn vehicle_control_unit_reaches_the_units_behind_it() {
    let factory = VehicleControlECUFactory;
    let ecu = factory.create_ecu();
    assert_eq!(ecu.connected_ecus.len(), 3);
    assert!(matches!(ecu.connected_ecus[0], ConnectedEcu::Bms(_)));
    assert!(matches!(ecu.connected_ecus[1], ConnectedEcu::MotorController(_)));
    assert!(matches!(ecu.connected_ecus[2], ConnectedEcu::OnBoardCharger(_)));
    assert_eq!(ecu.connect(), "Connecting to Vehicle Control ECU via Bluetooth/Wi-Fi/4G/Diag CAN/OTG USB");
    let settings = "{\"setting1\": \"value1\"}";
    assert_eq!(
        ecu.configure(settings),
        "Configuring Vehicle Control ECU with settings: {\"setting1\": \"value1\"}"
    );
    assert_eq!(
        ecu.connect_to_all_ecus(),
        vec![
            "Connecting to BMS via system CAN bus",
            "Connecting to Motor Controller via system CAN bus",
            "Connecting to On Board Charger via system CAN bus",
        ]
    );
    assert_eq!(
        ecu.configure_all_ecus(settings),
        vec![
            "Configuring BMS with setting: {\"setting1\": \"value1\"}",
            "Configuring Motor Controller with setting: {\"setting1\": \"value1\"}",
            "Configuring On Board Charger with settings: {\"setting1\": \"value1\"}",
        ]
    );
    assert!(VehicleControlECU { connected_ecus: Vec::new() }.connect_to_all_ecus().is_empty());
}

#[test]
fn unit_configurations_diagnostics_and_data() {
    let mut configuration = VehicleControlECUFactory.create_configuration();
    assert_eq!(configuration.get_settings().len(), 0);
    let mut settings = TextMap::new();
    settings.insert("setting1", "value1");
    settings.insert("setting2", "value2");
    settings.insert("setting1", "newer");
    configuration.set_settings(settings);
    assert_eq!(entries_of(configuration.get_settings()), vec![pair("setting1", "newer"), pair("setting2", "value2")]);
    assert_eq!(BMSFactory.create_configuration().get_settings().len(), 0);

    assert_eq!(
        entries_of(VehicleControlECUFactory.create_diagnostics().run_diagnostics()),
        vec![pair("gps_status", "Connected"), pair("network_status", "4G")]
    );
    assert_eq!(
        entries_of(VehicleControlECUFactory.create_data_collector().collect_data()),
        vec![pair("gps_location", "Lat: 40.7128, Long: -74.0060"), pair("network_type", "4G")]
    );
    assert_eq!(
        entries_of(BMSFactory.create_diagnostics().run_diagnostics()),
        vec![pair("voltage", "400V"), pair("current", "100A")]
    );
    assert_eq!(
        entries_of(BMSFactory.create_data_collector().collect_data()),
        vec![pair("cell_voltages", "3.7V, 3.7V, 3.6V, ..."), pair("temperatures", "30C, 30C, 31C, ...")]
    );
    assert_eq!(
        entries_of(MotorControllerFactory.create_diagnostics().run_diagnostics()),
        vec![pair("rpm", "3000"), pair("torque", "250Nm")]
    );
    assert_eq!(
        entries_of(MotorControllerFactory.create_data_collector().collect_data()),
        vec![pair("motor_temp", "85C"), pair("inverter_temp", "75C")]
    );
    assert_eq!(
        entries_of(OnBoardChargerFactory.create_diagnostics().run_diagnostics()),
        vec![pair("input_voltage", "220V"), pair("charging_current", "50A")]
    );
    assert_eq!(
        entries_of(OnBoardChargerFactory.create_data_collector().collect_data()),
        vec![pair("charging_time", "2 hours"), pair("energy_delivered", "10 kWh")]
    );
    assert_eq!(BMSFactory.create_ecu().connect(), "Connecting to BMS via system CAN bus");
    assert_eq!(MotorControllerFactory.create_ecu().configure("{}"), "Configuring Motor Controller with setting: {}");
}

#[test]
fn file_system_families() {
    let reader = LinuxFactory.create_file_reader();
    assert_eq!(
        reader.read("/path/to/file"),
        ("Linux file content".to_string(), "Reading file from Linux file system at /path/to/file".to_string())
    );
    assert_eq!(
        LinuxFactory.create_file_writer().write("/path/to/file", "new"),
        vec!["Writing to file in Linux file system at /path/to/file", "Content: new"]
    );
    assert_eq!(
        LinuxFactory.create_directory_handler().create_directory("/d"),
        "Creating directory in Linux file system at /d"
    );
    assert_eq!(
        WindowsFactory.create_file_reader().read("p"),
        ("Windows file content".to_string(), "Reading file from windows file system at p".to_string())
    );
    assert_eq!(
        WindowsFactory.create_file_writer().write("p", "c"),
        vec!["Writing to file in Windows file system at p", "Content: c"]
    );
    assert_eq!(
        WindowsFactory.create_directory_handler().create_directory("p"),
        "Creating directory in Window file system at p"
    );
    assert_eq!(MacOSFactory.create_file_reader().read("p").0, "macOS file content");
    assert_eq!(
        MacOSFactory.create_file_writer().write("p", "c")[0],
        "Writing to file in macOS file system at p"
    );
    assert_eq!(
        MacOSFactory.create_directory_handler().create_directory("p"),
        "Creating directory in macOS file system at p"
    );
}

#[test]
fn widgets_of_two_desktops() {
    let windows = design_patterns::factory::gui::WindowsFactory;
    assert_eq!(windows.create_button().render(), "Rendering Windows button");
    assert_eq!(windows.create_checkbox().render(), "Rendering Windows checkbox");
    let mac = design_patterns::factory::gui::MacOSFactory;
    assert_eq!(mac.create_button().render(), "Rendering MacOS button");
    assert_eq!(mac.create_checkbox().render(), "Rendering MacOS checkbox");
}

#[test]
fn notification_families() {
    let formatted = PushNotificationFactory.create_formatter().format("Hello, this is a notification");
    assert_eq!(formatted, "Push formatted message: Hello, this is a notification");
    assert_eq!(
        PushNotificationFactory.create_sender().send(&formatted),
        "Sending push notification: Push formatted message: Hello, this is a notification"
    );
    assert_eq!(
        PushNotificationFactory.create_logger().log(&formatted),
        "Logging push notification: Push formatted message: Hello, this is a notification"
    );
    assert_eq!(EmailNotificationFactory.create_formatter().format("m"), "Email formatted message: m");
    assert_eq!(EmailNotificationFactory.create_sender().send("m"), "Sending email notification: m");
    assert_eq!(EmailNotificationFactory.create_logger().log("m"), "Logging email notification: m");
    assert_eq!(SMSNotificationFactory.create_formatter().format("m"), "SMS formatted message: m");
    assert_eq!(SMSNotificationFactory.create_sender().send("m"), "Sending SMS notification: m");
    assert_eq!(SMSNotificationFactory.create_logger().log("m"), "Logging SMS notification: m");
}

#[test]
fn peers_of_three_kinds() {
    assert_eq!(ChatPeerFactory.create_connection_handler().handle_connection(), "Handling chat connection");
    let protocol = ChatPeerFactory.create_message_protocol();
    assert_eq!(protocol.send_message("Hello, world"), "Sending chat message: Hello, world");
    assert_eq!(protocol.receive_message(), ("Chat message".to_string(), "Receiving chat message".to_string()));
    assert_eq!(ChatPeerFactory.create_data_processor().process_data("Some data"), "Processing chat data: Some data");
    assert_eq!(
        FileSharingPeerFactory.create_connection_handler().handle_connection(),
        "Handling file sharing connection"
    );
    assert_eq!(
        FileSharingPeerFactory.create_message_protocol().receive_message(),
        ("File sharing message".to_string(), "Receiving file sharing message".to_string())
    );
    assert_eq!(
        FileSharingPeerFactory.create_message_protocol().send_message("m"),
        "Sending file sharing message: m"
    );
    assert_eq!(
        FileSharingPeerFactory.create_data_processor().process_data("d"),
        "Processing file sharing data: d"
    );
    assert_eq!(
        StreamingPeerFactory.create_connection_handler().handle_connection(),
        "Handling streaming connection"
    );
    assert_eq!(
        StreamingPeerFactory.create_message_protocol().receive_message().0,
        "Streaming message"
    );
    assert_eq!(StreamingPeerFactory.create_data_processor().process_data("d"), "Processing streaming data: d");
}
