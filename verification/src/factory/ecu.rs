//! The control units of an electric vehicle: a factory makes the unit, its
//! configuration, its diagnostics and its data collector.
//!
//! Settings, findings and readings are maps from a name to a value, no name
//! twice, in the order in which the names were put in.
use crate::text::{push_line, texts};
use crate::text_map::{distinct_keys, has_key, TextMap};
use vstd::prelude::*;
use vstd::string::StringExecFns;

verus! {

/// An electronic control unit of a vehicle.
pub trait ECU {
    /// The line that connecting gives.
    spec fn connecting_line(&self) -> Seq<char>;

    /// Connects to the unit and returns the line that says so.
    fn connect(&self) -> (line: String)
        ensures
            line@ == self.connecting_line(),
    ;

    /// The line that configuring with `settings` gives.
    spec fn configuring_line(&self, settings: Seq<char>) -> Seq<char>;

    /// Configures the unit with settings that the caller has written out as
    /// `settings`, and returns the line that says so.
    fn configure(&self, settings: &str) -> (line: String)
        ensures
            line@ == self.configuring_line(settings@),
    ;
}

/// The battery management system.
#[derive(Debug)]
pub struct BMS;

impl ECU for BMS {
    open spec fn connecting_line(&self) -> Seq<char> {
        "Connecting to BMS via system CAN bus"@
    }

    fn connect(&self) -> (line: String) {
        "Connecting to BMS via system CAN bus".to_string()
    }

    open spec fn configuring_line(&self, settings: Seq<char>) -> Seq<char> {
        "Configuring BMS with setting: "@ + settings
    }

    fn configure(&self, settings: &str) -> (line: String) {
        let mut line = String::from_str("Configuring BMS with setting: ");
        line.append(settings);
        line
    }
}

/// The motor controller.
#[derive(Debug)]
pub struct MotorController;

impl ECU for MotorController {
    open spec fn connecting_line(&self) -> Seq<char> {
        "Connecting to Motor Controller via system CAN bus"@
    }

    fn connect(&self) -> (line: String) {
        "Connecting to Motor Controller via system CAN bus".to_string()
    }

    open spec fn configuring_line(&self, settings: Seq<char>) -> Seq<char> {
        "Configuring Motor Controller with setting: "@ + settings
    }

    fn configure(&self, settings: &str) -> (line: String) {
        let mut line = String::from_str("Configuring Motor Controller with setting: ");
        line.append(settings);
        line
    }
}

/// The on-board charger.
#[derive(Debug)]
pub struct OnBoardCharger;

impl ECU for OnBoardCharger {
    open spec fn connecting_line(&self) -> Seq<char> {
        "Connecting to On Board Charger via system CAN bus"@
    }

    fn connect(&self) -> (line: String) {
        "Connecting to On Board Charger via system CAN bus".to_string()
    }

    open spec fn configuring_line(&self, settings: Seq<char>) -> Seq<char> {
        "Configuring On Board Charger with settings: "@ + settings
    }

    fn configure(&self, settings: &str) -> (line: String) {
        let mut line = String::from_str("Configuring On Board Charger with settings: ");
        line.append(settings);
        line
    }
}

/// A unit that the vehicle control unit reaches over the system bus.
#[derive(Debug)]
pub enum ConnectedEcu {
    Bms(BMS),
    MotorController(MotorController),
    OnBoardCharger(OnBoardCharger),
}

impl ECU for ConnectedEcu {
    open spec fn connecting_line(&self) -> Seq<char> {
        match *self {
            ConnectedEcu::Bms(ecu) => ecu.connecting_line(),
            ConnectedEcu::MotorController(ecu) => ecu.connecting_line(),
            ConnectedEcu::OnBoardCharger(ecu) => ecu.connecting_line(),
        }
    }

    fn connect(&self) -> (line: String) {
        match self {
            ConnectedEcu::Bms(ecu) => ecu.connect(),
            ConnectedEcu::MotorController(ecu) => ecu.connect(),
            ConnectedEcu::OnBoardCharger(ecu) => ecu.connect(),
        }
    }

    open spec fn configuring_line(&self, settings: Seq<char>) -> Seq<char> {
        match *self {
            ConnectedEcu::Bms(ecu) => ecu.configuring_line(settings),
            ConnectedEcu::MotorController(ecu) => ecu.configuring_line(settings),
            ConnectedEcu::OnBoardCharger(ecu) => ecu.configuring_line(settings),
        }
    }

    fn configure(&self, settings: &str) -> (line: String) {
        match self {
            ConnectedEcu::Bms(ecu) => ecu.configure(settings),
            ConnectedEcu::MotorController(ecu) => ecu.configure(settings),
            ConnectedEcu::OnBoardCharger(ecu) => ecu.configure(settings),
        }
    }
}

/// The vehicle control unit: the way in from outside, and the units it
/// reaches over the system bus, in the order it addresses them.
#[derive(Debug)]
pub struct VehicleControlECU {
    pub connected_ecus: Vec<ConnectedEcu>,
}

impl ECU for VehicleControlECU {
    open spec fn connecting_line(&self) -> Seq<char> {
        "Connecting to Vehicle Control ECU via Bluetooth/Wi-Fi/4G/Diag CAN/OTG USB"@
    }

    fn connect(&self) -> (line: String) {
        "Connecting to Vehicle Control ECU via Bluetooth/Wi-Fi/4G/Diag CAN/OTG USB".to_string()
    }

    open spec fn configuring_line(&self, settings: Seq<char>) -> Seq<char> {
        "Configuring Vehicle Control ECU with settings: "@ + settings
    }

    fn configure(&self, settings: &str) -> (line: String) {
        let mut line = String::from_str("Configuring Vehicle Control ECU with settings: ");
        line.append(settings);
        line
    }
}

impl VehicleControlECU {
    /// The lines that connecting to every unit behind this one gives, in
    /// order.
    pub open spec fn all_connecting_lines(&self) -> Seq<Seq<char>> {
        self.connected_ecus@.map_values(|ecu: ConnectedEcu| ecu.connecting_line())
    }

    /// The lines that configuring every unit behind this one with `settings`
    /// gives, in order.
    pub open spec fn all_configuring_lines(&self, settings: Seq<char>) -> Seq<Seq<char>> {
        self.connected_ecus@.map_values(|ecu: ConnectedEcu| ecu.configuring_line(settings))
    }

    /// A vehicle control unit that reaches the battery management system,
    /// the motor controller and the on-board charger, in that order.
    pub fn new() -> (ecu: Self)
        ensures
            ecu.connected_ecus@ == seq![
                ConnectedEcu::Bms(BMS),
                ConnectedEcu::MotorController(MotorController),
                ConnectedEcu::OnBoardCharger(OnBoardCharger),
            ],
    {
        let mut connected_ecus: Vec<ConnectedEcu> = Vec::new();
        connected_ecus.push(ConnectedEcu::Bms(BMS));
        connected_ecus.push(ConnectedEcu::MotorController(MotorController));
        connected_ecus.push(ConnectedEcu::OnBoardCharger(OnBoardCharger));
        proof {
            assert(connected_ecus@ =~= seq![
                ConnectedEcu::Bms(BMS),
                ConnectedEcu::MotorController(MotorController),
                ConnectedEcu::OnBoardCharger(OnBoardCharger),
            ]);
        }
        VehicleControlECU { connected_ecus }
    }

    /// Connects to every unit behind this one, in order, and returns the
    /// lines that say so.
    pub fn connect_to_all_ecus(&self) -> (lines: Vec<String>)
        ensures
            texts(lines@) == self.all_connecting_lines(),
    {
        let mut lines: Vec<String> = Vec::new();
        let mut i: usize = 0;
        while i < self.connected_ecus.len()
            invariant
                i <= self.connected_ecus.len(),
                texts(lines@) == self.all_connecting_lines().take(i as int),
            decreases self.connected_ecus.len() - i,
        {
            let line = self.connected_ecus[i].connect();
            push_line(&mut lines, line);
            proof {
                assert(texts(lines@) =~= self.all_connecting_lines().take(i + 1));
            }
            i = i + 1;
        }
        proof {
            assert(self.all_connecting_lines().take(i as int) =~= self.all_connecting_lines());
        }
        lines
    }

    /// Configures every unit behind this one with `settings`, in order, and
    /// returns the lines that say so.
    pub fn configure_all_ecus(&self, settings: &str) -> (lines: Vec<String>)
        ensures
            texts(lines@) == self.all_configuring_lines(settings@),
    {
        let mut lines: Vec<String> = Vec::new();
        let mut i: usize = 0;
        while i < self.connected_ecus.len()
            invariant
                i <= self.connected_ecus.len(),
                texts(lines@) == self.all_configuring_lines(settings@).take(i as int),
            decreases self.connected_ecus.len() - i,
        {
            let line = self.connected_ecus[i].configure(settings);
            push_line(&mut lines, line);
            proof {
                assert(texts(lines@) =~= self.all_configuring_lines(settings@).take(i + 1));
            }
            i = i + 1;
        }
        proof {
            assert(self.all_configuring_lines(settings@).take(i as int) =~= self.all_configuring_lines(
                settings@,
            ));
        }
        lines
    }
}

/// The configuration of a unit: settings by name, no name twice.
pub trait ECUConfiguration {
    /// The settings held, each name with its value.
    spec fn settings(&self) -> Seq<(Seq<char>, Seq<char>)>;

    /// Replaces the settings.
    fn set_settings(&mut self, settings: TextMap)
        ensures
            final(self).settings() == settings@,
    ;

    /// A copy of the settings.
    fn get_settings(&self) -> (settings: TextMap)
        ensures
            settings@ == self.settings(),
            distinct_keys(settings@),
    ;
}

/// The configuration of the battery management system.
#[derive(Debug)]
pub struct BMSConfiguration {
    pub settings: TextMap,
}

impl ECUConfiguration for BMSConfiguration {
    open spec fn settings(&self) -> Seq<(Seq<char>, Seq<char>)> {
        self.settings@
    }

    fn set_settings(&mut self, settings: TextMap) {
        self.settings = settings;
    }

    fn get_settings(&self) -> (settings: TextMap) {
        self.settings.copy()
    }
}

/// The configuration of the motor controller.
#[derive(Debug)]
pub struct MotorControllerConfiguration {
    pub settings: TextMap,
}

impl ECUConfiguration for MotorControllerConfiguration {
    open spec fn settings(&self) -> Seq<(Seq<char>, Seq<char>)> {
        self.settings@
    }

    fn set_settings(&mut self, settings: TextMap) {
        self.settings = settings;
    }

    fn get_settings(&self) -> (settings: TextMap) {
        self.settings.copy()
    }
}

/// The configuration of the on-board charger.
#[derive(Debug)]
pub struct OnBoardChargerConfiguration {
    pub settings: TextMap,
}

impl ECUConfiguration for OnBoardChargerConfiguration {
    open spec fn settings(&self) -> Seq<(Seq<char>, Seq<char>)> {
        self.settings@
    }

    fn set_settings(&mut self, settings: TextMap) {
        self.settings = settings;
    }

    fn get_settings(&self) -> (settings: TextMap) {
        self.settings.copy()
    }
}

/// The configuration of the vehicle control unit.
#[derive(Debug)]
pub struct VehicleControlECUConfiguration {
    pub settings: TextMap,
}

impl ECUConfiguration for VehicleControlECUConfiguration {
    open spec fn settings(&self) -> Seq<(Seq<char>, Seq<char>)> {
        self.settings@
    }

    fn set_settings(&mut self, settings: TextMap) {
        self.settings = settings;
    }

    fn get_settings(&self) -> (settings: TextMap) {
        self.settings.copy()
    }
}

/// The diagnostics of a unit.
pub trait ECUDiagnostics {
    /// The findings, each with its value.
    spec fn findings(&self) -> Seq<(Seq<char>, Seq<char>)>;

    /// Runs the diagnostics: each finding with its value.
    fn run_diagnostics(&self) -> (diagnostics: TextMap)
        ensures
            diagnostics@ == self.findings(),
            distinct_keys(diagnostics@),
    ;
}

/// The diagnostics of the battery management system.
#[derive(Debug)]
pub struct BMSDiagnostics;

impl ECUDiagnostics for BMSDiagnostics {
    open spec fn findings(&self) -> Seq<(Seq<char>, Seq<char>)> {
        seq![("voltage"@, "400V"@), ("current"@, "100A"@)]
    }

    fn run_diagnostics(&self) -> (diagnostics: TextMap) {
        let mut diagnostics = TextMap::new();
        diagnostics.insert("voltage", "400V");
        proof {
            reveal_strlit("voltage");
            reveal_strlit("current");
            assert("voltage"@[0] != "current"@[0]);
            assert(!has_key(diagnostics@, "current"@));
        }
        diagnostics.insert("current", "100A");
        diagnostics
    }
}

/// The diagnostics of the motor controller.
#[derive(Debug)]
pub struct MotorControllerDiagnostics;

impl ECUDiagnostics for MotorControllerDiagnostics {
    open spec fn findings(&self) -> Seq<(Seq<char>, Seq<char>)> {
        seq![("rpm"@, "3000"@), ("torque"@, "250Nm"@)]
    }

    fn run_diagnostics(&self) -> (diagnostics: TextMap) {
        let mut diagnostics = TextMap::new();
        diagnostics.insert("rpm", "3000");
        proof {
            reveal_strlit("rpm");
            reveal_strlit("torque");
            assert("rpm"@.len() != "torque"@.len());
            assert(!has_key(diagnostics@, "torque"@));
        }
        diagnostics.insert("torque", "250Nm");
        diagnostics
    }
}

/// The diagnostics of the on-board charger.
#[derive(Debug)]
pub struct OnBoardChargerDiagnostics;

impl ECUDiagnostics for OnBoardChargerDiagnostics {
    open spec fn findings(&self) -> Seq<(Seq<char>, Seq<char>)> {
        seq![("input_voltage"@, "220V"@), ("charging_current"@, "50A"@)]
    }

    fn run_diagnostics(&self) -> (diagnostics: TextMap) {
        let mut diagnostics = TextMap::new();
        diagnostics.insert("input_voltage", "220V");
        proof {
            reveal_strlit("input_voltage");
            reveal_strlit("charging_current");
            assert("input_voltage"@.len() != "charging_current"@.len());
            assert(!has_key(diagnostics@, "charging_current"@));
        }
        diagnostics.insert("charging_current", "50A");
        diagnostics
    }
}

/// The diagnostics of the vehicle control unit.
#[derive(Debug)]
pub struct VehicleControlECUDiagnostics;

impl ECUDiagnostics for VehicleControlECUDiagnostics {
    open spec fn findings(&self) -> Seq<(Seq<char>, Seq<char>)> {
        seq![("gps_status"@, "Connected"@), ("network_status"@, "4G"@)]
    }

    fn run_diagnostics(&self) -> (diagnostics: TextMap) {
        let mut diagnostics = TextMap::new();
        diagnostics.insert("gps_status", "Connected");
        proof {
            reveal_strlit("gps_status");
            reveal_strlit("network_status");
            assert("gps_status"@.len() != "network_status"@.len());
            assert(!has_key(diagnostics@, "network_status"@));
        }
        diagnostics.insert("network_status", "4G");
        diagnostics
    }
}

/// Collects the data of a unit.
pub trait ECUDataCollector {
    /// The readings, each with its value.
    spec fn readings(&self) -> Seq<(Seq<char>, Seq<char>)>;

    /// Collects the data: each reading with its value.
    fn collect_data(&self) -> (data: TextMap)
        ensures
            data@ == self.readings(),
            distinct_keys(data@),
    ;
}

/// Collects the data of the battery management system.
#[derive(Debug)]
pub struct BMSDataCollector;

impl ECUDataCollector for BMSDataCollector {
    open spec fn readings(&self) -> Seq<(Seq<char>, Seq<char>)> {
        seq![("cell_voltages"@, "3.7V, 3.7V, 3.6V, ..."@), ("temperatures"@, "30C, 30C, 31C, ..."@)]
    }

    fn collect_data(&self) -> (data: TextMap) {
        let mut data = TextMap::new();
        data.insert("cell_voltages", "3.7V, 3.7V, 3.6V, ...");
        proof {
            reveal_strlit("cell_voltages");
            reveal_strlit("temperatures");
            assert("cell_voltages"@.len() != "temperatures"@.len());
            assert(!has_key(data@, "temperatures"@));
        }
        data.insert("temperatures", "30C, 30C, 31C, ...");
        data
    }
}

/// Collects the data of the motor controller.
#[derive(Debug)]
pub struct MotorControllerDataCollector;

impl ECUDataCollector for MotorControllerDataCollector {
    open spec fn readings(&self) -> Seq<(Seq<char>, Seq<char>)> {
        seq![("motor_temp"@, "85C"@), ("inverter_temp"@, "75C"@)]
    }

    fn collect_data(&self) -> (data: TextMap) {
        let mut data = TextMap::new();
        data.insert("motor_temp", "85C");
        proof {
            reveal_strlit("motor_temp");
            reveal_strlit("inverter_temp");
            assert("motor_temp"@.len() != "inverter_temp"@.len());
            assert(!has_key(data@, "inverter_temp"@));
        }
        data.insert("inverter_temp", "75C");
        data
    }
}

/// Collects the data of the on-board charger.
#[derive(Debug)]
pub struct OnBoardChargerDataCollector;

impl ECUDataCollector for OnBoardChargerDataCollector {
    open spec fn readings(&self) -> Seq<(Seq<char>, Seq<char>)> {
        seq![("charging_time"@, "2 hours"@), ("energy_delivered"@, "10 kWh"@)]
    }

    fn collect_data(&self) -> (data: TextMap) {
        let mut data = TextMap::new();
        data.insert("charging_time", "2 hours");
        proof {
            reveal_strlit("charging_time");
            reveal_strlit("energy_delivered");
            assert("charging_time"@.len() != "energy_delivered"@.len());
            assert(!has_key(data@, "energy_delivered"@));
        }
        data.insert("energy_delivered", "10 kWh");
        data
    }
}

/// Collects the data of the vehicle control unit.
#[derive(Debug)]
pub struct VehicleControlECUDataCollector;

impl ECUDataCollector for VehicleControlECUDataCollector {
    open spec fn readings(&self) -> Seq<(Seq<char>, Seq<char>)> {
        seq![("gps_location"@, "Lat: 40.7128, Long: -74.0060"@), ("network_type"@, "4G"@)]
    }

    fn collect_data(&self) -> (data: TextMap) {
        let mut data = TextMap::new();
        data.insert("gps_location", "Lat: 40.7128, Long: -74.0060");
        proof {
            reveal_strlit("gps_location");
            reveal_strlit("network_type");
            assert("gps_location"@[0] != "network_type"@[0]);
            assert(!has_key(data@, "network_type"@));
        }
        data.insert("network_type", "4G");
        data
    }
}

/// Makes the parts that belong to one unit.
pub trait ECUFactory {
    /// The unit this factory makes.
    type Unit: ECU;

    /// The configuration this factory makes.
    type Configuration: ECUConfiguration;

    /// The diagnostics this factory makes.
    type Diagnostics: ECUDiagnostics;

    /// The data collector this factory makes.
    type DataCollector: ECUDataCollector;

    /// Makes the unit.
    fn create_ecu(&self) -> (ecu: Self::Unit);

    /// Makes a configuration without settings.
    fn create_configuration(&self) -> (configuration: Self::Configuration)
        ensures
            configuration.settings().len() == 0,
    ;

    /// Makes the diagnostics.
    fn create_diagnostics(&self) -> (diagnostics: Self::Diagnostics);

    /// Makes the data collector.
    fn create_data_collector(&self) -> (collector: Self::DataCollector);
}

/// Makes the parts of the battery management system.
#[derive(Debug)]
pub struct BMSFactory;

impl ECUFactory for BMSFactory {
    type Unit = BMS;

    type Configuration = BMSConfiguration;

    type Diagnostics = BMSDiagnostics;

    type DataCollector = BMSDataCollector;

    fn create_ecu(&self) -> (ecu: BMS)
        ensures
            ecu == BMS,
    {
        BMS
    }

    fn create_configuration(&self) -> (configuration: BMSConfiguration) {
        BMSConfiguration { settings: TextMap::new() }
    }

    fn create_diagnostics(&self) -> (diagnostics: BMSDiagnostics)
        ensures
            diagnostics == BMSDiagnostics,
    {
        BMSDiagnostics
    }

    fn create_data_collector(&self) -> (collector: BMSDataCollector)
        ensures
            collector == BMSDataCollector,
    {
        BMSDataCollector
    }
}

/// Makes the parts of the motor controller.
#[derive(Debug)]
pub struct MotorControllerFactory;

impl ECUFactory for MotorControllerFactory {
    type Unit = MotorController;

    type Configuration = MotorControllerConfiguration;

    type Diagnostics = MotorControllerDiagnostics;

    type DataCollector = MotorControllerDataCollector;

    fn create_ecu(&self) -> (ecu: MotorController)
        ensures
            ecu == MotorController,
    {
        MotorController
    }

    fn create_configuration(&self) -> (configuration: MotorControllerConfiguration) {
        MotorControllerConfiguration { settings: TextMap::new() }
    }

    fn create_diagnostics(&self) -> (diagnostics: MotorControllerDiagnostics)
        ensures
            diagnostics == MotorControllerDiagnostics,
    {
        MotorControllerDiagnostics
    }

    fn create_data_collector(&self) -> (collector: MotorControllerDataCollector)
        ensures
            collector == MotorControllerDataCollector,
    {
        MotorControllerDataCollector
    }
}

/// Makes the parts of the on-board charger.
#[derive(Debug)]
pub struct OnBoardChargerFactory;

impl ECUFactory for OnBoardChargerFactory {
    type Unit = OnBoardCharger;

    type Configuration = OnBoardChargerConfiguration;

    type Diagnostics = OnBoardChargerDiagnostics;

    type DataCollector = OnBoardChargerDataCollector;

    fn create_ecu(&self) -> (ecu: OnBoardCharger)
        ensures
            ecu == OnBoardCharger,
    {
        OnBoardCharger
    }

    fn create_configuration(&self) -> (configuration: OnBoardChargerConfiguration) {
        OnBoardChargerConfiguration { settings: TextMap::new() }
    }

    fn create_diagnostics(&self) -> (diagnostics: OnBoardChargerDiagnostics)
        ensures
            diagnostics == OnBoardChargerDiagnostics,
    {
        OnBoardChargerDiagnostics
    }

    fn create_data_collector(&self) -> (collector: OnBoardChargerDataCollector)
        ensures
            collector == OnBoardChargerDataCollector,
    {
        OnBoardChargerDataCollector
    }
}

/// Makes the parts of the vehicle control unit.
#[derive(Debug)]
pub struct VehicleControlECUFactory;

impl ECUFactory for VehicleControlECUFactory {
    type Unit = VehicleControlECU;

    type Configuration = VehicleControlECUConfiguration;

    type Diagnostics = VehicleControlECUDiagnostics;

    type DataCollector = VehicleControlECUDataCollector;

    fn create_ecu(&self) -> (ecu: VehicleControlECU)
        ensures
            ecu.connected_ecus@ == seq![
                ConnectedEcu::Bms(BMS),
                ConnectedEcu::MotorController(MotorController),
                ConnectedEcu::OnBoardCharger(OnBoardCharger),
            ],
    {
        VehicleControlECU::new()
    }

    fn create_configuration(&self) -> (configuration: VehicleControlECUConfiguration) {
        VehicleControlECUConfiguration { settings: TextMap::new() }
    }

    fn create_diagnostics(&self) -> (diagnostics: VehicleControlECUDiagnostics)
        ensures
            diagnostics == VehicleControlECUDiagnostics,
    {
        VehicleControlECUDiagnostics
    }

    fn create_data_collector(&self) -> (collector: VehicleControlECUDataCollector)
        ensures
            collector == VehicleControlECUDataCollector,
    {
        VehicleControlECUDataCollector
    }
}

} // verus!
