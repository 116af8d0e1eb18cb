//! The two records that the device reports.

use vstd::prelude::*;

verus! {

/// What the device tells of itself.
#[derive(Clone, Debug)]
pub struct DeviceInfo {
    /// Model name.
    pub device_model: String,
    /// Hardware version.
    pub hardware_version: String,
    /// Firmware version.
    pub software_version: String,
    /// Seconds since the device was powered on.
    pub up_time: u32,
    /// Number of times the device was powered on.
    pub poweron_times: u32,
    /// Device name.
    pub device_name: String,
    /// Device passcode.
    pub device_passcode: String,
    /// Manufacturing date.
    pub manufacturing_date: String,
    /// Serial number.
    pub serial_number: String,
    /// Passcode.
    pub passcode: String,
    /// Free text set by the user.
    pub userdata: String,
    /// Passcode that guards the settings.
    pub setup_passcode: String,
    /// Second free text set by the user.
    pub userdata2: String,
}

/// A `DeviceInfo` as a mathematical value.
pub struct DeviceInfoView {
    pub device_model: Seq<char>,
    pub hardware_version: Seq<char>,
    pub software_version: Seq<char>,
    pub up_time: u32,
    pub poweron_times: u32,
    pub device_name: Seq<char>,
    pub device_passcode: Seq<char>,
    pub manufacturing_date: Seq<char>,
    pub serial_number: Seq<char>,
    pub passcode: Seq<char>,
    pub userdata: Seq<char>,
    pub setup_passcode: Seq<char>,
    pub userdata2: Seq<char>,
}

impl View for DeviceInfo {
    type V = DeviceInfoView;

    open spec fn view(&self) -> DeviceInfoView {
        DeviceInfoView {
            device_model: self.device_model@,
            hardware_version: self.hardware_version@,
            software_version: self.software_version@,
            up_time: self.up_time,
            poweron_times: self.poweron_times,
            device_name: self.device_name@,
            device_passcode: self.device_passcode@,
            manufacturing_date: self.manufacturing_date@,
            serial_number: self.serial_number@,
            passcode: self.passcode@,
            userdata: self.userdata@,
            setup_passcode: self.setup_passcode@,
            userdata2: self.userdata2@,
        }
    }
}

impl DeviceInfoView {
    /// The record with every text empty and every number zero.
    pub open spec fn empty() -> DeviceInfoView {
        DeviceInfoView {
            device_model: Seq::empty(),
            hardware_version: Seq::empty(),
            software_version: Seq::empty(),
            up_time: 0,
            poweron_times: 0,
            device_name: Seq::empty(),
            device_passcode: Seq::empty(),
            manufacturing_date: Seq::empty(),
            serial_number: Seq::empty(),
            passcode: Seq::empty(),
            userdata: Seq::empty(),
            setup_passcode: Seq::empty(),
            userdata2: Seq::empty(),
        }
    }
}

impl Default for DeviceInfo {
    fn default() -> (info: DeviceInfo)
        ensures
            info@ == DeviceInfoView::empty(),
    {
        DeviceInfo {
            device_model: String::new(),
            hardware_version: String::new(),
            software_version: String::new(),
            up_time: 0,
            poweron_times: 0,
            device_name: String::new(),
            device_passcode: String::new(),
            manufacturing_date: String::new(),
            serial_number: String::new(),
            passcode: String::new(),
            userdata: String::new(),
            setup_passcode: String::new(),
            userdata2: String::new(),
        }
    }
}

/// What the device measures of the battery. Every quantity is held as the
/// whole number of steps that the device reports, so that nothing is
/// rounded: a voltage in millivolts, a current in milliamperes, a power in
/// milliwatts, a resistance in milliohms, a capacity in
/// milliampere-hours, a temperature in tenths of a degree Celsius.
#[derive(Clone, Debug)]
pub struct CellData {
    /// Voltage of each cell in use, in millivolts.
    pub cell_voltage: Vec<u16>,
    /// Average cell voltage, in millivolts.
    pub average_cell_voltage: u16,
    /// Largest difference between two cell voltages, in millivolts.
    pub delta_cell_voltage: u16,
    /// Balance current, in milliamperes.
    pub balance_current: i16,
    /// Resistance of each cell in use, in milliohms.
    pub cell_resistance: Vec<u16>,
    /// Voltage between the battery terminals, in millivolts.
    pub battery_voltage: u32,
    /// Battery power, in milliwatts.
    pub battery_power: u32,
    /// Battery current, in milliamperes.
    pub battery_current: i32,
    /// Temperature at each battery sensor, in tenths of a degree Celsius.
    pub battery_temperature: Vec<i16>,
    /// Temperature of the power transistors, in tenths of a degree Celsius.
    pub mosfet_temperature: i16,
    /// Remaining capacity, in percent.
    pub remain_percent: u8,
    /// Remaining capacity, in milliampere-hours.
    pub remain_capacity: u32,
    /// Nominal capacity, in milliampere-hours.
    pub nominal_capacity: u32,
    /// Number of charge cycles.
    pub cycle_count: u32,
    /// Capacity moved over all cycles, in milliampere-hours.
    pub cycle_capacity: u32,
    /// Seconds since the device was powered on.
    pub up_time: u32,
}

/// A `CellData` as a mathematical value.
pub struct CellDataView {
    pub cell_voltage: Seq<u16>,
    pub average_cell_voltage: u16,
    pub delta_cell_voltage: u16,
    pub balance_current: i16,
    pub cell_resistance: Seq<u16>,
    pub battery_voltage: u32,
    pub battery_power: u32,
    pub battery_current: i32,
    pub battery_temperature: Seq<i16>,
    pub mosfet_temperature: i16,
    pub remain_percent: u8,
    pub remain_capacity: u32,
    pub nominal_capacity: u32,
    pub cycle_count: u32,
    pub cycle_capacity: u32,
    pub up_time: u32,
}

impl View for CellData {
    type V = CellDataView;

    open spec fn view(&self) -> CellDataView {
        CellDataView {
            cell_voltage: self.cell_voltage@,
            average_cell_voltage: self.average_cell_voltage,
            delta_cell_voltage: self.delta_cell_voltage,
            balance_current: self.balance_current,
            cell_resistance: self.cell_resistance@,
            battery_voltage: self.battery_voltage,
            battery_power: self.battery_power,
            battery_current: self.battery_current,
            battery_temperature: self.battery_temperature@,
            mosfet_temperature: self.mosfet_temperature,
            remain_percent: self.remain_percent,
            remain_capacity: self.remain_capacity,
            nominal_capacity: self.nominal_capacity,
            cycle_count: self.cycle_count,
            cycle_capacity: self.cycle_capacity,
            up_time: self.up_time,
        }
    }
}

impl CellDataView {
    /// The record with no cell, no sensor and every number zero.
    pub open spec fn empty() -> CellDataView {
        CellDataView {
            cell_voltage: Seq::empty(),
            average_cell_voltage: 0,
            delta_cell_voltage: 0,
            balance_current: 0,
            cell_resistance: Seq::empty(),
            battery_voltage: 0,
            battery_power: 0,
            battery_current: 0,
            battery_temperature: Seq::empty(),
            mosfet_temperature: 0,
            remain_percent: 0,
            remain_capacity: 0,
            nominal_capacity: 0,
            cycle_count: 0,
            cycle_capacity: 0,
            up_time: 0,
        }
    }
}

impl Default for CellData {
    fn default() -> (data: CellData)
        ensures
            data@ == CellDataView::empty(),
    {
        CellData {
            cell_voltage: Vec::new(),
            average_cell_voltage: 0,
            delta_cell_voltage: 0,
            balance_current: 0,
            cell_resistance: Vec::new(),
            battery_voltage: 0,
            battery_power: 0,
            battery_current: 0,
            battery_temperature: Vec::new(),
            mosfet_temperature: 0,
            remain_percent: 0,
            remain_capacity: 0,
            nominal_capacity: 0,
            cycle_count: 0,
            cycle_capacity: 0,
            up_time: 0,
        }
    }
}

} // verus!
