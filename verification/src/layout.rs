//! Where each field of a record stands. Offsets count from the first byte
//! of the response header; a field ends where the next one starts.

use vstd::prelude::*;

verus! {

/// Offset of the byte that tells which record a response carries.
pub const RECORD_TYPE_AT: usize = 4;

// The device information record. Every text field ends in a zero byte.

pub const DEVICE_MODEL_AT: usize = 6;

pub const HARDWARE_VERSION_AT: usize = 22;

pub const SOFTWARE_VERSION_AT: usize = 30;

pub const DEVICE_UP_TIME_AT: usize = 38;

pub const POWERON_TIMES_AT: usize = 42;

pub const DEVICE_NAME_AT: usize = 46;

pub const DEVICE_PASSCODE_AT: usize = 62;

pub const MANUFACTURING_DATE_AT: usize = 78;

pub const SERIAL_NUMBER_AT: usize = 86;

pub const PASSCODE_AT: usize = 97;

pub const USERDATA_AT: usize = 102;

pub const SETUP_PASSCODE_AT: usize = 118;

pub const USERDATA2_AT: usize = 134;

/// Number of bytes that a device information record takes, header included.
pub const DEVICE_INFO_LEN: usize = 150;

// The cell data record. Numbers stand low byte first.

/// Number of cells that the record has room for.
pub const CELL_COUNT: usize = 24;

/// Number of temperature sensors at the battery.
pub const SENSOR_COUNT: usize = 2;

/// One voltage of two bytes for each of the `CELL_COUNT` cells.
pub const CELL_VOLTAGE_AT: usize = 6;

/// One bit for each cell, lowest bit of the first byte first: set where the
/// cell is in use.
pub const ENABLED_CELLS_AT: usize = 54;

pub const AVERAGE_CELL_VOLTAGE_AT: usize = 58;

pub const DELTA_CELL_VOLTAGE_AT: usize = 60;

/// One resistance of two bytes for each of the `CELL_COUNT` cells.
pub const CELL_RESISTANCE_AT: usize = 64;

pub const MOSFET_TEMPERATURE_AT: usize = 112;

pub const BATTERY_VOLTAGE_AT: usize = 118;

pub const BATTERY_POWER_AT: usize = 122;

pub const BATTERY_CURRENT_AT: usize = 126;

/// One temperature of two bytes for each of the `SENSOR_COUNT` sensors.
pub const BATTERY_TEMPERATURE_AT: usize = 130;

pub const BALANCE_CURRENT_AT: usize = 138;

pub const REMAIN_PERCENT_AT: usize = 141;

pub const REMAIN_CAPACITY_AT: usize = 142;

pub const NOMINAL_CAPACITY_AT: usize = 146;

pub const CYCLE_COUNT_AT: usize = 150;

pub const CYCLE_CAPACITY_AT: usize = 154;

pub const CELL_UP_TIME_AT: usize = 162;

/// Number of bytes that a cell data record takes, header included.
pub const CELL_DATA_LEN: usize = 166;

/// Number of steps that make one volt, ampere, watt, ohm or ampere-hour.
pub const STEPS_PER_UNIT: u16 = 1000;

/// Number of steps that make one degree Celsius.
pub const STEPS_PER_DEGREE: u16 = 10;

} // verus!
