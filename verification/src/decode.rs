//! Decoding a response into a record. The span handed in holds the response
//! from its header on, without the checksum behind it.

use crate::error::{Error, ErrorView};
use crate::layout::{
    AVERAGE_CELL_VOLTAGE_AT, BALANCE_CURRENT_AT, BATTERY_CURRENT_AT, BATTERY_POWER_AT,
    BATTERY_TEMPERATURE_AT, BATTERY_VOLTAGE_AT, CELL_COUNT, CELL_DATA_LEN, CELL_RESISTANCE_AT,
    CELL_UP_TIME_AT, CELL_VOLTAGE_AT, CYCLE_CAPACITY_AT, CYCLE_COUNT_AT, DELTA_CELL_VOLTAGE_AT,
    DEVICE_INFO_LEN, DEVICE_MODEL_AT, DEVICE_NAME_AT, DEVICE_PASSCODE_AT, DEVICE_UP_TIME_AT,
    ENABLED_CELLS_AT, HARDWARE_VERSION_AT, MANUFACTURING_DATE_AT, MOSFET_TEMPERATURE_AT,
    NOMINAL_CAPACITY_AT, PASSCODE_AT, POWERON_TIMES_AT, RECORD_TYPE_AT, REMAIN_CAPACITY_AT,
    REMAIN_PERCENT_AT, SENSOR_COUNT, SERIAL_NUMBER_AT, SETUP_PASSCODE_AT, SOFTWARE_VERSION_AT,
    USERDATA2_AT, USERDATA_AT,
};
use crate::protocol::{RECORD_TYPE_CELL_DATA, RECORD_TYPE_DEVICE_INFO};
use crate::types::{CellData, CellDataView, DeviceInfo, DeviceInfoView};
use crate::wire::{
    bit_is_set, decode_text, le_i16, le_i32, le_u16, le_u32, read_i16, read_i32, read_u16,
    read_u32, test_bit, text_of,
};
use vstd::prelude::*;
use vstd::slice::slice_subrange;

verus! {

/// Why a span cannot hold the record of type `record_type`, which takes
/// `required` bytes, if it cannot. The record type is looked at first: a
/// span that carries another record is told apart from one that is cut off.
pub open spec fn frame_rejection(data: Seq<u8>, record_type: u8, required: int) -> Option<
    ErrorView,
> {
    if data.len() <= RECORD_TYPE_AT {
        Some(ErrorView::NotEnoughData)
    } else if data[RECORD_TYPE_AT as int] != record_type {
        Some(ErrorView::BadRecordType)
    } else if data.len() < required {
        Some(ErrorView::NotEnoughData)
    } else {
        None
    }
}

/// The text of the field that takes the bytes from `from` up to `to`.
pub open spec fn text_at(data: Seq<u8>, from: usize, to: usize) -> Option<Seq<char>> {
    text_of(data.subrange(from as int, to as int))
}

/// Checks that `data` carries the record type asked for and is long enough.
pub(crate) fn check_frame(data: &[u8], record_type: u8, required: usize) -> (result: Result<
    (),
    Error,
>)
    requires
        required > RECORD_TYPE_AT,
    ensures
        match result {
            Ok(_) => frame_rejection(data@, record_type, required as int) is None,
            Err(e) => frame_rejection(data@, record_type, required as int) == Some(e@),
        },
{
    if data.len() <= RECORD_TYPE_AT {
        Err(Error::NotEnoughData)
    } else if data[RECORD_TYPE_AT] != record_type {
        Err(Error::BadRecordType)
    } else if data.len() < required {
        Err(Error::NotEnoughData)
    } else {
        Ok(())
    }
}

/// Reads the text field that takes the bytes from `from` up to `to`. A
/// field without text gives the error that carries `name`.
pub(crate) fn read_text(data: &[u8], from: usize, to: usize, name: &str) -> (result: Result<
    String,
    Error,
>)
    requires
        from <= to <= data@.len(),
    ensures
        match result {
            Ok(text) => text_at(data@, from, to) == Some(text@),
            Err(e) => text_at(data@, from, to) is None && e@ == (ErrorView::InvalidData {
                msg: name@,
            }),
        },
{
    match decode_text(slice_subrange(data, from, to)) {
        Some(text) => Ok(text),
        None => Err(Error::InvalidData { msg: name.to_owned() }),
    }
}

/// The name of the first text field of a device information record that
/// holds no text, if there is one.
pub open spec fn first_field_without_text(data: Seq<u8>) -> Option<Seq<char>> {
    if text_at(data, DEVICE_MODEL_AT, HARDWARE_VERSION_AT) is None {
        Some("device_model"@)
    } else if text_at(data, HARDWARE_VERSION_AT, SOFTWARE_VERSION_AT) is None {
        Some("hardware_version"@)
    } else if text_at(data, SOFTWARE_VERSION_AT, DEVICE_UP_TIME_AT) is None {
        Some("software_version"@)
    } else if text_at(data, DEVICE_NAME_AT, DEVICE_PASSCODE_AT) is None {
        Some("device_name"@)
    } else if text_at(data, DEVICE_PASSCODE_AT, MANUFACTURING_DATE_AT) is None {
        Some("device_passcode"@)
    } else if text_at(data, MANUFACTURING_DATE_AT, SERIAL_NUMBER_AT) is None {
        Some("manufacturing_date"@)
    } else if text_at(data, SERIAL_NUMBER_AT, PASSCODE_AT) is None {
        Some("serial_number"@)
    } else if text_at(data, PASSCODE_AT, USERDATA_AT) is None {
        Some("passcode"@)
    } else if text_at(data, USERDATA_AT, SETUP_PASSCODE_AT) is None {
        Some("userdata"@)
    } else if text_at(data, SETUP_PASSCODE_AT, USERDATA2_AT) is None {
        Some("setup_passcode"@)
    } else if text_at(data, USERDATA2_AT, DEVICE_INFO_LEN) is None {
        Some("userdata2"@)
    } else {
        None
    }
}

/// The device information that a span of `DEVICE_INFO_LEN` bytes or more
/// holds, where every text field holds text.
pub open spec fn device_info_of(data: Seq<u8>) -> DeviceInfoView {
    DeviceInfoView {
        device_model: text_at(data, DEVICE_MODEL_AT, HARDWARE_VERSION_AT).unwrap(),
        hardware_version: text_at(data, HARDWARE_VERSION_AT, SOFTWARE_VERSION_AT).unwrap(),
        software_version: text_at(data, SOFTWARE_VERSION_AT, DEVICE_UP_TIME_AT).unwrap(),
        up_time: le_u32(data, DEVICE_UP_TIME_AT as int),
        poweron_times: le_u32(data, POWERON_TIMES_AT as int),
        device_name: text_at(data, DEVICE_NAME_AT, DEVICE_PASSCODE_AT).unwrap(),
        device_passcode: text_at(data, DEVICE_PASSCODE_AT, MANUFACTURING_DATE_AT).unwrap(),
        manufacturing_date: text_at(data, MANUFACTURING_DATE_AT, SERIAL_NUMBER_AT).unwrap(),
        serial_number: text_at(data, SERIAL_NUMBER_AT, PASSCODE_AT).unwrap(),
        passcode: text_at(data, PASSCODE_AT, USERDATA_AT).unwrap(),
        userdata: text_at(data, USERDATA_AT, SETUP_PASSCODE_AT).unwrap(),
        setup_passcode: text_at(data, SETUP_PASSCODE_AT, USERDATA2_AT).unwrap(),
        userdata2: text_at(data, USERDATA2_AT, DEVICE_INFO_LEN).unwrap(),
    }
}

/// What decoding `data` as device information gives: the record, or the
/// reason why `data` holds none.
pub open spec fn decode_device_info(data: Seq<u8>) -> Result<DeviceInfoView, ErrorView> {
    match frame_rejection(data, RECORD_TYPE_DEVICE_INFO, DEVICE_INFO_LEN as int) {
        Some(rejection) => Err(rejection),
        None => match first_field_without_text(data) {
            Some(name) => Err(ErrorView::InvalidData { msg: name }),
            None => Ok(device_info_of(data)),
        },
    }
}

impl DeviceInfo {
    /// Decodes a device information record. A span with another record type
    /// is rejected as such, one that is too short as lacking data, and one
    /// with a text field that holds no text with the name of the first such
    /// field.
    pub fn decode(data: &[u8]) -> (result: Result<DeviceInfo, Error>)
        ensures
            match result {
                Ok(info) => decode_device_info(data@) == Ok::<DeviceInfoView, ErrorView>(info@),
                Err(e) => decode_device_info(data@) == Err::<DeviceInfoView, ErrorView>(e@),
            },
            data@.len() > RECORD_TYPE_AT && data@[RECORD_TYPE_AT as int] == RECORD_TYPE_CELL_DATA
                ==> result matches Err(Error::BadRecordType),
            data@.len() < DEVICE_INFO_LEN && (data@.len() > RECORD_TYPE_AT
                ==> data@[RECORD_TYPE_AT as int] == RECORD_TYPE_DEVICE_INFO)
                ==> result matches Err(Error::NotEnoughData),
    {
        match check_frame(data, RECORD_TYPE_DEVICE_INFO, DEVICE_INFO_LEN) {
            Ok(_) => {},
            Err(e) => {
                return Err(e);
            },
        }
        let device_model = match read_text(data, DEVICE_MODEL_AT, HARDWARE_VERSION_AT, "device_model") {
            Ok(text) => text,
            Err(e) => {
                return Err(e);
            },
        };
        let hardware_version = match read_text(data, HARDWARE_VERSION_AT, SOFTWARE_VERSION_AT, "hardware_version") {
            Ok(text) => text,
            Err(e) => {
                return Err(e);
            },
        };
        let software_version = match read_text(data, SOFTWARE_VERSION_AT, DEVICE_UP_TIME_AT, "software_version") {
            Ok(text) => text,
            Err(e) => {
                return Err(e);
            },
        };
        let up_time = read_u32(data, DEVICE_UP_TIME_AT);
        let poweron_times = read_u32(data, POWERON_TIMES_AT);
        let device_name = match read_text(data, DEVICE_NAME_AT, DEVICE_PASSCODE_AT, "device_name") {
            Ok(text) => text,
            Err(e) => {
                return Err(e);
            },
        };
        let device_passcode = match read_text(data, DEVICE_PASSCODE_AT, MANUFACTURING_DATE_AT, "device_passcode") {
            Ok(text) => text,
            Err(e) => {
                return Err(e);
            },
        };
        let manufacturing_date = match read_text(data, MANUFACTURING_DATE_AT, SERIAL_NUMBER_AT, "manufacturing_date") {
            Ok(text) => text,
            Err(e) => {
                return Err(e);
            },
        };
        let serial_number = match read_text(data, SERIAL_NUMBER_AT, PASSCODE_AT, "serial_number") {
            Ok(text) => text,
            Err(e) => {
                return Err(e);
            },
        };
        let passcode = match read_text(data, PASSCODE_AT, USERDATA_AT, "passcode") {
            Ok(text) => text,
            Err(e) => {
                return Err(e);
            },
        };
        let userdata = match read_text(data, USERDATA_AT, SETUP_PASSCODE_AT, "userdata") {
            Ok(text) => text,
            Err(e) => {
                return Err(e);
            },
        };
        let setup_passcode = match read_text(data, SETUP_PASSCODE_AT, USERDATA2_AT, "setup_passcode") {
            Ok(text) => text,
            Err(e) => {
                return Err(e);
            },
        };
        let userdata2 = match read_text(data, USERDATA2_AT, DEVICE_INFO_LEN, "userdata2") {
            Ok(text) => text,
            Err(e) => {
                return Err(e);
            },
        };
        Ok(
            DeviceInfo {
                device_model,
                hardware_version,
                software_version,
                up_time,
                poweron_times,
                device_name,
                device_passcode,
                manufacturing_date,
                serial_number,
                passcode,
                userdata,
                setup_passcode,
                userdata2,
            },
        )
    }
}

/// The cell with number `cell`, counted from zero, is in use.
pub open spec fn cell_enabled(data: Seq<u8>, cell: int) -> bool {
    bit_is_set(data[ENABLED_CELLS_AT + cell / 8], (cell % 8) as u8)
}

/// The two-byte values of the cells in use among the first `cells` cells,
/// in the order of the cells; the value of cell number `c` stands at offset
/// `at + 2 * c`.
pub open spec fn enabled_cell_values(data: Seq<u8>, at: int, cells: int) -> Seq<u16>
    decreases cells,
{
    if cells <= 0 {
        Seq::empty()
    } else {
        let before = enabled_cell_values(data, at, cells - 1);
        if cell_enabled(data, cells - 1) {
            before.push(le_u16(data, at + 2 * (cells - 1)))
        } else {
            before
        }
    }
}

/// The temperatures at the battery sensors, in the order of the sensors.
pub open spec fn sensor_values(data: Seq<u8>) -> Seq<i16> {
    Seq::new(SENSOR_COUNT as nat, |sensor: int| le_i16(data, BATTERY_TEMPERATURE_AT + 2 * sensor))
}

/// The cell data that a span of `CELL_DATA_LEN` bytes or more holds.
pub open spec fn cell_data_of(data: Seq<u8>) -> CellDataView {
    CellDataView {
        cell_voltage: enabled_cell_values(data, CELL_VOLTAGE_AT as int, CELL_COUNT as int),
        average_cell_voltage: le_u16(data, AVERAGE_CELL_VOLTAGE_AT as int),
        delta_cell_voltage: le_u16(data, DELTA_CELL_VOLTAGE_AT as int),
        balance_current: le_i16(data, BALANCE_CURRENT_AT as int),
        cell_resistance: enabled_cell_values(data, CELL_RESISTANCE_AT as int, CELL_COUNT as int),
        battery_voltage: le_u32(data, BATTERY_VOLTAGE_AT as int),
        battery_power: le_u32(data, BATTERY_POWER_AT as int),
        battery_current: le_i32(data, BATTERY_CURRENT_AT as int),
        battery_temperature: sensor_values(data),
        mosfet_temperature: le_i16(data, MOSFET_TEMPERATURE_AT as int),
        remain_percent: data[REMAIN_PERCENT_AT as int],
        remain_capacity: le_u32(data, REMAIN_CAPACITY_AT as int),
        nominal_capacity: le_u32(data, NOMINAL_CAPACITY_AT as int),
        cycle_count: le_u32(data, CYCLE_COUNT_AT as int),
        cycle_capacity: le_u32(data, CYCLE_CAPACITY_AT as int),
        up_time: le_u32(data, CELL_UP_TIME_AT as int),
    }
}

/// What decoding `data` as cell data gives: the record, or the reason why
/// `data` holds none. A remaining capacity above one hundred percent is not
/// accepted.
pub open spec fn decode_cell_data(data: Seq<u8>) -> Result<CellDataView, ErrorView> {
    match frame_rejection(data, RECORD_TYPE_CELL_DATA, CELL_DATA_LEN as int) {
        Some(rejection) => Err(rejection),
        None => if data[REMAIN_PERCENT_AT as int] > 100 {
            Err(ErrorView::InvalidData { msg: "remain_percent"@ })
        } else {
            Ok(cell_data_of(data))
        },
    }
}

/// No span holds both records: the record type tells them apart.
pub proof fn lemma_records_exclude_each_other(data: Seq<u8>)
    ensures
        !(decode_device_info(data) is Ok && decode_cell_data(data) is Ok),
{
}

/// Reads, for each cell in use, the two-byte value that the table at
/// offset `at` holds for it.
pub(crate) fn read_enabled_cells(data: &[u8], at: usize) -> (values: Vec<u16>)
    requires
        data@.len() >= CELL_DATA_LEN,
        at + 2 * CELL_COUNT <= data@.len(),
    ensures
        values@ == enabled_cell_values(data@, at as int, CELL_COUNT as int),
{
    let mut values: Vec<u16> = Vec::new();
    let mut cell: usize = 0;
    while cell < CELL_COUNT
        invariant
            cell <= CELL_COUNT,
            data@.len() >= CELL_DATA_LEN,
            at + 2 * CELL_COUNT <= data@.len(),
            values@ == enabled_cell_values(data@, at as int, cell as int),
        decreases CELL_COUNT - cell,
    {
        let mask = data[ENABLED_CELLS_AT + cell / 8];
        if test_bit(mask, (cell % 8) as u8) {
            values.push(read_u16(data, at + 2 * cell));
        }
        cell += 1;
    }
    values
}

/// Reads the temperature at each battery sensor.
pub(crate) fn read_sensors(data: &[u8]) -> (values: Vec<i16>)
    requires
        data@.len() >= CELL_DATA_LEN,
    ensures
        values@ == sensor_values(data@),
{
    let mut values: Vec<i16> = Vec::new();
    let mut sensor: usize = 0;
    while sensor < SENSOR_COUNT
        invariant
            sensor <= SENSOR_COUNT,
            data@.len() >= CELL_DATA_LEN,
            values@.len() == sensor,
            forall|i: int|
                0 <= i < sensor ==> values@[i] == le_i16(data@, BATTERY_TEMPERATURE_AT + 2 * i),
        decreases SENSOR_COUNT - sensor,
    {
        values.push(read_i16(data, BATTERY_TEMPERATURE_AT + 2 * sensor));
        sensor += 1;
    }
    assert(values@ =~= sensor_values(data@));
    values
}

impl CellData {
    /// Decodes a cell data record. A span with another record type is
    /// rejected as such, one that is too short as lacking data, and one
    /// that claims more than one hundred percent of remaining capacity as
    /// invalid.
    pub fn decode(data: &[u8]) -> (result: Result<CellData, Error>)
        ensures
            match result {
                Ok(cells) => decode_cell_data(data@) == Ok::<CellDataView, ErrorView>(cells@),
                Err(e) => decode_cell_data(data@) == Err::<CellDataView, ErrorView>(e@),
            },
            data@.len() > RECORD_TYPE_AT && data@[RECORD_TYPE_AT as int]
                == RECORD_TYPE_DEVICE_INFO ==> result matches Err(Error::BadRecordType),
            data@.len() < CELL_DATA_LEN && (data@.len() > RECORD_TYPE_AT ==> data@[RECORD_TYPE_AT as int]
                == RECORD_TYPE_CELL_DATA) ==> result matches Err(Error::NotEnoughData),
    {
        match check_frame(data, RECORD_TYPE_CELL_DATA, CELL_DATA_LEN) {
            Ok(_) => {},
            Err(e) => {
                return Err(e);
            },
        }
        let remain_percent = data[REMAIN_PERCENT_AT];
        if remain_percent > 100 {
            return Err(Error::InvalidData { msg: "remain_percent".to_owned() });
        }
        Ok(
            CellData {
                cell_voltage: read_enabled_cells(data, CELL_VOLTAGE_AT),
                average_cell_voltage: read_u16(data, AVERAGE_CELL_VOLTAGE_AT),
                delta_cell_voltage: read_u16(data, DELTA_CELL_VOLTAGE_AT),
                balance_current: read_i16(data, BALANCE_CURRENT_AT),
                cell_resistance: read_enabled_cells(data, CELL_RESISTANCE_AT),
                battery_voltage: read_u32(data, BATTERY_VOLTAGE_AT),
                battery_power: read_u32(data, BATTERY_POWER_AT),
                battery_current: read_i32(data, BATTERY_CURRENT_AT),
                battery_temperature: read_sensors(data),
                mosfet_temperature: read_i16(data, MOSFET_TEMPERATURE_AT),
                remain_percent,
                remain_capacity: read_u32(data, REMAIN_CAPACITY_AT),
                nominal_capacity: read_u32(data, NOMINAL_CAPACITY_AT),
                cycle_count: read_u32(data, CYCLE_COUNT_AT),
                cycle_capacity: read_u32(data, CYCLE_CAPACITY_AT),
                up_time: read_u32(data, CELL_UP_TIME_AT),
            },
        )
    }
}

} // verus!
