//! The building-management protocols as the controller exposes them: their status and
//! the demonstration Modbus transport.
use vstd::prelude::*;

verus! {

/// Aggregate state of the building-management protocol stacks.
#[derive(Debug, Clone)]
pub struct ProtocolStatus {
    pub bacnet_enabled: bool,
    pub bacnet_devices: usize,
    pub modbus_enabled: bool,
    pub modbus_devices: usize,
    pub knx_enabled: bool,
    pub knx_devices: usize,
    pub total_points: usize,
    pub points_online: usize,
}

/// Modbus transport used to reach a device.
#[derive(Debug, Clone, Copy, PartialEq, Eq)]
pub enum ModbusConnectionType {
    Tcp,
    Rtu,
    Ascii,
}

/// Register encodings understood by the Modbus layer.
#[derive(Debug, Clone, Copy, PartialEq, Eq)]
pub enum ModbusDataType {
    Coil,
    DiscreteInput,
    HoldingRegister,
    InputRegister,
    Float32,
    Int16,
    Uint16,
    Int32,
    Uint32,
}

/// Reads `count` consecutive holding registers starting at `start_register`.
/// The demonstration transport answers every register with its own address.
pub fn read_modbus_registers(
    device_address: String,
    slave_id: u8,
    start_register: u16,
    count: u16,
) -> (res: Result<Vec<u16>, String>)
    requires
        start_register as int + count as int <= 65536,
    ensures
        res matches Ok(values) && values@.len() == count as int && (forall|i: int|
            0 <= i < count ==> #[trigger] values@[i] == start_register as int + i),
{
    let mut values: Vec<u16> = Vec::new();
    let mut i: u16 = 0;
    while i < count
        invariant
            i <= count,
            start_register as int + count as int <= 65536,
            values@.len() == i as int,
            forall|j: int| 0 <= j < i ==> #[trigger] values@[j] == start_register as int + j,
        decreases count - i,
    {
        values.push(start_register + i);
        i = i + 1;
    }
    Ok(values)
}

/// Writes one holding register; the demonstration transport accepts every write.
pub fn write_modbus_register(
    device_address: String,
    slave_id: u8,
    register: u16,
    value: u16,
) -> (res: Result<(), String>)
    ensures
        res is Ok,
{
    Ok(())
}

/// Reports which protocol stacks are enabled and how many points they expose.
pub fn get_protocol_status() -> (res: Result<ProtocolStatus, String>)
    ensures
        res matches Ok(s) && s.bacnet_enabled && s.bacnet_devices == 2 && s.modbus_enabled
            && s.modbus_devices == 2 && !s.knx_enabled && s.knx_devices == 0 && s.total_points
            == 15 && s.points_online == 14,
{
    Ok(
        ProtocolStatus {
            bacnet_enabled: true,
            bacnet_devices: 2,
            modbus_enabled: true,
            modbus_devices: 2,
            knx_enabled: false,
            knx_devices: 0,
            total_points: 15,
            points_online: 14,
        },
    )
}

} // verus!
