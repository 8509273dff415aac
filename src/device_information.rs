//! The Device Information service: five read-only strings that identify the
//! device, and the attributes they occupy in the attribute table.

use vstd::prelude::*;

verus! {

/// 16-bit UUID of the Device Information service.
pub const DEVICE_INFORMATION_UUID16: u16 = 0x180a;

/// Characteristic UUID: Manufacturer Name String.
pub const MANUFACTURER_NAME_STRING: u16 = 0x2a29;

/// Characteristic UUID: Model Number String.
pub const MODEL_NUMBER_STRING: u16 = 0x2a24;

/// Characteristic UUID: Serial Number String.
pub const SERIAL_NUMBER_STRING: u16 = 0x2a25;

/// Characteristic UUID: Hardware Revision String.
pub const HARDWARE_REVISION_STRING: u16 = 0x2a27;

/// Characteristic UUID: Firmware Revision String.
pub const FIRMWARE_REVISION_STRING: u16 = 0x2a26;

/// Number of characteristics in the service.
pub const CHARACTERISTIC_COUNT: usize = 5;

/// Each read-only characteristic adds a declaration and a value to the
/// attribute table, and the service adds its own declaration.
pub const ATTRIBUTE_COUNT: usize = CHARACTERISTIC_COUNT * 2 + 1;

/// Read-only characteristics need no client configuration descriptors.
pub const CCCD_COUNT: usize = 0;

/// Name of the manufacturer of the device.
pub const MANUFACTURER_NAME: &'static str = "Sauerstoff.ca";

/// Model number of the device.
pub const MODEL_NUMBER: &'static str = "Afterglow-01";

/// Serial number of the device.
pub const SERIAL_NUMBER: &'static str = "AG-202507-0001";

/// What an entry of the attribute table declares.
#[derive(Debug, Clone, Copy, PartialEq, Eq, Structural)]
pub enum AttributeKind {
    /// The primary service declaration.
    PrimaryService,
    /// A characteristic declaration.
    CharacteristicDeclaration,
    /// A characteristic value.
    CharacteristicValue,
}

/// One entry of the attribute table: its kind, the UUID of the service or
/// characteristic it belongs to, and the value a client reads, if it holds
/// one.
#[derive(Debug, Clone, Copy)]
pub struct Attribute {
    pub kind: AttributeKind,
    pub uuid: u16,
    pub value: Option<&'static str>,
}

/// A read-only characteristic: its UUID and its value.
#[derive(Debug, Clone, Copy)]
pub struct Characteristic {
    pub uuid: u16,
    pub value: &'static str,
}

/// The identity strings this service exposes, fixed for the life of the
/// device and the same on every connection.
#[derive(Debug, Clone, Copy)]
pub struct DeviceInformation {
    pub manufacturer_name: &'static str,
    pub model_number: &'static str,
    pub serial_number: &'static str,
    pub hardware_revision: &'static str,
    pub firmware_revision: &'static str,
}

/// The characteristics in declaration order.
pub open spec fn spec_characteristics(d: DeviceInformation) -> Seq<Characteristic> {
    seq![
        Characteristic { uuid: MANUFACTURER_NAME_STRING, value: d.manufacturer_name },
        Characteristic { uuid: MODEL_NUMBER_STRING, value: d.model_number },
        Characteristic { uuid: SERIAL_NUMBER_STRING, value: d.serial_number },
        Characteristic { uuid: HARDWARE_REVISION_STRING, value: d.hardware_revision },
        Characteristic { uuid: FIRMWARE_REVISION_STRING, value: d.firmware_revision },
    ]
}

/// The declaration entry of a characteristic.
pub open spec fn declaration_of(c: Characteristic) -> Attribute {
    Attribute { kind: AttributeKind::CharacteristicDeclaration, uuid: c.uuid, value: None }
}

/// The value entry of a characteristic.
pub open spec fn value_of(c: Characteristic) -> Attribute {
    Attribute { kind: AttributeKind::CharacteristicValue, uuid: c.uuid, value: Some(c.value) }
}

/// The declaration and value entries of each characteristic, in order.
pub open spec fn characteristic_attributes(cs: Seq<Characteristic>) -> Seq<Attribute>
    decreases cs.len(),
{
    if cs.len() == 0 {
        Seq::empty()
    } else {
        characteristic_attributes(cs.drop_last()) + seq![declaration_of(cs.last()), value_of(cs.last())]
    }
}

/// The service declaration.
pub open spec fn service_attribute() -> Attribute {
    Attribute { kind: AttributeKind::PrimaryService, uuid: DEVICE_INFORMATION_UUID16, value: None }
}

/// The service's attribute table: its declaration, then the characteristics.
pub open spec fn spec_attributes(d: DeviceInformation) -> Seq<Attribute> {
    seq![service_attribute()] + characteristic_attributes(spec_characteristics(d))
}

/// The value a client reads from the characteristic with `uuid`.
pub open spec fn spec_read(d: DeviceInformation, uuid: u16) -> Option<&'static str> {
    if uuid == MANUFACTURER_NAME_STRING {
        Some(d.manufacturer_name)
    } else if uuid == MODEL_NUMBER_STRING {
        Some(d.model_number)
    } else if uuid == SERIAL_NUMBER_STRING {
        Some(d.serial_number)
    } else if uuid == HARDWARE_REVISION_STRING {
        Some(d.hardware_revision)
    } else if uuid == FIRMWARE_REVISION_STRING {
        Some(d.firmware_revision)
    } else {
        None
    }
}

proof fn lemma_characteristic_attributes_index(cs: Seq<Characteristic>, k: int)
    requires
        0 <= k < cs.len(),
    ensures
        characteristic_attributes(cs).len() == 2 * cs.len(),
        characteristic_attributes(cs)[2 * k] == declaration_of(cs[k]),
        characteristic_attributes(cs)[2 * k + 1] == value_of(cs[k]),
    decreases cs.len(),
{
    lemma_characteristic_attributes_len(cs);
    if k < cs.len() - 1 {
        lemma_characteristic_attributes_index(cs.drop_last(), k);
    }
}

proof fn lemma_characteristic_attributes_len(cs: Seq<Characteristic>)
    ensures
        characteristic_attributes(cs).len() == 2 * cs.len(),
    decreases cs.len(),
{
    if cs.len() > 0 {
        lemma_characteristic_attributes_len(cs.drop_last());
    }
}

/// Whatever the five strings hold, the table has exactly `ATTRIBUTE_COUNT`
/// entries in a fixed order: the service declaration first, then for each
/// characteristic in declaration order its declaration followed by its value.
/// No entry is a client configuration descriptor.
pub proof fn lemma_attribute_table_shape(d: DeviceInformation)
    ensures
        spec_attributes(d).len() == ATTRIBUTE_COUNT,
        spec_attributes(d)[0] == service_attribute(),
        forall|k: int|
            0 <= k < CHARACTERISTIC_COUNT ==> {
                &&& spec_attributes(d)[2 * k + 1] == declaration_of(#[trigger] spec_characteristics(d)[k])
                &&& spec_attributes(d)[2 * k + 2] == value_of(spec_characteristics(d)[k])
            },
        forall|i: int|
            0 <= i < ATTRIBUTE_COUNT ==> (#[trigger] spec_attributes(d)[i]).kind == AttributeKind::PrimaryService
                || spec_attributes(d)[i].kind == AttributeKind::CharacteristicDeclaration
                || spec_attributes(d)[i].kind == AttributeKind::CharacteristicValue,
{
    let cs = spec_characteristics(d);
    lemma_characteristic_attributes_len(cs);
    assert forall|k: int| 0 <= k < CHARACTERISTIC_COUNT implies {
        &&& spec_attributes(d)[2 * k + 1] == declaration_of(#[trigger] cs[k])
        &&& spec_attributes(d)[2 * k + 2] == value_of(cs[k])
    } by {
        lemma_characteristic_attributes_index(cs, k);
    }
}

impl DeviceInformation {
    /// The service's characteristics, in declaration order.
    pub fn characteristics(&self) -> (r: Vec<Characteristic>)
        ensures
            r@ == spec_characteristics(*self),
    {
        let r = vec![
            Characteristic { uuid: MANUFACTURER_NAME_STRING, value: self.manufacturer_name },
            Characteristic { uuid: MODEL_NUMBER_STRING, value: self.model_number },
            Characteristic { uuid: SERIAL_NUMBER_STRING, value: self.serial_number },
            Characteristic { uuid: HARDWARE_REVISION_STRING, value: self.hardware_revision },
            Characteristic { uuid: FIRMWARE_REVISION_STRING, value: self.firmware_revision },
        ];
        assert(r@ =~= spec_characteristics(*self));
        r
    }

    /// The service's entries of the attribute table, in the order the table
    /// assigns their handles.
    pub fn attributes(&self) -> (r: Vec<Attribute>)
        ensures
            r@ == spec_attributes(*self),
            r.len() == ATTRIBUTE_COUNT,
    {
        let cs = self.characteristics();
        let mut r: Vec<Attribute> = Vec::new();
        r.push(Attribute { kind: AttributeKind::PrimaryService, uuid: DEVICE_INFORMATION_UUID16, value: None });
        let mut i: usize = 0;
        while i < cs.len()
            invariant
                i <= cs.len(),
                cs@ == spec_characteristics(*self),
                r@ == seq![service_attribute()] + characteristic_attributes(cs@.subrange(0, i as int)),
            decreases cs.len() - i,
        {
            let c = cs[i];
            r.push(Attribute { kind: AttributeKind::CharacteristicDeclaration, uuid: c.uuid, value: None });
            r.push(Attribute { kind: AttributeKind::CharacteristicValue, uuid: c.uuid, value: Some(c.value) });
            proof {
                let next = cs@.subrange(0, i + 1);
                assert(next.drop_last() =~= cs@.subrange(0, i as int));
                assert(next.last() == c);
            }
            i = i + 1;
        }
        proof {
            assert(cs@.subrange(0, i as int) =~= cs@);
            lemma_attribute_table_shape(*self);
        }
        r
    }

    /// The value a client reads from the characteristic with `uuid`, or
    /// `None` where the service has no such characteristic.
    pub fn read(&self, uuid: u16) -> (r: Option<&'static str>)
        ensures
            r == spec_read(*self, uuid),
    {
        if uuid == MANUFACTURER_NAME_STRING {
            Some(self.manufacturer_name)
        } else if uuid == MODEL_NUMBER_STRING {
            Some(self.model_number)
        } else if uuid == SERIAL_NUMBER_STRING {
            Some(self.serial_number)
        } else if uuid == HARDWARE_REVISION_STRING {
            Some(self.hardware_revision)
        } else if uuid == FIRMWARE_REVISION_STRING {
            Some(self.firmware_revision)
        } else {
            None
        }
    }
}

} // verus!
