use afterglow::device_information::{
    AttributeKind, DeviceInformation, ATTRIBUTE_COUNT, CCCD_COUNT, CHARACTERISTIC_COUNT, DEVICE_INFORMATION_UUID16,
    FIRMWARE_REVISION_STRING, HARDWARE_REVISION_STRING, MANUFACTURER_NAME, MANUFACTURER_NAME_STRING, MODEL_NUMBER,
    MODEL_NUMBER_STRING, SERIAL_NUMBER, SERIAL_NUMBER_STRING,
};
use trouble_host::prelude::{characteristic, service};

fn device() -> DeviceInformation {
    DeviceInformation {
        manufacturer_name: MANUFACTURER_NAME,
        model_number: MODEL_NUMBER,
        serial_number: SERIAL_NUMBER,
        hardware_revision: "nougat-c3",
        firmware_revision: "0.1.0",
    }
}

const ORDER: [u16; 5] = [
    MANUFACTURER_NAME_STRING,
    MODEL_NUMBER_STRING,
    SERIAL_NUMBER_STRING,
    HARDWARE_REVISION_STRING,
    FIRMWARE_REVISION_STRING,
];

fn check_shape(d: &DeviceInformation) {
    let attrs = d.attributes();
    assert_eq!(attrs.len(), 11);
    assert_eq!(attrs[0].kind, AttributeKind::PrimaryService);
    assert_eq!(attrs[0].uuid, DEVICE_INFORMATION_UUID16);
    assert!(attrs[0].value.is_none());
    for (k, uuid) in ORDER.iter().enumerate() {
        let decl = attrs[2 * k + 1];
        let value = attrs[2 * k + 2];
        assert_eq!(decl.kind, AttributeKind::CharacteristicDeclaration);
        assert_eq!(decl.uuid, *uuid);
        assert!(decl.value.is_none());
        assert_eq!(value.kind, AttributeKind::CharacteristicValue);
        assert_eq!(value.uuid, *uuid);
        assert_eq!(value.value, d.read(*uuid));
    }
}

#[test]
fn table_has_eleven_entries_in_order() {
    check_shape(&device());
}

#[test]
fn table_shape_does_not_depend_on_values() {
    check_shape(&DeviceInformation {
        manufacturer_name: "",
        model_number: "a much longer model number than usual",
        serial_number: "0",
        hardware_revision: "",
        firmware_revision: "99.99.99-rc.1",
    });
}

#[test]
fn counts() {
    assert_eq!(ATTRIBUTE_COUNT, 11);
    assert_eq!(CHARACTERISTIC_COUNT, 5);
    assert_eq!(CCCD_COUNT, 0);
}

#[test]
fn characteristic_uuids() {
    assert_eq!(DEVICE_INFORMATION_UUID16, 0x180a);
    assert_eq!(MANUFACTURER_NAME_STRING, 0x2a29);
    assert_eq!(MODEL_NUMBER_STRING, 0x2a24);
    assert_eq!(SERIAL_NUMBER_STRING, 0x2a25);
    assert_eq!(HARDWARE_REVISION_STRING, 0x2a27);
    assert_eq!(FIRMWARE_REVISION_STRING, 0x2a26);
    let cs = device().characteristics();
    assert_eq!(cs.len(), 5);
    for (c, uuid) in cs.iter().zip(ORDER.iter()) {
        assert_eq!(c.uuid, *uuid);
    }
}

#[test]
fn reading_model_number_gives_its_bytes() {
    let d = device();
    assert_eq!(d.read(MODEL_NUMBER_STRING).unwrap().as_bytes(), b"Afterglow-01");
}

#[test]
fn reading_each_characteristic() {
    let d = device();
    assert_eq!(d.read(MANUFACTURER_NAME_STRING), Some("Sauerstoff.ca"));
    assert_eq!(d.read(SERIAL_NUMBER_STRING), Some("AG-202507-0001"));
    assert_eq!(d.read(HARDWARE_REVISION_STRING), Some("nougat-c3"));
    assert_eq!(d.read(FIRMWARE_REVISION_STRING), Some("0.1.0"));
}

#[test]
fn reading_unknown_uuid_gives_nothing() {
    assert_eq!(device().read(0x2a00), None);
    assert_eq!(device().read(DEVICE_INFORMATION_UUID16), None);
}

#[test]
fn uuids_match_the_assigned_numbers() {
    assert_eq!(service::DEVICE_INFORMATION.to_le_bytes(), DEVICE_INFORMATION_UUID16.to_le_bytes());
    assert_eq!(characteristic::MANUFACTURER_NAME_STRING.to_le_bytes(), MANUFACTURER_NAME_STRING.to_le_bytes());
    assert_eq!(characteristic::MODEL_NUMBER_STRING.to_le_bytes(), MODEL_NUMBER_STRING.to_le_bytes());
    assert_eq!(characteristic::SERIAL_NUMBER_STRING.to_le_bytes(), SERIAL_NUMBER_STRING.to_le_bytes());
    assert_eq!(characteristic::HARDWARE_REVISION_STRING.to_le_bytes(), HARDWARE_REVISION_STRING.to_le_bytes());
    assert_eq!(characteristic::FIRMWARE_REVISION_STRING.to_le_bytes(), FIRMWARE_REVISION_STRING.to_le_bytes());
}
