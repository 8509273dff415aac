use afterglow::advertising::{
    build_advertising_data, uuid16_to_le_bytes, AdvertisingError, ADVERTISING_DATA_MAX, AD_TYPE_COMPLETE_LOCAL_NAME,
    AD_TYPE_FLAGS, AD_TYPE_SERVICE_UUIDS16, ADVERTISING_FLAGS, DEVICE_NAME_MAX,
};
use afterglow::device_information::{DEVICE_INFORMATION_UUID16, MODEL_NUMBER};
use trouble_host::advertise::{self, AdStructure};

#[test]
fn payload_for_model_number_name() {
    let data = build_advertising_data("Afterglow-01").unwrap();
    let mut expected: Vec<u8> = vec![0x02, 0x01, 0x06, 0x03, 0x02, 0x0a, 0x18, 13, 0x09];
    expected.extend_from_slice(b"Afterglow-01");
    assert_eq!(data.as_slice(), &expected[..]);
    assert_eq!(data.len(), 21);
}

#[test]
fn payload_for_configured_model_number() {
    let data = build_advertising_data(MODEL_NUMBER).unwrap();
    assert_eq!(&data.as_slice()[9..], MODEL_NUMBER.as_bytes());
}

#[test]
fn payload_constants() {
    assert_eq!(ADVERTISING_FLAGS, 0x06);
    assert_eq!(AD_TYPE_FLAGS, 0x01);
    assert_eq!(AD_TYPE_SERVICE_UUIDS16, 0x02);
    assert_eq!(AD_TYPE_COMPLETE_LOCAL_NAME, 0x09);
    assert_eq!(ADVERTISING_DATA_MAX, 31);
    assert_eq!(DEVICE_NAME_MAX, 22);
}

#[test]
fn uuid_is_little_endian() {
    assert_eq!(uuid16_to_le_bytes(DEVICE_INFORMATION_UUID16), [0x0a, 0x18]);
    assert_eq!(uuid16_to_le_bytes(0x1234), [0x34, 0x12]);
}

#[test]
fn empty_name_gives_nine_bytes() {
    let data = build_advertising_data("").unwrap();
    assert_eq!(data.as_slice(), &[0x02, 0x01, 0x06, 0x03, 0x02, 0x0a, 0x18, 0x01, 0x09][..]);
}

#[test]
fn longest_name_fills_the_payload() {
    let name = "abcdefghijklmnopqrstuv";
    assert_eq!(name.len(), 22);
    let data = build_advertising_data(name).unwrap();
    assert_eq!(data.len(), 31);
    assert_eq!(data.as_slice()[7], 23);
    assert_eq!(&data.as_slice()[9..], name.as_bytes());
}

#[test]
fn name_one_byte_too_long_is_refused() {
    let r = build_advertising_data("12345678901234567890123");
    assert!(matches!(r, Err(AdvertisingError::PayloadTooLarge)));
}

#[test]
fn very_long_name_is_refused() {
    let name = "x".repeat(300);
    assert!(matches!(build_advertising_data(&name), Err(AdvertisingError::PayloadTooLarge)));
}

#[test]
fn multibyte_name_counts_bytes() {
    // Eleven two-byte characters: 22 bytes, fits.
    let fits = "ééééééééééé";
    assert_eq!(fits.len(), 22);
    assert!(build_advertising_data(fits).is_ok());
    // Twelve: 24 bytes, refused.
    let too_long = "éééééééééééé";
    assert!(build_advertising_data(too_long).is_err());
}

#[test]
fn payload_decodes_to_the_three_structures() {
    let data = build_advertising_data("Afterglow-01").unwrap();
    let mut seen = 0;
    for (i, item) in AdStructure::decode(data.as_slice()).enumerate() {
        match (i, item.unwrap()) {
            (0, AdStructure::Flags(flags)) => assert_eq!(flags, 0x06),
            // The decoder hands the incomplete 16-bit UUID list back as raw data.
            (1, AdStructure::Unknown { ty, data }) => {
                assert_eq!(ty, 0x02);
                assert_eq!(data, &[0x0a, 0x18][..]);
            }
            (2, AdStructure::CompleteLocalName(name)) => assert_eq!(name, b"Afterglow-01"),
            (i, other) => panic!("unexpected structure {} {:?}", i, other),
        }
        seen += 1;
    }
    assert_eq!(seen, 3);
}

#[test]
fn payload_is_rebuilt_identically() {
    let a = build_advertising_data("Afterglow-01").unwrap();
    let b = build_advertising_data("Afterglow-01").unwrap();
    assert_eq!(a.as_slice(), b.as_slice());
}

#[test]
fn flags_match_the_stack() {
    assert_eq!(ADVERTISING_FLAGS, advertise::LE_GENERAL_DISCOVERABLE | advertise::BR_EDR_NOT_SUPPORTED);
    assert_eq!(afterglow::advertising::LE_GENERAL_DISCOVERABLE, advertise::LE_GENERAL_DISCOVERABLE);
    assert_eq!(afterglow::advertising::BR_EDR_NOT_SUPPORTED, advertise::BR_EDR_NOT_SUPPORTED);
}
