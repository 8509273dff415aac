//! The legacy advertising payload: flags, the 16-bit service UUID list and
//! the complete local name, in that order, within 31 bytes.

use trouble_host::advertise::AdStructure;
use vstd::prelude::*;

use crate::device_information::DEVICE_INFORMATION_UUID16;
use vstd::string::StringSliceAdditionalSpecFns;

verus! {

/// Largest payload of a legacy advertising PDU.
pub const ADVERTISING_DATA_MAX: usize = 31;

/// Longest device name whose payload still fits in `ADVERTISING_DATA_MAX`.
pub const DEVICE_NAME_MAX: usize = 22;

/// AD type of the flags structure.
pub const AD_TYPE_FLAGS: u8 = 0x01;

/// AD type of a list of 16-bit service UUIDs (the incomplete-list type,
/// which is what the stack writes).
pub const AD_TYPE_SERVICE_UUIDS16: u8 = 0x02;

/// AD type of the complete local name.
pub const AD_TYPE_COMPLETE_LOCAL_NAME: u8 = 0x09;

/// Flag: LE general discoverable mode.
pub const LE_GENERAL_DISCOVERABLE: u8 = 0x02;

/// Flag: BR/EDR not supported.
pub const BR_EDR_NOT_SUPPORTED: u8 = 0x04;

/// The flags this peripheral advertises.
pub const ADVERTISING_FLAGS: u8 = LE_GENERAL_DISCOVERABLE | BR_EDR_NOT_SUPPORTED;

/// One AD structure: a length byte counting the type and the data, the type,
/// then the data.
pub open spec fn ad_structure(ty: u8, data: Seq<u8>) -> Seq<u8> {
    seq![(data.len() + 1) as u8, ty] + data
}

/// The flags, one 16-bit UUID and a complete local name, encoded one after
/// another.
pub open spec fn ad_structures(flags: u8, uuid: Seq<u8>, name: Seq<u8>) -> Seq<u8> {
    ad_structure(AD_TYPE_FLAGS, seq![flags]) + ad_structure(AD_TYPE_SERVICE_UUIDS16, uuid)
        + ad_structure(AD_TYPE_COMPLETE_LOCAL_NAME, name)
}

/// A 16-bit UUID in little-endian byte order, as it goes over the air.
pub open spec fn uuid16_le(uuid: u16) -> Seq<u8> {
    seq![(uuid % 256) as u8, (uuid / 256) as u8]
}

/// The advertising payload of a device with the given name.
pub open spec fn advertising_payload(name: Seq<u8>) -> Seq<u8> {
    ad_structures(ADVERTISING_FLAGS, uuid16_le(DEVICE_INFORMATION_UUID16), name)
}

/// Relies on trouble_host's `AdStructure::encode_slice`: it writes each
/// structure as length, type and data (the UUID bytes as given) from the
/// start of `dest`, returns the number of bytes written, and fails when they
/// do not all fit.
#[verifier::external_body]
fn encode_ad_structures(flags: u8, uuid: [u8; 2], name: &[u8], dest: &mut [u8; 31]) -> (r: Option<usize>)
    ensures
        match r {
            Some(n) => {
                &&& n == ad_structures(flags, uuid@, name@).len()
                &&& n <= 31
                &&& final(dest)@.subrange(0, n as int) == ad_structures(flags, uuid@, name@)
            },
            None => ad_structures(flags, uuid@, name@).len() > 31,
        },
{
    let structures = [
        AdStructure::Flags(flags),
        AdStructure::ServiceUuids16(&[uuid]),
        AdStructure::CompleteLocalName(name),
    ];
    AdStructure::encode_slice(&structures, &mut dest[..]).ok()
}

/// An encoded advertising payload.
pub struct AdvertisingData {
    bytes: [u8; 31],
    len: usize,
}

impl View for AdvertisingData {
    type V = Seq<u8>;

    closed spec fn view(&self) -> Seq<u8> {
        self.bytes@.subrange(0, self.len as int)
    }
}

impl AdvertisingData {
    /// The payload's length never exceeds the legacy limit.
    #[verifier::type_invariant]
    spec fn wf(&self) -> bool {
        self.len <= ADVERTISING_DATA_MAX
    }

    /// Number of bytes in the payload.
    pub fn len(&self) -> (r: usize)
        ensures
            r == self@.len(),
            r <= ADVERTISING_DATA_MAX,
    {
        proof {
            use_type_invariant(self);
        }
        self.len
    }

    /// The payload bytes.
    pub fn as_slice(&self) -> (r: &[u8])
        ensures
            r@ == self@,
    {
        proof {
            use_type_invariant(self);
        }
        vstd::slice::slice_subrange(self.bytes.as_slice(), 0, self.len)
    }
}

/// Why no advertising payload could be built.
#[derive(Debug, Clone, Copy, PartialEq, Eq)]
pub enum AdvertisingError {
    /// Flags, service UUID and name together exceed 31 bytes.
    PayloadTooLarge,
}

/// The little-endian bytes of a 16-bit UUID.
pub fn uuid16_to_le_bytes(uuid: u16) -> (r: [u8; 2])
    ensures
        r@ == uuid16_le(uuid),
{
    let r = [(uuid % 256) as u8, (uuid / 256) as u8];
    assert(r@ =~= uuid16_le(uuid));
    r
}

/// The payload grows by the name alone, nine bytes of framing around it, so
/// it fits exactly when the name has at most `DEVICE_NAME_MAX` bytes.
pub proof fn lemma_payload_length(name: Seq<u8>)
    ensures
        advertising_payload(name).len() == name.len() + 9,
        advertising_payload(name).len() <= ADVERTISING_DATA_MAX <==> name.len() <= DEVICE_NAME_MAX,
{
}

/// For every name that fits, the payload is the flags structure, then the
/// structure listing the Device Information UUID, then the complete local
/// name, each with its length and type bytes, and nothing after the name.
pub proof fn lemma_payload_layout(name: Seq<u8>)
    requires
        name.len() <= DEVICE_NAME_MAX,
    ensures
        advertising_payload(name).len() == name.len() + 9,
        advertising_payload(name).subrange(0, 3) == seq![2u8, AD_TYPE_FLAGS, 0x06u8],
        advertising_payload(name).subrange(3, 7) == seq![3u8, AD_TYPE_SERVICE_UUIDS16, 0x0au8, 0x18u8],
        advertising_payload(name)[7] == name.len() + 1,
        advertising_payload(name)[8] == AD_TYPE_COMPLETE_LOCAL_NAME,
        advertising_payload(name).subrange(9, name.len() + 9 as int) == name,
{
    assert(0x02u8 | 0x04u8 == 0x06u8) by (bit_vector);
    let p = advertising_payload(name);
    assert(p.subrange(0, 3) =~= seq![2u8, AD_TYPE_FLAGS, 0x06u8]);
    assert(p.subrange(3, 7) =~= seq![3u8, AD_TYPE_SERVICE_UUIDS16, 0x0au8, 0x18u8]);
    assert(p.subrange(9, name.len() + 9 as int) =~= name);
}

/// Builds the advertising payload for `device_name`: the flags, the Device
/// Information service UUID and the complete local name. A name too long for
/// the payload is refused as a whole; nothing is truncated.
pub fn build_advertising_data(device_name: &str) -> (r: Result<AdvertisingData, AdvertisingError>)
    ensures
        r is Ok <==> device_name.spec_bytes().len() <= DEVICE_NAME_MAX,
        r is Err ==> r->Err_0 == AdvertisingError::PayloadTooLarge,
        match r {
            Ok(data) => data@ == advertising_payload(device_name.spec_bytes()),
            Err(_) => true,
        },
{
    let name = device_name.as_bytes();
    let uuid = uuid16_to_le_bytes(DEVICE_INFORMATION_UUID16);
    let mut bytes: [u8; 31] = [0u8; 31];
    proof {
        lemma_payload_length(name@);
    }
    match encode_ad_structures(ADVERTISING_FLAGS, uuid, name, &mut bytes) {
        Some(len) => Ok(AdvertisingData { bytes, len }),
        None => Err(AdvertisingError::PayloadTooLarge),
    }
}

} // verus!
