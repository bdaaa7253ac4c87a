//! Plain data types shared by the backend and its callers.
use vstd::prelude::*;

verus! {

/// A 128-bit universally unique identifier, held as its sixteen bytes in
/// big-endian (textual) order.
#[derive(Clone, Copy, Debug, PartialEq, Eq)]
pub struct Uuid {
    pub bytes: [u8; 16],
}

/// A Windows GUID: a 32-bit group, two 16-bit groups and eight trailing bytes.
#[derive(Clone, Copy, Debug, PartialEq, Eq)]
pub struct Guid {
    pub data1: u32,
    pub data2: u16,
    pub data3: u16,
    pub data4: [u8; 8],
}

/// Errors reported by the backend.
#[derive(Clone, Debug, PartialEq, Eq)]
pub enum BleError {
    /// The device refused access to the attribute.
    PermissionDenied,
    /// The device could not be reached.
    NotConnected,
    /// The device or the attribute does not support the request.
    NotSupported(String),
    /// Any other failure, described by a message.
    Other(String),
}

/// What the backend reads of a Windows runtime error: its HRESULT code and its
/// message.
#[derive(Clone, Debug, PartialEq, Eq)]
pub struct WindowsError {
    pub code: i32,
    pub message: String,
}

/// The outcome code of a GATT exchange, as the Windows runtime reports it.
#[derive(Clone, Copy, Debug, PartialEq, Eq, Structural)]
pub struct CommunicationStatus {
    pub code: i32,
}

/// The exchange succeeded.
pub const STATUS_SUCCESS: i32 = 0;

/// The device could not be reached.
pub const STATUS_UNREACHABLE: i32 = 1;

/// The device answered with a protocol error.
pub const STATUS_PROTOCOL_ERROR: i32 = 2;

/// The device denied access.
pub const STATUS_ACCESS_DENIED: i32 = 3;

/// The property bits of a GATT characteristic, as the Windows runtime reports them.
#[derive(Clone, Copy, Debug, PartialEq, Eq, Structural)]
pub struct CharacteristicProperties {
    pub bits: u32,
}

/// The characteristic can be broadcast.
pub const PROPERTY_BROADCAST: u32 = 1;

/// The characteristic can be read.
pub const PROPERTY_READ: u32 = 2;

/// The characteristic can be written without a response.
pub const PROPERTY_WRITE_WITHOUT_RESPONSE: u32 = 4;

/// The characteristic can be written.
pub const PROPERTY_WRITE: u32 = 8;

/// The characteristic supports notifications.
pub const PROPERTY_NOTIFY: u32 = 16;

/// The characteristic supports indications.
pub const PROPERTY_INDICATE: u32 = 32;

/// The characteristic supports signed writes.
pub const PROPERTY_AUTHENTICATED_SIGNED_WRITES: u32 = 64;

/// The characteristic has extended properties.
pub const PROPERTY_EXTENDED_PROPERTIES: u32 = 128;

/// The characteristic supports reliable writes.
pub const PROPERTY_RELIABLE_WRITES: u32 = 256;

/// The characteristic has writable auxiliaries.
pub const PROPERTY_WRITABLE_AUXILIARIES: u32 = 512;

/// The value written to a client characteristic configuration descriptor.
#[derive(Clone, Copy, Debug, PartialEq, Eq, Structural)]
pub enum ClientConfigValue {
    /// Neither notifications nor indications.
    Off,
    /// Notifications.
    Notify,
    /// Indications.
    Indicate,
}

/// The properties of a characteristic as this backend reports them.
#[derive(Clone, Copy, Debug, PartialEq, Eq, Structural)]
pub struct CharPropFlags {
    pub bits: u8,
}

impl Default for CharPropFlags {
    /// No properties.
    fn default() -> (r: CharPropFlags)
        ensures
            r.bits == 0,
    {
        CharPropFlags { bits: 0 }
    }
}

/// The characteristic can be broadcast.
pub const CHAR_BROADCAST: u8 = 0x01;

/// The characteristic can be read.
pub const CHAR_READ: u8 = 0x02;

/// The characteristic can be written without a response.
pub const CHAR_WRITE_WITHOUT_RESPONSE: u8 = 0x04;

/// The characteristic can be written.
pub const CHAR_WRITE: u8 = 0x08;

/// The characteristic supports notifications.
pub const CHAR_NOTIFY: u8 = 0x10;

/// The characteristic supports indications.
pub const CHAR_INDICATE: u8 = 0x20;

/// The characteristic supports signed writes.
pub const CHAR_AUTHENTICATED_SIGNED_WRITES: u8 = 0x40;

/// The characteristic has extended properties.
pub const CHAR_EXTENDED_PROPERTIES: u8 = 0x80;

impl CharPropFlags {
    /// Whether every flag of `flag` is set.
    pub open spec fn has(self, flag: u8) -> bool {
        self.bits & flag == flag
    }

    /// Whether every flag of `flag` is set.
    pub fn contains(&self, flag: u8) -> (r: bool)
        ensures
            r == self.has(flag),
    {
        self.bits & flag == flag
    }
}

/// How a characteristic value is written.
#[derive(Clone, Copy, Debug, PartialEq, Eq, Structural)]
pub enum WriteType {
    /// The device acknowledges the write.
    WithResponse,
    /// The device does not acknowledge the write.
    WithoutResponse,
}

/// The write option code that the Windows runtime takes for a write.
#[derive(Clone, Copy, Debug, PartialEq, Eq, Structural)]
pub struct WriteOption {
    pub code: i32,
}

/// A write that the device acknowledges.
pub const WRITE_WITH_RESPONSE: i32 = 0;

/// A write that the device does not acknowledge.
pub const WRITE_WITHOUT_RESPONSE: i32 = 1;

/// The write option code for a write type.
pub open spec fn write_option_code(write_type: WriteType) -> i32 {
    match write_type {
        WriteType::WithoutResponse => WRITE_WITHOUT_RESPONSE,
        WriteType::WithResponse => WRITE_WITH_RESPONSE,
    }
}

impl From<WriteType> for WriteOption {
    fn from(val: WriteType) -> (r: WriteOption) {
        match val {
            WriteType::WithoutResponse => WriteOption { code: WRITE_WITHOUT_RESPONSE },
            WriteType::WithResponse => WriteOption { code: WRITE_WITH_RESPONSE },
        }
    }
}

impl vstd::std_specs::convert::FromSpecImpl<WriteType> for WriteOption {
    open spec fn obeys_from_spec() -> bool {
        true
    }

    open spec fn from_spec(v: WriteType) -> WriteOption {
        WriteOption { code: write_option_code(v) }
    }
}

/// A GATT descriptor, named by its own UUID and those of its service and
/// characteristic.
#[derive(Clone, Copy, Debug, PartialEq, Eq)]
pub struct Descriptor {
    pub uuid: Uuid,
    pub service_uuid: Uuid,
    pub characteristic_uuid: Uuid,
}

/// A GATT characteristic with its descriptors. The records that
/// `to_characteristic` builds list the descriptors in ascending order of their
/// UUIDs, each once.
#[derive(Clone, Debug, PartialEq, Eq)]
pub struct Characteristic {
    pub uuid: Uuid,
    pub service_uuid: Uuid,
    pub descriptors: Vec<Descriptor>,
    pub properties: CharPropFlags,
}

/// Bytes `a` come before bytes `b` at position `k`: they agree before it and
/// `a` is smaller there.
pub open spec fn bytes_before_at(a: Seq<u8>, b: Seq<u8>, k: int) -> bool {
    &&& 0 <= k < 16
    &&& a[k] < b[k]
    &&& forall|t: int| 0 <= t < k ==> a[t] == b[t]
}

/// `a` comes before `b` in the order of UUIDs: byte by byte, the first byte
/// that differs decides.
pub open spec fn uuid_before(a: Uuid, b: Uuid) -> bool {
    exists|k: int| #[trigger] bytes_before_at(a.bytes@, b.bytes@, k)
}

/// Where one UUID stands with respect to another.
#[derive(Clone, Copy, Debug, PartialEq, Eq, Structural)]
pub enum UuidOrder {
    Before,
    Same,
    After,
}

/// The order of UUIDs is transitive.
pub proof fn lemma_uuid_before_transitive(a: Uuid, b: Uuid, c: Uuid)
    requires
        uuid_before(a, b),
        uuid_before(b, c),
    ensures
        uuid_before(a, c),
{
    let k1 = choose|k: int| bytes_before_at(a.bytes@, b.bytes@, k);
    let k2 = choose|k: int| bytes_before_at(b.bytes@, c.bytes@, k);
    let k = if k1 < k2 { k1 } else { k2 };
    assert(bytes_before_at(a.bytes@, c.bytes@, k));
}

/// No UUID comes before itself.
pub proof fn lemma_uuid_before_irreflexive(a: Uuid, b: Uuid)
    requires
        uuid_before(a, b),
    ensures
        a != b,
        !uuid_before(b, a),
{
    let k1 = choose|k: int| bytes_before_at(a.bytes@, b.bytes@, k);
    if uuid_before(b, a) {
        let k2 = choose|k: int| bytes_before_at(b.bytes@, a.bytes@, k);
        if k1 < k2 {
            assert(b.bytes@[k1] == a.bytes@[k1]);
        } else if k2 < k1 {
            assert(a.bytes@[k2] == b.bytes@[k2]);
        }
    }
}

/// Compares two UUIDs byte by byte.
pub fn compare_uuid(a: &Uuid, b: &Uuid) -> (r: UuidOrder)
    ensures
        r == UuidOrder::Before <==> uuid_before(*a, *b),
        r == UuidOrder::Same <==> *a == *b,
        r == UuidOrder::After <==> uuid_before(*b, *a),
{
    let mut k: usize = 0;
    while k < 16
        invariant
            k <= 16,
            forall|t: int| 0 <= t < k ==> a.bytes@[t] == b.bytes@[t],
        decreases 16 - k,
    {
        if a.bytes[k] < b.bytes[k] {
            assert(bytes_before_at(a.bytes@, b.bytes@, k as int));
            proof {
                lemma_uuid_before_irreflexive(*a, *b);
            }
            return UuidOrder::Before;
        } else if a.bytes[k] > b.bytes[k] {
            assert(bytes_before_at(b.bytes@, a.bytes@, k as int));
            proof {
                lemma_uuid_before_irreflexive(*b, *a);
            }
            return UuidOrder::After;
        }
        k = k + 1;
    }
    assert(a.bytes@ =~= b.bytes@);
    assert(a.bytes == b.bytes);
    assert forall|k: int| !bytes_before_at(a.bytes@, b.bytes@, k) by {}
    UuidOrder::Same
}

} // verus!
