//! Conversions between the Windows runtime's representations and the plain
//! values the rest of the backend works with.
use vstd::prelude::*;
use crate::model::{
    WindowsError, CharPropFlags, CharacteristicProperties, ClientConfigValue, CommunicationStatus, BleError, Guid,
    Uuid, STATUS_ACCESS_DENIED, STATUS_PROTOCOL_ERROR, STATUS_SUCCESS, STATUS_UNREACHABLE,
    PROPERTY_BROADCAST, PROPERTY_READ, PROPERTY_WRITE_WITHOUT_RESPONSE, PROPERTY_WRITE,
    PROPERTY_NOTIFY, PROPERTY_INDICATE, PROPERTY_AUTHENTICATED_SIGNED_WRITES,
    PROPERTY_EXTENDED_PROPERTIES, CHAR_BROADCAST, CHAR_READ, CHAR_WRITE_WITHOUT_RESPONSE,
    CHAR_WRITE, CHAR_NOTIFY, CHAR_INDICATE, CHAR_AUTHENTICATED_SIGNED_WRITES,
    CHAR_EXTENDED_PROPERTIES,
};
use crate::text::{
    contains_str, contains_text, hex_digits, hex_pair, lemma_hex_digits_low_byte, upper_hyphenated,
};

verus! {

/// The sixteen bytes that a GUID stands for, in textual order: the three
/// integer groups big-endian, then the trailing eight bytes as they are.
pub open spec fn guid_bytes(g: Guid) -> Seq<u8> {
    seq![
        (g.data1 / 0x1000000) as u8,
        ((g.data1 / 0x10000) % 256) as u8,
        ((g.data1 / 0x100) % 256) as u8,
        (g.data1 % 256) as u8,
        (g.data2 / 256) as u8,
        (g.data2 % 256) as u8,
        (g.data3 / 256) as u8,
        (g.data3 % 256) as u8,
    ] + g.data4@
}

/// The text that a GUID's `Debug` format gives:
/// `{:08X}-{:04X}-{:04X}-{:02X}{:02X}-{:02X}{:02X}{:02X}{:02X}{:02X}{:02X}`.
pub open spec fn guid_text(g: Guid) -> Seq<char> {
    hex_digits(g.data1 as nat, 8) + seq!['-'] + hex_digits(g.data2 as nat, 4) + seq!['-']
        + hex_digits(g.data3 as nat, 4) + seq!['-'] + hex_digits(g.data4[0] as nat, 2)
        + hex_digits(g.data4[1] as nat, 2) + seq!['-'] + hex_digits(g.data4[2] as nat, 2)
        + hex_digits(g.data4[3] as nat, 2) + hex_digits(g.data4[4] as nat, 2) + hex_digits(
        g.data4[5] as nat,
        2,
    ) + hex_digits(g.data4[6] as nat, 2) + hex_digits(g.data4[7] as nat, 2)
}

/// What `uuid::Uuid::from_str` gives for a text: the parsed bytes, or `None`
/// where the text is not a UUID.
pub uninterp spec fn uuid_from_str(text: Seq<char>) -> Option<Seq<u8>>;

/// The bytes of an optional UUID.
pub open spec fn option_bytes(u: Option<Uuid>) -> Option<Seq<u8>> {
    match u {
        Some(u) => Some(u.bytes@),
        None => None,
    }
}

/// A text in the hyphenated form of bytes `b` gave `Some` of those bytes.
pub open spec fn parses_as_hyphenated(r: Option<Uuid>, text: Seq<char>, b: Seq<u8>) -> bool {
    b.len() == 16 && upper_hyphenated(b) == text ==> (r matches Some(u) && u.bytes@ == b)
}

/// Formats a GUID with the `Debug` impl of `windows_core::GUID`.
///
/// Trusted: the result is the text that impl writes, as its source gives it.
#[verifier::external_body]
fn guid_debug_text(guid: &Guid) -> (text: String)
    ensures
        text@ == guid_text(*guid),
{
    let g = windows_core::GUID {
        data1: guid.data1,
        data2: guid.data2,
        data3: guid.data3,
        data4: guid.data4,
    };
    format!("{:?}", g)
}

/// Parses a text with `uuid::Uuid::from_str`.
///
/// Trusted: the result is a function of the text alone; and a text in the
/// hyphenated form of sixteen bytes, with upper-case digits, parses to those
/// bytes. Which other texts parse, and to what, is left to the name. The
/// parsed UUID is handed back as its bytes (`Uuid::into_bytes`).
#[verifier::external_body]
fn parse_uuid(text: &str) -> (r: Option<Uuid>)
    ensures
        option_bytes(r) == uuid_from_str(text@),
        forall|b: Seq<u8>| #![trigger upper_hyphenated(b)] parses_as_hyphenated(r, text@, b),
{
    match <uuid::Uuid as core::str::FromStr>::from_str(text) {
        Ok(u) => Some(Uuid { bytes: u.into_bytes() }),
        Err(_) => None,
    }
}

/// Splits a UUID into its fields with `uuid::Uuid::as_fields`.
///
/// Trusted: as that function documents, the first three fields are bytes
/// 0..4, 4..6 and 6..8 read big-endian, and the last is bytes 8..16. The
/// UUID is first rebuilt from its bytes (`Uuid::from_bytes`, which keeps them).
#[verifier::external_body]
fn uuid_fields(uuid: &Uuid) -> (r: (u32, u16, u16, [u8; 8]))
    ensures
        r.0 == uuid.bytes[0] * 0x1000000 + uuid.bytes[1] * 0x10000 + uuid.bytes[2] * 0x100
            + uuid.bytes[3],
        r.1 == uuid.bytes[4] * 0x100 + uuid.bytes[5],
        r.2 == uuid.bytes[6] * 0x100 + uuid.bytes[7],
        r.3@ == uuid.bytes@.subrange(8, 16),
{
    let u = uuid::Uuid::from_bytes(uuid.bytes);
    let (d1, d2, d3, d4) = u.as_fields();
    (d1, d2, d3, *d4)
}

/// The Debug text of a GUID is the hyphenated text of its bytes.
proof fn lemma_guid_text(g: Guid)
    ensures
        guid_text(g) == upper_hyphenated(guid_bytes(g)),
{
    let b = guid_bytes(g);
    let d1 = g.data1 as nat;
    let d2 = g.data2 as nat;
    let d3 = g.data3 as nat;
    lemma_hex_digits_low_byte(d1, 6);
    lemma_hex_digits_low_byte(d1 / 256, 4);
    lemma_hex_digits_low_byte(d1 / 256 / 256, 2);
    lemma_hex_digits_low_byte(d1 / 256 / 256 / 256, 0);
    assert(d1 / 256 / 256 == d1 / 0x10000) by (nonlinear_arith);
    assert(d1 / 256 / 256 / 256 == d1 / 0x1000000) by (nonlinear_arith);
    assert(d1 / 0x1000000 < 256) by (nonlinear_arith)
        requires
            d1 < 0x1_0000_0000,
    ;
    lemma_hex_digits_low_byte(d2, 2);
    lemma_hex_digits_low_byte(d2 / 256, 0);
    assert(d2 / 256 < 256) by (nonlinear_arith)
        requires
            d2 < 0x10000,
    ;
    lemma_hex_digits_low_byte(d3, 2);
    lemma_hex_digits_low_byte(d3 / 256, 0);
    assert(d3 / 256 < 256) by (nonlinear_arith)
        requires
            d3 < 0x10000,
    ;
    assert forall|i: int| 0 <= i < 8 implies hex_digits(#[trigger] g.data4[i] as nat, 2)
        == hex_pair(g.data4[i]) by {
        lemma_hex_digits_low_byte(g.data4[i] as nat, 0);
    }
    assert(hex_digits(0, 0) =~= seq![]);
    assert(hex_digits(d1, 8) =~= hex_pair(b[0]) + hex_pair(b[1]) + hex_pair(b[2]) + hex_pair(b[3]));
    assert(hex_digits(d2, 4) =~= hex_pair(b[4]) + hex_pair(b[5]));
    assert(hex_digits(d3, 4) =~= hex_pair(b[6]) + hex_pair(b[7]));
    assert(b[8] == g.data4[0] && b[9] == g.data4[1] && b[10] == g.data4[2] && b[11]
        == g.data4[3] && b[12] == g.data4[4] && b[13] == g.data4[5] && b[14] == g.data4[6]
        && b[15] == g.data4[7]);
    assert(guid_text(g) =~= upper_hyphenated(b));
}

/// Converts a GUID into the UUID with the same textual form.
pub fn to_uuid(guid: &Guid) -> (r: Uuid)
    ensures
        r.bytes@ == guid_bytes(*guid),
{
    let text = guid_debug_text(guid);
    proof {
        lemma_guid_text(*guid);
        assert(guid_bytes(*guid).len() == 16);
    }
    let parsed = parse_uuid(text.as_str());
    parsed.unwrap()
}

/// `g` holds the fields of `u`: bytes 0..4, 4..6 and 6..8 read big-endian,
/// then bytes 8..16 as they are.
pub open spec fn guid_of(u: Uuid, g: Guid) -> bool {
    &&& g.data1 == u.bytes[0] * 0x1000000 + u.bytes[1] * 0x10000 + u.bytes[2] * 0x100
        + u.bytes[3]
    &&& g.data2 == u.bytes[4] * 0x100 + u.bytes[5]
    &&& g.data3 == u.bytes[6] * 0x100 + u.bytes[7]
    &&& g.data4@ == u.bytes@.subrange(8, 16)
}

/// The bytes of a GUID built from a UUID's fields are the UUID's bytes.
proof fn lemma_guid_of_bytes(u: Uuid, g: Guid)
    requires
        guid_of(u, g),
    ensures
        guid_bytes(g) == u.bytes@,
{
    let b = u.bytes@;
    let (b0, b1, b2, b3) = (b[0] as int, b[1] as int, b[2] as int, b[3] as int);
    let d1 = g.data1 as int;
    assert(d1 / 0x1000000 == b0 && (d1 / 0x10000) % 256 == b1 && (d1 / 0x100) % 256 == b2 && d1
        % 256 == b3) by (nonlinear_arith)
        requires
            d1 == b0 * 0x1000000 + b1 * 0x10000 + b2 * 0x100 + b3,
            0 <= b0 < 256,
            0 <= b1 < 256,
            0 <= b2 < 256,
            0 <= b3 < 256,
    ;
    let (b4, b5, b6, b7) = (b[4] as int, b[5] as int, b[6] as int, b[7] as int);
    let d2 = g.data2 as int;
    let d3 = g.data3 as int;
    assert(d2 / 256 == b4 && d2 % 256 == b5) by (nonlinear_arith)
        requires
            d2 == b4 * 0x100 + b5,
            0 <= b4 < 256,
            0 <= b5 < 256,
    ;
    assert(d3 / 256 == b6 && d3 % 256 == b7) by (nonlinear_arith)
        requires
            d3 == b6 * 0x100 + b7,
            0 <= b6 < 256,
            0 <= b7 < 256,
    ;
    assert(guid_bytes(g) =~= b);
}

/// Reading the bytes of a GUID back as fields gives the GUID's own fields.
proof fn lemma_bytes_of_guid(g: Guid, u: Uuid)
    requires
        u.bytes@ == guid_bytes(g),
    ensures
        u.bytes[0] * 0x1000000 + u.bytes[1] * 0x10000 + u.bytes[2] * 0x100 + u.bytes[3]
            == g.data1,
        u.bytes[4] * 0x100 + u.bytes[5] == g.data2,
        u.bytes[6] * 0x100 + u.bytes[7] == g.data3,
        u.bytes@.subrange(8, 16) == g.data4@,
{
    let d1 = g.data1 as int;
    let d2 = g.data2 as int;
    let d3 = g.data3 as int;
    assert((d1 / 0x1000000) * 0x1000000 + ((d1 / 0x10000) % 256) * 0x10000 + ((d1 / 0x100) % 256)
        * 0x100 + d1 % 256 == d1) by (nonlinear_arith)
        requires
            0 <= d1 < 0x1_0000_0000,
    ;
    assert((d2 / 256) * 0x100 + d2 % 256 == d2) by (nonlinear_arith)
        requires
            0 <= d2,
    ;
    assert((d3 / 256) * 0x100 + d3 % 256 == d3) by (nonlinear_arith)
        requires
            0 <= d3,
    ;
    assert(d1 / 0x1000000 < 256) by (nonlinear_arith)
        requires
            0 <= d1 < 0x1_0000_0000,
    ;
    assert(d2 / 256 < 256 && d3 / 256 < 256) by (nonlinear_arith)
        requires
            0 <= d2 < 0x10000,
            0 <= d3 < 0x10000,
    ;
    assert(u.bytes@.subrange(8, 16) =~= g.data4@);
}

/// Converts a UUID into the GUID with the same textual form.
pub fn to_guid(uuid: &Uuid) -> (r: Guid)
    ensures
        guid_of(*uuid, r),
        guid_bytes(r) == uuid.bytes@,
{
    let (data1, data2, data3, data4) = uuid_fields(uuid);
    let r = Guid { data1, data2, data3, data4 };
    proof {
        lemma_guid_of_bytes(*uuid, r);
    }
    r
}

/// Converting a UUID to a GUID and back gives the UUID again.
pub proof fn law_uuid_guid_round_trip(u: Uuid, g: Guid, back: Uuid)
    requires
        guid_of(u, g),
        back.bytes@ == guid_bytes(g),
    ensures
        back == u,
{
    lemma_guid_of_bytes(u, g);
    assert(back.bytes@ == u.bytes@);
    assert(back.bytes == u.bytes);
}

/// Converting a GUID to a UUID and back gives the GUID again.
pub proof fn law_guid_uuid_round_trip(g: Guid, u: Uuid, back: Guid)
    requires
        u.bytes@ == guid_bytes(g),
        guid_of(u, back),
    ensures
        back == g,
{
    lemma_bytes_of_guid(g, u);
    assert(back.data4@ == g.data4@);
    assert(back.data4 == g.data4);
}

/// The result that a communication status stands for.
pub open spec fn status_result(status: CommunicationStatus, r: Result<(), BleError>) -> bool {
    if status.code == STATUS_ACCESS_DENIED {
        r == Err::<(), BleError>(BleError::PermissionDenied)
    } else if status.code == STATUS_UNREACHABLE {
        r == Err::<(), BleError>(BleError::NotConnected)
    } else if status.code == STATUS_SUCCESS {
        r == Ok::<(), BleError>(())
    } else if status.code == STATUS_PROTOCOL_ERROR {
        r matches Err(BleError::NotSupported(m)) && m@ == "ProtocolError"@
    } else {
        r matches Err(BleError::Other(m)) && m@ == "Communication Error:"@
    }
}

/// Maps the status of a GATT exchange to the backend's result: success, or
/// the error that the status stands for.
pub fn to_error(status: CommunicationStatus) -> (r: Result<(), BleError>)
    ensures
        status_result(status, r),
        r is Ok <==> status.code == STATUS_SUCCESS,
{
    if status.code == STATUS_ACCESS_DENIED {
        Err(BleError::PermissionDenied)
    } else if status.code == STATUS_UNREACHABLE {
        Err(BleError::NotConnected)
    } else if status.code == STATUS_SUCCESS {
        Ok(())
    } else if status.code == STATUS_PROTOCOL_ERROR {
        Err(BleError::NotSupported("ProtocolError".to_string()))
    } else {
        Err(BleError::Other("Communication Error:".to_string()))
    }
}

/// Whether the properties hold every bit of `property`.
pub open spec fn has_property(props: CharacteristicProperties, property: u32) -> bool {
    props.bits & property == property
}

/// The descriptor value to subscribe with: indications where the
/// characteristic supports them, else notifications where it supports those,
/// else neither.
pub open spec fn descriptor_value_for(props: CharacteristicProperties) -> ClientConfigValue {
    if has_property(props, PROPERTY_INDICATE) {
        ClientConfigValue::Indicate
    } else if has_property(props, PROPERTY_NOTIFY) {
        ClientConfigValue::Notify
    } else {
        ClientConfigValue::Off
    }
}

/// Neither the Indicate (32) nor the Notify (16) bit is set exactly when the
/// two together are clear.
proof fn lemma_notify_indicate_bits(b: u32)
    ensures
        (b & 32 != 32 && b & 16 != 16) <==> b & 48 == 0,
        (b & 48) & 32 == b & 32,
        (b & 48) & 16 == b & 16,
{
    assert((b & 32 != 32 && b & 16 != 16) <==> b & 48 == 0) by (bit_vector);
    assert((b & 48) & 32 == b & 32) by (bit_vector);
    assert((b & 48) & 16 == b & 16) by (bit_vector);
}

/// Subscribing chooses indications whenever the characteristic supports them,
/// whatever else it supports; notifications when it supports those but not
/// indications; and neither only when it supports neither. Only the two
/// bits matter: properties that agree on them get the same value.
pub proof fn law_descriptor_value(
    p: CharacteristicProperties,
    q: CharacteristicProperties,
    rp: ClientConfigValue,
    rq: ClientConfigValue,
)
    requires
        rp == descriptor_value_for(p),
        rq == descriptor_value_for(q),
    ensures
        p.bits & 32 == 32 ==> rp == ClientConfigValue::Indicate,
        p.bits & 32 != 32 && p.bits & 16 == 16 ==> rp == ClientConfigValue::Notify,
        rp == ClientConfigValue::Off <==> p.bits & 48 == 0,
        p.bits & 48 == q.bits & 48 ==> rp == rq,
{
    lemma_notify_indicate_bits(p.bits);
    lemma_notify_indicate_bits(q.bits);
}

/// Chooses the client configuration descriptor value for a characteristic,
/// preferring indications over notifications.
pub fn to_descriptor_value(properties: CharacteristicProperties) -> (r: ClientConfigValue)
    ensures
        r == descriptor_value_for(properties),
        properties.bits & 32 == 32 ==> r == ClientConfigValue::Indicate,
        properties.bits & 32 != 32 && properties.bits & 16 == 16 ==> r == ClientConfigValue::Notify,
        r == ClientConfigValue::Off <==> properties.bits & 48 == 0,
{
    proof {
        lemma_notify_indicate_bits(properties.bits);
    }
    if properties.bits & PROPERTY_INDICATE == PROPERTY_INDICATE {
        ClientConfigValue::Indicate
    } else if properties.bits & PROPERTY_NOTIFY == PROPERTY_NOTIFY {
        ClientConfigValue::Notify
    } else {
        ClientConfigValue::Off
    }
}

/// Translates the Windows property bits into the backend's property flags.
pub fn to_char_props(props: &CharacteristicProperties) -> (flags: CharPropFlags)
    ensures
        flags.bits as u32 == props.bits & 0xff,
{
    let p = props.bits;
    let bits: u8 = (if p & PROPERTY_BROADCAST != 0 { CHAR_BROADCAST } else { 0 }) | (if p
        & PROPERTY_READ != 0 { CHAR_READ } else { 0 }) | (if p & PROPERTY_WRITE_WITHOUT_RESPONSE
        != 0 { CHAR_WRITE_WITHOUT_RESPONSE } else { 0 }) | (if p & PROPERTY_WRITE != 0 {
        CHAR_WRITE
    } else { 0 }) | (if p & PROPERTY_NOTIFY != 0 { CHAR_NOTIFY } else { 0 }) | (if p
        & PROPERTY_INDICATE != 0 { CHAR_INDICATE } else { 0 }) | (if p
        & PROPERTY_AUTHENTICATED_SIGNED_WRITES != 0 { CHAR_AUTHENTICATED_SIGNED_WRITES } else {
        0
    }) | (if p & PROPERTY_EXTENDED_PROPERTIES != 0 { CHAR_EXTENDED_PROPERTIES } else { 0 });
    assert(bits as u32 == p & 0xff) by (bit_vector)
        requires
            bits == ((if p & 1 != 0 { 1u8 } else { 0u8 }) | (if p & 2 != 0 { 2u8 } else { 0u8 }) | (
            if p & 4 != 0 { 4u8 } else { 0u8 }) | (if p & 8 != 0 { 8u8 } else { 0u8 }) | (if p & 16
                != 0 { 16u8 } else { 0u8 }) | (if p & 32 != 0 { 32u8 } else { 0u8 }) | (if p & 64 != 0 {
                64u8
            } else { 0u8 }) | (if p & 128 != 0 { 128u8 } else { 0u8 })),
    ;
    CharPropFlags { bits }
}

/// The HRESULT `0x8065000F`, E_BLUETOOTH_ATT_INSUFFICIENT_ENCRYPTION.
pub const INSUFFICIENT_ENCRYPTION: i32 = -2140864497;

/// The HRESULT `0x80650005`, E_BLUETOOTH_ATT_INSUFFICIENT_AUTHENTICATION.
pub const INSUFFICIENT_AUTHENTICATION: i32 = -2140864507;

/// What `str::to_lowercase` gives for a text.
pub uninterp spec fn lowercase(text: Seq<char>) -> Seq<char>;

/// Lower-cases a text with `str::to_lowercase`.
///
/// Trusted: the result is a function of the text alone.
#[verifier::external_body]
fn to_lowercase(text: &str) -> (r: String)
    ensures
        r@ == lowercase(text@),
{
    text.to_lowercase()
}

/// Whether an error with this code and message stands for missing encryption
/// or authentication: one of the two ATT codes for that, or a message that,
/// lower-cased, mentions "encryption" or "insufficient".
pub open spec fn is_encryption_failure(code: i32, message: Seq<char>) -> bool {
    ||| code == INSUFFICIENT_ENCRYPTION
    ||| code == INSUFFICIENT_AUTHENTICATION
    ||| contains_text(lowercase(message), "encryption"@)
    ||| contains_text(lowercase(message), "insufficient"@)
}

/// Decides from an error's code and message whether the failure calls for
/// pairing with the device.
pub fn encryption_failure(code: i32, message: &str) -> (r: bool)
    ensures
        r == is_encryption_failure(code, message@),
{
    if code == INSUFFICIENT_ENCRYPTION || code == INSUFFICIENT_AUTHENTICATION {
        return true;
    }
    let msg = to_lowercase(message);
    contains_str(msg.as_str(), "encryption") || contains_str(msg.as_str(), "insufficient")
}

/// What `windows_core::Error::code` gives for an error: its HRESULT.
pub uninterp spec fn hresult_of(err: windows_core::Error) -> i32;

/// Reads the HRESULT of a Windows error with `windows_core::Error::code`.
///
/// Trusted: the code is a function of the error alone.
#[verifier::external_body]
fn hresult_code(err: &windows_core::Error) -> (r: i32)
    ensures
        r == hresult_of(*err),
{
    err.code().0
}

/// The `{:#010X}` text of an HRESULT: `0x` and eight upper-case hexadecimal
/// digits of its 32 bits.
pub open spec fn hresult_text(code: i32) -> Seq<char> {
    seq!['0', 'x'] + hex_digits((if code < 0 { code + 0x1_0000_0000 } else { code as int }) as nat, 8)
}

/// The forms that the `Display` text of a Windows error with this code takes:
/// the code's text alone, or a non-empty message followed by ` (`, the code's
/// text and `)`.
pub open spec fn error_display_form(text: Seq<char>, code: i32) -> bool {
    let tail = seq![' ', '('] + hresult_text(code) + seq![')'];
    ||| text == hresult_text(code)
    ||| text.len() > tail.len() && text.subrange(text.len() - tail.len(), text.len() as int) == tail
}

/// Reads the message of a Windows error with its `Display` impl.
///
/// Trusted: that impl writes the error's code as `{:#010X}`, alone where the
/// message is empty, else after the message and in brackets. The message
/// itself comes from the system's message tables and is not stated.
#[verifier::external_body]
fn error_message(err: &windows_core::Error) -> (r: String)
    ensures
        error_display_form(r@, hresult_of(*err)),
{
    err.to_string()
}

/// The code and message of a Windows error, read from the runtime's error:
/// the code is its HRESULT; the message comes from the system's message tables.
pub fn windows_error(err: &windows_core::Error) -> (r: WindowsError)
    ensures
        r.code == hresult_of(*err),
        error_display_form(r.message@, r.code),
{
    let code = hresult_code(err);
    let message = error_message(err);
    WindowsError { code, message }
}

/// Whether a Windows error stands for missing encryption or authentication,
/// judged on its code and message.
pub fn is_encryption_error(err: &WindowsError) -> (r: bool)
    ensures
        r == is_encryption_failure(err.code, err.message@),
{
    encryption_failure(err.code, err.message.as_str())
}

/// Each of the eight standard properties is reported exactly when the
/// runtime reports it.
pub proof fn law_char_props_flagwise(props: CharacteristicProperties, flags: CharPropFlags)
    requires
        flags.bits as u32 == props.bits & 0xff,
    ensures
        flags.has(CHAR_BROADCAST) <==> has_property(props, PROPERTY_BROADCAST),
        flags.has(CHAR_READ) <==> has_property(props, PROPERTY_READ),
        flags.has(CHAR_WRITE_WITHOUT_RESPONSE) <==> has_property(props, PROPERTY_WRITE_WITHOUT_RESPONSE),
        flags.has(CHAR_WRITE) <==> has_property(props, PROPERTY_WRITE),
        flags.has(CHAR_NOTIFY) <==> has_property(props, PROPERTY_NOTIFY),
        flags.has(CHAR_INDICATE) <==> has_property(props, PROPERTY_INDICATE),
        flags.has(CHAR_AUTHENTICATED_SIGNED_WRITES) <==> has_property(props, PROPERTY_AUTHENTICATED_SIGNED_WRITES),
        flags.has(CHAR_EXTENDED_PROPERTIES) <==> has_property(props, PROPERTY_EXTENDED_PROPERTIES),
{
    let b = flags.bits;
    let p = props.bits;
    assert((b & 1u8 == 1u8) <==> (p & 1u32 == 1u32)) by (bit_vector)
        requires
            b as u32 == p & 0xff,
    ;
    assert((b & 2u8 == 2u8) <==> (p & 2u32 == 2u32)) by (bit_vector)
        requires
            b as u32 == p & 0xff,
    ;
    assert((b & 4u8 == 4u8) <==> (p & 4u32 == 4u32)) by (bit_vector)
        requires
            b as u32 == p & 0xff,
    ;
    assert((b & 8u8 == 8u8) <==> (p & 8u32 == 8u32)) by (bit_vector)
        requires
            b as u32 == p & 0xff,
    ;
    assert((b & 16u8 == 16u8) <==> (p & 16u32 == 16u32)) by (bit_vector)
        requires
            b as u32 == p & 0xff,
    ;
    assert((b & 32u8 == 32u8) <==> (p & 32u32 == 32u32)) by (bit_vector)
        requires
            b as u32 == p & 0xff,
    ;
    assert((b & 64u8 == 64u8) <==> (p & 64u32 == 64u32)) by (bit_vector)
        requires
            b as u32 == p & 0xff,
    ;
    assert((b & 128u8 == 128u8) <==> (p & 128u32 == 128u32)) by (bit_vector)
        requires
            b as u32 == p & 0xff,
    ;
}

} // verus!
