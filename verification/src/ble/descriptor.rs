//! GATT descriptors.
use vstd::prelude::*;
use crate::model::{Descriptor, Guid, Uuid};
use crate::utils::{guid_bytes, to_uuid};

verus! {

/// `d` describes the descriptor whose runtime GUID is `guid`, in the given
/// service and characteristic.
pub open spec fn descriptor_of(
    d: Descriptor,
    guid: Guid,
    service_uuid: Uuid,
    characteristic_uuid: Uuid,
) -> bool {
    &&& d.uuid.bytes@ == guid_bytes(guid)
    &&& d.service_uuid == service_uuid
    &&& d.characteristic_uuid == characteristic_uuid
}

/// The descriptor record for a descriptor whose runtime GUID is
/// `descriptor_guid`, in the given service and characteristic.
pub fn to_descriptor(descriptor_guid: &Guid, service_uuid: Uuid, characteristic_uuid: Uuid) -> (r:
    Descriptor)
    ensures
        descriptor_of(r, *descriptor_guid, service_uuid, characteristic_uuid),
{
    let uuid = to_uuid(descriptor_guid);
    Descriptor { uuid, service_uuid, characteristic_uuid }
}

} // verus!
