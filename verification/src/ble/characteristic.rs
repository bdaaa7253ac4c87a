//! GATT characteristics.
use vstd::prelude::*;
use crate::model::{
    BleError, Characteristic, CharacteristicProperties, ClientConfigValue, Descriptor, Guid, Uuid,
    UuidOrder, compare_uuid, lemma_uuid_before_irreflexive, lemma_uuid_before_transitive,
    uuid_before,
};
use crate::utils::{descriptor_value_for, guid_bytes, to_char_props, to_descriptor_value, to_uuid};
use crate::ble::descriptor::{descriptor_of, to_descriptor};

verus! {

/// Descriptors in strictly ascending order of their UUIDs, hence each UUID once.
pub open spec fn descriptors_ascending(s: Seq<Descriptor>) -> bool {
    forall|i: int, j: int| 0 <= i < j < s.len() ==> uuid_before(#[trigger] s[i].uuid, #[trigger] s[j].uuid)
}

/// Every descriptor belongs to the given service and characteristic.
pub open spec fn descriptors_belong(s: Seq<Descriptor>, service_uuid: Uuid, characteristic_uuid: Uuid) -> bool {
    forall|i: int| 0 <= i < s.len() ==> (#[trigger] s[i]).service_uuid == service_uuid
        && s[i].characteristic_uuid == characteristic_uuid
}

/// Adds a descriptor to an ascending list of descriptors of one
/// characteristic, unless one with its UUID is there already.
fn insert_descriptor(set: &mut Vec<Descriptor>, d: Descriptor)
    requires
        descriptors_ascending(old(set)@),
        descriptors_belong(old(set)@, d.service_uuid, d.characteristic_uuid),
    ensures
        descriptors_ascending(final(set)@),
        descriptors_belong(final(set)@, d.service_uuid, d.characteristic_uuid),
        forall|x: Descriptor| final(set)@.contains(x) <==> (old(set)@.contains(x) || x == d),
{
    let n = set.len();
    let mut p: usize = 0;
    while p < n
        invariant
            p <= n,
            n == set@.len(),
            set@ == old(set)@,
            forall|i: int| 0 <= i < p ==> uuid_before(#[trigger] set@[i].uuid, d.uuid),
            descriptors_ascending(old(set)@),
            descriptors_belong(old(set)@, d.service_uuid, d.characteristic_uuid),
        ensures
            p <= n,
            n == set@.len(),
            set@ == old(set)@,
            forall|i: int| 0 <= i < p ==> uuid_before(#[trigger] set@[i].uuid, d.uuid),
            p < n ==> uuid_before(d.uuid, set@[p as int].uuid),
        decreases n - p,
    {
        match compare_uuid(&set[p].uuid, &d.uuid) {
            UuidOrder::Before => {
                p = p + 1;
            },
            UuidOrder::Same => {
                assert(set@[p as int] == d);
                assert(set@.contains(d));
                assert forall|x: Descriptor| set@.contains(x) <==> (old(set)@.contains(x) || x == d) by {}
                return;
            },
            UuidOrder::After => {
                break;
            },
        }
    }
    let ghost before = set@;
    assert(before == old(set)@);
    set.insert(p, d);
    assert(set@ == before.insert(p as int, d));
    assert forall|i: int, j: int| 0 <= i < j < set@.len() implies uuid_before(
        #[trigger] set@[i].uuid,
        #[trigger] set@[j].uuid,
    ) by {
        if j < p {
            assert(set@[i] == before[i] && set@[j] == before[j]);
        } else if j == p {
            assert(set@[i] == before[i]);
        } else if i == p {
            assert(set@[j] == before[j - 1]);
            if j - 1 > p {
                assert(uuid_before(before[p as int].uuid, before[j - 1].uuid));
                lemma_uuid_before_transitive(d.uuid, before[p as int].uuid, before[j - 1].uuid);
            }
        } else if i < p {
            assert(set@[i] == before[i] && set@[j] == before[j - 1]);
            assert(uuid_before(before[i].uuid, before[j - 1].uuid));
        } else {
            assert(set@[i] == before[i - 1] && set@[j] == before[j - 1]);
        }
    }
    assert forall|x: Descriptor| set@.contains(x) <==> (before.contains(x) || x == d) by {
        if set@.contains(x) {
            let k = choose|k: int| 0 <= k < set@.len() && set@[k] == x;
            if k < p {
                assert(before[k] == x);
            } else if k > p {
                assert(before[k - 1] == x);
            }
        }
        if before.contains(x) {
            let k = choose|k: int| 0 <= k < before.len() && before[k] == x;
            if k < p {
                assert(set@[k] == x);
            } else {
                assert(set@[k + 1] == x);
            }
        }
        if x == d {
            assert(set@[p as int] == d);
        }
    }
    assert(forall|x: Descriptor| set@.contains(x) <==> (old(set)@.contains(x) || x == d));
}

/// `d` describes one of the given descriptor GUIDs.
#[verifier::opaque]
pub open spec fn describes_one_of(
    d: Descriptor,
    guids: Seq<Guid>,
    service_uuid: Uuid,
    characteristic_uuid: Uuid,
) -> bool {
    exists|k: int|
        0 <= k < guids.len() && #[trigger] descriptor_of(d, guids[k], service_uuid, characteristic_uuid)
}

/// Some descriptor of `s` describes the descriptor GUID `g`.
#[verifier::opaque]
pub open spec fn describes_guid(
    s: Seq<Descriptor>,
    g: Guid,
    service_uuid: Uuid,
    characteristic_uuid: Uuid,
) -> bool {
    exists|j: int|
        0 <= j < s.len() && #[trigger] descriptor_of(s[j], g, service_uuid, characteristic_uuid)
}

/// The descriptors are exactly those of the given GUIDs, in the given service
/// and characteristic.
pub open spec fn descriptors_of(
    s: Seq<Descriptor>,
    guids: Seq<Guid>,
    service_uuid: Uuid,
    characteristic_uuid: Uuid,
) -> bool {
    &&& forall|j: int|
        0 <= j < s.len() ==> describes_one_of(#[trigger] s[j], guids, service_uuid, characteristic_uuid)
    &&& forall|k: int|
        0 <= k < guids.len() ==> describes_guid(s, #[trigger] guids[k], service_uuid, characteristic_uuid)
}

/// `r` is the record of the characteristic whose runtime GUID is `guid`, with
/// the given runtime properties and descriptor GUIDs, in the service
/// `service_uuid`: its UUID and properties converted, its descriptors those of
/// the GUIDs in ascending order of UUID, each once.
pub open spec fn characteristic_record(
    r: Characteristic,
    guid: Guid,
    properties: CharacteristicProperties,
    guids: Seq<Guid>,
    service_uuid: Uuid,
) -> bool {
    &&& r.uuid.bytes@ == guid_bytes(guid)
    &&& r.service_uuid == service_uuid
    &&& r.properties.bits as u32 == properties.bits & 0xff
    &&& descriptors_ascending(r.descriptors@)
    &&& descriptors_belong(r.descriptors@, service_uuid, r.uuid)
    &&& descriptors_of(r.descriptors@, guids, service_uuid, r.uuid)
}

/// The characteristic record for a characteristic whose runtime GUID is
/// `characteristic_guid`, with the given runtime properties and descriptor
/// GUIDs, in the service `service_uuid`. Its descriptors come in ascending
/// order of UUID, each once.
pub fn to_characteristic(
    characteristic_guid: &Guid,
    properties: &CharacteristicProperties,
    descriptor_guids: &Vec<Guid>,
    service_uuid: Uuid,
) -> (r: Characteristic)
    ensures
        characteristic_record(r, *characteristic_guid, *properties, descriptor_guids@, service_uuid),
{
    let uuid = to_uuid(characteristic_guid);
    let props = to_char_props(properties);
    let mut descriptors: Vec<Descriptor> = Vec::new();
    let ghost mut made: Seq<Descriptor> = seq![];
    let n = descriptor_guids.len();
    let mut i: usize = 0;
    while i < n
        invariant
            n == descriptor_guids@.len(),
            i <= n,
            made.len() == i,
            descriptors_ascending(descriptors@),
            descriptors_belong(descriptors@, service_uuid, uuid),
            forall|x: Descriptor|
                descriptors@.contains(x) ==> exists|k: int|
                    0 <= k < i && descriptor_of(x, #[trigger] descriptor_guids@[k], service_uuid, uuid),
            forall|k: int|
                0 <= k < i ==> descriptor_of(#[trigger] made[k], descriptor_guids@[k], service_uuid, uuid)
                    && descriptors@.contains(made[k]),
        decreases n - i,
    {
        let d = to_descriptor(&descriptor_guids[i], service_uuid, uuid);
        insert_descriptor(&mut descriptors, d);
        proof {
            made = made.push(d);
        }
        i = i + 1;
    }
    assert forall|j: int| 0 <= j < descriptors@.len() implies describes_one_of(
        #[trigger] descriptors@[j],
        descriptor_guids@,
        service_uuid,
        uuid,
    ) by {
        reveal(describes_one_of);
        assert(descriptors@.contains(descriptors@[j]));
        let k = choose|k: int|
            0 <= k < n && descriptor_of(descriptors@[j], #[trigger] descriptor_guids@[k], service_uuid, uuid);
        assert(descriptor_of(descriptors@[j], descriptor_guids@[k], service_uuid, uuid));
    }
    assert forall|k: int| 0 <= k < descriptor_guids@.len() implies describes_guid(
        descriptors@,
        #[trigger] descriptor_guids@[k],
        service_uuid,
        uuid,
    ) by {
        reveal(describes_guid);
        assert(descriptors@.contains(made[k]));
        let j = choose|j: int| 0 <= j < descriptors@.len() && descriptors@[j] == made[k];
        assert(descriptor_of(descriptors@[j], descriptor_guids@[k], service_uuid, uuid));
    }
    Characteristic { uuid, service_uuid, descriptors, properties: props }
}

/// The descriptor value that subscribing writes, or the error when the
/// characteristic supports neither notifications nor indications.
pub open spec fn subscription_result(
    properties: CharacteristicProperties,
    r: Result<ClientConfigValue, BleError>,
) -> bool {
    if descriptor_value_for(properties) == ClientConfigValue::Off {
        r matches Err(BleError::NotSupported(m)) && m@ == "Can not subscribe to attribute"@
    } else {
        r == Ok::<ClientConfigValue, BleError>(descriptor_value_for(properties))
    }
}

/// Chooses the descriptor value to subscribe with, refusing a characteristic
/// that supports neither notifications nor indications.
pub fn subscribe_config(properties: CharacteristicProperties) -> (r: Result<
    ClientConfigValue,
    BleError,
>)
    ensures
        subscription_result(properties, r),
{
    let config = to_descriptor_value(properties);
    if config == ClientConfigValue::Off {
        return Err(BleError::NotSupported("Can not subscribe to attribute".to_string()));
    }
    Ok(config)
}

/// Two ascending lists of descriptors with the same members are the same list.
proof fn lemma_ascending_unique(a: Seq<Descriptor>, b: Seq<Descriptor>)
    requires
        descriptors_ascending(a),
        descriptors_ascending(b),
        forall|x: Descriptor| a.contains(x) <==> b.contains(x),
    ensures
        a == b,
    decreases a.len(),
{
    if a.len() == 0 {
        if b.len() > 0 {
            assert(b.contains(b[0]));
        }
        assert(a =~= b);
    } else {
        assert(a.contains(a[0]));
        let j = choose|j: int| 0 <= j < b.len() && b[j] == a[0];
        assert(b.contains(b[0]));
        let i = choose|i: int| 0 <= i < a.len() && a[i] == b[0];
        if j > 0 {
            assert(uuid_before(b[0].uuid, b[j].uuid));
            if i > 0 {
                assert(uuid_before(a[0].uuid, a[i].uuid));
                lemma_uuid_before_transitive(a[0].uuid, b[0].uuid, a[0].uuid);
                lemma_uuid_before_irreflexive(a[0].uuid, a[0].uuid);
            } else {
                lemma_uuid_before_irreflexive(b[0].uuid, b[0].uuid);
            }
        }
        assert(a[0] == b[0]);
        let ta = a.drop_first();
        let tb = b.drop_first();
        assert forall|x: Descriptor| ta.contains(x) <==> tb.contains(x) by {
            if ta.contains(x) {
                let k = choose|k: int| 0 <= k < ta.len() && ta[k] == x;
                assert(a[k + 1] == x);
                assert(uuid_before(a[0].uuid, a[k + 1].uuid));
                lemma_uuid_before_irreflexive(a[0].uuid, x.uuid);
                assert(a.contains(x));
                let m = choose|m: int| 0 <= m < b.len() && b[m] == x;
                assert(m != 0);
                assert(tb[m - 1] == x);
            }
            if tb.contains(x) {
                let k = choose|k: int| 0 <= k < tb.len() && tb[k] == x;
                assert(b[k + 1] == x);
                assert(uuid_before(b[0].uuid, b[k + 1].uuid));
                lemma_uuid_before_irreflexive(b[0].uuid, x.uuid);
                assert(b.contains(x));
                let m = choose|m: int| 0 <= m < a.len() && a[m] == x;
                assert(m != 0);
                assert(ta[m - 1] == x);
            }
        }
        assert forall|p: int, q: int| 0 <= p < q < ta.len() implies uuid_before(
            #[trigger] ta[p].uuid,
            #[trigger] ta[q].uuid,
        ) by {
            assert(ta[p] == a[p + 1] && ta[q] == a[q + 1]);
        }
        assert forall|p: int, q: int| 0 <= p < q < tb.len() implies uuid_before(
            #[trigger] tb[p].uuid,
            #[trigger] tb[q].uuid,
        ) by {
            assert(tb[p] == b[p + 1] && tb[q] == b[q + 1]);
        }
        lemma_ascending_unique(ta, tb);
        assert(a.len() == b.len());
        assert forall|i: int| 0 <= i < a.len() implies a[i] == b[i] by {
            if i > 0 {
                assert(a[i] == ta[i - 1] && b[i] == tb[i - 1]);
            }
        }
        assert(a =~= b);
    }
}

/// Every member of one list of descriptors of the given GUIDs is a member of
/// any other such list.
proof fn lemma_members_shared(
    sa: Seq<Descriptor>,
    sb: Seq<Descriptor>,
    guids: Seq<Guid>,
    service_uuid: Uuid,
    characteristic_uuid: Uuid,
)
    requires
        descriptors_of(sa, guids, service_uuid, characteristic_uuid),
        descriptors_of(sb, guids, service_uuid, characteristic_uuid),
    ensures
        forall|x: Descriptor| sa.contains(x) ==> sb.contains(x),
{
    assert forall|x: Descriptor| sa.contains(x) implies sb.contains(x) by {
        let j = choose|j: int| 0 <= j < sa.len() && sa[j] == x;
        assert(describes_one_of(sa[j], guids, service_uuid, characteristic_uuid));
        assert(exists|k: int|
            0 <= k < guids.len() && #[trigger] descriptor_of(
                sa[j],
                guids[k],
                service_uuid,
                characteristic_uuid,
            )) by {
            reveal(describes_one_of);
        }
        let k = choose|k: int|
            0 <= k < guids.len() && #[trigger] descriptor_of(
                sa[j],
                guids[k],
                service_uuid,
                characteristic_uuid,
            );
        assert(describes_guid(sb, guids[k], service_uuid, characteristic_uuid));
        assert(exists|m: int|
            0 <= m < sb.len() && #[trigger] descriptor_of(
                sb[m],
                guids[k],
                service_uuid,
                characteristic_uuid,
            )) by {
            reveal(describes_guid);
        }
        let m = choose|m: int|
            0 <= m < sb.len() && #[trigger] descriptor_of(
                sb[m],
                guids[k],
                service_uuid,
                characteristic_uuid,
            );
        assert(sb[m].uuid.bytes@ == x.uuid.bytes@);
        assert(sb[m].uuid.bytes == x.uuid.bytes);
        assert(sb[m] == x);
    }
}

/// The record of a characteristic is determined by what it is built from:
/// two records of the same GUID, properties, descriptor GUIDs and service
/// agree in every field.
pub proof fn law_characteristic_record_unique(
    a: Characteristic,
    b: Characteristic,
    guid: Guid,
    properties: CharacteristicProperties,
    guids: Seq<Guid>,
    service_uuid: Uuid,
)
    requires
        characteristic_record(a, guid, properties, guids, service_uuid),
        characteristic_record(b, guid, properties, guids, service_uuid),
    ensures
        a.uuid == b.uuid,
        a.service_uuid == b.service_uuid,
        a.properties == b.properties,
        a.descriptors@ == b.descriptors@,
{
    assert(a.uuid.bytes@ == b.uuid.bytes@);
    assert(a.uuid.bytes == b.uuid.bytes);
    assert(a.properties.bits == b.properties.bits);
    let sa = a.descriptors@;
    let sb = b.descriptors@;
    lemma_members_shared(sa, sb, guids, service_uuid, a.uuid);
    lemma_members_shared(sb, sa, guids, service_uuid, a.uuid);
    lemma_ascending_unique(sa, sb);
}

/// The registration of a characteristic's value-changed handler: the token
/// that the runtime gave for it, while it is registered.
#[derive(Debug)]
pub struct NotifyRegistration {
    token: Option<i64>,
}

impl View for NotifyRegistration {
    type V = Option<i64>;

    closed spec fn view(&self) -> Option<i64> {
        self.token
    }
}

impl NotifyRegistration {
    /// No handler registered.
    pub fn new() -> (r: NotifyRegistration)
        ensures
            r@ == None::<i64>,
    {
        NotifyRegistration { token: None }
    }

    /// A handler was registered under `token`.
    pub fn record(&mut self, token: i64)
        ensures
            final(self)@ == Some(token),
    {
        self.token = Some(token);
    }

    /// The token to remove the registered handler with, if one is registered.
    pub fn token(&self) -> (r: Option<i64>)
        ensures
            r == self@,
    {
        self.token
    }

    /// The handler was removed.
    pub fn forget(&mut self)
        ensures
            final(self)@ == None::<i64>,
    {
        self.token = None;
    }
}

} // verus!
