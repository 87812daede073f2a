//! The protocol registry: the closed set of protocol families and, for each,
//! its names, its description and the backend paths that serve it.

use crate::text::same_text;
use vstd::prelude::*;
use vstd::string::*;

verus! {

/// A protocol family that the backend serves.
#[derive(Clone, Copy, Debug, PartialEq, Eq, Structural)]
pub enum Protocol {
    /// The generic key/value API.
    Rapi,
    /// Modbus-TCP register mappings.
    ModbusTcp,
    /// MQTT topic mappings.
    Mqtt,
}

/// What the registry knows of one protocol. Every field is fixed text.
#[derive(Clone, Copy, Debug, PartialEq, Eq)]
pub struct ProtocolDescriptor {
    pub protocol: Protocol,
    /// The key under which routes name the protocol.
    pub key: &'static str,
    pub display_name: &'static str,
    pub description: &'static str,
    /// The name of the backend collection that holds the protocol's records.
    pub collection: &'static str,
    /// The path that lists the records.
    pub list_path: &'static str,
    /// The path that takes a new record.
    pub create_path: &'static str,
}

/// The result of a lookup by key.
#[derive(Clone, Copy, Debug, PartialEq, Eq)]
pub enum Lookup {
    Found(ProtocolDescriptor),
    /// The key names no protocol of the registry.
    NotFound,
}

/// The registry's entry for `p`.
pub open spec fn descriptor_of(p: Protocol) -> ProtocolDescriptor {
    match p {
        Protocol::Rapi => ProtocolDescriptor {
            protocol: Protocol::Rapi,
            key: "rapi",
            display_name: "REST API",
            description: "rAPI is the foundation for the communications of this software!",
            collection: "bucket",
            list_path: "/getall/bucket",
            create_path: "/u",
        },
        Protocol::ModbusTcp => ProtocolDescriptor {
            protocol: Protocol::ModbusTcp,
            key: "mbtcp",
            display_name: "Modbus TCP",
            description: "Modbus TCP \"mapper\", you can bind MB registers to the rAPI data nodes!",
            collection: "mbstuff",
            list_path: "/getall/mbstuff",
            create_path: "/cmbtcp",
        },
        Protocol::Mqtt => ProtocolDescriptor {
            protocol: Protocol::Mqtt,
            key: "mqtt",
            display_name: "MQTT",
            description: "MQTT \"mapper\", you can bind MQTT values to the rAPI data nodes!",
            collection: "mqttstuff",
            list_path: "/getall/mqttstuff",
            create_path: "/cmqtt",
        },
    }
}

/// The protocol that a route key names, if any.
pub open spec fn protocol_of_key(key: Seq<char>) -> Option<Protocol> {
    if key == "rapi"@ {
        Some(Protocol::Rapi)
    } else if key == "mbtcp"@ {
        Some(Protocol::ModbusTcp)
    } else if key == "mqtt"@ {
        Some(Protocol::Mqtt)
    } else {
        None
    }
}

/// What a lookup of `key` gives.
pub open spec fn lookup_spec(key: Seq<char>) -> Lookup {
    match protocol_of_key(key) {
        Some(p) => Lookup::Found(descriptor_of(p)),
        None => Lookup::NotFound,
    }
}

/// The registry's entry for `p`.
pub fn descriptor(p: Protocol) -> (d: ProtocolDescriptor)
    ensures
        d == descriptor_of(p),
{
    match p {
        Protocol::Rapi => ProtocolDescriptor {
            protocol: Protocol::Rapi,
            key: "rapi",
            display_name: "REST API",
            description: "rAPI is the foundation for the communications of this software!",
            collection: "bucket",
            list_path: "/getall/bucket",
            create_path: "/u",
        },
        Protocol::ModbusTcp => ProtocolDescriptor {
            protocol: Protocol::ModbusTcp,
            key: "mbtcp",
            display_name: "Modbus TCP",
            description: "Modbus TCP \"mapper\", you can bind MB registers to the rAPI data nodes!",
            collection: "mbstuff",
            list_path: "/getall/mbstuff",
            create_path: "/cmbtcp",
        },
        Protocol::Mqtt => ProtocolDescriptor {
            protocol: Protocol::Mqtt,
            key: "mqtt",
            display_name: "MQTT",
            description: "MQTT \"mapper\", you can bind MQTT values to the rAPI data nodes!",
            collection: "mqttstuff",
            list_path: "/getall/mqttstuff",
            create_path: "/cmqtt",
        },
    }
}

/// The protocol that `key` names: one of the three known keys, or `None`.
pub fn protocol_for(key: &str) -> (r: Option<Protocol>)
    ensures
        r == protocol_of_key(key@),
{
    if same_text(key, "rapi") {
        Some(Protocol::Rapi)
    } else if same_text(key, "mbtcp") {
        Some(Protocol::ModbusTcp)
    } else if same_text(key, "mqtt") {
        Some(Protocol::Mqtt)
    } else {
        None
    }
}

/// Looks a protocol up by its key. The three known keys give their
/// descriptors; every other key gives `NotFound`.
pub fn lookup(key: &str) -> (r: Lookup)
    ensures
        r == lookup_spec(key@),
        key@ == "rapi"@ ==> r == Lookup::Found(descriptor_of(Protocol::Rapi)),
        key@ == "mbtcp"@ ==> r == Lookup::Found(descriptor_of(Protocol::ModbusTcp)),
        key@ == "mqtt"@ ==> r == Lookup::Found(descriptor_of(Protocol::Mqtt)),
        key@ != "rapi"@ && key@ != "mbtcp"@ && key@ != "mqtt"@ ==> r is NotFound,
{
    proof {
        lemma_keys_distinct();
    }
    match protocol_for(key) {
        Some(p) => Lookup::Found(descriptor(p)),
        None => Lookup::NotFound,
    }
}

/// The three route keys are pairwise different texts.
pub proof fn lemma_keys_distinct()
    ensures
        "rapi"@ != "mbtcp"@,
        "rapi"@ != "mqtt"@,
        "mbtcp"@ != "mqtt"@,
{
    reveal_strlit("rapi");
    reveal_strlit("mbtcp");
    reveal_strlit("mqtt");
    assert("rapi"@.len() != "mbtcp"@.len());
    assert("rapi"@[0] != "mqtt"@[0]);
}

/// The table of backend paths: each of the three keys is found, with the
/// list path and the create path of its protocol; every other key is not
/// found.
pub proof fn lemma_paths_by_key()
    ensures
        lookup_spec("rapi"@) matches Lookup::Found(d) && d.list_path@ == "/getall/bucket"@
            && d.create_path@ == "/u"@,
        lookup_spec("mbtcp"@) matches Lookup::Found(d) && d.list_path@ == "/getall/mbstuff"@
            && d.create_path@ == "/cmbtcp"@,
        lookup_spec("mqtt"@) matches Lookup::Found(d) && d.list_path@ == "/getall/mqttstuff"@
            && d.create_path@ == "/cmqtt"@,
        forall|key: Seq<char>|
            key != "rapi"@ && key != "mbtcp"@ && key != "mqtt"@ ==> #[trigger] lookup_spec(key)
                is NotFound,
{
    lemma_keys_distinct();
}

/// The list path of a protocol is its collection under `/getall/`.
pub proof fn lemma_list_path(p: Protocol)
    ensures
        descriptor_of(p).list_path@ == "/getall/"@ + descriptor_of(p).collection@,
{
    reveal_strlit("/getall/");
    reveal_strlit("bucket");
    reveal_strlit("mbstuff");
    reveal_strlit("mqttstuff");
    reveal_strlit("/getall/bucket");
    reveal_strlit("/getall/mbstuff");
    reveal_strlit("/getall/mqttstuff");
}

/// Each descriptor is found under its own key, and the key of a descriptor
/// that a lookup finds is the key that was looked up.
pub proof fn lemma_lookup_own_key(p: Protocol)
    ensures
        lookup_spec(descriptor_of(p).key@) == Lookup::Found(descriptor_of(p)),
        forall|key: Seq<char>|
            lookup_spec(key) == Lookup::Found(descriptor_of(p)) ==> key == descriptor_of(p).key@,
{
    lemma_keys_distinct();
}

/// The base address of the backend when none is configured.
pub fn default_base_url() -> (r: &'static str)
    ensures
        r@ == "http://127.0.0.1:8000"@,
{
    "http://127.0.0.1:8000"
}

/// The path that allocates a fresh node identifier.
pub fn allocate_path() -> (r: &'static str)
    ensures
        r@ == "/c/"@,
{
    "/c/"
}

/// The address of `path` on the backend at `base`: the two texts joined.
pub fn endpoint_url(base: &str, path: &str) -> (r: String)
    ensures
        r@ == base@ + path@,
{
    let mut r = base.to_owned();
    r.append(path);
    r
}

} // verus!
