//! The identity under which this process registers with the bus, and its
//! form on the wire.

use vstd::prelude::*;
use vstd::utf8::encode_utf8;
use crate::status::Status;
use crate::wire::{
    string_field, string_field_bytes, string_field_is_short, string_field_size, uint32_field,
    uint32_field_bytes, uint32_field_is_short, uint32_field_size, PAYLOAD_MAX,
};

verus! {

/// The field of an entity message that carries its name.
pub const ENTITY_NAME_FIELD: u32 = 1;

/// The field of an entity message that carries its major version.
pub const VERSION_MAJOR_FIELD: u32 = 3;

/// What a client identity says, as plain values.
pub struct IdentityView {
    pub package_name: Seq<char>,
    pub entity_name: Seq<char>,
    pub version_major: u32,
}

impl IdentityView {
    /// An identity can be registered only if it names its entity.
    pub open spec fn valid(self) -> bool {
        self.entity_name.len() > 0
    }

    /// Whether the entity name is short enough to be framed.
    pub open spec fn encodable(self) -> bool {
        encode_utf8(self.entity_name).len() <= PAYLOAD_MAX
    }

    /// The name's share of the message: nothing for an empty name, which a
    /// message leaves out, else the one string field.
    pub open spec fn name_part(self) -> Seq<u8> {
        if self.entity_name.len() > 0 {
            string_field_bytes(ENTITY_NAME_FIELD, self.entity_name)
        } else {
            Seq::empty()
        }
    }

    /// The entity message: the name, then the major version.
    pub open spec fn wire(self) -> Seq<u8> {
        self.name_part() + uint32_field_bytes(VERSION_MAJOR_FIELD, self.version_major)
    }
}

/// The description of this process as a participant of the bus. It does not
/// change once made.
#[derive(Debug)]
pub struct ClientIdentity {
    package_name: String,
    entity_name: String,
    version_major: u32,
}

impl View for ClientIdentity {
    type V = IdentityView;

    closed spec fn view(&self) -> IdentityView {
        IdentityView {
            package_name: self.package_name@,
            entity_name: self.entity_name@,
            version_major: self.version_major,
        }
    }
}

/// The bytes of a field that was asked for and written, nothing for one that
/// was left out.
pub open spec fn written<E>(field: Option<Result<Vec<u8>, E>>) -> Seq<u8> {
    match field {
        Some(Ok(bytes)) => bytes@,
        _ => Seq::empty(),
    }
}

/// Whether a field was asked for and could not be written.
pub open spec fn refused<E>(field: Option<Result<Vec<u8>, E>>) -> bool {
    field matches Some(Err(_))
}

/// Puts an entity message together from its fields as the encoder returned
/// them: the name field, if the name called for one, then the version field.
/// The message fails as soon as one of its fields did.
pub fn assemble<E>(
    name_field: Option<Result<Vec<u8>, E>>,
    version_field: Result<Vec<u8>, E>,
) -> (message: Result<Vec<u8>, Status>)
    ensures
        message is Ok <==> !refused(name_field) && version_field is Ok,
        message matches Ok(bytes) ==> bytes@ == written(name_field) + written(
            Some(version_field),
        ),
        message matches Err(status) ==> status == Status::MalformedIdentity,
{
    let mut bytes: Vec<u8> = Vec::new();
    match name_field {
        Some(Ok(mut name)) => {
            bytes.append(&mut name);
        },
        Some(Err(_)) => {
            return Err(Status::MalformedIdentity);
        },
        None => {},
    }
    match version_field {
        Ok(mut version) => {
            bytes.append(&mut version);
            Ok(bytes)
        },
        Err(_) => Err(Status::MalformedIdentity),
    }
}

impl ClientIdentity {
    /// The identity with the given package name, entity name and major
    /// version.
    pub fn new(package_name: String, entity_name: String, version_major: u32) -> (identity:
        ClientIdentity)
        ensures
            identity@ == (IdentityView {
                package_name: package_name@,
                entity_name: entity_name@,
                version_major,
            }),
    {
        ClientIdentity { package_name, entity_name, version_major }
    }

    /// The name of the package that this process belongs to.
    pub fn package_name(&self) -> (name: &String)
        ensures
            name@ == self@.package_name,
    {
        &self.package_name
    }

    /// The name of the entity.
    pub fn entity_name(&self) -> (name: &String)
        ensures
            name@ == self@.entity_name,
    {
        &self.entity_name
    }

    /// The major version of the entity.
    pub fn version_major(&self) -> (version: u32)
        ensures
            version == self@.version_major,
    {
        self.version_major
    }

    /// Whether the identity names its entity.
    pub fn is_valid(&self) -> (valid: bool)
        ensures
            valid == self@.valid(),
    {
        !self.entity_name.as_str().is_empty()
    }

    /// A second value of the same identity.
    pub fn duplicate(&self) -> (copy: ClientIdentity)
        ensures
            copy@ == self@,
    {
        ClientIdentity {
            package_name: self.package_name.clone(),
            entity_name: self.entity_name.clone(),
            version_major: self.version_major,
        }
    }

    /// Whether the entity name is short enough to be framed.
    pub fn is_encodable(&self) -> (fits: bool)
        ensures
            fits == self@.encodable(),
    {
        self.entity_name.as_str().as_bytes().len() as u64 <= PAYLOAD_MAX
    }

    /// The length of the entity message, for an identity that can be framed.
    pub fn encoded_size(&self) -> (size: Option<u64>)
        ensures
            size is Some <==> self@.encodable(),
            size matches Some(n) ==> n == self@.wire().len(),
    {
        if !self.is_encodable() {
            return None;
        }
        proof {
            uint32_field_is_short(VERSION_MAJOR_FIELD, self.version_major);
            string_field_is_short(ENTITY_NAME_FIELD, self.entity_name@);
        }
        let version: u64 = uint32_field_size(VERSION_MAJOR_FIELD, self.version_major);
        if self.entity_name.as_str().is_empty() {
            Some(version)
        } else {
            let name: u64 = string_field_size(ENTITY_NAME_FIELD, self.entity_name.as_str());
            Some(name + version)
        }
    }

    /// The entity message of this identity: its `wire` form. Only an
    /// identity whose name is too long to be framed has none, and fails as
    /// malformed.
    pub fn encode(&self) -> (message: Result<Vec<u8>, Status>)
        ensures
            message is Ok <==> self@.encodable(),
            message matches Ok(bytes) ==> bytes@ == self@.wire(),
            message matches Err(status) ==> status == Status::MalformedIdentity,
    {
        if !self.is_encodable() {
            return Err(Status::MalformedIdentity);
        }
        let name_field = if self.entity_name.as_str().is_empty() {
            None
        } else {
            Some(string_field(ENTITY_NAME_FIELD, self.entity_name.as_str()))
        };
        let version_field = uint32_field(VERSION_MAJOR_FIELD, self.version_major);
        assemble(name_field, version_field)
    }
}

} // verus!
