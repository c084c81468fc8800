//! The addresses of uProtocol entities and their resources.

use crate::message::{Decode, Encode, Fields, Limits, MessageFormat, ReadLimits};
use crate::wire::DecodeError;
use crate::{message, wire};
use vstd::prelude::*;

verus! {

/// The number of characters that an authority name may have.
pub const AUTHORITY_NAME_MAX_LEN: usize = 128;

/// What an address consists of.
pub struct Uri {
    pub authority_name: Seq<char>,
    pub ue_id: u32,
    pub ue_version_major: u8,
    pub resource_id: u16,
}

/// An address: the name of a device, an entity on it, the entity's major version and one of its
/// resources.
#[derive(Debug, PartialEq, Eq, Hash)]
pub struct UUri {
    authority_name: String,
    ue_id: u32,
    ue_version_major: u8,
    resource_id: u16,
}

/// Why something is not an address.
#[derive(Clone, Copy, Debug, PartialEq, Eq, Structural)]
pub enum UUriError {
    /// The authority name is too long or holds a character that it must not hold.
    AuthorityName,
    /// The major version does not fit 8 bits.
    EntityVersion,
    /// The resource identifier does not fit 16 bits.
    ResourceId,
}

impl UUriError {
    /// What `message` returns.
    pub open spec fn text(self) -> Seq<char> {
        match self {
            UUriError::AuthorityName => "invalid authority name"@,
            UUriError::EntityVersion => "uEntity version out of range"@,
            UUriError::ResourceId => "resource ID out of range"@,
        }
    }

    /// Describes the error in words.
    pub fn message(self) -> (r: &'static str)
        ensures
            r@ == self.text(),
    {
        match self {
            UUriError::AuthorityName => "invalid authority name",
            UUriError::EntityVersion => "uEntity version out of range",
            UUriError::ResourceId => "resource ID out of range",
        }
    }
}

/// Whether a character may stand in an authority name.
pub open spec fn is_authority_char(c: char) -> bool {
    'a' <= c <= 'z' || '0' <= c <= '9' || c == '-' || c == '.' || c == '_' || c == '~'
}

/// Whether a text is an authority name: the wildcard or up to 128 of the permitted characters.
pub open spec fn is_authority_name(name: Seq<char>) -> bool {
    ||| name == seq!['*']
    ||| name.len() <= AUTHORITY_NAME_MAX_LEN && forall|i: int|
        0 <= i < name.len() ==> is_authority_char(#[trigger] name[i])
}

/// Checks whether a text is an authority name.
pub fn check_authority_name(name: &str) -> (r: bool)
    ensures
        r == is_authority_name(name@),
{
    let len: usize = name.unicode_len();
    if len == 1 && name.get_char(0) == '*' {
        assert(name@ =~= seq!['*']);
        return true;
    }
    if len > AUTHORITY_NAME_MAX_LEN {
        return false;
    }
    for i in 0..len
        invariant
            len == name@.len(),
            len <= AUTHORITY_NAME_MAX_LEN,
            name@ != seq!['*'],
            forall|j: int| 0 <= j < i ==> is_authority_char(#[trigger] name@[j]),
    {
        let c: char = name.get_char(i);
        if !(('a' <= c && c <= 'z') || ('0' <= c && c <= '9') || c == '-' || c == '.' || c == '_'
            || c == '~') {
            assert(!is_authority_char(name@[i as int]));
            return false;
        }
    }
    true
}

impl View for UUri {
    type V = Uri;

    closed spec fn view(&self) -> Uri {
        Uri {
            authority_name: self.authority_name@,
            ue_id: self.ue_id,
            ue_version_major: self.ue_version_major,
            resource_id: self.resource_id,
        }
    }
}

impl Clone for UUri {
    fn clone(&self) -> (r: UUri)
        ensures
            r@ == self@,
    {
        proof {
            use_type_invariant(self);
        }
        UUri {
            authority_name: self.authority_name.clone(),
            ue_id: self.ue_id,
            ue_version_major: self.ue_version_major,
            resource_id: self.resource_id,
        }
    }
}

/// What `UUri::try_from` makes of a message.
pub open spec fn uri_of_message(message: UriMessage) -> Result<Uri, UUriError> {
    if !is_authority_name(message.authority_name) {
        Err(UUriError::AuthorityName)
    } else if message.ue_version_major > u8::MAX {
        Err(UUriError::EntityVersion)
    } else if message.resource_id > u16::MAX {
        Err(UUriError::ResourceId)
    } else {
        Ok(
            Uri {
                authority_name: message.authority_name,
                ue_id: message.ue_id,
                ue_version_major: message.ue_version_major as u8,
                resource_id: message.resource_id as u16,
            },
        )
    }
}

impl UUri {
    #[verifier::type_invariant]
    spec fn valid(self) -> bool {
        is_authority_name(self.authority_name@)
    }

    /// Makes an address.
    pub fn try_from_parts(
        authority_name: &str,
        ue_id: u32,
        ue_version_major: u8,
        resource_id: u16,
    ) -> (r: Result<UUri, UUriError>)
        ensures
            is_authority_name(authority_name@) ==> r is Ok && r->Ok_0@ == (Uri {
                authority_name: authority_name@,
                ue_id,
                ue_version_major,
                resource_id,
            }),
            !is_authority_name(authority_name@) ==> r is Err && r->Err_0
                == UUriError::AuthorityName,
    {
        if check_authority_name(authority_name) {
            Ok(
                UUri {
                    authority_name: authority_name.to_owned(),
                    ue_id,
                    ue_version_major,
                    resource_id,
                },
            )
        } else {
            Err(UUriError::AuthorityName)
        }
    }

    /// Makes an address of the message that holds it.
    pub fn try_from(message: &UUriProto) -> (r: Result<UUri, UUriError>)
        ensures
            match uri_of_message(message@) {
                Ok(uri) => r is Ok && r->Ok_0@ == uri,
                Err(error) => r is Err && r->Err_0 == error,
            },
    {
        if !check_authority_name(message.authority_name.as_str()) {
            Err(UUriError::AuthorityName)
        } else if message.ue_version_major > u8::MAX as u32 {
            Err(UUriError::EntityVersion)
        } else if message.resource_id > u16::MAX as u32 {
            Err(UUriError::ResourceId)
        } else {
            UUri::try_from_parts(
                message.authority_name.as_str(),
                message.ue_id,
                message.ue_version_major as u8,
                message.resource_id as u16,
            )
        }
    }

    /// Returns the authority name.
    pub fn authority_name(&self) -> (r: &str)
        ensures
            r@ == self@.authority_name,
            is_authority_name(r@),
    {
        proof {
            use_type_invariant(self);
        }
        self.authority_name.as_str()
    }

    /// Returns the entity's identifier.
    pub fn ue_id(&self) -> (r: u32)
        ensures
            r == self@.ue_id,
    {
        self.ue_id
    }

    /// Returns the entity's major version.
    pub fn ue_version_major(&self) -> (r: u8)
        ensures
            r == self@.ue_version_major,
    {
        self.ue_version_major
    }

    /// Returns the resource's identifier.
    pub fn resource_id(&self) -> (r: u16)
        ensures
            r == self@.resource_id,
    {
        self.resource_id
    }
}

/// What a message that holds an address consists of.
pub struct UriMessage {
    pub authority_name: Seq<char>,
    pub ue_id: u32,
    pub ue_version_major: u32,
    pub resource_id: u32,
}

/// The message `uprotocol.v1.UUri`.
#[derive(Clone, Debug, PartialEq, Eq)]
pub struct UUriProto {
    /// Field number 1, text.
    pub authority_name: String,
    /// Field number 2, an unsigned integer.
    pub ue_id: u32,
    /// Field number 3, an unsigned integer.
    pub ue_version_major: u32,
    /// Field number 4, an unsigned integer.
    pub resource_id: u32,
}

impl View for UUriProto {
    type V = UriMessage;

    open spec fn view(&self) -> UriMessage {
        UriMessage {
            authority_name: self.authority_name@,
            ue_id: self.ue_id,
            ue_version_major: self.ue_version_major,
            resource_id: self.resource_id,
        }
    }
}

/// The message that holds an address.
pub open spec fn message_of_uri(uri: Uri) -> UriMessage {
    UriMessage {
        authority_name: uri.authority_name,
        ue_id: uri.ue_id,
        ue_version_major: uri.ue_version_major as u32,
        resource_id: uri.resource_id as u32,
    }
}

impl UUriProto {
    /// Makes the message that holds an address.
    pub fn from(uri: &UUri) -> (r: UUriProto)
        ensures
            r@ == message_of_uri(uri@),
            is_authority_name(uri@.authority_name),
    {
        proof {
            use_type_invariant(uri);
        }
        UUriProto {
            authority_name: uri.authority_name.clone(),
            ue_id: uri.ue_id,
            ue_version_major: uri.ue_version_major as u32,
            resource_id: uri.resource_id as u32,
        }
    }
}

impl MessageFormat for UUriProto {
    open spec fn empty() -> UriMessage {
        UriMessage { authority_name: seq![], ue_id: 0, ue_version_major: 0, resource_id: 0 }
    }

    open spec fn with_field(
        message: UriMessage,
        tag: u32,
        bytes: Seq<u8>,
        limits: Limits,
    ) -> Result<(UriMessage, int), Seq<char>> {
        if tag == 10 {
            match wire::text(bytes) {
                Some((value, len)) => Ok((UriMessage { authority_name: value, ..message }, len)),
                None => Err(wire::text_error(bytes, limits.bound)),
            }
        } else if tag == 16 || tag == 24 || tag == 32 {
            match wire::varint32(bytes) {
                Some((value, len)) => Ok(
                    (
                        if tag == 16 {
                            UriMessage { ue_id: value as u32, ..message }
                        } else if tag == 24 {
                            UriMessage { ue_version_major: value as u32, ..message }
                        } else {
                            UriMessage { resource_id: value as u32, ..message }
                        },
                        len,
                    ),
                ),
                None => Err(wire::varint_error(bytes, 5)),
            }
        } else {
            message::unchanged(message, tag, bytes, limits)
        }
    }

    proof fn lemma_with_field(message: UriMessage, tag: u32, bytes: Seq<u8>, limits: Limits) {
        message::lemma_unchanged(message, tag, bytes, limits);
        wire::lemma_varint_len(bytes, 5, 0x0f);
    }
}

impl Fields for UUriProto {
    fn new() -> UUriProto {
        UUriProto {
            authority_name: String::new(),
            ue_id: 0,
            ue_version_major: 0,
            resource_id: 0,
        }
    }

    fn read_field(&mut self, tag: u32, bytes: &[u8], limits: ReadLimits) -> Result<
        usize,
        DecodeError,
    > {
        if tag == 10 {
            match wire::read_string(bytes, limits.bound) {
                Ok((value, len)) => {
                    self.authority_name = value;
                    Ok(len)
                },
                Err(error) => Err(error),
            }
        } else if tag == 16 || tag == 24 || tag == 32 {
            match wire::read_uint32(bytes) {
                Ok((value, len)) => {
                    if tag == 16 {
                        self.ue_id = value;
                    } else if tag == 24 {
                        self.ue_version_major = value;
                    } else {
                        self.resource_id = value;
                    }
                    Ok(len)
                },
                Err(error) => Err(error),
            }
        } else {
            message::skip_field(tag, bytes, limits)
        }
    }
}

impl Decode for UUriProto {
    open spec fn decoded(bytes: Seq<u8>, limits: Limits) -> Result<UriMessage, Seq<char>> {
        message::merged::<UUriProto>(UUriProto::empty(), bytes, limits)
    }

    fn decode(bytes: &[u8], limits: ReadLimits) -> Result<UUriProto, DecodeError> {
        message::merge::<UUriProto>(bytes, limits)
    }
}

impl Encode for UUriProto {
    open spec fn encoded(message: UriMessage) -> Seq<u8> {
        (if message.authority_name.len() == 0 {
            seq![]
        } else {
            wire::text_field(1, message.authority_name)
        }) + wire::optional_integer_field(2, message.ue_id as int) + wire::optional_integer_field(
            3,
            message.ue_version_major as int,
        ) + wire::optional_integer_field(4, message.resource_id as int)
    }

    fn encode(&self) -> Result<Vec<u8>, protobuf::Error> {
        let mut out: Vec<u8> = Vec::new();
        if !self.authority_name.as_str().is_empty() {
            wire::write_string(1, self.authority_name.as_str(), &mut out)?;
        }
        if self.ue_id != 0 {
            wire::write_uint32(2, self.ue_id, &mut out)?;
        }
        if self.ue_version_major != 0 {
            wire::write_uint32(3, self.ue_version_major, &mut out)?;
        }
        if self.resource_id != 0 {
            wire::write_uint32(4, self.resource_id, &mut out)?;
        }
        Ok(out)
    }
}

/// An address takes up few bytes.
pub proof fn lemma_encoded_uri_len(uri: Uri)
    requires
        is_authority_name(uri.authority_name),
    ensures
        UUriProto::encoded(message_of_uri(uri)).len() <= 1024,
{
    let name = uri.authority_name;
    assert(vstd::utf8::is_ascii_chars(name));
    vstd::utf8::is_ascii_chars_encode_utf8(name);
    let empty = Seq::<u8>::empty();
    wire::lemma_varint32(wire::tag(1, 2), empty);
    wire::lemma_varint32(name.len(), empty);
    wire::lemma_varint32(wire::tag(2, 0), empty);
    wire::lemma_varint32(uri.ue_id as nat, empty);
    wire::lemma_varint32(wire::tag(3, 0), empty);
    wire::lemma_varint32(uri.ue_version_major as nat, empty);
    wire::lemma_varint32(wire::tag(4, 0), empty);
    wire::lemma_varint32(uri.resource_id as nat, empty);
}

/// A field that holds a number other than zero is read back, and one that is left out leaves zero.
proof fn lemma_integer_field(
    message: UriMessage,
    next: UriMessage,
    field_number: u32,
    value: u32,
    rest: Seq<u8>,
    limits: Limits,
)
    requires
        field_number == 2 && message.ue_id == 0 && next == (UriMessage { ue_id: value, ..message })
            || field_number == 3 && message.ue_version_major == 0 && next == (UriMessage {
            ue_version_major: value,
            ..message
        }) || field_number == 4 && message.resource_id == 0 && next == (UriMessage {
            resource_id: value,
            ..message
        }),
    ensures
        ({
            let field = wire::optional_integer_field(field_number, value as int);
            message::merged::<UUriProto>(message, field + rest, limits) == message::merged::<
                UUriProto,
            >(next, rest, limits.after(field.len() as int))
        }),
{
    let field = wire::optional_integer_field(field_number, value as int);
    if value == 0 {
        assert(field + rest =~= rest);
        assert(next == message);
    } else {
        wire::lemma_varint32(value as nat, rest);
        message::lemma_merged_field::<UUriProto>(
            message,
            next,
            (field_number * 8) as u32,
            wire::varint_bytes(value as nat),
            rest,
            limits,
        );
    }
}

/// Reading a message with an address gives back what was written.
pub proof fn law_uri_message_round_trip(message: UriMessage, limits: Limits)
    requires
        vstd::utf8::encode_utf8(message.authority_name).len() <= u32::MAX,
    ensures
        UUriProto::decoded(UUriProto::encoded(message), limits) == Ok::<_, Seq<char>>(message),
{
    let name = message.authority_name;
    let m0 = UUriProto::empty();
    let m1 = UriMessage { authority_name: name, ..m0 };
    let m2 = UriMessage { ue_id: message.ue_id, ..m1 };
    let m3 = UriMessage { ue_version_major: message.ue_version_major, ..m2 };
    let f1 = if name.len() == 0 {
        seq![]
    } else {
        wire::text_field(1, name)
    };
    let f2 = wire::optional_integer_field(2, message.ue_id as int);
    let f3 = wire::optional_integer_field(3, message.ue_version_major as int);
    let f4 = wire::optional_integer_field(4, message.resource_id as int);
    let rest = f2 + (f3 + (f4 + seq![]));
    assert(UUriProto::encoded(message) =~= f1 + rest);
    if name.len() == 0 {
        assert(name =~= seq![]);
        assert(f1 + rest =~= rest);
    } else {
        let encoded = vstd::utf8::encode_utf8(name);
        let value = wire::varint_bytes(encoded.len()) + encoded;
        wire::lemma_text(name, rest);
        message::lemma_merged_field::<UUriProto>(m0, m1, 10, value, rest, limits);
        assert(f1 + rest =~= wire::varint_bytes(10) + value + rest);
    }
    let l1 = limits.after(f1.len() as int);
    let l2 = l1.after(f2.len() as int);
    lemma_integer_field(m1, m2, 2, message.ue_id, f3 + (f4 + seq![]), l1);
    lemma_integer_field(m2, m3, 3, message.ue_version_major, f4 + seq![], l2);
    lemma_integer_field(
        m3,
        message,
        4,
        message.resource_id,
        seq![],
        l2.after(f3.len() as int),
    );
}

/// An address survives being put into a message.
pub proof fn law_uri_round_trip(uri: Uri)
    requires
        is_authority_name(uri.authority_name),
    ensures
        uri_of_message(message_of_uri(uri)) == Ok::<_, UUriError>(uri),
{
}

/// A message that holds an address is the one that the address is put into.
pub proof fn law_uri_message_is_unique(message: UriMessage)
    ensures
        uri_of_message(message) matches Ok(uri) ==> message_of_uri(uri) == message,
{
}

} // verus!
