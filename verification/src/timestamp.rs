//! Points in time on the wire.

use crate::message::{Decode, Encode, Limits, MessageFormat, ReadLimits};
use crate::status::{UCode, UStatus};
use crate::wire::DecodeError;
use crate::{message, status, wire};
use protobuf::{CodedInputStream, Message};
use vstd::prelude::*;

verus! {

/// The message `google.protobuf.Timestamp`: seconds and nanoseconds since the Unix epoch.
#[derive(Clone, Copy, Debug, Default, PartialEq, Eq, Structural)]
pub struct Timestamp {
    /// Field number 1, a signed integer.
    pub seconds: i64,
    /// Field number 2, a signed integer.
    pub nanos: i32,
}

impl View for Timestamp {
    type V = Timestamp;

    open spec fn view(&self) -> Timestamp {
        *self
    }
}

impl MessageFormat for Timestamp {
    open spec fn empty() -> Timestamp {
        Timestamp { seconds: 0, nanos: 0 }
    }

    open spec fn with_field(message: Timestamp, tag: u32, bytes: Seq<u8>, limits: Limits) -> Result<
        (Timestamp, int),
        Seq<char>,
    > {
        if tag == 8 {
            match wire::int64(bytes) {
                Some((value, len)) => Ok((Timestamp { seconds: value as i64, ..message }, len)),
                None => Err(wire::varint_error(bytes, 10)),
            }
        } else if tag == 16 {
            match wire::int32(bytes) {
                Some((value, len)) => Ok((Timestamp { nanos: value as i32, ..message }, len)),
                None => Err(wire::int32_error(bytes)),
            }
        } else {
            message::unchanged(message, tag, bytes, limits)
        }
    }

    proof fn lemma_with_field(message: Timestamp, tag: u32, bytes: Seq<u8>, limits: Limits) {
        message::lemma_unchanged(message, tag, bytes, limits);
        wire::lemma_varint_len(bytes, 10, 0x01);
    }
}

/// Reads a point in time.
///
/// Trusted: `protobuf::Message::merge_from`, for
/// `protobuf::well_known_types::timestamp::Timestamp` and a stream over `bytes` with the given
/// limits, reads the fields one by one, starting from zeros, and fails with the text of the first
/// one that cannot be read. The call uses up stack for each level of groups, so that there are no
/// more of them than a payload may have.
#[verifier::external_body]
fn parse_timestamp(bytes: &[u8], limits: ReadLimits) -> (r: Result<(i64, i32), DecodeError>)
    requires
        bytes@.len() <= limits.bound,
        limits.depth <= message::RECURSION_LIMIT,
    ensures
        match message::merged::<Timestamp>(Timestamp::empty(), bytes@, limits@) {
            Ok(message) => r is Ok && r->Ok_0.0 == message.seconds && r->Ok_0.1 == message.nanos,
            Err(error) => r is Err && r->Err_0@ == error,
        },
{
    let mut is = CodedInputStream::from_bytes(bytes);
    let mut message = protobuf::well_known_types::timestamp::Timestamp::new();
    is.set_recursion_limit(limits.depth);
    match is.push_limit(limits.bound).and_then(|_| message.merge_from(&mut is)) {
        Ok(()) => Ok((message.seconds, message.nanos)),
        Err(error) => Err(DecodeError { message: error.to_string() }),
    }
}

/// Writes a point in time.
///
/// Trusted: `protobuf::Message::write_to_bytes`, for
/// `protobuf::well_known_types::timestamp::Timestamp`, writes the fields that are not zero, and
/// does not fail.
#[verifier::external_body]
fn write_timestamp(seconds: i64, nanos: i32) -> (r: Result<Vec<u8>, protobuf::Error>)
    ensures
        r is Ok,
        r->Ok_0@ == Timestamp::encoded(Timestamp { seconds, nanos }),
{
    let mut message = protobuf::well_known_types::timestamp::Timestamp::new();
    message.seconds = seconds;
    message.nanos = nanos;
    message.write_to_bytes()
}

impl Decode for Timestamp {
    open spec fn decoded(bytes: Seq<u8>, limits: Limits) -> Result<Timestamp, Seq<char>> {
        message::merged::<Timestamp>(Timestamp::empty(), bytes, limits)
    }

    fn decode(bytes: &[u8], limits: ReadLimits) -> Result<Timestamp, DecodeError> {
        match parse_timestamp(bytes, limits) {
            Ok((seconds, nanos)) => Ok(Timestamp { seconds, nanos }),
            Err(error) => Err(error),
        }
    }
}

impl Encode for Timestamp {
    open spec fn encoded(message: Timestamp) -> Seq<u8> {
        wire::optional_integer_field(1, message.seconds as int)
            + wire::optional_integer_field(2, message.nanos as int)
    }

    fn encode(&self) -> Result<Vec<u8>, protobuf::Error> {
        write_timestamp(self.seconds, self.nanos)
    }
}

/// The point in time that is a number of milliseconds after the Unix epoch.
pub open spec fn timestamp_of_millis(millis: u64) -> Timestamp {
    Timestamp { seconds: (millis / 1000) as i64, nanos: (millis % 1000 * 1_000_000) as i32 }
}

/// The number of milliseconds from the Unix epoch to a point in time, rounded down, or why there
/// is none.
pub open spec fn millis_of_timestamp(timestamp: Timestamp) -> Result<u64, status::Status> {
    let millis = timestamp.seconds * 1000 + timestamp.nanos as int / 1_000_000;
    if !(0 <= timestamp.nanos < 1_000_000_000) {
        Err(status::invalid_argument("invalid timestamp: nanos value out of range"@))
    } else if timestamp.seconds < 0 || millis > u64::MAX {
        Err(status::invalid_argument("invalid timestamp: seconds value out of range"@))
    } else {
        Ok(millis as u64)
    }
}

/// Converts milliseconds since the Unix epoch to a point in time on the wire.
///
/// There is a point in time for every number of milliseconds.
pub fn unix_epoch_millis_as_protobuf_timestamp(millis: Option<u64>) -> (r: Result<
    Option<Timestamp>,
    UStatus,
>)
    ensures
        r is Ok,
        r->Ok_0 == match millis {
            Some(millis) => Some(timestamp_of_millis(millis)),
            None => None,
        },
{
    match millis {
        Some(milliseconds) => {
            let seconds: i64 = (milliseconds / 1000) as i64;
            let nanos: i32 = (milliseconds % 1000) as i32 * 1_000_000;
            Ok(Some(Timestamp { seconds, nanos }))
        },
        None => Ok(None),
    }
}

/// Converts a point in time on the wire to milliseconds since the Unix epoch.
pub fn protobuf_timestamp_as_unix_epoch_milliseconds(timestamp: Option<&Timestamp>) -> (r: Result<
    Option<u64>,
    UStatus,
>)
    ensures
        match timestamp {
            Some(timestamp) => match millis_of_timestamp(*timestamp) {
                Ok(millis) => r is Ok && r->Ok_0 == Some(millis),
                Err(status) => r is Err && r->Err_0@ == status,
            },
            None => r is Ok && r->Ok_0 is None,
        },
{
    match timestamp {
        Some(timestamp) => {
            if timestamp.nanos < 0 || timestamp.nanos >= 1_000_000_000 {
                return Err(
                    UStatus::fail_with_code(
                        UCode::InvalidArgument,
                        "invalid timestamp: nanos value out of range",
                    ),
                );
            }
            if timestamp.seconds >= 0 {
                if let Some(millis) = (timestamp.seconds as u64).checked_mul(1000) {
                    if let Some(millis) = millis.checked_add(timestamp.nanos as u64 / 1_000_000) {
                        return Ok(Some(millis));
                    }
                }
            }
            Err(
                UStatus::fail_with_code(
                    UCode::InvalidArgument,
                    "invalid timestamp: seconds value out of range",
                ),
            )
        },
        None => Ok(None),
    }
}

/// Reading a point in time gives back what was written.
pub proof fn law_timestamp_message_round_trip(timestamp: Timestamp, limits: Limits)
    ensures
        Timestamp::decoded(Timestamp::encoded(timestamp), limits) == Ok::<_, Seq<char>>(timestamp),
{
    let m0 = Timestamp::empty();
    let m1 = Timestamp { seconds: timestamp.seconds, ..m0 };
    let f1 = wire::optional_integer_field(1, timestamp.seconds as int);
    let f2 = wire::optional_integer_field(2, timestamp.nanos as int);
    let bytes = Timestamp::encoded(timestamp);
    if timestamp.seconds == 0 {
        assert(bytes =~= f2);
    } else {
        let value = wire::varint_bytes(wire::unsigned(timestamp.seconds as int));
        wire::lemma_int64(timestamp.seconds as int, f2);
        message::lemma_merged_field::<Timestamp>(m0, m1, 8, value, f2, limits);
        assert(bytes =~= wire::varint_bytes(8) + value + f2);
    }
    if timestamp.nanos != 0 {
        let value = wire::varint_bytes(wire::unsigned(timestamp.nanos as int));
        wire::lemma_int64(timestamp.nanos as int, seq![]);
        message::lemma_merged_field::<Timestamp>(
            m1,
            timestamp,
            16,
            value,
            seq![],
            limits.after(f1.len() as int),
        );
        assert(f2 =~= wire::varint_bytes(16) + value + seq![]);
    }
}

/// Milliseconds since the Unix epoch survive being put into a point in time.
pub proof fn law_millis_round_trip(millis: u64)
    ensures
        millis_of_timestamp(timestamp_of_millis(millis)) == Ok::<_, status::Status>(millis),
{
}

/// The point in time that is a number of milliseconds after the Unix epoch is a valid one.
pub proof fn law_timestamp_of_millis_is_valid(millis: u64)
    ensures
        timestamp_of_millis(millis).seconds >= 0,
        0 <= timestamp_of_millis(millis).nanos < 1_000_000_000,
        timestamp_of_millis(millis).seconds * 1000 + timestamp_of_millis(millis).nanos as int
            / 1_000_000 == millis,
{
}

/// A point in time that has milliseconds survives being put into them, down to what is less than
/// a millisecond.
pub proof fn law_timestamp_round_trip(timestamp: Timestamp)
    ensures
        millis_of_timestamp(timestamp) matches Ok(millis) ==> timestamp_of_millis(millis) == (
        Timestamp {
            seconds: timestamp.seconds,
            nanos: (timestamp.nanos as int / 1_000_000 * 1_000_000) as i32,
        }),
{
}

} // verus!
