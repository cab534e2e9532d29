use vstd::prelude::*;
use crate::packetphase::Reply;

verus! {

/// The highest field number that protobuf allows.
pub const FIELD_NUMBER_MAX: u32 = 0x1fffffff;

/// The base-128 varint encoding of `n`: seven bits a byte, least
/// significant first, the top bit set on every byte but the last.
pub open spec fn varint(n: nat) -> Seq<u8>
    decreases n,
{
    if n < 128 {
        seq![n as u8]
    } else {
        seq![(n % 128 + 128) as u8] + varint(n / 128)
    }
}

/// The key that opens a field: its number and its wire type.
pub open spec fn field_key(field: nat, wire_type: nat) -> Seq<u8> {
    varint(field * 8 + wire_type)
}

/// A `uint32` field.
pub open spec fn uint32_field(field: nat, value: u32) -> Seq<u8> {
    field_key(field, 0) + varint(value as nat)
}

/// A `bool` field.
pub open spec fn bool_field(field: nat, value: bool) -> Seq<u8> {
    field_key(field, 0) + varint(
        if value {
            1
        } else {
            0
        },
    )
}

/// A `string` field: the key, the length of the UTF-8 bytes (modulo 2^32),
/// then the bytes.
pub open spec fn string_field(field: nat, s: Seq<char>) -> Seq<u8> {
    let bytes = vstd::utf8::encode_utf8(s);
    field_key(field, 2) + varint(bytes.len() % 0x1_0000_0000) + bytes
}

/// A repeated `string` field, one field for each item.
pub open spec fn strings_field(field: nat, v: Seq<String>) -> Seq<u8>
    decreases v.len(),
{
    if v.len() == 0 {
        Seq::empty()
    } else {
        strings_field(field, v.drop_last()) + string_field(field, v.last()@)
    }
}

/// A repeated `uint32` field, one field for each item.
pub open spec fn uint32s_field(field: nat, v: Seq<u32>) -> Seq<u8>
    decreases v.len(),
{
    if v.len() == 0 {
        Seq::empty()
    } else {
        uint32s_field(field, v.drop_last()) + uint32_field(field, v.last())
    }
}

/// A singular `uint32` field of a proto3 message: left out when it holds 0.
pub open spec fn uint32_opt(field: nat, value: u32) -> Seq<u8> {
    if value == 0 {
        Seq::empty()
    } else {
        uint32_field(field, value)
    }
}

/// A singular `bool` field of a proto3 message: left out when it holds `false`.
pub open spec fn bool_opt(field: nat, value: bool) -> Seq<u8> {
    if value {
        bool_field(field, true)
    } else {
        Seq::empty()
    }
}

/// A singular `string` field of a proto3 message: left out when it is empty.
pub open spec fn string_opt(field: nat, s: Seq<char>) -> Seq<u8> {
    if s.len() == 0 {
        Seq::empty()
    } else {
        string_field(field, s)
    }
}

/// The payload of a reply: a heartbeat or a failure carries the single
/// byte 1; every other reply is a proto3 message whose fields are numbered
/// from one in the order the reply names them. A singular field that holds
/// its default value (0, `false`, the empty string) is left out; a repeated
/// field writes every item.
pub open spec fn reply_bytes(r: Reply) -> Seq<u8> {
    match r {
        Reply::Ack => seq![1u8],
        Reply::NewGame { uuid, has_started } => string_opt(1, uuid@) + bool_opt(2, has_started),
        Reply::AddPlayer { player_id } => uint32_opt(1, player_id),
        Reply::RemovePlayer { player_id } => uint32_opt(1, player_id),
        Reply::ChatChannels { channels } => uint32s_field(1, channels@),
        Reply::State { state } => uint32_opt(1, state),
        Reply::Roles { roles } => strings_field(1, roles@),
        Reply::Vote { votes, finished, lynched } => uint32_opt(1, votes) + bool_opt(2, finished)
            + uint32_opt(3, lynched),
        Reply::DetectiveInvestigate { target, role } => uint32_opt(1, target) + string_opt(
            2,
            role@,
        ),
        Reply::Error { error, details } => string_opt(1, error@) + string_opt(2, details@),
    }
}

/// Calls `protobuf::CodedOutputStream::write_uint32` on a stream over `buf`
/// (opened with `CodedOutputStream::vec`, flushed after): appends the field's
/// key and the value as varints. `protobuf` panics on a field number of 0 or
/// above `FIELD_NUMBER_MAX`, which `requires` rules out; writing to a vector
/// does not fail otherwise.
#[verifier::external_body]
fn write_uint32(buf: &mut Vec<u8>, field: u32, value: u32)
    requires
        1 <= field <= FIELD_NUMBER_MAX,
    ensures
        final(buf)@ == old(buf)@ + uint32_field(field as nat, value),
{
    let mut os = protobuf::CodedOutputStream::vec(buf);
    os.write_uint32(field, value).unwrap();
    os.flush().unwrap();
}

/// Calls `protobuf::CodedOutputStream::write_bool` on a stream over `buf`:
/// appends the field's key and the varint 1 or 0 (see [`write_uint32`]).
#[verifier::external_body]
fn write_bool(buf: &mut Vec<u8>, field: u32, value: bool)
    requires
        1 <= field <= FIELD_NUMBER_MAX,
    ensures
        final(buf)@ == old(buf)@ + bool_field(field as nat, value),
{
    let mut os = protobuf::CodedOutputStream::vec(buf);
    os.write_bool(field, value).unwrap();
    os.flush().unwrap();
}

/// Calls `protobuf::CodedOutputStream::write_string` on a stream over `buf`:
/// appends the field's key, the length of the string's UTF-8 bytes (cast to
/// `u32`) as a varint, then the bytes (see [`write_uint32`]).
#[verifier::external_body]
fn write_string(buf: &mut Vec<u8>, field: u32, value: &str)
    requires
        1 <= field <= FIELD_NUMBER_MAX,
    ensures
        final(buf)@ == old(buf)@ + string_field(field as nat, value@),
{
    let mut os = protobuf::CodedOutputStream::vec(buf);
    os.write_string(field, value).unwrap();
    os.flush().unwrap();
}

/// Appends a singular `uint32` field unless it holds 0.
fn put_uint32(buf: &mut Vec<u8>, field: u32, value: u32)
    requires
        1 <= field <= FIELD_NUMBER_MAX,
    ensures
        final(buf)@ == old(buf)@ + uint32_opt(field as nat, value),
{
    if value != 0 {
        write_uint32(buf, field, value);
    } else {
        assert(buf@ =~= old(buf)@ + uint32_opt(field as nat, value));
    }
}

/// Appends a singular `bool` field unless it holds `false`.
fn put_bool(buf: &mut Vec<u8>, field: u32, value: bool)
    requires
        1 <= field <= FIELD_NUMBER_MAX,
    ensures
        final(buf)@ == old(buf)@ + bool_opt(field as nat, value),
{
    if value {
        write_bool(buf, field, value);
    } else {
        assert(buf@ =~= old(buf)@ + bool_opt(field as nat, value));
    }
}

/// Appends a singular `string` field unless it is empty.
fn put_string(buf: &mut Vec<u8>, field: u32, value: &str)
    requires
        1 <= field <= FIELD_NUMBER_MAX,
    ensures
        final(buf)@ == old(buf)@ + string_opt(field as nat, value@),
{
    if !value.is_empty() {
        write_string(buf, field, value);
    } else {
        assert(buf@ =~= old(buf)@ + string_opt(field as nat, value@));
    }
}

/// The payload of an error reply: the error's code, then its details, each
/// left out when empty.
pub fn get_error(error: String, details: String) -> (b: Vec<u8>)
    ensures
        b@ == string_opt(1, error@) + string_opt(2, details@),
{
    let mut buf: Vec<u8> = Vec::new();
    put_string(&mut buf, 1, error.as_str());
    put_string(&mut buf, 2, details.as_str());
    assert(buf@ =~= string_opt(1, error@) + string_opt(2, details@));
    buf
}

/// The payload that carries `reply`.
pub fn encode_reply(reply: &Reply) -> (b: Vec<u8>)
    ensures
        b@ == reply_bytes(*reply),
{
    let mut buf: Vec<u8> = Vec::new();
    match reply {
        Reply::Ack => {
            buf.push(1);
            assert(buf@ =~= seq![1u8]);
        },
        Reply::NewGame { uuid, has_started } => {
            put_string(&mut buf, 1, uuid.as_str());
            put_bool(&mut buf, 2, *has_started);
            assert(buf@ =~= reply_bytes(*reply));
        },
        Reply::AddPlayer { player_id } => {
            put_uint32(&mut buf, 1, *player_id);
            assert(buf@ =~= reply_bytes(*reply));
        },
        Reply::RemovePlayer { player_id } => {
            put_uint32(&mut buf, 1, *player_id);
            assert(buf@ =~= reply_bytes(*reply));
        },
        Reply::ChatChannels { channels } => {
            let mut i: usize = 0;
            while i < channels.len()
                invariant
                    i <= channels@.len(),
                    buf@ == uint32s_field(1, channels@.take(i as int)),
                decreases channels@.len() - i,
            {
                write_uint32(&mut buf, 1, channels[i]);
                assert(channels@.take(i + 1).drop_last() =~= channels@.take(i as int));
                i += 1;
            }
            assert(channels@.take(channels@.len() as int) =~= channels@);
        },
        Reply::State { state } => {
            put_uint32(&mut buf, 1, *state);
            assert(buf@ =~= reply_bytes(*reply));
        },
        Reply::Roles { roles } => {
            let mut i: usize = 0;
            while i < roles.len()
                invariant
                    i <= roles@.len(),
                    buf@ == strings_field(1, roles@.take(i as int)),
                decreases roles@.len() - i,
            {
                write_string(&mut buf, 1, roles[i].as_str());
                assert(roles@.take(i + 1).drop_last() =~= roles@.take(i as int));
                i += 1;
            }
            assert(roles@.take(roles@.len() as int) =~= roles@);
        },
        Reply::Vote { votes, finished, lynched } => {
            put_uint32(&mut buf, 1, *votes);
            put_bool(&mut buf, 2, *finished);
            put_uint32(&mut buf, 3, *lynched);
            assert(buf@ =~= reply_bytes(*reply));
        },
        Reply::DetectiveInvestigate { target, role } => {
            put_uint32(&mut buf, 1, *target);
            put_string(&mut buf, 2, role.as_str());
            assert(buf@ =~= reply_bytes(*reply));
        },
        Reply::Error { error, details } => {
            buf = get_error(error.clone(), details.clone());
        },
    }
    buf
}

} // verus!
