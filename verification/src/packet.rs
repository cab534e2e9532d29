use vstd::prelude::*;

verus! {

/// The length of a packet's header.
pub const HEADER_SIZE: usize = 10;

pub const MAGIC_BYTE_B1: u8 = 0x25;

pub const MAGIC_BYTE_B2: u8 = 0xC9;

pub const MAGIC_BYTE_B3: u8 = 0xC3;

pub const MAGIC_BYTE_B4: u8 = 0x5F;

/// The protocol version that this server speaks.
pub const SERVER_VERSION: u8 = 0x00;

/// The kind of a packet.
#[allow(non_camel_case_types)]
#[derive(Debug, PartialEq, Eq, Clone, Copy, Structural)]
pub enum RequestType {
    HEARTBEAT,
    NEWGAME,
    ADDPLAYER,
    REMOVEPLAYER,
    ADVANCE,
    STATE,
    ROLES,
    VOTE,
    CHATCHANNELS,
    DETECTIVEINVESTIGATE,
    FAILURE,
    ERROR,
    UNKNOWN,
}

/// The byte that stands for a request type on the wire.
pub open spec fn type_byte(t: RequestType) -> u8 {
    match t {
        RequestType::HEARTBEAT => 0,
        RequestType::NEWGAME => 1,
        RequestType::ADDPLAYER => 2,
        RequestType::REMOVEPLAYER => 3,
        RequestType::ADVANCE => 4,
        RequestType::STATE => 5,
        RequestType::ROLES => 6,
        RequestType::VOTE => 7,
        RequestType::CHATCHANNELS => 8,
        RequestType::DETECTIVEINVESTIGATE => 9,
        RequestType::FAILURE => 200,
        RequestType::ERROR => 201,
        RequestType::UNKNOWN => 255,
    }
}

/// The request type that a byte read off the wire stands for: `UNKNOWN`
/// for a byte that stands for no request type.
pub open spec fn type_of_byte(b: u8) -> RequestType {
    if b == 0 {
        RequestType::HEARTBEAT
    } else if b == 1 {
        RequestType::NEWGAME
    } else if b == 2 {
        RequestType::ADDPLAYER
    } else if b == 3 {
        RequestType::REMOVEPLAYER
    } else if b == 4 {
        RequestType::ADVANCE
    } else if b == 5 {
        RequestType::STATE
    } else if b == 6 {
        RequestType::ROLES
    } else if b == 7 {
        RequestType::VOTE
    } else if b == 8 {
        RequestType::CHATCHANNELS
    } else if b == 9 {
        RequestType::DETECTIVEINVESTIGATE
    } else if b == 200 {
        RequestType::FAILURE
    } else if b == 201 {
        RequestType::ERROR
    } else {
        RequestType::UNKNOWN
    }
}

impl RequestType {
    pub fn from_byte(byte: u8) -> (t: RequestType)
        ensures
            t == type_of_byte(byte),
    {
        match byte {
            0 => RequestType::HEARTBEAT,
            1 => RequestType::NEWGAME,
            2 => RequestType::ADDPLAYER,
            3 => RequestType::REMOVEPLAYER,
            4 => RequestType::ADVANCE,
            5 => RequestType::STATE,
            6 => RequestType::ROLES,
            7 => RequestType::VOTE,
            8 => RequestType::CHATCHANNELS,
            9 => RequestType::DETECTIVEINVESTIGATE,
            200 => RequestType::FAILURE,
            201 => RequestType::ERROR,
            _ => RequestType::UNKNOWN,
        }
    }

    pub fn to_byte(&self) -> (b: u8)
        ensures
            b == type_byte(*self),
    {
        match self {
            RequestType::HEARTBEAT => 0,
            RequestType::NEWGAME => 1,
            RequestType::ADDPLAYER => 2,
            RequestType::REMOVEPLAYER => 3,
            RequestType::ADVANCE => 4,
            RequestType::STATE => 5,
            RequestType::ROLES => 6,
            RequestType::VOTE => 7,
            RequestType::CHATCHANNELS => 8,
            RequestType::DETECTIVEINVESTIGATE => 9,
            RequestType::FAILURE => 200,
            RequestType::ERROR => 201,
            RequestType::UNKNOWN => 255,
        }
    }
}

/// A packet as read off the wire: its kind and its payload.
#[derive(Debug)]
pub struct MurderPacket {
    pub request_type: RequestType,
    pub payload: Vec<u8>,
}

/// The four bytes of `len` modulo 2^32, most significant first.
pub open spec fn length_bytes(len: nat) -> Seq<u8> {
    seq![
        ((len / 0x1000000) % 256) as u8,
        ((len / 0x10000) % 256) as u8,
        ((len / 0x100) % 256) as u8,
        (len % 256) as u8,
    ]
}

/// The header of a packet of kind `t` with a payload of `len` bytes.
pub open spec fn header_bytes(t: RequestType, len: nat) -> Seq<u8> {
    seq![MAGIC_BYTE_B1, MAGIC_BYTE_B2, MAGIC_BYTE_B3, MAGIC_BYTE_B4, SERVER_VERSION, type_byte(t)]
        + length_bytes(len)
}

/// A packet of kind `request_type` carrying `payload`: the header, then the
/// payload.
pub fn encode_packet(request_type: RequestType, payload: Vec<u8>) -> (buf: Vec<u8>)
    ensures
        buf@ == header_bytes(request_type, payload@.len()) + payload@,
{
    let len = payload.len();
    let mut buf: Vec<u8> = Vec::with_capacity(HEADER_SIZE);
    buf.push(MAGIC_BYTE_B1);
    buf.push(MAGIC_BYTE_B2);
    buf.push(MAGIC_BYTE_B3);
    buf.push(MAGIC_BYTE_B4);
    buf.push(SERVER_VERSION);
    buf.push(request_type.to_byte());
    buf.push(((len / 0x1000000) % 256) as u8);
    buf.push(((len / 0x10000) % 256) as u8);
    buf.push(((len / 0x100) % 256) as u8);
    buf.push((len % 256) as u8);
    assert(buf@ =~= header_bytes(request_type, len as nat));
    let mut payload = payload;
    buf.append(&mut payload);
    return buf;
}

/// Whether a header starts with the magic bytes.
pub open spec fn magic_ok(head: Seq<u8>) -> bool {
    &&& head[0] == MAGIC_BYTE_B1
    &&& head[1] == MAGIC_BYTE_B2
    &&& head[2] == MAGIC_BYTE_B3
    &&& head[3] == MAGIC_BYTE_B4
}

/// What is wrong with a header, if anything.
pub open spec fn header_error(head: Seq<u8>) -> Option<Seq<char>> {
    if !magic_ok(head) {
        Some("Invalid magic bytes"@)
    } else if head[4] != SERVER_VERSION {
        Some("Client supported version does not match server version."@)
    } else {
        None
    }
}

/// Checks the magic bytes and the protocol version of a header.
pub fn check_header(head: &Vec<u8>) -> (r: Result<(), &'static str>)
    requires
        head@.len() >= 5,
    ensures
        r is Ok <==> header_error(head@) is None,
        r matches Err(e) ==> header_error(head@) == Some(e@),
{
    if head[0] != MAGIC_BYTE_B1 || head[1] != MAGIC_BYTE_B2 || head[2] != MAGIC_BYTE_B3 || head[3]
        != MAGIC_BYTE_B4 {
        return Err("Invalid magic bytes");
    }
    if head[4] != SERVER_VERSION {
        return Err("Client supported version does not match server version.");
    }
    return Ok(());
}

/// The payload length that a header announces: bytes 6 to 9, most
/// significant first.
pub open spec fn announced_length(head: Seq<u8>) -> nat {
    (head[6] * 0x1000000 + head[7] * 0x10000 + head[8] * 0x100 + head[9]) as nat
}

/// Reads a packet's header: its kind and the length of the payload that
/// follows it.
pub fn decode_header(head: &Vec<u8>) -> (r: Result<(RequestType, u64), &'static str>)
    requires
        head@.len() >= HEADER_SIZE,
    ensures
        r is Ok <==> header_error(head@) is None,
        r matches Err(e) ==> header_error(head@) == Some(e@),
        r matches Ok(h) ==> h.0 == type_of_byte(head@[5]) && h.1 == announced_length(head@),
{
    match check_header(head) {
        Err(e) => {
            return Err(e);
        },
        Ok(()) => {},
    }
    let request_type = head[5];
    let pl_size: u64 = (head[6] as u64) * 0x1000000 + (head[7] as u64) * 0x10000 + (head[8] as u64)
        * 0x100 + (head[9] as u64);
    Ok((RequestType::from_byte(request_type), pl_size))
}

} // verus!
