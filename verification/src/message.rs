use vstd::prelude::*;
use crate::packet::RequestType;
use crate::packetphase::ClientMessage;

verus! {

/// The fields read off the protobuf payload of a client's packet, in the
/// order they came: the length-delimited ones as strings, the varint ones as
/// `u32`, each with its field number.
pub struct PayloadFields {
    pub strings: Vec<(u32, String)>,
    pub uints: Vec<(u32, u32)>,
}

/// The string that field `n` holds: the last of its occurrences, or the
/// empty string where it does not occur.
pub open spec fn string_of(fields: Seq<(u32, String)>, n: u32) -> Seq<char>
    decreases fields.len(),
{
    if fields.len() == 0 {
        Seq::empty()
    } else if fields.last().0 == n {
        fields.last().1@
    } else {
        string_of(fields.drop_last(), n)
    }
}

/// The number that field `n` holds: the last of its occurrences, or 0
/// where it does not occur.
pub open spec fn uint_of(fields: Seq<(u32, u32)>, n: u32) -> u32
    decreases fields.len(),
{
    if fields.len() == 0 {
        0
    } else if fields.last().0 == n {
        fields.last().1
    } else {
        uint_of(fields.drop_last(), n)
    }
}

/// `m` is the message that a request of kind `t` carries in a payload with
/// fields `f`, its fields numbered from one in the order `ClientMessage`
/// names them.
pub open spec fn is_message_of(m: ClientMessage, t: RequestType, f: PayloadFields) -> bool {
    let s = f.strings@;
    let u = f.uints@;
    match t {
        RequestType::ADDPLAYER => m matches ClientMessage::AddPlayer { player_name }
            && player_name@ == string_of(s, 1),
        RequestType::REMOVEPLAYER => m == ClientMessage::RemovePlayer { player_id: uint_of(u, 1) },
        RequestType::CHATCHANNELS => m == ClientMessage::ChatChannels { player: uint_of(u, 1) },
        RequestType::VOTE => m == ClientMessage::Vote { sender: uint_of(u, 1), victim: uint_of(u, 2) },
        RequestType::DETECTIVEINVESTIGATE => m == ClientMessage::DetectiveInvestigate {
            sender: uint_of(u, 1),
            target: uint_of(u, 2),
        },
        _ => m == ClientMessage::NoMessage,
    }
}

impl PayloadFields {
    /// The string that field `n` holds.
    pub fn string(&self, n: u32) -> (s: String)
        ensures
            s@ == string_of(self.strings@, n),
    {
        let mut i: usize = self.strings.len();
        assert(self.strings@.take(i as int) =~= self.strings@);
        while i > 0
            invariant
                i <= self.strings@.len(),
                string_of(self.strings@, n) == string_of(self.strings@.take(i as int), n),
            decreases i,
        {
            assert(self.strings@.take(i as int).drop_last() =~= self.strings@.take(i - 1));
            if self.strings[i - 1].0 == n {
                return self.strings[i - 1].1.clone();
            }
            i -= 1;
        }
        String::new()
    }

    /// The number that field `n` holds.
    pub fn uint(&self, n: u32) -> (v: u32)
        ensures
            v == uint_of(self.uints@, n),
    {
        let mut i: usize = self.uints.len();
        assert(self.uints@.take(i as int) =~= self.uints@);
        while i > 0
            invariant
                i <= self.uints@.len(),
                uint_of(self.uints@, n) == uint_of(self.uints@.take(i as int), n),
            decreases i,
        {
            assert(self.uints@.take(i as int).drop_last() =~= self.uints@.take(i - 1));
            if self.uints[i - 1].0 == n {
                return self.uints[i - 1].1;
            }
            i -= 1;
        }
        0
    }
}

/// The message that a request of kind `t` carries in a payload with fields
/// `fields`; a request that carries none gets `NoMessage`.
pub fn message_of(t: RequestType, fields: &PayloadFields) -> (m: ClientMessage)
    ensures
        is_message_of(m, t, *fields),
{
    match t {
        RequestType::ADDPLAYER => ClientMessage::AddPlayer { player_name: fields.string(1) },
        RequestType::REMOVEPLAYER => ClientMessage::RemovePlayer { player_id: fields.uint(1) },
        RequestType::CHATCHANNELS => ClientMessage::ChatChannels { player: fields.uint(1) },
        RequestType::VOTE => ClientMessage::Vote { sender: fields.uint(1), victim: fields.uint(2) },
        RequestType::DETECTIVEINVESTIGATE => ClientMessage::DetectiveInvestigate {
            sender: fields.uint(1),
            target: fields.uint(2),
        },
        _ => ClientMessage::NoMessage,
    }
}

} // verus!
