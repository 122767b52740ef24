use vstd::prelude::*;

use crate::types::{ids_view, AchievementId, CheckUidResponse, CheckUidResponseView};

verus! {

/// First byte of an identity check request.
pub const OP_CHECK_UID: u8 = 0x00;

/// First byte of a content fetch request.
pub const OP_GET_AUDIO: u8 = 0x01;

/// The single byte of a keepalive request.
pub const OP_KEEPALIVE: u8 = 0x02;

/// First response byte of an identity check that the server could not serve.
pub const CHECK_UID_ERROR: u8 = 0x00;

/// First response byte of an identity check that the server throttled.
pub const CHECK_UID_THROTTLED: u8 = 0x02;

/// First response byte of a content fetch for which the server has nothing.
pub const AUDIO_ABSENT: u8 = 0x00;

/// What a decoder makes of the bytes received so far.
#[derive(Debug, Clone, PartialEq, Eq)]
pub enum Decoded<T> {
    /// The first `consumed` bytes are one whole response, and `value` is
    /// what it says.
    Complete { value: T, consumed: usize },
    /// The response is cut short: `missing` more bytes have to arrive
    /// before the decoder can go on.
    Incomplete { missing: usize },
}

/// Appends `src` to `dst`.
pub fn append_bytes(dst: &mut Vec<u8>, src: &[u8])
    ensures
        final(dst)@ == old(dst)@ + src@,
{
    let mut i: usize = 0;
    while i < src.len()
        invariant
            i <= src.len(),
            dst@ == old(dst)@ + src@.subrange(0, i as int),
        decreases src.len() - i,
    {
        dst.push(src[i]);
        i += 1;
    }
    assert(src@.subrange(0, src@.len() as int) == src@);
}

/// The request that asks which achievements the tag `uid` unlocks: the
/// opcode, then the tag's bytes.
pub open spec fn check_uid_request(uid: Seq<u8>) -> Seq<u8> {
    seq![OP_CHECK_UID] + uid
}

/// The request that fetches the audio of achievement `id`: the opcode,
/// then the identifier.
pub open spec fn get_audio_request(id: Seq<u8>) -> Seq<u8> {
    seq![OP_GET_AUDIO] + id
}

/// The keepalive request: the opcode alone.
pub open spec fn ping_request() -> Seq<u8> {
    seq![OP_KEEPALIVE]
}

/// Builds the identity check request for `uid`.
pub fn encode_check_uid(uid: &[u8]) -> (request: Vec<u8>)
    ensures
        request@ == check_uid_request(uid@),
{
    let mut request: Vec<u8> = Vec::new();
    request.push(OP_CHECK_UID);
    append_bytes(&mut request, uid);
    request
}

/// Builds the content fetch request for `id`.
pub fn encode_get_audio(id: &AchievementId) -> (request: Vec<u8>)
    ensures
        request@ == get_audio_request(id@),
{
    let mut request: Vec<u8> = Vec::new();
    request.push(OP_GET_AUDIO);
    append_bytes(&mut request, id.as_slice());
    request
}

/// Builds the keepalive request.
pub fn encode_ping() -> (request: Vec<u8>)
    ensures
        request@ == ping_request(),
{
    let mut request: Vec<u8> = Vec::new();
    request.push(OP_KEEPALIVE);
    request
}

/// How many leading bytes of an identity check response have to be at hand
/// before the decoder can go past `bytes`: the status byte; after a status
/// that announces a list, the count byte as well; after the count byte, the
/// whole frame. Once `bytes` is that long, this is the length of the frame.
pub open spec fn check_uid_frame_len(bytes: Seq<u8>) -> nat {
    if bytes.len() < 1 {
        1
    } else if bytes[0] == CHECK_UID_ERROR || bytes[0] == CHECK_UID_THROTTLED {
        1
    } else if bytes.len() < 2 {
        2
    } else {
        (2 + 20 * bytes[1]) as nat
    }
}

/// The identifiers that an identity check response lists: as many as its
/// count byte says, twenty bytes each, in the order of the frame.
pub open spec fn check_uid_achievements(bytes: Seq<u8>) -> Seq<Seq<u8>>
    recommends
        bytes.len() >= 2 + 20 * bytes[1],
{
    Seq::new(bytes[1] as nat, |i: int| bytes.subrange(2 + 20 * i, 22 + 20 * i))
}

/// What a whole identity check response says.
pub open spec fn check_uid_value(bytes: Seq<u8>) -> CheckUidResponseView
    recommends
        bytes.len() >= check_uid_frame_len(bytes),
{
    if bytes[0] == CHECK_UID_ERROR {
        CheckUidResponseView::Error
    } else if bytes[0] == CHECK_UID_THROTTLED {
        CheckUidResponseView::Throttle
    } else {
        CheckUidResponseView::Success { achievements: check_uid_achievements(bytes) }
    }
}

/// Copies the twenty bytes of `bytes` that start at `at`.
fn read_achievement_id(bytes: &[u8], at: usize) -> (id: AchievementId)
    requires
        at + 20 <= bytes@.len(),
    ensures
        id@ == bytes@.subrange(at as int, at + 20),
{
    let len = bytes.len();
    let mut id: AchievementId = [0u8; 20];
    let mut j: usize = 0;
    while j < 20
        invariant
            j <= 20,
            len == bytes@.len(),
            at + 20 <= len,
            forall|k: int| 0 <= k < j ==> id@[k] == bytes@[at + k],
        decreases 20 - j,
    {
        id[j] = bytes[at + j];
        j += 1;
    }
    assert(id@ =~= bytes@.subrange(at as int, at + 20));
    id
}

/// Decodes the response to an identity check from the bytes received so
/// far. The result is `Complete` exactly when `bytes` holds the whole
/// frame; bytes after the frame are not looked at.
pub fn decode_check_uid(bytes: &[u8]) -> (r: Decoded<CheckUidResponse>)
    ensures
        match r {
            Decoded::Complete { value, consumed } => {
                &&& bytes@.len() >= check_uid_frame_len(bytes@)
                &&& consumed == check_uid_frame_len(bytes@)
                &&& value@ == check_uid_value(bytes@)
            },
            Decoded::Incomplete { missing } => {
                &&& bytes@.len() < check_uid_frame_len(bytes@)
                &&& missing == check_uid_frame_len(bytes@) - bytes@.len()
            },
        },
{
    let len = bytes.len();
    if len < 1 {
        return Decoded::Incomplete { missing: 1 };
    }
    let status = bytes[0];
    if status == CHECK_UID_ERROR {
        return Decoded::Complete { value: CheckUidResponse::Error {  }, consumed: 1 };
    }
    if status == CHECK_UID_THROTTLED {
        return Decoded::Complete { value: CheckUidResponse::Throttle {  }, consumed: 1 };
    }
    if len < 2 {
        return Decoded::Incomplete { missing: 1 };
    }
    let count: usize = bytes[1] as usize;
    let total: usize = 2 + 20 * count;
    if len < total {
        return Decoded::Incomplete { missing: total - len };
    }
    let mut achievements: Vec<AchievementId> = Vec::with_capacity(count);
    let mut i: usize = 0;
    while i < count
        invariant
            i <= count,
            count == bytes@[1],
            2 + 20 * count <= bytes@.len(),
            achievements@.len() == i,
            forall|k: int|
                0 <= k < i ==> (#[trigger] achievements@[k])@ == bytes@.subrange(
                    2 + 20 * k,
                    22 + 20 * k,
                ),
        decreases count - i,
    {
        let id = read_achievement_id(bytes, 2 + 20 * i);
        achievements.push(id);
        i += 1;
    }
    assert(ids_view(achievements@) =~= check_uid_achievements(bytes@));
    Decoded::Complete { value: CheckUidResponse::Success { achievements }, consumed: total }
}

/// The number that four bytes spell in little-endian order.
pub open spec fn le_u32(b0: u8, b1: u8, b2: u8, b3: u8) -> nat {
    (b0 + 256 * b1 + 65536 * b2 + 16777216 * b3) as nat
}

/// The payload length that a content fetch response advertises in the four
/// bytes after its status byte.
pub open spec fn audio_len(bytes: Seq<u8>) -> nat
    recommends
        bytes.len() >= 5,
{
    le_u32(bytes[1], bytes[2], bytes[3], bytes[4])
}

/// How many leading bytes of a content fetch response have to be at hand
/// before the decoder can go past `bytes`: the status byte; after a status
/// that announces a payload, the length field as well; after the length
/// field, the whole frame. Once `bytes` is that long, this is the length of
/// the frame.
pub open spec fn get_audio_frame_len(bytes: Seq<u8>) -> nat {
    if bytes.len() < 1 {
        1
    } else if bytes[0] == AUDIO_ABSENT {
        1
    } else if bytes.len() < 5 {
        5
    } else {
        5 + audio_len(bytes)
    }
}

/// What a whole content fetch response says: nothing, or the payload that
/// follows the length field, as long as the field advertises.
pub open spec fn get_audio_value(bytes: Seq<u8>) -> Option<Seq<u8>>
    recommends
        bytes.len() >= get_audio_frame_len(bytes),
{
    if bytes[0] == AUDIO_ABSENT {
        None
    } else {
        Some(bytes.subrange(5, 5 + audio_len(bytes) as int))
    }
}

/// The view of an optional payload.
pub open spec fn payload_view(data: Option<Vec<u8>>) -> Option<Seq<u8>> {
    match data {
        Some(bytes) => Some(bytes@),
        None => None,
    }
}

/// Decodes the response to a content fetch from the bytes received so far.
/// The result is `Complete` exactly when `bytes` holds the whole frame, so
/// a payload that comes out is as long as the frame advertised; bytes after
/// the frame are not looked at.
pub fn decode_get_audio(bytes: &[u8]) -> (r: Decoded<Option<Vec<u8>>>)
    ensures
        match r {
            Decoded::Complete { value, consumed } => {
                &&& bytes@.len() >= get_audio_frame_len(bytes@)
                &&& consumed == get_audio_frame_len(bytes@)
                &&& payload_view(value) == get_audio_value(bytes@)
            },
            Decoded::Incomplete { missing } => {
                &&& bytes@.len() < get_audio_frame_len(bytes@)
                &&& missing == get_audio_frame_len(bytes@) - bytes@.len()
            },
        },
{
    let len = bytes.len();
    if len < 1 {
        return Decoded::Incomplete { missing: 1 };
    }
    if bytes[0] == AUDIO_ABSENT {
        return Decoded::Complete { value: None, consumed: 1 };
    }
    if len < 5 {
        return Decoded::Incomplete { missing: 5 - len };
    }
    let advertised: u32 = bytes[1] as u32 + 256 * (bytes[2] as u32) + 65536 * (bytes[3] as u32)
        + 16777216 * (bytes[4] as u32);
    let wanted: usize = advertised as usize;
    let at_hand: usize = len - 5;
    if at_hand < wanted {
        return Decoded::Incomplete { missing: wanted - at_hand };
    }
    let mut data: Vec<u8> = Vec::new();
    append_bytes(&mut data, vstd::slice::slice_subrange(bytes, 5, 5 + wanted));
    Decoded::Complete { value: Some(data), consumed: 5 + wanted }
}

/// How many bytes the answer to a keepalive takes: one.
pub open spec fn ping_frame_len() -> nat {
    1
}

/// Decodes the answer to a keepalive from the bytes received so far: any
/// one byte will do.
pub fn decode_ping(bytes: &[u8]) -> (r: Decoded<()>)
    ensures
        match r {
            Decoded::Complete { value, consumed } => {
                &&& bytes@.len() >= ping_frame_len()
                &&& consumed == ping_frame_len()
            },
            Decoded::Incomplete { missing } => {
                &&& bytes@.len() < ping_frame_len()
                &&& missing == ping_frame_len() - bytes@.len()
            },
        },
{
    if bytes.len() < 1 {
        Decoded::Incomplete { missing: 1 }
    } else {
        Decoded::Complete { value: (), consumed: 1 }
    }
}

} // verus!
