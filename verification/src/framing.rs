use vstd::prelude::*;

use crate::codec::{
    audio_len, check_uid_achievements, check_uid_frame_len, check_uid_request, check_uid_value,
    get_audio_frame_len, get_audio_value, le_u32, AUDIO_ABSENT, CHECK_UID_ERROR,
    CHECK_UID_THROTTLED, OP_CHECK_UID,
};
use crate::types::CheckUidResponseView;

verus! {

/// Every identifier in `ids` is twenty bytes long.
pub open spec fn well_sized(ids: Seq<Seq<u8>>) -> bool {
    forall|i: int| 0 <= i < ids.len() ==> (#[trigger] ids[i]).len() == 20
}

/// The identifiers of `ids` one after the other.
pub open spec fn concat_ids(ids: Seq<Seq<u8>>) -> Seq<u8> {
    Seq::new(20 * ids.len(), |k: int| ids[k / 20][k % 20])
}

/// The frame by which a server lists `ids`: a status byte, the count, the
/// identifiers.
pub open spec fn check_uid_response(status: u8, ids: Seq<Seq<u8>>) -> Seq<u8> {
    seq![status, ids.len() as u8] + concat_ids(ids)
}

/// The four bytes that spell `n` in little-endian order.
pub open spec fn le_bytes(n: nat) -> Seq<u8> {
    seq![
        (n % 256) as u8,
        (n / 256 % 256) as u8,
        (n / 65536 % 256) as u8,
        (n / 16777216 % 256) as u8,
    ]
}

/// The frame by which a server delivers `payload`: a status byte, the
/// length, the payload.
pub open spec fn get_audio_response(status: u8, payload: Seq<u8>) -> Seq<u8> {
    seq![status] + le_bytes(payload.len()) + payload
}

/// An identity check request is the opcode followed by the tag's bytes,
/// unchanged.
pub proof fn lemma_check_uid_request_holds_uid(uid: Seq<u8>)
    ensures
        check_uid_request(uid).len() == uid.len() + 1,
        check_uid_request(uid)[0] == OP_CHECK_UID,
        check_uid_request(uid).drop_first() == uid,
{
    assert(check_uid_request(uid).drop_first() =~= uid);
}

/// Decoding the frame that lists `ids` gives back `ids`, in order, and the
/// count byte of the frame is their number; this holds for every number of
/// identifiers that a count byte can hold, and whatever follows the frame.
pub proof fn lemma_check_uid_round_trip(status: u8, ids: Seq<Seq<u8>>, rest: Seq<u8>)
    requires
        status != CHECK_UID_ERROR,
        status != CHECK_UID_THROTTLED,
        ids.len() <= 255,
        well_sized(ids),
    ensures
        (check_uid_response(status, ids) + rest)[1] == ids.len(),
        check_uid_frame_len(check_uid_response(status, ids) + rest) == check_uid_response(
            status,
            ids,
        ).len(),
        check_uid_value(check_uid_response(status, ids) + rest) == (
        CheckUidResponseView::Success { achievements: ids }),
{
    let frame = check_uid_response(status, ids);
    let bytes = frame + rest;
    assert(bytes[0] == status);
    assert(bytes[1] == ids.len());
    let decoded = check_uid_achievements(bytes);
    assert forall|i: int| 0 <= i < ids.len() implies #[trigger] decoded[i] == ids[i] by {
        let piece = bytes.subrange(2 + 20 * i, 22 + 20 * i);
        assert forall|j: int| 0 <= j < 20 implies piece[j] == ids[i][j] by {
            let k = 20 * i + j;
            assert(k / 20 == i && k % 20 == j) by (nonlinear_arith)
                requires
                    k == 20 * i + j,
                    0 <= j < 20,
            ;
            assert(piece[j] == bytes[2 + k]);
            assert(bytes[2 + k] == concat_ids(ids)[k]);
        }
        assert(piece =~= ids[i]);
    }
    assert(decoded =~= ids);
}

/// A decoded list has as many identifiers as the count byte says, each
/// twenty bytes long.
pub proof fn lemma_check_uid_count(bytes: Seq<u8>)
    requires
        bytes.len() >= check_uid_frame_len(bytes),
        bytes[0] != CHECK_UID_ERROR,
        bytes[0] != CHECK_UID_THROTTLED,
    ensures
        check_uid_value(bytes) matches CheckUidResponseView::Success { achievements }
            && achievements.len() == bytes[1] && well_sized(achievements),
{
}

/// The decoder of identity check responses reads the frame and nothing
/// behind it.
pub proof fn lemma_check_uid_ignores_trailing(bytes: Seq<u8>, rest: Seq<u8>)
    requires
        bytes.len() >= check_uid_frame_len(bytes),
    ensures
        check_uid_frame_len(bytes + rest) == check_uid_frame_len(bytes),
        check_uid_value(bytes + rest) == check_uid_value(bytes),
{
    let longer = bytes + rest;
    assert(longer[0] == bytes[0]);
    if bytes[0] != CHECK_UID_ERROR && bytes[0] != CHECK_UID_THROTTLED {
        assert(longer[1] == bytes[1]);
        assert forall|i: int| 0 <= i < bytes[1] implies #[trigger] check_uid_achievements(
            longer,
        )[i] == check_uid_achievements(bytes)[i] by {
            assert(longer.subrange(2 + 20 * i, 22 + 20 * i) =~= bytes.subrange(
                2 + 20 * i,
                22 + 20 * i,
            ));
        }
        assert(check_uid_achievements(longer) =~= check_uid_achievements(bytes));
    }
}

/// Reading what the decoder of identity check responses misses brings it
/// on: the frame is then whole, or the decoder asks for a later part of
/// it. The frame has three parts, so three reads at most make it whole.
pub proof fn lemma_check_uid_progress(bytes: Seq<u8>, more: Seq<u8>)
    requires
        bytes.len() < check_uid_frame_len(bytes),
        more.len() == check_uid_frame_len(bytes) - bytes.len(),
    ensures
        (bytes + more).len() >= check_uid_frame_len(bytes + more) || check_uid_frame_len(
            bytes + more,
        ) > check_uid_frame_len(bytes),
        bytes.len() >= 2 ==> (bytes + more).len() >= check_uid_frame_len(bytes + more),
{
    let longer = bytes + more;
    if bytes.len() >= 1 {
        assert(longer[0] == bytes[0]);
    }
    if bytes.len() >= 2 {
        assert(longer[1] == bytes[1]);
    }
}

/// Four bytes that spell a number spell it back.
pub proof fn lemma_le_bytes_round_trip(n: nat)
    requires
        n <= u32::MAX,
    ensures
        le_bytes(n).len() == 4,
        le_u32(le_bytes(n)[0], le_bytes(n)[1], le_bytes(n)[2], le_bytes(n)[3]) == n,
{
    assert(n % 256 + 256 * (n / 256 % 256) + 65536 * (n / 65536 % 256) + 16777216 * (n / 16777216
        % 256) == n) by (nonlinear_arith)
        requires
            n <= 0xffff_ffff,
    ;
}

/// Decoding the frame that delivers `payload` gives back `payload`,
/// whatever follows the frame.
pub proof fn lemma_get_audio_round_trip(status: u8, payload: Seq<u8>, rest: Seq<u8>)
    requires
        status != AUDIO_ABSENT,
        payload.len() <= u32::MAX,
    ensures
        get_audio_frame_len(get_audio_response(status, payload) + rest) == get_audio_response(
            status,
            payload,
        ).len(),
        get_audio_value(get_audio_response(status, payload) + rest) == Some(payload),
{
    let frame = get_audio_response(status, payload);
    let bytes = frame + rest;
    let length = le_bytes(payload.len());
    lemma_le_bytes_round_trip(payload.len());
    assert(bytes[0] == status);
    assert(bytes[1] == length[0] && bytes[2] == length[1] && bytes[3] == length[2] && bytes[4]
        == length[3]);
    assert(audio_len(bytes) == payload.len());
    assert(bytes.subrange(5, 5 + payload.len() as int) =~= payload);
}

/// A content fetch response that announces a payload is whole exactly
/// when all the bytes that it advertises are at hand, and the payload that
/// is decoded from it is exactly as long as advertised. With fewer bytes at
/// hand there is no payload, only a count of what is missing.
pub proof fn lemma_get_audio_payload_length(bytes: Seq<u8>)
    requires
        bytes.len() >= 5,
        bytes[0] != AUDIO_ABSENT,
    ensures
        bytes.len() >= get_audio_frame_len(bytes) <==> bytes.len() >= 5 + audio_len(bytes),
        bytes.len() >= get_audio_frame_len(bytes) ==> (get_audio_value(bytes) matches Some(
            payload,
        ) && payload.len() == audio_len(bytes)),
{
}

/// The decoder of content fetch responses reads the frame and nothing
/// behind it.
pub proof fn lemma_get_audio_ignores_trailing(bytes: Seq<u8>, rest: Seq<u8>)
    requires
        bytes.len() >= get_audio_frame_len(bytes),
    ensures
        get_audio_frame_len(bytes + rest) == get_audio_frame_len(bytes),
        get_audio_value(bytes + rest) == get_audio_value(bytes),
{
    let longer = bytes + rest;
    assert(longer[0] == bytes[0]);
    if bytes[0] != AUDIO_ABSENT {
        assert(longer[1] == bytes[1] && longer[2] == bytes[2] && longer[3] == bytes[3]
            && longer[4] == bytes[4]);
        assert(longer.subrange(5, 5 + audio_len(bytes) as int) =~= bytes.subrange(
            5,
            5 + audio_len(bytes) as int,
        ));
    }
}

/// Reading what the decoder of content fetch responses misses brings it
/// on: the frame is then whole, or the decoder asks for a later part of
/// it. Once the length field is at hand, one read makes the frame whole.
pub proof fn lemma_get_audio_progress(bytes: Seq<u8>, more: Seq<u8>)
    requires
        bytes.len() < get_audio_frame_len(bytes),
        more.len() == get_audio_frame_len(bytes) - bytes.len(),
    ensures
        (bytes + more).len() >= get_audio_frame_len(bytes + more) || get_audio_frame_len(
            bytes + more,
        ) > get_audio_frame_len(bytes),
        bytes.len() >= 5 ==> (bytes + more).len() >= get_audio_frame_len(bytes + more),
{
    let longer = bytes + more;
    if bytes.len() >= 1 {
        assert(longer[0] == bytes[0]);
    }
    if bytes.len() >= 5 {
        assert(longer[1] == bytes[1] && longer[2] == bytes[2] && longer[3] == bytes[3]
            && longer[4] == bytes[4]);
    }
}

} // verus!
