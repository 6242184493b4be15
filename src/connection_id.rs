use vstd::prelude::*;
use crate::byte_array_32::{ByteArray32, or_of};
use crate::digest::{blake3_digest, blake3_of, concat_bytes};
use crate::endpoint::{RemoteAddress, ip_block, port_block};
use crate::int_bytes::{i64_from_le_prefix, le_signed_of};
use crate::time_bound_pepper::{SLOT_SECONDS, TimeBoundPepper, Timestamp, pepper_of, slot_of};

verus! {

/// The identifier handed to a client in a connect response.
#[derive(Clone, Copy, Debug, PartialEq, Eq, Structural)]
pub struct ConnectionId(pub i64);

/// The 32-byte block that stands for an endpoint: the address block and the
/// port block combined by bitwise OR.
pub open spec fn auth_block(remote_address: RemoteAddress) -> Seq<u8> {
    or_of(ip_block(remote_address.ip), port_block(remote_address.port))
}

/// The connection id of an endpoint at a time: the first eight bytes of the
/// digest of the pepper followed by the endpoint's block, read as a
/// little-endian signed integer.
pub open spec fn connection_id_of(
    secret: Seq<u8>,
    remote_address: RemoteAddress,
    t: Timestamp,
) -> int {
    le_signed_of(blake3_of(pepper_of(secret, t) + auth_block(remote_address)))
}

/// The timestamp one slot length before `t`, or zero where `t` is smaller.
pub open spec fn previous_timestamp(t: Timestamp) -> Timestamp {
    if t >= SLOT_SECONDS {
        (t - SLOT_SECONDS) as u64
    } else {
        0
    }
}

/// Whether `id` is accepted at `t`: it is the id of the current slot or of
/// the one before.
pub open spec fn is_valid_at(
    id: ConnectionId,
    secret: Seq<u8>,
    remote_address: RemoteAddress,
    t: Timestamp,
) -> bool {
    id.0 as int == connection_id_of(secret, remote_address, t) || id.0 as int
        == connection_id_of(secret, remote_address, previous_timestamp(t))
}

/// Issues the connection id of `remote_address` at `current_timestamp`.
pub fn get_connection_id(
    server_secret: &ByteArray32,
    remote_address: &RemoteAddress,
    current_timestamp: Timestamp,
) -> (r: ConnectionId)
    ensures
        r.0 as int == connection_id_of(server_secret@, *remote_address, current_timestamp),
{
    let ip_bytes = ByteArray32::from(remote_address.ip);
    let port_bytes = ByteArray32::from(remote_address.port);
    let authentication_string = ip_bytes.bitor(&port_bytes);
    let time_bound_pepper = TimeBoundPepper::new(server_secret, current_timestamp);
    let pepper = time_bound_pepper.get_pepper().as_generic_byte_array();
    let auth = authentication_string.as_generic_byte_array();
    let input = concat_bytes(pepper.as_slice(), auth.as_slice());
    let hash = blake3_digest(input.as_slice());
    ConnectionId(i64_from_le_prefix(&hash))
}

/// Checks a connection id against the current slot and the previous one.
/// Every mismatch gives the same error.
pub fn verify_connection_id(
    connection_id: ConnectionId,
    server_secret: &ByteArray32,
    remote_address: &RemoteAddress,
    current_timestamp: Timestamp,
) -> (r: Result<(), ()>)
    ensures
        r is Ok <==> is_valid_at(connection_id, server_secret@, *remote_address, current_timestamp),
{
    if connection_id == get_connection_id(server_secret, remote_address, current_timestamp) {
        Ok(())
    } else if connection_id == get_connection_id(
        server_secret,
        remote_address,
        current_timestamp.saturating_sub(SLOT_SECONDS),
    ) {
        Ok(())
    } else {
        Err(())
    }
}

/// Within one slot the connection id of an endpoint does not change: it is
/// the same at `t` and at `t + delta` for every `delta` below the slot
/// length that leaves `t + delta` in the slot of `t`.
pub proof fn lemma_stable_within_slot(
    secret: Seq<u8>,
    remote_address: RemoteAddress,
    t: Timestamp,
    delta: u64,
)
    requires
        delta < SLOT_SECONDS,
        t + delta <= u64::MAX,
        slot_of((t + delta) as u64) == slot_of(t),
    ensures
        connection_id_of(secret, remote_address, t) == connection_id_of(
            secret,
            remote_address,
            (t + delta) as u64,
        ),
{
}

/// An id issued at `t` is accepted at `t + k` whenever `t + k` lies in the
/// slot of `t` or in the next one.
pub proof fn lemma_accepted_in_window(
    id: ConnectionId,
    secret: Seq<u8>,
    remote_address: RemoteAddress,
    t: Timestamp,
    k: u64,
)
    requires
        id.0 as int == connection_id_of(secret, remote_address, t),
        t + k <= u64::MAX,
        slot_of((t + k) as u64) - slot_of(t) <= 1,
    ensures
        is_valid_at(id, secret, remote_address, (t + k) as u64),
{
    let later = (t + k) as u64;
    if slot_of(later) != slot_of(t) {
        assert(later >= SLOT_SECONDS) by (nonlinear_arith)
            requires
                later / 120 == t / 120 + 1,
                SLOT_SECONDS == 120,
        ;
        assert(slot_of(previous_timestamp(later)) == slot_of(t)) by (nonlinear_arith)
            requires
                later / 120 == t / 120 + 1,
                later >= 120,
                previous_timestamp(later) == later - 120,
                slot_of(previous_timestamp(later)) == (later - 120) / 120,
                slot_of(t) == t / 120,
        ;
    }
}

/// An id issued at `t` is accepted during the whole slot length after `t`.
pub proof fn lemma_accepted_for_one_slot_length(
    id: ConnectionId,
    secret: Seq<u8>,
    remote_address: RemoteAddress,
    t: Timestamp,
    k: u64,
)
    requires
        id.0 as int == connection_id_of(secret, remote_address, t),
        k < SLOT_SECONDS,
        t + k <= u64::MAX,
    ensures
        is_valid_at(id, secret, remote_address, (t + k) as u64),
{
    let later = (t + k) as u64;
    assert(later / 120 <= t / 120 + 1) by (nonlinear_arith)
        requires
            later == t + k,
            k < 120,
    ;
    assert(later / 120 >= t / 120) by (nonlinear_arith)
        requires
            later == t + k,
    ;
    lemma_accepted_in_window(id, secret, remote_address, t, k);
}

} // verus!
