//! Deterministic wire codec for the response union.
//!
//! The format is byte-exact and canonical: integers are little-endian and
//! fixed width, byte strings and lists carry a 64-bit length prefix, and the
//! maps on the wire must appear strictly ordered by key (non-canonical input
//! is rejected). Encoding is total, so the serialized size of any response
//! is computable; decoding inverts encoding exactly, which is proved by
//! `lemma_response_round_trip`.

use vstd::prelude::*;

use crate::error::Error;
use crate::response::build_info_sorted;
use crate::response::build_info_view;
use crate::response::lex_lt;
use crate::response::peers_sorted;
use crate::response::peers_view;
use crate::response::ConnectionMetadata;
use crate::response::ConnectionMetadataView;
use crate::response::LatencyPingResponse;
use crate::response::NetworkInformationResponse;
use crate::response::NetworkInformationResponseView;
use crate::response::NodeInformationResponse;
use crate::response::NodeInformationResponseView;
use crate::response::PeerMonitoringServiceResponse;
use crate::response::PeerMonitoringServiceResponseView;
use crate::response::ServerProtocolVersionResponse;

verus! {

// ---------------------------------------------------------------------------
// Specification-level encoding.
// ---------------------------------------------------------------------------

/// The eight little-endian bytes of a 64-bit integer.
pub open spec fn senc_u64(x: u64) -> Seq<u8> {
    seq![
        (x & 0xff) as u8,
        ((x >> 8) & 0xff) as u8,
        ((x >> 16) & 0xff) as u8,
        ((x >> 24) & 0xff) as u8,
        ((x >> 32) & 0xff) as u8,
        ((x >> 40) & 0xff) as u8,
        ((x >> 48) & 0xff) as u8,
        ((x >> 56) & 0xff) as u8,
    ]
}

/// A byte string: a 64-bit length prefix followed by the bytes themselves.
pub open spec fn senc_bytes(s: Seq<u8>) -> Seq<u8> {
    senc_u64(s.len() as u64) + s
}

/// One connection metadata record.
pub open spec fn senc_metadata(m: ConnectionMetadataView) -> Seq<u8> {
    senc_bytes(m.network_address) + senc_bytes(m.peer_id) + seq![m.peer_role]
}

/// One connected-peers map entry: the peer key, then its metadata.
pub open spec fn senc_peer_entry(e: (u64, ConnectionMetadataView)) -> Seq<u8> {
    senc_u64(e.0) + senc_metadata(e.1)
}

/// The entries of a connected-peers map, in order.
pub open spec fn senc_peer_entries(s: Seq<(u64, ConnectionMetadataView)>) -> Seq<u8>
    decreases s.len(),
{
    if s.len() == 0 {
        Seq::empty()
    } else {
        senc_peer_entry(s[0]) + senc_peer_entries(s.drop_first())
    }
}

/// A network information response: entry count, entries, distance.
pub open spec fn senc_network(v: NetworkInformationResponseView) -> Seq<u8> {
    senc_u64(v.connected_peers.len() as u64) + senc_peer_entries(v.connected_peers) + senc_u64(
        v.distance_from_validators,
    )
}

/// One build-information map entry: key then value.
pub open spec fn senc_build_entry(e: (Seq<u8>, Seq<u8>)) -> Seq<u8> {
    senc_bytes(e.0) + senc_bytes(e.1)
}

/// The entries of a build-information map, in order.
pub open spec fn senc_build_entries(s: Seq<(Seq<u8>, Seq<u8>)>) -> Seq<u8>
    decreases s.len(),
{
    if s.len() == 0 {
        Seq::empty()
    } else {
        senc_build_entry(s[0]) + senc_build_entries(s.drop_first())
    }
}

/// A node information response: the build map, then the five counters.
pub open spec fn senc_node(v: NodeInformationResponseView) -> Seq<u8> {
    senc_u64(v.build_information.len() as u64) + senc_build_entries(v.build_information)
        + senc_u64(v.highest_synced_epoch) + senc_u64(v.highest_synced_version) + senc_u64(
        v.ledger_timestamp_usecs,
    ) + senc_u64(v.lowest_available_version) + senc_u64(v.uptime_usecs)
}

/// A full response: a one-byte case tag, then the payload of that case.
pub open spec fn senc_response(v: PeerMonitoringServiceResponseView) -> Seq<u8> {
    match v {
        PeerMonitoringServiceResponseView::LatencyPing(counter) => seq![0u8] + senc_u64(counter),
        PeerMonitoringServiceResponseView::NetworkInformation(inner) => seq![1u8] + senc_network(
            inner,
        ),
        PeerMonitoringServiceResponseView::NodeInformation(inner) => seq![2u8] + senc_node(inner),
        PeerMonitoringServiceResponseView::ServerProtocolVersion(version) => seq![3u8] + senc_u64(
            version,
        ),
    }
}

// ---------------------------------------------------------------------------
// Specification-level decoding. Each function parses at a position and
// returns the parsed value with the position one past its encoding, or
// `None` when the bytes are malformed there.
// ---------------------------------------------------------------------------

/// Reassembles a 64-bit integer from its eight little-endian bytes.
pub open spec fn u64_from_le(
    b0: u8,
    b1: u8,
    b2: u8,
    b3: u8,
    b4: u8,
    b5: u8,
    b6: u8,
    b7: u8,
) -> u64 {
    (b0 as u64) | ((b1 as u64) << 8) | ((b2 as u64) << 16) | ((b3 as u64) << 24) | ((b4 as u64)
        << 32) | ((b5 as u64) << 40) | ((b6 as u64) << 48) | ((b7 as u64) << 56)
}

pub open spec fn sdec_byte(b: Seq<u8>, i: int) -> Option<(u8, int)> {
    if 0 <= i && i + 1 <= b.len() {
        Some((b[i], i + 1))
    } else {
        None
    }
}

pub open spec fn sdec_u64(b: Seq<u8>, i: int) -> Option<(u64, int)> {
    if 0 <= i && i + 8 <= b.len() {
        Some(
            (
                u64_from_le(
                    b[i],
                    b[i + 1],
                    b[i + 2],
                    b[i + 3],
                    b[i + 4],
                    b[i + 5],
                    b[i + 6],
                    b[i + 7],
                ),
                i + 8,
            ),
        )
    } else {
        None
    }
}

pub open spec fn sdec_bytes(b: Seq<u8>, i: int) -> Option<(Seq<u8>, int)> {
    match sdec_u64(b, i) {
        None => None,
        Some((n, j)) => if j + n <= b.len() {
            Some((b.subrange(j, j + n), j + n))
        } else {
            None
        },
    }
}

pub open spec fn sdec_metadata(b: Seq<u8>, i: int) -> Option<(ConnectionMetadataView, int)> {
    match sdec_bytes(b, i) {
        None => None,
        Some((network_address, j)) => match sdec_bytes(b, j) {
            None => None,
            Some((peer_id, k)) => match sdec_byte(b, k) {
                None => None,
                Some((peer_role, l)) => Some(
                    (ConnectionMetadataView { network_address, peer_id, peer_role }, l),
                ),
            },
        },
    }
}

pub open spec fn sdec_peer_entry(b: Seq<u8>, i: int) -> Option<((u64, ConnectionMetadataView), int)> {
    match sdec_u64(b, i) {
        None => None,
        Some((key, j)) => match sdec_metadata(b, j) {
            None => None,
            Some((metadata, k)) => Some(((key, metadata), k)),
        },
    }
}

pub open spec fn sdec_peer_entries(b: Seq<u8>, i: int, count: nat) -> Option<
    (Seq<(u64, ConnectionMetadataView)>, int),
>
    decreases count,
{
    if count == 0 {
        Some((Seq::empty(), i))
    } else {
        match sdec_peer_entry(b, i) {
            None => None,
            Some((e, j)) => match sdec_peer_entries(b, j, (count - 1) as nat) {
                None => None,
                Some((rest, k)) => Some((seq![e] + rest, k)),
            },
        }
    }
}

pub open spec fn sdec_network(b: Seq<u8>, i: int) -> Option<(NetworkInformationResponseView, int)> {
    match sdec_u64(b, i) {
        None => None,
        Some((count, j)) => match sdec_peer_entries(b, j, count as nat) {
            None => None,
            Some((connected_peers, k)) => if peers_sorted(connected_peers) {
                match sdec_u64(b, k) {
                    None => None,
                    Some((distance_from_validators, l)) => Some(
                        (
                            NetworkInformationResponseView {
                                connected_peers,
                                distance_from_validators,
                            },
                            l,
                        ),
                    ),
                }
            } else {
                None
            },
        },
    }
}

pub open spec fn sdec_build_entry(b: Seq<u8>, i: int) -> Option<((Seq<u8>, Seq<u8>), int)> {
    match sdec_bytes(b, i) {
        None => None,
        Some((key, j)) => match sdec_bytes(b, j) {
            None => None,
            Some((value, k)) => Some(((key, value), k)),
        },
    }
}

pub open spec fn sdec_build_entries(b: Seq<u8>, i: int, count: nat) -> Option<
    (Seq<(Seq<u8>, Seq<u8>)>, int),
>
    decreases count,
{
    if count == 0 {
        Some((Seq::empty(), i))
    } else {
        match sdec_build_entry(b, i) {
            None => None,
            Some((e, j)) => match sdec_build_entries(b, j, (count - 1) as nat) {
                None => None,
                Some((rest, k)) => Some((seq![e] + rest, k)),
            },
        }
    }
}

pub open spec fn sdec_node(b: Seq<u8>, i: int) -> Option<(NodeInformationResponseView, int)> {
    match sdec_u64(b, i) {
        None => None,
        Some((count, j)) => match sdec_build_entries(b, j, count as nat) {
            None => None,
            Some((build_information, k)) => if build_info_sorted(build_information) {
                match sdec_u64(b, k) {
                    None => None,
                    Some((highest_synced_epoch, l0)) => match sdec_u64(b, l0) {
                        None => None,
                        Some((highest_synced_version, l1)) => match sdec_u64(b, l1) {
                            None => None,
                            Some((ledger_timestamp_usecs, l2)) => match sdec_u64(b, l2) {
                                None => None,
                                Some((lowest_available_version, l3)) => match sdec_u64(b, l3) {
                                    None => None,
                                    Some((uptime_usecs, l4)) => Some(
                                        (
                                            NodeInformationResponseView {
                                                build_information,
                                                highest_synced_epoch,
                                                highest_synced_version,
                                                ledger_timestamp_usecs,
                                                lowest_available_version,
                                                uptime_usecs,
                                            },
                                            l4,
                                        ),
                                    ),
                                },
                            },
                        },
                    },
                }
            } else {
                None
            },
        },
    }
}

pub open spec fn sdec_response(b: Seq<u8>, i: int) -> Option<
    (PeerMonitoringServiceResponseView, int),
> {
    match sdec_byte(b, i) {
        None => None,
        Some((tag, j)) => if tag == 0 {
            match sdec_u64(b, j) {
                None => None,
                Some((counter, k)) => Some(
                    (PeerMonitoringServiceResponseView::LatencyPing(counter), k),
                ),
            }
        } else if tag == 1 {
            match sdec_network(b, j) {
                None => None,
                Some((inner, k)) => Some(
                    (PeerMonitoringServiceResponseView::NetworkInformation(inner), k),
                ),
            }
        } else if tag == 2 {
            match sdec_node(b, j) {
                None => None,
                Some((inner, k)) => Some(
                    (PeerMonitoringServiceResponseView::NodeInformation(inner), k),
                ),
            }
        } else if tag == 3 {
            match sdec_u64(b, j) {
                None => None,
                Some((version, k)) => Some(
                    (PeerMonitoringServiceResponseView::ServerProtocolVersion(version), k),
                ),
            }
        } else {
            None
        },
    }
}

// ---------------------------------------------------------------------------
// Executable encoding.
// ---------------------------------------------------------------------------

/// Appends the eight little-endian bytes of `x`.
fn encode_u64(out: &mut Vec<u8>, x: u64)
    ensures
        final(out)@ == old(out)@ + senc_u64(x),
{
    out.push((x & 0xff) as u8);
    out.push(((x >> 8) & 0xff) as u8);
    out.push(((x >> 16) & 0xff) as u8);
    out.push(((x >> 24) & 0xff) as u8);
    out.push(((x >> 32) & 0xff) as u8);
    out.push(((x >> 40) & 0xff) as u8);
    out.push(((x >> 48) & 0xff) as u8);
    out.push(((x >> 56) & 0xff) as u8);
    assert(out@ =~= old(out)@ + senc_u64(x));
}

/// Appends a length-prefixed byte string.
fn encode_bytes_field(out: &mut Vec<u8>, s: &Vec<u8>)
    ensures
        final(out)@ == old(out)@ + senc_bytes(s@),
{
    encode_u64(out, s.len() as u64);
    out.extend_from_slice(s.as_slice());
    assert(out@ =~= old(out)@ + senc_bytes(s@));
}

/// Appends one connection metadata record.
fn encode_metadata(out: &mut Vec<u8>, metadata: &ConnectionMetadata)
    ensures
        final(out)@ == old(out)@ + senc_metadata(metadata@),
{
    encode_bytes_field(out, &metadata.network_address);
    encode_bytes_field(out, &metadata.peer_id);
    out.push(metadata.peer_role);
    assert(out@ =~= old(out)@ + senc_metadata(metadata@));
}

/// Appends the entries of a connected-peers map, in order.
fn encode_peer_entries(out: &mut Vec<u8>, entries: &Vec<(u64, ConnectionMetadata)>)
    ensures
        final(out)@ == old(out)@ + senc_peer_entries(peers_view(entries@)),
{
    let ghost view = peers_view(entries@);
    let mut index: usize = 0;
    assert(out@ =~= old(out)@ + senc_peer_entries(view.take(0)));
    while index < entries.len()
        invariant
            index <= entries.len(),
            view == peers_view(entries@),
            out@ == old(out)@ + senc_peer_entries(view.take(index as int)),
        decreases entries.len() - index,
    {
        let entry = &entries[index];
        assert(view[index as int] == (entry.0, entry.1@));
        encode_u64(out, entry.0);
        encode_metadata(out, &entry.1);
        proof {
            lemma_senc_peer_entries_take_step(view, index as int);
            assert(out@ =~= old(out)@ + senc_peer_entries(view.take(index as int + 1)));
        }
        index = index + 1;
    }
    assert(view.take(entries.len() as int) =~= view);
}

/// Appends the entries of a build-information map, in order.
fn encode_build_entries(out: &mut Vec<u8>, entries: &Vec<(Vec<u8>, Vec<u8>)>)
    ensures
        final(out)@ == old(out)@ + senc_build_entries(build_info_view(entries@)),
{
    let ghost view = build_info_view(entries@);
    let mut index: usize = 0;
    assert(out@ =~= old(out)@ + senc_build_entries(view.take(0)));
    while index < entries.len()
        invariant
            index <= entries.len(),
            view == build_info_view(entries@),
            out@ == old(out)@ + senc_build_entries(view.take(index as int)),
        decreases entries.len() - index,
    {
        let entry = &entries[index];
        assert(view[index as int] == (entry.0@, entry.1@));
        encode_bytes_field(out, &entry.0);
        encode_bytes_field(out, &entry.1);
        proof {
            lemma_senc_build_entries_take_step(view, index as int);
            assert(out@ =~= old(out)@ + senc_build_entries(view.take(index as int + 1)));
        }
        index = index + 1;
    }
    assert(view.take(entries.len() as int) =~= view);
}

/// Serializes a response into its canonical byte string.
pub fn encode_response(response: &PeerMonitoringServiceResponse) -> (out: Vec<u8>)
    ensures
        out@ == senc_response(response@),
{
    let mut out: Vec<u8> = Vec::new();
    match response {
        PeerMonitoringServiceResponse::LatencyPing(inner) => {
            out.push(0u8);
            encode_u64(&mut out, inner.ping_counter);
        },
        PeerMonitoringServiceResponse::NetworkInformation(inner) => {
            out.push(1u8);
            encode_u64(&mut out, inner.connected_peers.len() as u64);
            encode_peer_entries(&mut out, &inner.connected_peers);
            encode_u64(&mut out, inner.distance_from_validators);
        },
        PeerMonitoringServiceResponse::NodeInformation(inner) => {
            out.push(2u8);
            encode_u64(&mut out, inner.build_information.len() as u64);
            encode_build_entries(&mut out, &inner.build_information);
            encode_u64(&mut out, inner.highest_synced_epoch);
            encode_u64(&mut out, inner.highest_synced_version);
            encode_u64(&mut out, inner.ledger_timestamp_usecs);
            encode_u64(&mut out, inner.lowest_available_version);
            encode_u64(&mut out, inner.uptime_usecs);
        },
        PeerMonitoringServiceResponse::ServerProtocolVersion(inner) => {
            out.push(3u8);
            encode_u64(&mut out, inner.version);
        },
    }
    assert(out@ =~= senc_response(response@));
    out
}

// ---------------------------------------------------------------------------
// Executable decoding.
// ---------------------------------------------------------------------------

/// Reads one byte.
fn read_byte(bytes: &Vec<u8>, pos: usize) -> (r: Result<(u8, usize), Error>)
    ensures
        match sdec_byte(bytes@, pos as int) {
            Some((x, j)) => r is Ok && r->Ok_0.0 == x && r->Ok_0.1 as int == j,
            None => r is Err,
        },
        r is Err ==> r->Err_0 == Error::SerializationError,
{
    if pos < bytes.len() {
        Ok((bytes[pos], pos + 1))
    } else {
        Err(Error::SerializationError)
    }
}

/// Reads a 64-bit little-endian integer.
fn read_u64(bytes: &Vec<u8>, pos: usize) -> (r: Result<(u64, usize), Error>)
    ensures
        match sdec_u64(bytes@, pos as int) {
            Some((x, j)) => r is Ok && r->Ok_0.0 == x && r->Ok_0.1 as int == j,
            None => r is Err,
        },
        r is Err ==> r->Err_0 == Error::SerializationError,
{
    if pos <= bytes.len() && bytes.len() - pos >= 8 {
        let x = (bytes[pos] as u64) | ((bytes[pos + 1] as u64) << 8) | ((bytes[pos + 2] as u64)
            << 16) | ((bytes[pos + 3] as u64) << 24) | ((bytes[pos + 4] as u64) << 32) | ((bytes[pos
            + 5] as u64) << 40) | ((bytes[pos + 6] as u64) << 48) | ((bytes[pos + 7] as u64) << 56);
        Ok((x, pos + 8))
    } else {
        Err(Error::SerializationError)
    }
}

/// Reads a length-prefixed byte string.
fn read_bytes_field(bytes: &Vec<u8>, pos: usize) -> (r: Result<(Vec<u8>, usize), Error>)
    ensures
        match sdec_bytes(bytes@, pos as int) {
            Some((s, j)) => r is Ok && r->Ok_0.0@ == s && r->Ok_0.1 as int == j,
            None => r is Err,
        },
        r is Err ==> r->Err_0 == Error::SerializationError,
{
    let (len, start) = match read_u64(bytes, pos) {
        Ok(parsed) => parsed,
        Err(error) => {
            return Err(error);
        },
    };
    let total = bytes.len();
    if len > (total - start) as u64 {
        return Err(Error::SerializationError);
    }
    let len = len as usize;
    let mut field: Vec<u8> = Vec::new();
    let mut index: usize = 0;
    while index < len
        invariant
            index <= len,
            start + len <= total,
            total == bytes@.len(),
            field@ == bytes@.subrange(start as int, start as int + index as int),
        decreases len - index,
    {
        field.push(bytes[start + index]);
        assert(field@ =~= bytes@.subrange(start as int, start as int + index as int + 1));
        index = index + 1;
    }
    Ok((field, start + len))
}

/// Reads one connection metadata record.
fn read_metadata(bytes: &Vec<u8>, pos: usize) -> (r: Result<(ConnectionMetadata, usize), Error>)
    ensures
        match sdec_metadata(bytes@, pos as int) {
            Some((m, j)) => r is Ok && r->Ok_0.0@ == m && r->Ok_0.1 as int == j,
            None => r is Err,
        },
        r is Err ==> r->Err_0 == Error::SerializationError,
{
    let (network_address, pos) = match read_bytes_field(bytes, pos) {
        Ok(parsed) => parsed,
        Err(error) => {
            return Err(error);
        },
    };
    let (peer_id, pos) = match read_bytes_field(bytes, pos) {
        Ok(parsed) => parsed,
        Err(error) => {
            return Err(error);
        },
    };
    let (peer_role, pos) = match read_byte(bytes, pos) {
        Ok(parsed) => parsed,
        Err(error) => {
            return Err(error);
        },
    };
    Ok((ConnectionMetadata { network_address, peer_id, peer_role }, pos))
}

/// Reads the entries of a connected-peers map.
fn read_peer_entries(bytes: &Vec<u8>, pos: usize, count: u64) -> (r: Result<
    (Vec<(u64, ConnectionMetadata)>, usize),
    Error,
>)
    ensures
        match sdec_peer_entries(bytes@, pos as int, count as nat) {
            Some((s, j)) => r is Ok && peers_view(r->Ok_0.0@) == s && r->Ok_0.1 as int == j,
            None => r is Err,
        },
        r is Err ==> r->Err_0 == Error::SerializationError,
{
    let mut entries: Vec<(u64, ConnectionMetadata)> = Vec::new();
    let mut cur: usize = pos;
    let mut parsed: u64 = 0;
    assert(peers_view(entries@) =~= Seq::<(u64, ConnectionMetadataView)>::empty());
    while parsed < count
        invariant
            parsed <= count,
            match sdec_peer_entries(bytes@, cur as int, (count - parsed) as nat) {
                Some((s, j)) => sdec_peer_entries(bytes@, pos as int, count as nat) == Some(
                    (peers_view(entries@) + s, j),
                ),
                None => sdec_peer_entries(bytes@, pos as int, count as nat) is None,
            },
        decreases count - parsed,
    {
        let (key, next) = match read_u64(bytes, cur) {
            Ok(entry) => entry,
            Err(error) => {
                return Err(error);
            },
        };
        let (metadata, next) = match read_metadata(bytes, next) {
            Ok(entry) => entry,
            Err(error) => {
                return Err(error);
            },
        };
        let ghost e = (key, metadata@);
        let ghost old_entries = entries@;
        entries.push((key, metadata));
        proof {
            assert(peers_view(entries@) =~= peers_view(old_entries) + seq![e]);
            let m = (count - parsed) as nat;
            assert(sdec_peer_entry(bytes@, cur as int) == Some::<((u64, ConnectionMetadataView), int)>((e, next as int)));
            match sdec_peer_entries(bytes@, next as int, (m - 1) as nat) {
                Some((s, j)) => {
                    assert(sdec_peer_entries(bytes@, cur as int, m) == Some(
                        (seq![e] + s, j),
                    ));
                    assert((peers_view(old_entries) + (seq![e] + s)) =~= (peers_view(
                        entries@,
                    ) + s));
                },
                None => {
                    assert(sdec_peer_entries(bytes@, cur as int, m) is None);
                },
            }
        }
        cur = next;
        parsed = parsed + 1;
    }
    proof {
        assert(sdec_peer_entries(bytes@, cur as int, 0) == Some(
            (Seq::<(u64, ConnectionMetadataView)>::empty(), cur as int),
        ));
        assert((peers_view(entries@) + Seq::<(u64, ConnectionMetadataView)>::empty()) =~= peers_view(
            entries@,
        ));
    }
    Ok((entries, cur))
}

/// Checks that a connected-peers map is strictly ascending by key.
fn peers_are_sorted(entries: &Vec<(u64, ConnectionMetadata)>) -> (sorted: bool)
    ensures
        sorted == peers_sorted(peers_view(entries@)),
{
    let ghost view = peers_view(entries@);
    assert(forall|k: int| 0 <= k < entries@.len() ==> (#[trigger] view[k]).0 == entries@[k].0);
    let mut index: usize = 1;
    while index < entries.len()
        invariant
            1 <= index,
            view == peers_view(entries@),
            forall|k: int| 0 <= k < entries@.len() ==> (#[trigger] view[k]).0 == entries@[k].0,
            forall|k: int| 0 <= k && k + 1 < index ==> (#[trigger] view[k]).0 < view[k + 1].0,
        decreases entries.len() - index,
    {
        if entries[index - 1].0 >= entries[index].0 {
            assert(view[index - 1].0 >= view[index as int].0);
            return false;
        }
        assert(view[index - 1].0 < view[index as int].0);
        index = index + 1;
    }
    true
}

/// Reads the entries of a build-information map.
fn read_build_entries(bytes: &Vec<u8>, pos: usize, count: u64) -> (r: Result<
    (Vec<(Vec<u8>, Vec<u8>)>, usize),
    Error,
>)
    ensures
        match sdec_build_entries(bytes@, pos as int, count as nat) {
            Some((s, j)) => r is Ok && build_info_view(r->Ok_0.0@) == s && r->Ok_0.1 as int == j,
            None => r is Err,
        },
        r is Err ==> r->Err_0 == Error::SerializationError,
{
    let mut entries: Vec<(Vec<u8>, Vec<u8>)> = Vec::new();
    let mut cur: usize = pos;
    let mut parsed: u64 = 0;
    assert(build_info_view(entries@) =~= Seq::<(Seq<u8>, Seq<u8>)>::empty());
    while parsed < count
        invariant
            parsed <= count,
            match sdec_build_entries(bytes@, cur as int, (count - parsed) as nat) {
                Some((s, j)) => sdec_build_entries(bytes@, pos as int, count as nat) == Some(
                    (build_info_view(entries@) + s, j),
                ),
                None => sdec_build_entries(bytes@, pos as int, count as nat) is None,
            },
        decreases count - parsed,
    {
        let (key, next) = match read_bytes_field(bytes, cur) {
            Ok(entry) => entry,
            Err(error) => {
                return Err(error);
            },
        };
        let (value, next) = match read_bytes_field(bytes, next) {
            Ok(entry) => entry,
            Err(error) => {
                return Err(error);
            },
        };
        let ghost e = (key@, value@);
        let ghost old_entries = entries@;
        entries.push((key, value));
        proof {
            assert(build_info_view(entries@) =~= build_info_view(old_entries) + seq![e]);
            let m = (count - parsed) as nat;
            assert(sdec_build_entry(bytes@, cur as int) == Some::<((Seq<u8>, Seq<u8>), int)>((e, next as int)));
            match sdec_build_entries(bytes@, next as int, (m - 1) as nat) {
                Some((s, j)) => {
                    assert(sdec_build_entries(bytes@, cur as int, m) == Some(
                        (seq![e] + s, j),
                    ));
                    assert((build_info_view(old_entries) + (seq![e] + s)) =~= (build_info_view(
                        entries@,
                    ) + s));
                },
                None => {
                    assert(sdec_build_entries(bytes@, cur as int, m) is None);
                },
            }
        }
        cur = next;
        parsed = parsed + 1;
    }
    proof {
        assert(sdec_build_entries(bytes@, cur as int, 0) == Some(
            (Seq::<(Seq<u8>, Seq<u8>)>::empty(), cur as int),
        ));
        assert((build_info_view(entries@) + Seq::<(Seq<u8>, Seq<u8>)>::empty()) =~= build_info_view(
            entries@,
        ));
    }
    Ok((entries, cur))
}

/// Compares two byte strings in strict lexicographic order.
fn bytes_lex_lt(a: &Vec<u8>, b: &Vec<u8>) -> (lt: bool)
    ensures
        lt == lex_lt(a@, b@),
{
    let mut index: usize = 0;
    proof {
        assert(a@.skip(0) =~= a@);
        assert(b@.skip(0) =~= b@);
    }
    while index < a.len() && index < b.len() && a[index] == b[index]
        invariant
            index <= a.len(),
            index <= b.len(),
            lex_lt(a@, b@) == lex_lt(a@.skip(index as int), b@.skip(index as int)),
        decreases a.len() - index,
    {
        proof {
            let i = index as int;
            assert(a@.skip(i)[0] == a@[i]);
            assert(b@.skip(i)[0] == b@[i]);
            assert(a@.skip(i).drop_first() =~= a@.skip(i + 1));
            assert(b@.skip(i).drop_first() =~= b@.skip(i + 1));
        }
        index = index + 1;
    }
    proof {
        let i = index as int;
        if i < a@.len() && i < b@.len() {
            assert(a@.skip(i)[0] == a@[i]);
            assert(b@.skip(i)[0] == b@[i]);
        }
    }
    if index == a.len() {
        index < b.len()
    } else if index == b.len() {
        false
    } else {
        a[index] < b[index]
    }
}

/// Checks that a build-information map is strictly ascending by key.
fn build_info_is_sorted(entries: &Vec<(Vec<u8>, Vec<u8>)>) -> (sorted: bool)
    ensures
        sorted == build_info_sorted(build_info_view(entries@)),
{
    let ghost view = build_info_view(entries@);
    let mut index: usize = 1;
    while index < entries.len()
        invariant
            1 <= index,
            view == build_info_view(entries@),
            forall|k: int| 0 <= k && k + 1 < index ==> lex_lt(#[trigger] view[k].0, view[k + 1].0),
        decreases entries.len() - index,
    {
        assert(view[index - 1].0 == entries@[index - 1].0@);
        assert(view[index as int].0 == entries@[index as int].0@);
        if !bytes_lex_lt(&entries[index - 1].0, &entries[index].0) {
            return false;
        }
        index = index + 1;
    }
    true
}

/// Every connected-peers map a successful parse yields has one entry per
/// count, each with byte strings that fit the wire format.
proof fn lemma_sdec_peer_entries_wf(b: Seq<u8>, i: int, count: nat)
    requires
        sdec_peer_entries(b, i, count) is Some,
    ensures
        sdec_peer_entries(b, i, count)->Some_0.0.len() == count,
        forall|k: int|
            0 <= k < count ==> (#[trigger] sdec_peer_entries(b, i, count)->Some_0.0[k]).1.wf(),
    decreases count,
{
    if count != 0 {
        let (e, j) = sdec_peer_entry(b, i)->Some_0;
        let (key, j1) = sdec_u64(b, i)->Some_0;
        let (addr, k1) = sdec_bytes(b, j1)->Some_0;
        let (pid, k2) = sdec_bytes(b, k1)->Some_0;
        assert(e.1.network_address == addr);
        assert(e.1.peer_id == pid);
        assert(e.1.wf());
        lemma_sdec_peer_entries_wf(b, j, (count - 1) as nat);
        let rest = sdec_peer_entries(b, j, (count - 1) as nat)->Some_0.0;
        let s = sdec_peer_entries(b, i, count)->Some_0.0;
        assert(s == seq![e] + rest);
        assert forall|k: int| 0 <= k < count implies (#[trigger] s[k]).1.wf() by {
            if k == 0 {
                assert(s[0] == e);
            } else {
                assert(s[k] == rest[k - 1]);
            }
        }
    }
}

/// Every build-information map a successful parse yields has one entry per
/// count, each with byte strings that fit the wire format.
proof fn lemma_sdec_build_entries_wf(b: Seq<u8>, i: int, count: nat)
    requires
        sdec_build_entries(b, i, count) is Some,
    ensures
        sdec_build_entries(b, i, count)->Some_0.0.len() == count,
        forall|k: int|
            0 <= k < count ==> (#[trigger] sdec_build_entries(b, i, count)->Some_0.0[k]).0.len()
                <= u64::MAX && sdec_build_entries(b, i, count)->Some_0.0[k].1.len() <= u64::MAX,
    decreases count,
{
    if count != 0 {
        let (e, j) = sdec_build_entry(b, i)->Some_0;
        let (key, k1) = sdec_bytes(b, i)->Some_0;
        let (value, k2) = sdec_bytes(b, k1)->Some_0;
        assert(e.0 == key);
        assert(e.1 == value);
        lemma_sdec_build_entries_wf(b, j, (count - 1) as nat);
        let rest = sdec_build_entries(b, j, (count - 1) as nat)->Some_0.0;
        let s = sdec_build_entries(b, i, count)->Some_0.0;
        assert(s == seq![e] + rest);
        assert forall|k: int|
            0 <= k < count implies (#[trigger] s[k]).0.len() <= u64::MAX && s[k].1.len()
                <= u64::MAX by {
            if k == 0 {
                assert(s[0] == e);
            } else {
                assert(s[k] == rest[k - 1]);
            }
        }
    }
}

/// Parses a response from its canonical byte string. The whole input must
/// be consumed, and the maps it carries must appear strictly ordered by key.
/// A successfully decoded response always satisfies the wire invariant.
pub fn decode_response(bytes: &Vec<u8>) -> (r: Result<PeerMonitoringServiceResponse, Error>)
    ensures
        match sdec_response(bytes@, 0) {
            Some((v, j)) => if j == bytes@.len() {
                r is Ok && r->Ok_0@ == v
            } else {
                r is Err
            },
            None => r is Err,
        },
        r is Ok ==> r->Ok_0@.wf(),
        r is Err ==> r->Err_0 == Error::SerializationError,
{
    let (tag, pos) = match read_byte(bytes, 0) {
        Ok(parsed) => parsed,
        Err(error) => {
            return Err(error);
        },
    };
    let (response, pos) = if tag == 0 {
        match read_u64(bytes, pos) {
            Ok((counter, pos)) => (
                PeerMonitoringServiceResponse::LatencyPing(
                    LatencyPingResponse { ping_counter: counter },
                ),
                pos,
            ),
            Err(error) => {
                return Err(error);
            },
        }
    } else if tag == 1 {
        let (count, entries_pos) = match read_u64(bytes, pos) {
            Ok(parsed) => parsed,
            Err(error) => {
                return Err(error);
            },
        };
        let (connected_peers, pos) = match read_peer_entries(bytes, entries_pos, count) {
            Ok(parsed) => parsed,
            Err(error) => {
                return Err(error);
            },
        };
        if !peers_are_sorted(&connected_peers) {
            return Err(Error::SerializationError);
        }
        proof {
            lemma_sdec_peer_entries_wf(bytes@, entries_pos as int, count as nat);
        }
        let (distance_from_validators, pos) = match read_u64(bytes, pos) {
            Ok(parsed) => parsed,
            Err(error) => {
                return Err(error);
            },
        };
        (
            PeerMonitoringServiceResponse::NetworkInformation(
                NetworkInformationResponse { connected_peers, distance_from_validators },
            ),
            pos,
        )
    } else if tag == 2 {
        let (count, entries_pos) = match read_u64(bytes, pos) {
            Ok(parsed) => parsed,
            Err(error) => {
                return Err(error);
            },
        };
        let (build_information, pos) = match read_build_entries(bytes, entries_pos, count) {
            Ok(parsed) => parsed,
            Err(error) => {
                return Err(error);
            },
        };
        if !build_info_is_sorted(&build_information) {
            return Err(Error::SerializationError);
        }
        proof {
            lemma_sdec_build_entries_wf(bytes@, entries_pos as int, count as nat);
        }
        let (highest_synced_epoch, pos) = match read_u64(bytes, pos) {
            Ok(parsed) => parsed,
            Err(error) => {
                return Err(error);
            },
        };
        let (highest_synced_version, pos) = match read_u64(bytes, pos) {
            Ok(parsed) => parsed,
            Err(error) => {
                return Err(error);
            },
        };
        let (ledger_timestamp_usecs, pos) = match read_u64(bytes, pos) {
            Ok(parsed) => parsed,
            Err(error) => {
                return Err(error);
            },
        };
        let (lowest_available_version, pos) = match read_u64(bytes, pos) {
            Ok(parsed) => parsed,
            Err(error) => {
                return Err(error);
            },
        };
        let (uptime_usecs, pos) = match read_u64(bytes, pos) {
            Ok(parsed) => parsed,
            Err(error) => {
                return Err(error);
            },
        };
        (
            PeerMonitoringServiceResponse::NodeInformation(
                NodeInformationResponse {
                    build_information,
                    highest_synced_epoch,
                    highest_synced_version,
                    ledger_timestamp_usecs,
                    lowest_available_version,
                    uptime_usecs,
                },
            ),
            pos,
        )
    } else if tag == 3 {
        match read_u64(bytes, pos) {
            Ok((version, pos)) => (
                PeerMonitoringServiceResponse::ServerProtocolVersion(
                    ServerProtocolVersionResponse { version },
                ),
                pos,
            ),
            Err(error) => {
                return Err(error);
            },
        }
    } else {
        return Err(Error::SerializationError);
    };
    if pos != bytes.len() {
        return Err(Error::SerializationError);
    }
    Ok(response)
}

// ---------------------------------------------------------------------------
// Round trip: specification-level decoding inverts encoding exactly.
// ---------------------------------------------------------------------------

/// A 64-bit integer survives the trip through its little-endian bytes.
proof fn lemma_u64_round_trip(x: u64)
    ensures
        u64_from_le(
            (x & 0xff) as u8,
            ((x >> 8) & 0xff) as u8,
            ((x >> 16) & 0xff) as u8,
            ((x >> 24) & 0xff) as u8,
            ((x >> 32) & 0xff) as u8,
            ((x >> 40) & 0xff) as u8,
            ((x >> 48) & 0xff) as u8,
            ((x >> 56) & 0xff) as u8,
        ) == x,
{
    assert((((x & 0xff) as u8) as u64) | ((((x >> 8) & 0xff) as u8) as u64) << 8 | ((((x >> 16)
        & 0xff) as u8) as u64) << 16 | ((((x >> 24) & 0xff) as u8) as u64) << 24 | ((((x >> 32)
        & 0xff) as u8) as u64) << 32 | ((((x >> 40) & 0xff) as u8) as u64) << 40 | ((((x >> 48)
        & 0xff) as u8) as u64) << 48 | ((((x >> 56) & 0xff) as u8) as u64) << 56 == x)
        by (bit_vector);
}

/// A region of `b` that holds a concatenation holds each part in turn.
proof fn lemma_subrange_split(b: Seq<u8>, i: int, s1: Seq<u8>, s2: Seq<u8>)
    requires
        0 <= i,
        i + s1.len() + s2.len() <= b.len(),
        b.subrange(i, i + s1.len() + s2.len()) == s1 + s2,
    ensures
        b.subrange(i, i + s1.len()) == s1,
        b.subrange(i + s1.len(), i + s1.len() + s2.len()) == s2,
{
    let n1 = s1.len() as int;
    let n2 = s2.len() as int;
    assert forall|t: int| 0 <= t < n1 implies b.subrange(i, i + n1)[t] == s1[t] by {
        assert((s1 + s2)[t] == s1[t]);
        assert(b.subrange(i, i + n1 + n2)[t] == b[i + t]);
    }
    assert(b.subrange(i, i + n1) =~= s1);
    assert forall|t: int| 0 <= t < n2 implies b.subrange(i + n1, i + n1 + n2)[t] == s2[t] by {
        assert((s1 + s2)[n1 + t] == s2[t]);
        assert(b.subrange(i, i + n1 + n2)[n1 + t] == b[i + n1 + t]);
    }
    assert(b.subrange(i + n1, i + n1 + n2) =~= s2);
}

/// Decoding at a position whose next eight bytes encode `x` yields `x`.
proof fn lemma_sdec_u64_enc(b: Seq<u8>, i: int, x: u64)
    requires
        0 <= i,
        i + 8 <= b.len(),
        b.subrange(i, i + 8) == senc_u64(x),
    ensures
        sdec_u64(b, i) == Some((x, i + 8)),
{
    assert(b[i] == senc_u64(x)[0]);
    assert(b[i + 1] == senc_u64(x)[1]);
    assert(b[i + 2] == senc_u64(x)[2]);
    assert(b[i + 3] == senc_u64(x)[3]);
    assert(b[i + 4] == senc_u64(x)[4]);
    assert(b[i + 5] == senc_u64(x)[5]);
    assert(b[i + 6] == senc_u64(x)[6]);
    assert(b[i + 7] == senc_u64(x)[7]);
    lemma_u64_round_trip(x);
}

/// Decoding at a position that holds a length-prefixed byte string yields it.
proof fn lemma_sdec_bytes_enc(b: Seq<u8>, i: int, s: Seq<u8>)
    requires
        0 <= i,
        s.len() <= u64::MAX,
        i + senc_bytes(s).len() <= b.len(),
        b.subrange(i, i + senc_bytes(s).len()) == senc_bytes(s),
    ensures
        sdec_bytes(b, i) == Some((s, i + 8 + s.len())),
{
    lemma_subrange_split(b, i, senc_u64(s.len() as u64), s);
    lemma_sdec_u64_enc(b, i, s.len() as u64);
}

/// Decoding at a position that holds an encoded metadata record yields it.
proof fn lemma_sdec_metadata_enc(b: Seq<u8>, i: int, m: ConnectionMetadataView)
    requires
        0 <= i,
        m.wf(),
        i + senc_metadata(m).len() <= b.len(),
        b.subrange(i, i + senc_metadata(m).len()) == senc_metadata(m),
    ensures
        sdec_metadata(b, i) == Some((m, i + senc_metadata(m).len())),
{
    let addr = senc_bytes(m.network_address);
    let pid = senc_bytes(m.peer_id);
    lemma_subrange_split(b, i, addr + pid, seq![m.peer_role]);
    lemma_subrange_split(b, i, addr, pid);
    lemma_sdec_bytes_enc(b, i, m.network_address);
    let j = i + addr.len() as int;
    lemma_sdec_bytes_enc(b, j, m.peer_id);
    let k = j + pid.len() as int;
    assert(b[k] == b.subrange(k, k + 1)[0]);
    assert(sdec_byte(b, k) == Some((m.peer_role, k + 1)));
}

/// Decoding at a position that holds an encoded peers-map entry yields it.
proof fn lemma_sdec_peer_entry_enc(b: Seq<u8>, i: int, e: (u64, ConnectionMetadataView))
    requires
        0 <= i,
        e.1.wf(),
        i + senc_peer_entry(e).len() <= b.len(),
        b.subrange(i, i + senc_peer_entry(e).len()) == senc_peer_entry(e),
    ensures
        sdec_peer_entry(b, i) == Some((e, i + senc_peer_entry(e).len())),
{
    lemma_subrange_split(b, i, senc_u64(e.0), senc_metadata(e.1));
    lemma_sdec_u64_enc(b, i, e.0);
    lemma_sdec_metadata_enc(b, i + 8, e.1);
}

/// Decoding a run of encoded peers-map entries yields exactly those entries.
proof fn lemma_sdec_peer_entries_enc(b: Seq<u8>, i: int, s: Seq<(u64, ConnectionMetadataView)>)
    requires
        0 <= i,
        forall|k: int| 0 <= k < s.len() ==> (#[trigger] s[k]).1.wf(),
        i + senc_peer_entries(s).len() <= b.len(),
        b.subrange(i, i + senc_peer_entries(s).len()) == senc_peer_entries(s),
    ensures
        sdec_peer_entries(b, i, s.len()) == Some((s, i + senc_peer_entries(s).len())),
    decreases s.len(),
{
    if s.len() == 0 {
        assert(s =~= Seq::<(u64, ConnectionMetadataView)>::empty());
    } else {
        let head = senc_peer_entry(s[0]);
        let rest = s.drop_first();
        lemma_subrange_split(b, i, head, senc_peer_entries(rest));
        lemma_sdec_peer_entry_enc(b, i, s[0]);
        let j = i + head.len() as int;
        assert(forall|k: int| 0 <= k < rest.len() ==> (#[trigger] rest[k]) == s[k + 1]);
        lemma_sdec_peer_entries_enc(b, j, rest);
        assert(seq![s[0]] + rest =~= s);
    }
}

/// Decoding at a position that holds an encoded build-map entry yields it.
proof fn lemma_sdec_build_entry_enc(b: Seq<u8>, i: int, e: (Seq<u8>, Seq<u8>))
    requires
        0 <= i,
        e.0.len() <= u64::MAX,
        e.1.len() <= u64::MAX,
        i + senc_build_entry(e).len() <= b.len(),
        b.subrange(i, i + senc_build_entry(e).len()) == senc_build_entry(e),
    ensures
        sdec_build_entry(b, i) == Some((e, i + senc_build_entry(e).len())),
{
    lemma_subrange_split(b, i, senc_bytes(e.0), senc_bytes(e.1));
    lemma_sdec_bytes_enc(b, i, e.0);
    lemma_sdec_bytes_enc(b, i + senc_bytes(e.0).len() as int, e.1);
}

/// Decoding a run of encoded build-map entries yields exactly those entries.
proof fn lemma_sdec_build_entries_enc(b: Seq<u8>, i: int, s: Seq<(Seq<u8>, Seq<u8>)>)
    requires
        0 <= i,
        forall|k: int|
            0 <= k < s.len() ==> (#[trigger] s[k]).0.len() <= u64::MAX && s[k].1.len() <= u64::MAX,
        i + senc_build_entries(s).len() <= b.len(),
        b.subrange(i, i + senc_build_entries(s).len()) == senc_build_entries(s),
    ensures
        sdec_build_entries(b, i, s.len()) == Some((s, i + senc_build_entries(s).len())),
    decreases s.len(),
{
    if s.len() == 0 {
        assert(s =~= Seq::<(Seq<u8>, Seq<u8>)>::empty());
    } else {
        let head = senc_build_entry(s[0]);
        let rest = s.drop_first();
        lemma_subrange_split(b, i, head, senc_build_entries(rest));
        lemma_sdec_build_entry_enc(b, i, s[0]);
        let j = i + head.len() as int;
        assert(forall|k: int| 0 <= k < rest.len() ==> (#[trigger] rest[k]) == s[k + 1]);
        lemma_sdec_build_entries_enc(b, j, rest);
        assert(seq![s[0]] + rest =~= s);
    }
}

/// Decoding an encoded network information response yields it.
#[verifier::rlimit(50)]
proof fn lemma_sdec_network_enc(b: Seq<u8>, i: int, v: NetworkInformationResponseView)
    requires
        0 <= i,
        v.wf(),
        i + senc_network(v).len() <= b.len(),
        b.subrange(i, i + senc_network(v).len()) == senc_network(v),
    ensures
        sdec_network(b, i) == Some((v, i + senc_network(v).len())),
{
    let count = senc_u64(v.connected_peers.len() as u64);
    let entries = senc_peer_entries(v.connected_peers);
    lemma_subrange_split(b, i, count + entries, senc_u64(v.distance_from_validators));
    lemma_subrange_split(b, i, count, entries);
    lemma_sdec_u64_enc(b, i, v.connected_peers.len() as u64);
    let j = i + 8;
    lemma_sdec_peer_entries_enc(b, j, v.connected_peers);
    let k = j + entries.len() as int;
    lemma_sdec_u64_enc(b, k, v.distance_from_validators);
}

/// Decoding an encoded node information response yields it.
#[verifier::rlimit(100)]
proof fn lemma_sdec_node_enc(b: Seq<u8>, i: int, v: NodeInformationResponseView)
    requires
        0 <= i,
        v.wf(),
        i + senc_node(v).len() <= b.len(),
        b.subrange(i, i + senc_node(v).len()) == senc_node(v),
    ensures
        sdec_node(b, i) == Some((v, i + senc_node(v).len())),
{
    let count = senc_u64(v.build_information.len() as u64);
    let entries = senc_build_entries(v.build_information);
    let u1 = senc_u64(v.highest_synced_epoch);
    let u2 = senc_u64(v.highest_synced_version);
    let u3 = senc_u64(v.ledger_timestamp_usecs);
    let u4 = senc_u64(v.lowest_available_version);
    let u5 = senc_u64(v.uptime_usecs);
    lemma_subrange_split(b, i, count + entries + u1 + u2 + u3 + u4, u5);
    lemma_subrange_split(b, i, count + entries + u1 + u2 + u3, u4);
    lemma_subrange_split(b, i, count + entries + u1 + u2, u3);
    lemma_subrange_split(b, i, count + entries + u1, u2);
    lemma_subrange_split(b, i, count + entries, u1);
    lemma_subrange_split(b, i, count, entries);
    lemma_sdec_u64_enc(b, i, v.build_information.len() as u64);
    let j = i + 8;
    lemma_sdec_build_entries_enc(b, j, v.build_information);
    let l0 = j + entries.len() as int;
    lemma_sdec_u64_enc(b, l0, v.highest_synced_epoch);
    lemma_sdec_u64_enc(b, l0 + 8, v.highest_synced_version);
    lemma_sdec_u64_enc(b, l0 + 16, v.ledger_timestamp_usecs);
    lemma_sdec_u64_enc(b, l0 + 24, v.lowest_available_version);
    lemma_sdec_u64_enc(b, l0 + 32, v.uptime_usecs);
}

/// Round trip: decoding the canonical encoding of any well-formed response
/// yields that response again, consuming every byte.
#[verifier::rlimit(50)]
pub proof fn lemma_response_round_trip(v: PeerMonitoringServiceResponseView)
    requires
        v.wf(),
    ensures
        sdec_response(senc_response(v), 0) == Some((v, senc_response(v).len() as int)),
{
    let b = senc_response(v);
    assert(b.subrange(0, b.len() as int) =~= b);
    match v {
        PeerMonitoringServiceResponseView::LatencyPing(counter) => {
            lemma_subrange_split(b, 0, seq![0u8], senc_u64(counter));
            assert(b[0] == b.subrange(0, 1)[0]);
            lemma_sdec_u64_enc(b, 1, counter);
        },
        PeerMonitoringServiceResponseView::NetworkInformation(inner) => {
            lemma_subrange_split(b, 0, seq![1u8], senc_network(inner));
            assert(b[0] == b.subrange(0, 1)[0]);
            lemma_sdec_network_enc(b, 1, inner);
        },
        PeerMonitoringServiceResponseView::NodeInformation(inner) => {
            lemma_subrange_split(b, 0, seq![2u8], senc_node(inner));
            assert(b[0] == b.subrange(0, 1)[0]);
            lemma_sdec_node_enc(b, 1, inner);
        },
        PeerMonitoringServiceResponseView::ServerProtocolVersion(version) => {
            lemma_subrange_split(b, 0, seq![3u8], senc_u64(version));
            assert(b[0] == b.subrange(0, 1)[0]);
            lemma_sdec_u64_enc(b, 1, version);
        },
    }
    assert(sdec_byte(b, 0) == Some((b[0], 1int)));
}

/// Extending the encoded prefix of a connected-peers map by one entry.
proof fn lemma_senc_peer_entries_take_step(s: Seq<(u64, ConnectionMetadataView)>, i: int)
    requires
        0 <= i < s.len(),
    ensures
        senc_peer_entries(s.take(i + 1)) == senc_peer_entries(s.take(i)) + senc_peer_entry(s[i]),
    decreases i,
{
    if i == 0 {
        assert(s.take(1) =~= seq![s[0]]);
        assert(s.take(1).drop_first() =~= Seq::empty());
        assert(s.take(0) =~= Seq::empty());
        assert(senc_peer_entries(s.take(1)) =~= senc_peer_entries(s.take(0)) + senc_peer_entry(
            s[0],
        ));
    } else {
        let rest = s.drop_first();
        lemma_senc_peer_entries_take_step(rest, i - 1);
        assert(s.take(i + 1).drop_first() =~= rest.take(i));
        assert(s.take(i).drop_first() =~= rest.take(i - 1));
        assert(s.take(i + 1)[0] == s[0]);
        assert(s.take(i)[0] == s[0]);
        assert(rest[i - 1] == s[i]);
        assert(senc_peer_entries(s.take(i + 1)) == senc_peer_entry(s[0]) + senc_peer_entries(
            rest.take(i),
        ));
        assert(senc_peer_entry(s[0]) + (senc_peer_entries(rest.take(i - 1)) + senc_peer_entry(
            s[i],
        )) =~= (senc_peer_entry(s[0]) + senc_peer_entries(rest.take(i - 1))) + senc_peer_entry(
            s[i],
        ));
    }
}

/// Extending the encoded prefix of a build-information map by one entry.
proof fn lemma_senc_build_entries_take_step(s: Seq<(Seq<u8>, Seq<u8>)>, i: int)
    requires
        0 <= i < s.len(),
    ensures
        senc_build_entries(s.take(i + 1)) == senc_build_entries(s.take(i)) + senc_build_entry(s[i]),
    decreases i,
{
    if i == 0 {
        assert(s.take(1) =~= seq![s[0]]);
        assert(s.take(1).drop_first() =~= Seq::empty());
        assert(s.take(0) =~= Seq::empty());
        assert(senc_build_entries(s.take(1)) =~= senc_build_entries(s.take(0)) + senc_build_entry(
            s[0],
        ));
    } else {
        let rest = s.drop_first();
        lemma_senc_build_entries_take_step(rest, i - 1);
        assert(s.take(i + 1).drop_first() =~= rest.take(i));
        assert(s.take(i).drop_first() =~= rest.take(i - 1));
        assert(rest[i - 1] == s[i]);
        assert(senc_build_entries(s.take(i + 1)) == senc_build_entry(s[0]) + senc_build_entries(
            rest.take(i),
        ));
        assert(senc_build_entry(s[0]) + (senc_build_entries(rest.take(i - 1)) + senc_build_entry(
            s[i],
        )) =~= (senc_build_entry(s[0]) + senc_build_entries(rest.take(i - 1))) + senc_build_entry(
            s[i],
        ));
    }
}

} // verus!
