//! Decoding a snapshot request: a vote and snapshot metadata, then the application image.

use crate::bytes;
use crate::collections;
use crate::log_id::ObservedLogId;
use crate::membership::StoredMembership;
use crate::membership::StoredMembershipView;
use crate::observation::VoteObservation;
use crate::snapshot::SnapshotMeta;
use crate::snapshot::SnapshotMetaView;
use crate::snapshot::BYTE_LIMIT;
use crate::NodeId;
use bincode::DefaultOptions;
use bincode::Deserializer;
use bincode::ErrorKind;
use bincode::Options;
use serde::Deserialize;
use std::collections::BTreeMap;
use std::collections::BTreeSet;
use std::io::Cursor;
use vstd::prelude::*;
use vstd::slice::slice_subrange;
use vstd::slice::slice_to_vec;

verus! {

/// What a request may hold besides the image, in bytes.
pub const ENVELOPE: usize = 1_048_576;

/// What is left of the envelope for vote and metadata: the rest is for the length of the image and
/// for the framing of the message.
pub const HEADER_LIMIT: u64 = 1_047_552;

/// Why a request could not be decoded.
#[derive(Debug, Clone, Copy, PartialEq, Eq, Structural)]
pub enum SnapshotDecodeError {
    SizeLimit,
    Encoding,
}

/// A leader's term and node, and an index.
pub type LogIdParts = (u64, u64, u64);

/// What stands before the image: term, node and commitment of the vote, the last log identity, the
/// log identity, configurations and nodes of the membership, the snapshot's identity; and where it
/// ends.
pub type HeaderParts = (
    (u64, u64, bool),
    Option<LogIdParts>,
    Option<LogIdParts>,
    Vec<BTreeSet<NodeId>>,
    BTreeMap<NodeId, String>,
    String,
    u64,
);

/// What stands before the image, and where it ends.
#[verifier::ext_equal]
pub struct HeaderView {
    pub vote: VoteObservation,
    pub meta: SnapshotMetaView,
    pub end: u64,
}

/// A log identity made of its parts.
pub open spec fn log_id_of(parts: Option<LogIdParts>) -> Option<ObservedLogId> {
    match parts {
        Some((term, node_id, index)) => Some(ObservedLogId { term, node_id, index }),
        None => None,
    }
}

/// A header made of its parts.
pub open spec fn header_of(parts: HeaderParts) -> HeaderView {
    HeaderView {
        vote: VoteObservation { term: parts.0.0, node_id: parts.0.1, committed: parts.0.2 },
        meta: SnapshotMetaView {
            last_log_id: log_id_of(parts.1),
            last_membership: StoredMembershipView {
                log_id: log_id_of(parts.2),
                voter_configs: collections::sets_view(parts.3@),
                nodes: collections::texts_view(parts.4@),
            },
            snapshot_id: parts.5@,
        },
        end: parts.6,
    }
}

/// What decoding the header of `request` gives, where no more than `limit` bytes are decoded: the
/// header, or whether the limit was exceeded.
pub uninterp spec fn decoded_header(request: Seq<u8>, limit: u64) -> Result<HeaderView, bool>;

/// `bincode` decoding of `openraft`'s vote and snapshot metadata, in the fixed-size integer
/// encoding and with a byte limit. Exceeding the limit is told apart from every other failure. The
/// result depends on bytes and limit alone, and the end is where the decoder stopped within the
/// bytes.
#[verifier::external_body]
fn decode_header(request: &[u8], limit: u64) -> (header: Result<HeaderParts, bool>)
    ensures
        match header {
            Ok(parts) => decoded_header(request@, limit) is Ok && decoded_header(
                request@,
                limit,
            )->Ok_0 == header_of(parts) && parts.6 <= request@.len(),
            Err(exceeded) => decoded_header(request@, limit) is Err && decoded_header(
                request@,
                limit,
            )->Err_0 == exceeded,
        },
{
    let mut input = Cursor::new(request);
    let options = DefaultOptions::new().with_fixint_encoding().with_limit(limit);
    let (vote, meta) = RawHeader::deserialize(&mut Deserializer::with_reader(&mut input, options))
        .map_err(|error| matches!(*error, ErrorKind::SizeLimit))?;
    let parts = |id: RawLogId| (id.leader_id.term, id.leader_id.node_id, id.index);
    Ok((
        (vote.leader_id.term, vote.leader_id.node_id, vote.committed),
        meta.last_log_id.map(parts),
        meta.last_membership.log_id().map(parts),
        meta.last_membership.get_joint_config().clone(),
        meta.last_membership.nodes().map(|(id, node)| (*id, node.addr.clone())).collect(),
        meta.snapshot_id,
        input.position(),
    ))
}

/// A leader of the advanced kind: term and node.
type RawLeader = openraft::impls::leader_id_adv::LeaderId<u64, u64>;

type RawVote = openraft::Vote<RawLeader>;

type RawLogId = openraft::LogId<RawLeader>;

type RawHeader = (RawVote, openraft::SnapshotMeta<RawLeader, u64, openraft::BasicNode>);

/// The image after a header that ends at `end`: a length of eight bytes, then exactly as many
/// bytes. What the length declares is judged before it is compared with what is there.
pub open spec fn image_of(request: Seq<u8>, end: int, cap: int) -> Result<
    Seq<u8>,
    SnapshotDecodeError,
> {
    if end + 8 > request.len() {
        Err(SnapshotDecodeError::Encoding)
    } else if bytes::le_number(request, end) > cap || end + 8 > ENVELOPE {
        Err(SnapshotDecodeError::SizeLimit)
    } else if bytes::le_number(request, end) != request.len() - (end + 8) {
        Err(SnapshotDecodeError::Encoding)
    } else {
        Ok(request.skip(end + 8))
    }
}

/// Takes the image after a header that ends at `end`.
pub fn framed_image(request: &[u8], end: u64, cap: usize) -> (image: Result<
    Vec<u8>,
    SnapshotDecodeError,
>)
    ensures
        match image {
            Ok(data) => image_of(request@, end as int, cap as int) == Ok::<
                Seq<u8>,
                SnapshotDecodeError,
            >(data@),
            Err(error) => image_of(request@, end as int, cap as int) == Err::<
                Seq<u8>,
                SnapshotDecodeError,
            >(error),
        },
{
    let length = request.len();
    if length < 8 || end > (length - 8) as u64 {
        return Err(SnapshotDecodeError::Encoding);
    }
    let start: usize = end as usize;
    let declared = bytes::read_number(request, start);
    if declared > cap as u64 || start + 8 > ENVELOPE {
        return Err(SnapshotDecodeError::SizeLimit);
    }
    if declared != (length - (start + 8)) as u64 {
        return Err(SnapshotDecodeError::Encoding);
    }
    let data = slice_subrange(request, start + 8, length);
    let image = slice_to_vec(data);
    assert(image@ =~= request@.skip(start + 8));
    Ok(image)
}

/// What a decoded header and the image after it come to.
pub open spec fn decoded_request(request: Seq<u8>, cap: int, header: Result<HeaderView, bool>) -> Result<
    (HeaderView, Seq<u8>),
    SnapshotDecodeError,
> {
    match header {
        Err(true) => Err(SnapshotDecodeError::SizeLimit),
        Err(false) => Err(SnapshotDecodeError::Encoding),
        Ok(header) => match image_of(request, header.end as int, cap) {
            Err(error) => Err(error),
            Ok(image) => Ok((header, image)),
        },
    }
}

/// Whether a request can be within the byte limit `cap` at all.
pub open spec fn within_envelope(request: Seq<u8>, cap: int) -> bool {
    0 < cap <= BYTE_LIMIT && request.len() <= cap + ENVELOPE
}

/// Decodes a snapshot request. Metadata is bounded independently of the image, and the image is not
/// copied before its declared and actual lengths both pass.
pub fn decode_snapshot_request(request: &[u8], cap: usize) -> (decoded: Result<
    (VoteObservation, SnapshotMeta, Vec<u8>),
    SnapshotDecodeError,
>)
    ensures
        ({
            let expected = if within_envelope(request@, cap as int) {
                decoded_request(request@, cap as int, decoded_header(request@, HEADER_LIMIT))
            } else {
                Err(SnapshotDecodeError::SizeLimit)
            };
            match decoded {
                Ok((vote, meta, data)) => expected matches Ok((header, image)) && vote
                    == header.vote && meta@ == header.meta && data@ == image,
                Err(error) => expected == Err::<(HeaderView, Seq<u8>), SnapshotDecodeError>(error),
            }
        }),
{
    if cap == 0 || cap > BYTE_LIMIT || request.len() > cap + ENVELOPE {
        return Err(SnapshotDecodeError::SizeLimit);
    }
    let parts = match decode_header(request, HEADER_LIMIT) {
        Ok(parts) => parts,
        Err(exceeded) => {
            return Err(
                if exceeded {
                    SnapshotDecodeError::SizeLimit
                } else {
                    SnapshotDecodeError::Encoding
                },
            );
        },
    };
    let (vote, last_log_id, membership_log_id, voter_configs, nodes, snapshot_id, end) = parts;
    let data = match framed_image(request, end, cap) {
        Ok(data) => data,
        Err(error) => {
            return Err(error);
        },
    };
    let meta = SnapshotMeta {
        last_log_id: log_id_from(last_log_id),
        last_membership: StoredMembership {
            log_id: log_id_from(membership_log_id),
            voter_configs,
            nodes,
        },
        snapshot_id,
    };
    Ok((VoteObservation { term: vote.0, node_id: vote.1, committed: vote.2 }, meta, data))
}

fn log_id_from(parts: Option<LogIdParts>) -> (id: Option<ObservedLogId>)
    ensures
        id == log_id_of(parts),
{
    match parts {
        Some((term, node_id, index)) => Some(ObservedLogId { term, node_id, index }),
        None => None,
    }
}

/// What is framed is given back: an image behind a header that fits the envelope, preceded by its
/// length in eight bytes, is the image that is taken.
pub proof fn law_framed_image_is_given_back(header: Seq<u8>, data: Seq<u8>, cap: int)
    requires
        data.len() <= cap <= BYTE_LIMIT,
        header.len() + 8 <= ENVELOPE,
    ensures
        image_of(header + bytes::le_bytes(data.len() as int) + data, header.len() as int, cap)
            == Ok::<Seq<u8>, SnapshotDecodeError>(data),
{
    let length = bytes::le_bytes(data.len() as int);
    let request = header + length + data;
    let end = header.len() as int;
    bytes::lemma_number_of_bytes(data.len() as int);
    assert forall|i: int| 0 <= i < 8 implies request[end + i] == #[trigger] length[i] by {
    }
    assert(bytes::le_number(request, end) == bytes::le_number(length, 0)) by {
        assert(request[end] == length[0]);
        assert(request[end + 1] == length[1]);
        assert(request[end + 2] == length[2]);
        assert(request[end + 3] == length[3]);
        assert(request[end + 4] == length[4]);
        assert(request[end + 5] == length[5]);
        assert(request[end + 6] == length[6]);
        assert(request[end + 7] == length[7]);
    }
    assert(request.skip(end + 8) =~= data);
}

/// An image fills the rest of its request: one with anything missing or anything left over is
/// refused as badly encoded, unless it declares too much.
pub proof fn law_image_fills_the_request(request: Seq<u8>, end: int, cap: int)
    requires
        0 <= end,
    ensures
        image_of(request, end, cap) matches Ok(image) ==> request.len() == end + 8 + image.len()
            && image.len() <= cap && bytes::le_number(request, end) == image.len(),
        request.len() < end + 8 ==> image_of(request, end, cap) == Err::<
            Seq<u8>,
            SnapshotDecodeError,
        >(SnapshotDecodeError::Encoding),
        end + 8 <= request.len() && end + 8 <= ENVELOPE && bytes::le_number(request, end) <= cap
            && request.len() != end + 8 + bytes::le_number(request, end) ==> image_of(
            request,
            end,
            cap,
        ) == Err::<Seq<u8>, SnapshotDecodeError>(SnapshotDecodeError::Encoding),
{
}

/// A snapshot request is decoded exactly where its byte limit goes from one byte to 64 MiB, it is
/// at most 1 MiB longer than that, its header can be decoded, and what follows the header is the
/// length of the image, within the limit, and then exactly as many bytes, the length standing in
/// the first 1 MiB. What is decoded is what the header says, and the rest of the request as it is.
pub proof fn law_requests_are_decoded_whole(
    request: &[u8],
    cap: usize,
    decoded: Result<(VoteObservation, SnapshotMeta, Vec<u8>), SnapshotDecodeError>,
)
    requires
        call_ensures(decode_snapshot_request, (request, cap), decoded),
    ensures
        ({
            let header = decoded_header(request@, 1_047_552);
            let end = header->Ok_0.end as int;
            let declared = bytes::le_number(request@, end);
            let bounded = 1 <= cap <= 64 * 1024 * 1024 && request@.len() <= cap + 1024 * 1024;
            let framed = end + 8 <= request@.len();
            let small = declared <= cap && end + 8 <= 1024 * 1024;
            let whole = request@.len() == end + 8 + declared;
            &&& decoded is Ok <==> bounded && header is Ok && framed && small && whole
            &&& !bounded ==> decoded->Err_0 is SizeLimit
            &&& bounded && header is Err ==> (decoded->Err_0 is SizeLimit <==> header->Err_0)
            &&& bounded && header is Ok && !framed ==> decoded->Err_0 is Encoding
            &&& bounded && header is Ok && framed && !small ==> decoded->Err_0 is SizeLimit
            &&& bounded && header is Ok && framed && small && !whole ==> decoded->Err_0 is Encoding
            &&& decoded is Ok ==> {
                let (vote, meta, data) = decoded->Ok_0;
                &&& vote.term == header->Ok_0.vote.term
                &&& vote.node_id == header->Ok_0.vote.node_id
                &&& vote.committed == header->Ok_0.vote.committed
                &&& meta.last_log_id == header->Ok_0.meta.last_log_id
                &&& meta.last_membership@ == header->Ok_0.meta.last_membership
                &&& meta.snapshot_id@ == header->Ok_0.meta.snapshot_id
                &&& data@.len() == declared
                &&& data@ == request@.skip(end + 8)
            }
        }),
{
}

/// The image behind a header is taken exactly where its length stands there, within the limit and
/// in the first 1 MiB, and is followed by exactly as many bytes; it is those bytes.
pub proof fn law_images_are_taken_whole(
    request: &[u8],
    end: u64,
    cap: usize,
    image: Result<Vec<u8>, SnapshotDecodeError>,
)
    requires
        call_ensures(framed_image, (request, end, cap), image),
    ensures
        ({
            let declared = bytes::le_number(request@, end as int);
            let framed = end + 8 <= request@.len();
            let small = declared <= cap && end + 8 <= 1024 * 1024;
            &&& image is Ok <==> framed && small && request@.len() == end + 8 + declared
            &&& image is Ok ==> image->Ok_0@ == request@.skip(end + 8)
            &&& image is Err ==> (image->Err_0 is SizeLimit <==> framed && !small)
        }),
{
}

/// What stands in a header is what it is made of.
pub proof fn law_headers_keep_their_parts(parts: HeaderParts, id: LogIdParts)
    ensures
        header_of(parts).vote.term == parts.0.0,
        header_of(parts).vote.node_id == parts.0.1,
        header_of(parts).vote.committed == parts.0.2,
        header_of(parts).meta.snapshot_id == parts.5@,
        header_of(parts).end == parts.6,
        header_of(parts).meta.last_log_id is Some <==> parts.1 is Some,
        parts.1 == Some(id) ==> header_of(parts).meta.last_log_id == Some(
            ObservedLogId { term: id.0, node_id: id.1, index: id.2 },
        ),
        header_of(parts).meta.last_membership.log_id is Some <==> parts.2 is Some,
        parts.2 == Some(id) ==> header_of(parts).meta.last_membership.log_id == Some(
            ObservedLogId { term: id.0, node_id: id.1, index: id.2 },
        ),
        header_of(parts).meta.last_membership.voter_configs == collections::sets_view(parts.3@),
        header_of(parts).meta.last_membership.nodes == collections::texts_view(parts.4@),
{
}

} // verus!
