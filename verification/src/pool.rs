//! Shared lazy channels keyed by static peer node identity.
//!
//! The pool decides; the caller connects. A channel (`H`) is a cheap handle to one connection.

use crate::text;
use crate::NodeId;
use std::collections::HashMap;
use vstd::prelude::*;
use vstd::string::*;

verus! {

/// Failure to obtain a channel for one configured peer; `E` is the transport's failure.
#[derive(Debug)]
pub enum GrpcPeerChannelError<E> {
    /// The requested peer is absent from this pool's static catalog.
    UnknownPeer {
        /// Missing peer identity.
        peer: NodeId,
    },
    /// The peer is configured but its channel could not be established.
    Connect {
        /// Configured peer identity.
        peer: NodeId,
        /// Endpoint or connection failure.
        source: E,
    },
}

impl<E> GrpcPeerChannelError<E> {
    /// The message of the error.
    pub open spec fn text(self) -> Seq<char> {
        match self {
            GrpcPeerChannelError::UnknownPeer { peer } => "peer "@ + text::decimal(peer as nat)
                + " is not configured"@,
            GrpcPeerChannelError::Connect { peer, .. } => "failed to connect to peer "@
                + text::decimal(peer as nat),
        }
    }

    /// The message of the error.
    pub fn to_string(&self) -> (text: String)
        ensures
            text@ == self.text(),
    {
        match self {
            GrpcPeerChannelError::UnknownPeer { peer } => {
                let mut out = "peer ".to_owned();
                text::append_u64(&mut out, *peer);
                out.append(" is not configured");
                out
            },
            GrpcPeerChannelError::Connect { peer, .. } => {
                let mut out = "failed to connect to peer ".to_owned();
                text::append_u64(&mut out, *peer);
                out
            },
        }
    }

    /// The failure below this one, where there is one.
    pub fn source(&self) -> (source: Option<&E>)
        ensures
            match *self {
                GrpcPeerChannelError::UnknownPeer { .. } => source is None,
                GrpcPeerChannelError::Connect { source: below, .. } => source == Some(&below),
            },
    {
        match self {
            GrpcPeerChannelError::UnknownPeer { .. } => None,
            GrpcPeerChannelError::Connect { source, .. } => Some(source),
        }
    }
}

/// What obtaining a channel comes to at once.
#[derive(Debug)]
pub enum ChannelStep<H, E> {
    /// The cached channel, or the failure.
    Ready(Result<H, GrpcPeerChannelError<E>>),
    /// Connect to this endpoint.
    Connect { endpoint: String },
}

/// Lazy per-peer channel cache for one static address catalog.
///
/// Separate users construct separate pools when the same node identities map to different service
/// addresses. Catalog validation remains the caller's responsibility.
#[derive(Debug)]
pub struct GrpcPeerChannelPool<H> {
    peers: HashMap<NodeId, String>,
    channels: HashMap<NodeId, H>,
}

/// The addresses of a list of peers; of two addresses for one peer the later counts.
pub open spec fn catalog_of(peers: Seq<(NodeId, String)>) -> Map<NodeId, Seq<char>>
    decreases peers.len(),
{
    if peers.len() == 0 {
        Map::empty()
    } else {
        catalog_of(peers.drop_last()).insert(peers.last().0, peers.last().1@)
    }
}

/// What a pool knows of a peer.
pub enum Lookup<H> {
    /// The peer has a channel.
    Cached(H),
    /// The peer is configured at this address, and has no channel yet.
    Configured(Seq<char>),
    /// The peer is not configured.
    Unknown,
}

impl<H> GrpcPeerChannelPool<H> {
    /// Only configured peers have channels, and there are finitely many of them.
    #[verifier::type_invariant]
    pub closed spec fn wf(self) -> bool {
        &&& self.catalog().dom().finite()
        &&& self.cached().dom().subset_of(self.catalog().dom())
    }

    /// What the pool knows of `peer`.
    pub open spec fn lookup(self, peer: NodeId) -> Lookup<H> {
        if !self.catalog().contains_key(peer) {
            Lookup::Unknown
        } else if self.cached().contains_key(peer) {
            Lookup::Cached(self.cached()[peer])
        } else {
            Lookup::Configured(self.catalog()[peer])
        }
    }

    /// The pool is what `before` has become: the same peers, and every channel that it had.
    pub open spec fn follows(self, before: Self) -> bool {
        &&& self.catalog() == before.catalog()
        &&& forall|peer: NodeId| #[trigger]
            before.cached().contains_key(peer) ==> self.cached().contains_key(peer)
                && self.cached()[peer] == before.cached()[peer]
    }

    /// The address of each peer.
    pub closed spec fn catalog(self) -> Map<NodeId, Seq<char>> {
        self.peers@.map_values(|address: String| address@)
    }

    /// The channel of each peer that has one.
    pub closed spec fn cached(self) -> Map<NodeId, H> {
        self.channels@
    }
}

impl<H: Clone> GrpcPeerChannelPool<H> {
    /// Creates an empty channel cache over the supplied static peer catalog.
    pub fn new(peers: Vec<(NodeId, String)>) -> (pool: Self)
        ensures
            pool.catalog() == catalog_of(peers@),
            pool.cached() == Map::<NodeId, H>::empty(),
            pool.wf(),
    {
        let mut map: HashMap<NodeId, String> = HashMap::new();
        let mut i: usize = 0;
        assert(map@.map_values(|address: String| address@) =~= Map::empty());
        while i < peers.len()
            invariant
                i <= peers.len(),
                map@.map_values(|address: String| address@) == catalog_of(peers@.take(i as int)),
            decreases peers.len() - i,
        {
            let ghost before = map@;
            map.insert(peers[i].0, peers[i].1.clone());
            proof {
                assert(peers@.take(i + 1).drop_last() =~= peers@.take(i as int));
                assert(map@.map_values(|address: String| address@) =~= before.map_values(
                    |address: String| address@,
                ).insert(peers@[i as int].0, peers@[i as int].1@));
            }
            i += 1;
        }
        assert(peers@.take(peers.len() as int) =~= peers@);
        assert(map@.map_values(|address: String| address@).dom() =~= map@.dom());
        GrpcPeerChannelPool { peers: map, channels: HashMap::new() }
    }

    /// Looks `peer` up: its cached channel; else where to connect to, if it is configured.
    ///
    /// # Errors
    ///
    /// Returns [`GrpcPeerChannelError::UnknownPeer`] when `peer` is absent from this pool's catalog.
    pub fn channel<E>(&self, peer: NodeId) -> (step: ChannelStep<H, E>)
        ensures
            self.wf(),
            match self.lookup(peer) {
                Lookup::Cached(cached) => step matches ChannelStep::Ready(Ok(channel)) && cloned(
                    cached,
                    channel,
                ),
                Lookup::Configured(address) => step matches ChannelStep::Connect { endpoint }
                    && endpoint@ == "http://"@ + address,
                Lookup::Unknown => step == ChannelStep::<H, E>::Ready(
                    Err(GrpcPeerChannelError::UnknownPeer { peer }),
                ),
            },
    {
        proof {
            use_type_invariant(self);
        }
        if let Some(channel) = self.channels.get(&peer) {
            return ChannelStep::Ready(Ok(channel.clone()));
        }
        match self.peers.get(&peer) {
            None => ChannelStep::Ready(Err(GrpcPeerChannelError::UnknownPeer { peer })),
            Some(address) => {
                let mut endpoint = "http://".to_owned();
                endpoint.append(address.as_str());
                ChannelStep::Connect { endpoint }
            },
        }
    }

    /// Takes what connecting to `peer` gave. Where another channel was cached meanwhile that one is
    /// kept and returned, so a peer never has two.
    ///
    /// # Errors
    ///
    /// Returns [`GrpcPeerChannelError::UnknownPeer`] when `peer` is absent from this pool's catalog,
    /// or [`GrpcPeerChannelError::Connect`] when connecting failed. Either way nothing is cached.
    pub fn connected<E>(&mut self, peer: NodeId, connected: Result<H, E>) -> (channel: Result<
        H,
        GrpcPeerChannelError<E>,
    >)
        ensures
            final(self).wf(),
            final(self).follows(*old(self)),
            channel is Err ==> final(self).cached() == old(self).cached(),
            match (old(self).lookup(peer), connected) {
                (Lookup::Unknown, _) => channel == Err::<H, GrpcPeerChannelError<E>>(
                    GrpcPeerChannelError::UnknownPeer { peer },
                ),
                (_, Err(source)) => channel == Err::<H, GrpcPeerChannelError<E>>(
                    GrpcPeerChannelError::Connect { peer, source },
                ),
                (Lookup::Cached(cached), Ok(_)) => {
                    &&& channel matches Ok(existing) && cloned(cached, existing)
                    &&& final(self).cached() == old(self).cached()
                },
                (Lookup::Configured(_), Ok(new)) => {
                    &&& channel == Ok::<H, GrpcPeerChannelError<E>>(new)
                    &&& final(self).lookup(peer) matches Lookup::Cached(cached) && cloned(
                        new,
                        cached,
                    ) && final(self).cached() == old(self).cached().insert(peer, cached)
                },
            },
    {
        proof {
            use_type_invariant(&*self);
        }
        if !self.peers.contains_key(&peer) {
            return Err(GrpcPeerChannelError::UnknownPeer { peer });
        }
        let new = match connected {
            Ok(new) => new,
            Err(source) => {
                return Err(GrpcPeerChannelError::Connect { peer, source });
            },
        };
        if let Some(existing) = self.channels.get(&peer) {
            return Ok(existing.clone());
        }
        let kept = new.clone();
        let mut channels: HashMap<NodeId, H> = HashMap::new();
        std::mem::swap(&mut channels, &mut self.channels);
        channels.insert(peer, kept);
        self.channels = channels;
        Ok(new)
    }

    /// Returns how many distinct peer identities have a cached channel.
    ///
    /// This is cached cardinality, not current connectivity, liveness, membership, readiness, or
    /// quorum state.
    pub fn unique_peer_links(&self) -> (links: usize)
        ensures
            links == self.cached().len(),
            links <= self.catalog().len(),
    {
        proof {
            use_type_invariant(self);
            assert(self.catalog().dom() =~= self.peers@.dom());
            vstd::set_lib::lemma_len_subset(self.cached().dom(), self.catalog().dom());
        }
        self.channels.len()
    }
}

/// A peer outside the catalog is unknown, whatever happens to the pool; links never outnumber the
/// configured peers, however many users share them.
pub proof fn law_only_configured_peers_have_links<H>(
    pool: GrpcPeerChannelPool<H>,
    later: GrpcPeerChannelPool<H>,
    peer: NodeId,
)
    requires
        pool.wf(),
        later.wf(),
        later.follows(pool),
    ensures
        pool.lookup(peer) is Unknown <==> !pool.catalog().contains_key(peer),
        pool.lookup(peer) is Unknown ==> later.lookup(peer) is Unknown,
        !pool.catalog().contains_key(peer) ==> !later.cached().contains_key(peer),
        later.cached().len() <= pool.catalog().len(),
{
    vstd::set_lib::lemma_len_subset(later.cached().dom(), pool.catalog().dom());
}

/// A channel that a peer has got is the one that it keeps: every later lookup finds it, and no
/// other connection is made.
pub proof fn law_cached_channel_is_kept<H>(
    before: GrpcPeerChannelPool<H>,
    later: GrpcPeerChannelPool<H>,
    peer: NodeId,
)
    requires
        before.lookup(peer) is Cached,
        later.follows(before),
    ensures
        later.lookup(peer) == before.lookup(peer),
{
}

/// Following is transitive, so that what holds of one step of a pool holds of all of them.
pub proof fn law_pools_follow_in_turn<H>(
    first: GrpcPeerChannelPool<H>,
    second: GrpcPeerChannelPool<H>,
    third: GrpcPeerChannelPool<H>,
)
    requires
        second.follows(first),
        third.follows(second),
    ensures
        third.follows(first),
{
    assert forall|peer: NodeId| #[trigger] first.cached().contains_key(peer) implies (
    third.cached().contains_key(peer) && third.cached()[peer] == first.cached()[peer]) by {
        assert(second.cached().contains_key(peer));
    }
}

/// Of a list of peers each is configured, at the last address that the list gives it, and no other
/// is.
pub proof fn law_the_last_address_counts(peers: Seq<(NodeId, String)>, i: int, peer: NodeId)
    ensures
        catalog_of(peers).contains_key(peer) <==> exists|k: int|
            0 <= k < peers.len() && (#[trigger] peers[k]).0 == peer,
        0 <= i < peers.len() && (forall|k: int| i < k < peers.len() ==> (#[trigger] peers[k]).0
            != peers[i].0) ==> catalog_of(peers)[peers[i].0] == peers[i].1@,
    decreases peers.len(),
{
    if peers.len() > 0 {
        let rest = peers.drop_last();
        let last = peers.len() - 1;
        law_the_last_address_counts(rest, i, peer);
        assert forall|k: int| 0 <= k < rest.len() implies rest[k] == peers[k] by {}
        if catalog_of(rest).contains_key(peer) {
            let k = choose|k: int| 0 <= k < rest.len() && (#[trigger] rest[k]).0 == peer;
            assert(peers[k].0 == peer);
        }
        if exists|k: int| 0 <= k < peers.len() && (#[trigger] peers[k]).0 == peer {
            let k = choose|k: int| 0 <= k < peers.len() && (#[trigger] peers[k]).0 == peer;
            if k < last {
                assert(rest[k].0 == peer);
            } else {
                assert(peers.last().0 == peer);
            }
        }
        if 0 <= i < last && (forall|k: int| i < k < peers.len() ==> (#[trigger] peers[k]).0
            != peers[i].0) {
            assert(peers[last].0 != peers[i].0);
            assert forall|k: int| i < k < rest.len() implies (#[trigger] rest[k]).0 != rest[i].0 by {
                assert(peers[k].0 != peers[i].0);
            }
        }
    }
}

/// A peer with a channel gets it; a configured one without is connected to at its address; and any
/// other is unknown.
pub proof fn law_lookups_connect_once<H: Clone, E>(
    pool: GrpcPeerChannelPool<H>,
    peer: NodeId,
    step: ChannelStep<H, E>,
)
    requires
        call_ensures(GrpcPeerChannelPool::<H>::channel::<E>, (&pool, peer), step),
    ensures
        ({
            let known = pool.catalog().contains_key(peer);
            let cached = pool.cached().contains_key(peer);
            &&& step is Connect <==> known && !cached
            &&& (step matches ChannelStep::Connect { endpoint } ==> endpoint@ == "http://"@
                + pool.catalog()[peer])
            &&& (step matches ChannelStep::Ready(Ok(_))) <==> known && cached
            &&& (step matches ChannelStep::Ready(Ok(channel)) ==> cloned(
                pool.cached()[peer],
                channel,
            ))
            &&& !known ==> step == ChannelStep::<H, E>::Ready(
                Err(GrpcPeerChannelError::UnknownPeer { peer }),
            )
        }),
{
}

/// A connection is kept exactly where it succeeded, its peer is configured and has no channel yet;
/// the channels of all other peers stay as they were.
pub proof fn law_connections_are_kept_once<H: Clone, E>(
    pool: &mut GrpcPeerChannelPool<H>,
    peer: NodeId,
    connected: Result<H, E>,
    channel: Result<H, GrpcPeerChannelError<E>>,
    other: NodeId,
)
    requires
        call_ensures(GrpcPeerChannelPool::<H>::connected::<E>, (pool, peer, connected), channel),
        other != peer,
    ensures
        ({
            let known = old(pool).catalog().contains_key(peer);
            let cached = old(pool).cached().contains_key(peer);
            &&& channel is Ok <==> known && connected is Ok
            &&& !known ==> channel == Err::<H, _>(GrpcPeerChannelError::<E>::UnknownPeer { peer })
            &&& known && connected is Err ==> channel == Err::<H, _>(
                GrpcPeerChannelError::Connect { peer, source: connected->Err_0 },
            )
            &&& known && cached ==> final(pool).cached()[peer] == old(pool).cached()[peer]
            &&& known ==> (final(pool).cached().contains_key(peer) <==> cached || connected is Ok)
            &&& known && !cached && connected is Ok ==> cloned(
                connected->Ok_0,
                final(pool).cached()[peer],
            )
        }),
        final(pool).catalog() == old(pool).catalog(),
        final(pool).cached().contains_key(other) <==> old(pool).cached().contains_key(other),
        old(pool).cached().contains_key(other) ==> final(pool).cached()[other]
            == old(pool).cached()[other],
{
}

/// The messages of channel errors name the peer, and only a failed connection has a cause.
pub proof fn law_channel_errors_name_their_peer<E>(
    error: GrpcPeerChannelError<E>,
    message: String,
    source: Option<&E>,
)
    requires
        call_ensures(GrpcPeerChannelError::<E>::to_string, (&error,), message),
        call_ensures(GrpcPeerChannelError::<E>::source, (&error,), source),
    ensures
        error matches GrpcPeerChannelError::UnknownPeer { peer } ==> message@ == "peer "@
            + text::decimal(peer as nat) + " is not configured"@,
        error matches GrpcPeerChannelError::Connect { peer, source: below } ==> message@
            == "failed to connect to peer "@ + text::decimal(peer as nat),
        source is Some <==> error is Connect,
        error matches GrpcPeerChannelError::Connect { peer, source: below } ==> source == Some(
            &below,
        ),
{
}

/// A new pool knows the peers that it was given and has no links; the links that are counted are
/// the channels that it has.
pub proof fn law_links_are_the_cached_channels<H: Clone>(
    peers: Vec<(NodeId, String)>,
    pool: GrpcPeerChannelPool<H>,
    links: usize,
    later: GrpcPeerChannelPool<H>,
    later_links: usize,
)
    requires
        call_ensures(GrpcPeerChannelPool::<H>::new, (peers,), pool),
        call_ensures(GrpcPeerChannelPool::<H>::unique_peer_links, (&pool,), links),
        call_ensures(GrpcPeerChannelPool::<H>::unique_peer_links, (&later,), later_links),
    ensures
        pool.catalog() == catalog_of(peers@),
        links == 0,
        later_links == later.cached().dom().len(),
{
    assert(pool.cached().dom() =~= Set::empty());
}

} // verus!
