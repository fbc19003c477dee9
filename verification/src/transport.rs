//! Packets, transports, and the router that forwards each packet once.

use vstd::prelude::*;
use crate::bytes::bytes_eq;
use crate::keys::random_bytes32;

verus! {

/// A mesh packet as transports and the router see it.
#[derive(Debug)]
pub struct Packet {
    pub packet_id: [u8; 32],
    pub channel_id: [u8; 32],
    pub ttl: u8,
    pub payload: Vec<u8>,
}

/// What a packet holds, as plain values.
pub struct PacketView {
    pub packet_id: Seq<u8>,
    pub channel_id: Seq<u8>,
    pub ttl: u8,
    pub payload: Seq<u8>,
}

impl View for Packet {
    type V = PacketView;

    open spec fn view(&self) -> PacketView {
        PacketView {
            packet_id: self.packet_id@,
            channel_id: self.channel_id@,
            ttl: self.ttl,
            payload: self.payload@,
        }
    }
}

impl Clone for Packet {
    fn clone(&self) -> (copy: Self)
        ensures
            copy@ == self@,
    {
        Packet {
            packet_id: self.packet_id,
            channel_id: self.channel_id,
            ttl: self.ttl,
            payload: self.payload.clone(),
        }
    }
}

/// The packet as it is forwarded: one hop fewer to live.
pub open spec fn forwarded(packet: PacketView) -> PacketView
    recommends
        packet.ttl > 0,
{
    PacketView {
        packet_id: packet.packet_id,
        channel_id: packet.channel_id,
        ttl: (packet.ttl - 1) as u8,
        payload: packet.payload,
    }
}

/// How a transport's record changes when it is handed a packet: a transport
/// that keeps a record goes on keeping one, with the packet at its end where
/// it was taken, and unchanged where it was refused. Of a transport without
/// a record nothing is said.
pub open spec fn took(
    before: Option<Seq<PacketView>>,
    after: Option<Seq<PacketView>>,
    packet: PacketView,
    taken: bool,
) -> bool {
    match before {
        Some(held) => after == Some(
            if taken {
                held.push(packet)
            } else {
                held
            },
        ),
        None => after is None,
    }
}

/// A way to hand packets to other devices: a radio link, a socket, or a
/// queue in memory.
///
/// A transport may keep a record of the packets that it took, as the
/// loopback transport does; the router's contract then says what each
/// transport took. A transport that states no record of its own keeps none,
/// and nothing is claimed of it.
pub trait Transport {
    /// The packets that the transport has taken and still holds, oldest
    /// first, where it keeps such a record; `None` where it keeps none.
    open spec fn outbox(&self) -> Option<Seq<PacketView>> {
        None
    }

    /// What the transport's own `send` promises of an outcome, beyond what
    /// holds of every transport: whether a transport in this state, handed
    /// the packet, may give this result and be left with this record. A
    /// transport that states nothing promises nothing, and every outcome is
    /// one of its own.
    open spec fn sends(
        &self,
        packet: PacketView,
        sent: Result<(), String>,
        after: Option<Seq<PacketView>>,
    ) -> bool {
        true
    }

    /// Hands a packet to the transport. Where the transport keeps a record,
    /// a packet that is taken joins it and one that is refused leaves it as
    /// it was; and the outcome is one that the transport's own `send`
    /// promises.
    fn send(&mut self, packet: &Packet) -> (sent: Result<(), String>)
        ensures
            took(old(self).outbox(), final(self).outbox(), packet@, sent is Ok),
            old(self).sends(packet@, sent, final(self).outbox()),
    ;

    /// Whether the transport can take packets now.
    fn is_available(&self) -> bool;

    /// A short name for the transport.
    fn name(&self) -> &'static str {
        "transport"
    }
}

/// A transport that keeps what it is sent in memory.
pub struct LoopbackTransport {
    inner: Vec<Packet>,
}

impl LoopbackTransport {
    /// The packets that were sent and not yet drained, oldest first.
    pub closed spec fn held(&self) -> Seq<PacketView> {
        self.inner@.map_values(|p: Packet| p@)
    }

    /// A loopback transport that holds nothing.
    pub fn new() -> (transport: Self)
        ensures
            transport.held() == Seq::<PacketView>::empty(),
    {
        let transport = LoopbackTransport { inner: Vec::new() };
        transport
    }

    /// Takes out all packets that were sent, oldest first.
    pub fn drain(&mut self) -> (packets: Vec<Packet>)
        ensures
            packets@.map_values(|p: Packet| p@) == old(self).held(),
            final(self).held() == Seq::<PacketView>::empty(),
    {
        let mut packets: Vec<Packet> = Vec::new();
        core::mem::swap(&mut self.inner, &mut packets);
        packets
    }
}

impl Transport for LoopbackTransport {
    open spec fn outbox(&self) -> Option<Seq<PacketView>> {
        Some(self.held())
    }

    open spec fn sends(
        &self,
        packet: PacketView,
        sent: Result<(), String>,
        after: Option<Seq<PacketView>>,
    ) -> bool {
        sent is Ok && after == Some(self.held().push(packet))
    }

    fn send(&mut self, packet: &Packet) -> (sent: Result<(), String>)
        ensures
            sent is Ok,
    {
        let copy = packet.clone();
        assert(self.inner@.push(copy).map_values(|p: Packet| p@) =~= self.held().push(packet@));
        self.inner.push(copy);
        Ok(())
    }

    fn is_available(&self) -> (available: bool)
        ensures
            available,
    {
        true
    }

    fn name(&self) -> (name: &'static str)
        ensures
            name@ == "loopback"@,
    {
        "loopback"
    }
}

/// A boxed transport is a transport, so that one router can hold transports
/// of different kinds. It keeps the record that the transport in the box
/// keeps, and each of its methods gives what that transport's method gives.
impl<T: Transport + ?Sized> Transport for Box<T> {
    open spec fn outbox(&self) -> Option<Seq<PacketView>> {
        (**self).outbox()
    }

    open spec fn sends(
        &self,
        packet: PacketView,
        sent: Result<(), String>,
        after: Option<Seq<PacketView>>,
    ) -> bool {
        (**self).sends(packet, sent, after)
    }

    fn send(&mut self, packet: &Packet) -> (sent: Result<(), String>) {
        (**self).send(packet)
    }

    fn is_available(&self) -> (available: bool)
        ensures
            call_ensures(T::is_available, (&**self,), available),
    {
        (**self).is_available()
    }

    fn name(&self) -> (name: &'static str)
        ensures
            call_ensures(T::name, (&**self,), name),
    {
        (**self).name()
    }
}

/// What became of a forwarded packet at one transport.
#[derive(Debug)]
pub enum Delivery {
    /// The transport took the packet.
    Sent,
    /// The transport was not available and was passed over.
    Unavailable,
    /// The transport refused the packet, with its reason.
    Failed(String),
}

/// What the router did with a packet.
#[derive(Debug)]
pub enum RouteOutcome {
    /// The packet was seen before and dropped.
    Duplicate,
    /// The packet is new and has no hops left: it stays here.
    Delivered,
    /// The packet is new and was offered to every transport with one hop
    /// fewer; the list says, transport by transport, what became of it.
    Forwarded { deliveries: Vec<Delivery> },
}

impl RouteOutcome {
    /// Whether the packet was new, so that it is to be kept.
    pub open spec fn novel(&self) -> bool {
        !(self is Duplicate)
    }

    /// Whether the packet was new, so that it is to be kept.
    pub fn is_novel(&self) -> (novel: bool)
        ensures
            novel == self.novel(),
    {
        match self {
            RouteOutcome::Duplicate => false,
            _ => true,
        }
    }
}

/// The ids of the packets that a router has seen, each once.
pub struct SeenSet {
    ids: Vec<[u8; 32]>,
}

impl SeenSet {
    #[verifier::type_invariant]
    spec fn well_formed(&self) -> bool {
        forall|i: int, j: int|
            0 <= i < self.ids@.len() && 0 <= j < self.ids@.len() && i != j ==> self.ids@[i]@
                != self.ids@[j]@
    }

    /// The ids as a set.
    pub closed spec fn view(&self) -> Set<Seq<u8>> {
        Set::new(
            |id: Seq<u8>|
                exists|i: int| 0 <= i < self.ids@.len() && #[trigger] self.ids@[i]@ == id,
        )
    }

    /// A set without ids.
    pub fn new() -> (seen: Self)
        ensures
            seen@ == Set::<Seq<u8>>::empty(),
    {
        let seen = SeenSet { ids: Vec::new() };
        seen
    }

    /// Whether the id is in the set.
    pub fn contains(&self, id: &[u8; 32]) -> (found: bool)
        ensures
            found == self@.contains(id@),
    {
        let n = self.ids.len();
        let mut i: usize = 0;
        while i < n
            invariant
                n == self.ids@.len(),
                i <= n,
                forall|j: int| 0 <= j < i ==> self.ids@[j]@ != id@,
            decreases n - i,
        {
            if bytes_eq(self.ids[i].as_slice(), id.as_slice()) {
                return true;
            }
            i += 1;
        }
        false
    }

    /// Puts the id into the set; says whether it was new.
    pub fn insert(&mut self, id: [u8; 32]) -> (fresh: bool)
        ensures
            fresh == !old(self)@.contains(id@),
            final(self)@ == old(self)@.insert(id@),
    {
        proof {
            use_type_invariant(&*self);
        }
        if self.contains(&id) {
            return false;
        }
        let ghost before = self.ids@;
        let ghost before_set = self@;
        let mut ids: Vec<[u8; 32]> = Vec::new();
        core::mem::swap(&mut self.ids, &mut ids);
        ids.push(id);
        self.ids = ids;
        proof {
            assert forall|x: Seq<u8>| self@.contains(x) <==> before_set.insert(id@).contains(
                x,
            ) by {
                if before_set.contains(x) {
                    let i = choose|i: int| 0 <= i < before.len() && #[trigger] before[i]@ == x;
                    assert(self.ids@[i]@ == x);
                }
                if x == id@ {
                    assert(self.ids@[before.len() as int]@ == x);
                }
            }
        }
        true
    }
}

/// The ids that a router has seen after it routed packets with these ids,
/// one after another.
pub open spec fn seen_after(seen: Set<Seq<u8>>, packet_ids: Seq<Seq<u8>>) -> Set<Seq<u8>>
    decreases packet_ids.len(),
{
    if packet_ids.len() == 0 {
        seen
    } else {
        seen_after(seen, packet_ids.drop_last()).insert(packet_ids.last())
    }
}

/// A packet is new at most once: when a packet has been routed, its id
/// stays seen whatever is routed after it, so that every later packet with
/// that id is a duplicate.
pub proof fn lemma_routed_once(seen: Set<Seq<u8>>, packet_id: Seq<u8>, later: Seq<Seq<u8>>)
    ensures
        seen_after(seen.insert(packet_id), later).contains(packet_id),
    decreases later.len(),
{
    if later.len() > 0 {
        lemma_routed_once(seen, packet_id, later.drop_last());
    }
}

/// Forwards packets across a set of transports, each packet once.
pub struct Router<T: Transport> {
    transports: Vec<T>,
    seen: SeenSet,
}

impl<T: Transport> Router<T> {
    /// The ids of the packets seen so far.
    pub closed spec fn seen(&self) -> Set<Seq<u8>> {
        self.seen@
    }

    /// The transports, in the order in which packets are offered to them.
    pub closed spec fn transports(&self) -> Seq<T> {
        self.transports@
    }

    /// A router over the transports that has seen no packet yet.
    pub fn new(transports: Vec<T>) -> (router: Self)
        ensures
            router.transports() == transports@,
            router.seen() == Set::<Seq<u8>>::empty(),
    {
        Router { transports, seen: SeenSet::new() }
    }

    /// A random id for a packet that starts here.
    pub fn generate_packet_id() -> [u8; 32] {
        random_bytes32()
    }

    /// Routes a packet.
    ///
    /// A packet whose id was seen before is dropped and nothing changes.
    /// A new packet is remembered; the caller is to keep it. With no hops
    /// left it goes no further. Otherwise it is offered, with one hop fewer,
    /// to each transport that is available, in order; a transport that
    /// refuses it does not stop the others.
    pub fn route(&mut self, packet: Packet) -> (outcome: RouteOutcome)
        ensures
            final(self).seen() == old(self).seen().insert(packet@.packet_id),
            final(self).transports().len() == old(self).transports().len(),
            outcome is Duplicate <==> old(self).seen().contains(packet@.packet_id),
            outcome is Delivered <==> !old(self).seen().contains(packet@.packet_id) && packet.ttl
                == 0,
            !(outcome is Forwarded) ==> final(self).transports() == old(self).transports(),
            outcome matches RouteOutcome::Forwarded { deliveries } ==> {
                &&& deliveries@.len() == old(self).transports().len()
                &&& forall|i: int|
                    0 <= i < deliveries@.len() ==> delivered(
                        old(self).transports()[i],
                        final(self).transports()[i],
                        #[trigger] deliveries@[i],
                        forwarded(packet@),
                    )
            },
    {
        if !self.seen.insert(packet.packet_id) {
            return RouteOutcome::Duplicate;
        }
        if packet.ttl == 0 {
            return RouteOutcome::Delivered;
        }
        let onward = Packet {
            packet_id: packet.packet_id,
            channel_id: packet.channel_id,
            ttl: packet.ttl - 1,
            payload: packet.payload,
        };
        let mut deliveries: Vec<Delivery> = Vec::new();
        let n = self.transports.len();
        let mut i: usize = 0;
        while i < n
            invariant
                n == self.transports@.len(),
                n == old(self).transports@.len(),
                i <= n,
                self.seen@ == old(self).seen@.insert(packet@.packet_id),
                packet.ttl > 0,
                onward@ == forwarded(packet@),
                deliveries@.len() == i,
                forall|j: int|
                    0 <= j < i ==> delivered(
                        old(self).transports@[j],
                        self.transports@[j],
                        #[trigger] deliveries@[j],
                        onward@,
                    ),
                forall|j: int| i <= j < n ==> self.transports@[j] == old(self).transports@[j],
            decreases n - i,
        {
            if self.transports[i].is_available() {
                let sent = self.transports[i].send(&onward);
                match sent {
                    Ok(()) => {
                        assert(sent->Ok_0 == ());
                        deliveries.push(Delivery::Sent);
                    },
                    Err(reason) => deliveries.push(Delivery::Failed(reason)),
                }
            } else {
                deliveries.push(Delivery::Unavailable);
            }
            i += 1;
        }
        RouteOutcome::Forwarded { deliveries }
    }
}

/// What one delivery says of a transport before and after it was offered a
/// packet: one that was passed over is unchanged; the record of one that
/// took or refused the packet changed as [`took`] says, and the outcome is
/// one that the transport's own `send` promises.
pub open spec fn delivered<T: Transport>(
    before: T,
    after: T,
    delivery: Delivery,
    packet: PacketView,
) -> bool {
    match delivery {
        Delivery::Sent => {
            &&& took(before.outbox(), after.outbox(), packet, true)
            &&& before.sends(packet, Ok(()), after.outbox())
        },
        Delivery::Unavailable => after == before,
        Delivery::Failed(reason) => {
            &&& took(before.outbox(), after.outbox(), packet, false)
            &&& before.sends(packet, Err(reason), after.outbox())
        },
    }
}

impl Router<LoopbackTransport> {
    /// A router over a single loopback transport.
    pub fn with_loopback() -> (router: Self)
        ensures
            router.seen() == Set::<Seq<u8>>::empty(),
            router.transports().len() == 1,
            router.transports()[0].held() == Seq::<PacketView>::empty(),
    {
        let mut transports: Vec<LoopbackTransport> = Vec::new();
        transports.push(LoopbackTransport::new());
        Router::new(transports)
    }

    /// Takes out the packets that the loopback transport at `index` holds,
    /// oldest first; none where there is no such transport.
    pub fn drain(&mut self, index: usize) -> (packets: Vec<Packet>)
        ensures
            final(self).seen() == old(self).seen(),
            final(self).transports().len() == old(self).transports().len(),
            index < old(self).transports().len() ==> {
                &&& packets@.map_values(|p: Packet| p@)
                    == old(self).transports()[index as int].held()
                &&& final(self).transports()[index as int].held() == Seq::<PacketView>::empty()
            },
            index >= old(self).transports().len() ==> packets@.len() == 0,
            index >= old(self).transports().len() ==> final(self).transports()
                == old(self).transports(),
            forall|i: int|
                0 <= i < old(self).transports().len() && i != index ==> final(self).transports()[i]
                    == old(self).transports()[i],
    {
        if index < self.transports.len() {
            self.transports[index].drain()
        } else {
            Vec::new()
        }
    }
}

} // verus!
