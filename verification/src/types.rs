//! Plain data carried through the responder: names, addresses, questions,
//! resource records and outgoing packets, with their mathematical views.

use vstd::prelude::*;

verus! {

/// The UDP port multicast DNS uses.
pub const MDNS_PORT: u16 = 5353;

/// Time-to-live given to records in answers to queries.
pub const DEFAULT_TTL: u32 = 60;

/// Capacity of the receive buffer; a datagram at or above this size is
/// rejected as a capacity violation.
pub const RECV_BUF_SIZE: usize = 4096;

/// A DNS name, held as its textual bytes. The responder only ever compares
/// names for equality and copies them into records.
#[derive(Clone, Debug)]
pub struct Name {
    pub bytes: Vec<u8>,
}

impl View for Name {
    type V = Seq<u8>;

    open spec fn view(&self) -> Seq<u8> {
        self.bytes@
    }
}

impl Name {
    /// Wrap the given bytes as a name.
    pub fn new(bytes: Vec<u8>) -> (r: Name)
        ensures
            r@ == bytes@,
    {
        Name { bytes }
    }

    /// An owned copy of this name.
    pub fn duplicate(&self) -> (r: Name)
        ensures
            r@ == self@,
    {
        Name { bytes: dup_bytes(&self.bytes) }
    }
}

/// An owned copy of a byte vector.
pub fn dup_bytes(v: &Vec<u8>) -> (r: Vec<u8>)
    ensures
        r@ == v@,
{
    let mut out: Vec<u8> = Vec::new();
    let mut i: usize = 0;
    while i < v.len()
        invariant
            i <= v@.len(),
            out@ == v@.subrange(0, i as int),
        decreases v@.len() - i,
    {
        out.push(v[i]);
        assert(out@ =~= v@.subrange(0, i + 1 as int));
        i = i + 1;
    }
    assert(out@ =~= v@);
    out
}

/// Whether two names hold the same bytes.
pub fn names_equal(a: &Name, b: &Name) -> (r: bool)
    ensures
        r == (a@ == b@),
{
    if a.bytes.len() != b.bytes.len() {
        return false;
    }
    let mut i: usize = 0;
    while i < a.bytes.len()
        invariant
            i <= a@.len(),
            a@.len() == b@.len(),
            forall|j: int| 0 <= j < i ==> a@[j] == b@[j],
        decreases a@.len() - i,
    {
        if a.bytes[i] != b.bytes[i] {
            return false;
        }
        i = i + 1;
    }
    assert(a@ =~= b@);
    true
}

/// An IP address of either family, as plain integers.
#[derive(Clone, Copy, Debug, PartialEq, Eq, Structural)]
pub enum IpAddress {
    V4(u32),
    V6(u128),
}

/// A socket address: an IP address and a UDP port.
#[derive(Clone, Copy, Debug, PartialEq, Eq, Structural)]
pub struct SocketAddress {
    pub ip: IpAddress,
    pub port: u16,
}

/// Which address family one responder instance serves. It decides the
/// multicast group and which kind of address record is emitted.
#[derive(Clone, Copy, Debug, PartialEq, Eq, Structural)]
pub enum AddressFamily {
    V4,
    V6,
}

impl AddressFamily {
    /// The multicast group this family's responder sends to.
    pub open spec fn group_spec(self) -> IpAddress {
        match self {
            AddressFamily::V4 => IpAddress::V4(0xE00000FBu32),
            AddressFamily::V6 => IpAddress::V6(0xFF0200000000000000000000000000FBu128),
        }
    }

    /// The multicast group address of this family (224.0.0.251 or ff02::fb).
    pub fn mdns_group(&self) -> (r: IpAddress)
        ensures
            r == self.group_spec(),
    {
        match self {
            AddressFamily::V4 => IpAddress::V4(0xE00000FBu32),
            AddressFamily::V6 => IpAddress::V6(0xFF0200000000000000000000000000FBu128),
        }
    }

    /// Whether this is the IPv6 family.
    pub fn v6(&self) -> (r: bool)
        ensures
            r == (*self is V6),
    {
        match self {
            AddressFamily::V4 => false,
            AddressFamily::V6 => true,
        }
    }

    /// The group socket address: the group on the mDNS port.
    pub open spec fn group_addr_spec(self) -> SocketAddress {
        SocketAddress { ip: self.group_spec(), port: MDNS_PORT }
    }
}

/// A local network interface as the responder reads it: its address and
/// whether it is a loopback interface.
#[derive(Clone, Copy, Debug, PartialEq, Eq, Structural)]
pub struct NetInterface {
    pub loopback: bool,
    pub addr: IpAddress,
}

/// The class of a question; the responder answers only Internet-class
/// (or any-class) questions.
#[derive(Clone, Copy, Debug, PartialEq, Eq, Structural)]
pub enum QueryClass {
    IN,
    Any,
    Other,
}

/// The type a question asks for; kinds the responder does not serve fall
/// under `Other`.
#[derive(Clone, Copy, Debug, PartialEq, Eq, Structural)]
pub enum QueryType {
    A,
    AAAA,
    All,
    PTR,
    SRV,
    TXT,
    Other,
}

/// One parsed question of an inbound query.
#[derive(Debug)]
pub struct Question {
    pub qname: Name,
    pub qclass: QueryClass,
    pub qtype: QueryType,
    /// The unicast-response bit: set when the sender prefers a direct reply.
    pub qu: bool,
}

/// View of a question, with the name as a byte sequence.
pub struct QuestionV {
    pub qname: Seq<u8>,
    pub qclass: QueryClass,
    pub qtype: QueryType,
    pub qu: bool,
}

impl View for Question {
    type V = QuestionV;

    open spec fn view(&self) -> QuestionV {
        QuestionV { qname: self.qname@, qclass: self.qclass, qtype: self.qtype, qu: self.qu }
    }
}

/// The payload of a resource record.
#[derive(Debug)]
pub enum RecordData {
    /// Points a service type at a service instance name.
    Ptr { instance: Name },
    /// Locates a service: the host it runs on and its port.
    Srv { target: Name, port: u16 },
    /// Free-form metadata bytes.
    Txt { data: Vec<u8> },
    /// An IPv4 address record.
    A { addr: u32 },
    /// An IPv6 address record.
    Aaaa { addr: u128 },
}

/// View of a record payload.
pub enum RecordDataV {
    Ptr { instance: Seq<u8> },
    Srv { target: Seq<u8>, port: u16 },
    Txt { data: Seq<u8> },
    A { addr: u32 },
    Aaaa { addr: u128 },
}

impl View for RecordData {
    type V = RecordDataV;

    open spec fn view(&self) -> RecordDataV {
        match self {
            RecordData::Ptr { instance } => RecordDataV::Ptr { instance: instance@ },
            RecordData::Srv { target, port } => RecordDataV::Srv { target: target@, port: *port },
            RecordData::Txt { data } => RecordDataV::Txt { data: data@ },
            RecordData::A { addr } => RecordDataV::A { addr: *addr },
            RecordData::Aaaa { addr } => RecordDataV::Aaaa { addr: *addr },
        }
    }
}

/// One resource record of an answer section.
#[derive(Debug)]
pub struct Record {
    pub name: Name,
    pub class: QueryClass,
    pub ttl: u32,
    pub data: RecordData,
}

/// View of a resource record.
pub struct RecordV {
    pub name: Seq<u8>,
    pub class: QueryClass,
    pub ttl: u32,
    pub data: RecordDataV,
}

impl View for Record {
    type V = RecordV;

    open spec fn view(&self) -> RecordV {
        RecordV { name: self.name@, class: self.class, ttl: self.ttl, data: self.data@ }
    }
}

/// The view of a sequence of records.
pub open spec fn recs_view(v: Seq<Record>) -> Seq<RecordV> {
    v.map_values(|r: Record| r@)
}

/// A DNS response message in structural form. The response bit is always
/// set and the truncated bit never; direct replies reuse the query id and
/// unsolicited announcements use id zero. Responses carry no questions.
#[derive(Debug)]
pub struct DnsResponse {
    pub id: u16,
    pub authoritative: bool,
    pub answers: Vec<Record>,
}

/// View of a response message.
pub struct MessageV {
    pub id: u16,
    pub authoritative: bool,
    pub answers: Seq<RecordV>,
}

impl View for DnsResponse {
    type V = MessageV;

    open spec fn view(&self) -> MessageV {
        MessageV { id: self.id, authoritative: self.authoritative, answers: recs_view(self.answers@) }
    }
}

/// A serialized-to-be response and where to send it. Immutable once
/// enqueued; owned by the outbound queue until retired.
#[derive(Debug)]
pub struct OutgoingPacket {
    pub msg: DnsResponse,
    pub dest: SocketAddress,
}

/// View of an outgoing packet.
pub struct PacketV {
    pub msg: MessageV,
    pub dest: SocketAddress,
}

impl View for OutgoingPacket {
    type V = PacketV;

    open spec fn view(&self) -> PacketV {
        PacketV { msg: self.msg@, dest: self.dest }
    }
}

/// The view of a sequence of outgoing packets.
pub open spec fn pkts_view(v: Seq<OutgoingPacket>) -> Seq<PacketV> {
    v.map_values(|p: OutgoingPacket| p@)
}

/// An inbound message after parsing, reduced to what the responder reads.
#[derive(Debug)]
pub struct InboundMessage {
    pub id: u16,
    /// True when the header marks the message as a query.
    pub query: bool,
    /// True when the header marks the message as truncated.
    pub truncated: bool,
    pub questions: Vec<Question>,
}

/// View of an inbound message.
pub struct InboundMessageV {
    pub id: u16,
    pub query: bool,
    pub truncated: bool,
    pub questions: Seq<QuestionV>,
}

impl View for InboundMessage {
    type V = InboundMessageV;

    open spec fn view(&self) -> InboundMessageV {
        InboundMessageV {
            id: self.id,
            query: self.query,
            truncated: self.truncated,
            questions: self.questions@.map_values(|q: Question| q@),
        }
    }
}

/// What became of one received datagram at the parsing boundary.
#[derive(Debug)]
pub enum DatagramEvent {
    /// The bytes did not parse as a DNS message.
    Malformed,
    /// A well-formed DNS message.
    Parsed(InboundMessage),
}

/// View of a datagram event.
pub enum DatagramEventV {
    Malformed,
    Parsed(InboundMessageV),
}

impl View for DatagramEvent {
    type V = DatagramEventV;

    open spec fn view(&self) -> DatagramEventV {
        match self {
            DatagramEvent::Malformed => DatagramEventV::Malformed,
            DatagramEvent::Parsed(m) => DatagramEventV::Parsed(m@),
        }
    }
}

/// Errors ingestion surfaces to the driver.
#[derive(Clone, Copy, Debug, PartialEq, Eq, Structural)]
pub enum Error {
    /// A datagram's reported length reached the receive buffer's capacity.
    BufferTooSmall { bytes: usize, size: usize },
}

} // verus!
