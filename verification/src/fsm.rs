//! The responder core: question dispatch, packet handling, unsolicited
//! announcements, command handling and the outbound queue.
//!
//! The driver around this core runs one poll step per wake-up: drain the
//! command channel (`handle_command` per command), drain and ingest inbound
//! datagrams (`ingest` per datagram), then drain the outbound queue
//! (`front_packet`, `outbound_should_stop`, `finish_send_phase`). The socket,
//! the channel and the wire codec are the driver's collaborators; this module
//! decides everything else.

use vstd::prelude::*;

use crate::builder::AnswerBuilder;
use crate::registry::{
    RegistryV, ServiceData, ServiceV, Services, find_name, ptr_record_v, srv_record_v,
    txt_record_v,
};
use crate::types::{
    AddressFamily, DatagramEvent, DatagramEventV, Error, IpAddress, MessageV, Name, NetInterface,
    OutgoingPacket, PacketV, Question, QuestionV, QueryClass, QueryType, RecordData,
    RecordDataV, RecordV, SocketAddress, DEFAULT_TTL, MDNS_PORT, RECV_BUF_SIZE, names_equal,
    pkts_view,
};

verus! {

/// An external request to the responder, consumed exactly once.
#[derive(Clone, Debug)]
pub enum Command {
    /// Announce a service without a preceding query.
    SendUnsolicited { svc: ServiceData, ttl: u32, include_ip: bool },
    /// Terminate the responder.
    Shutdown,
}

/// What one non-blocking send attempt reported.
#[derive(Clone, Copy, Debug, PartialEq, Eq, Structural)]
pub enum SendOutcome {
    /// The socket accepted this many bytes.
    Sent { bytes: usize },
    /// The send would have blocked.
    WouldBlock,
    /// The send failed with some other transport error.
    Failed,
    /// The socket was not ready for writing.
    NotReady,
}

/// The address records one interface contributes: nothing for a loopback
/// interface or a family mismatch, else one A or AAAA record for the
/// hostname.
pub open spec fn iface_records_v(
    hostname: Seq<u8>,
    af: AddressFamily,
    ttl: u32,
    nif: NetInterface,
) -> Seq<RecordV> {
    if nif.loopback {
        Seq::empty()
    } else {
        match nif.addr {
            IpAddress::V4(a) => if af is V4 {
                seq![
                    (RecordV {
                        name: hostname,
                        class: QueryClass::IN,
                        ttl: ttl,
                        data: RecordDataV::A { addr: a },
                    }),
                ]
            } else {
                Seq::empty()
            },
            IpAddress::V6(a) => if af is V6 {
                seq![
                    (RecordV {
                        name: hostname,
                        class: QueryClass::IN,
                        ttl: ttl,
                        data: RecordDataV::Aaaa { addr: a },
                    }),
                ]
            } else {
                Seq::empty()
            },
        }
    }
}

/// The address records of the first `n` interfaces, in interface order.
pub open spec fn ip_records_upto(
    hostname: Seq<u8>,
    af: AddressFamily,
    ttl: u32,
    ifs: Seq<NetInterface>,
    n: int,
) -> Seq<RecordV>
    decreases n,
{
    if n <= 0 {
        Seq::empty()
    } else {
        ip_records_upto(hostname, af, ttl, ifs, n - 1) + iface_records_v(
            hostname,
            af,
            ttl,
            ifs[n - 1],
        )
    }
}

/// The address records for the hostname over all given interfaces.
pub open spec fn ip_records_v(
    hostname: Seq<u8>,
    af: AddressFamily,
    ttl: u32,
    ifs: Seq<NetInterface>,
) -> Seq<RecordV> {
    ip_records_upto(hostname, af, ttl, ifs, ifs.len() as int)
}

/// The record group one service contributes to a PTR answer: PTR, then SRV,
/// then TXT, then the hostname's address records.
pub open spec fn service_group_v(
    svc: ServiceV,
    hostname: Seq<u8>,
    af: AddressFamily,
    ttl: u32,
    ifs: Seq<NetInterface>,
) -> Seq<RecordV> {
    seq![
        ptr_record_v(svc, ttl),
        srv_record_v(svc, hostname, ttl),
        txt_record_v(svc, ttl),
    ] + ip_records_v(hostname, af, ttl, ifs)
}

/// The PTR-answer records contributed by the first `n` services: one group
/// per service registered under the queried type, in registration order.
pub open spec fn ptr_answers_upto(
    svcs: Seq<ServiceV>,
    qname: Seq<u8>,
    hostname: Seq<u8>,
    af: AddressFamily,
    ttl: u32,
    ifs: Seq<NetInterface>,
    n: int,
) -> Seq<RecordV>
    decreases n,
{
    if n <= 0 {
        Seq::empty()
    } else {
        ptr_answers_upto(svcs, qname, hostname, af, ttl, ifs, n - 1) + if svcs[n - 1].typ
            == qname {
            service_group_v(svcs[n - 1], hostname, af, ttl, ifs)
        } else {
            Seq::empty()
        }
    }
}

/// The records one question is answered with, per the dispatch rule:
/// address queries for the hostname get its address records; PTR queries get
/// one PTR-SRV-TXT-addresses group per service of the queried type; SRV and
/// TXT queries for a registered instance get that instance's record (SRV
/// followed by addresses); anything else gets nothing.
pub open spec fn question_records_v(
    reg: RegistryV,
    af: AddressFamily,
    q: QuestionV,
    ifs: Seq<NetInterface>,
    ttl: u32,
) -> Seq<RecordV> {
    match q.qtype {
        QueryType::A | QueryType::AAAA | QueryType::All => if q.qname == reg.hostname {
            ip_records_v(reg.hostname, af, ttl, ifs)
        } else {
            Seq::empty()
        },
        QueryType::PTR => ptr_answers_upto(
            reg.services,
            q.qname,
            reg.hostname,
            af,
            ttl,
            ifs,
            reg.services.len() as int,
        ),
        QueryType::SRV => match find_name(reg.services, q.qname) {
            Some(i) => seq![srv_record_v(reg.services[i], reg.hostname, ttl)] + ip_records_v(
                reg.hostname,
                af,
                ttl,
                ifs,
            ),
            None => Seq::empty(),
        },
        QueryType::TXT => match find_name(reg.services, q.qname) {
            Some(i) => seq![txt_record_v(reg.services[i], ttl)],
            None => Seq::empty(),
        },
        QueryType::Other => Seq::empty(),
    }
}

/// Whether a question is eligible for an answer at all: Internet or
/// any-class.
pub open spec fn eligible_class(q: QuestionV) -> bool {
    q.qclass is IN || q.qclass is Any
}

/// The answers accumulated from the first `n` questions into one routing
/// path: the unicast path when `unicast` (questions with the `qu` bit set),
/// else the multicast path.
pub open spec fn routed_answers_upto(
    reg: RegistryV,
    af: AddressFamily,
    qs: Seq<QuestionV>,
    ifs: Seq<NetInterface>,
    unicast: bool,
    n: int,
) -> Seq<RecordV>
    decreases n,
{
    if n <= 0 {
        Seq::empty()
    } else {
        routed_answers_upto(reg, af, qs, ifs, unicast, n - 1) + if eligible_class(qs[n - 1])
            && qs[n - 1].qu == unicast {
            question_records_v(reg, af, qs[n - 1], ifs, DEFAULT_TTL)
        } else {
            Seq::empty()
        }
    }
}

/// The answers a whole message contributes to one routing path.
pub open spec fn routed_answers(
    reg: RegistryV,
    af: AddressFamily,
    qs: Seq<QuestionV>,
    ifs: Seq<NetInterface>,
    unicast: bool,
) -> Seq<RecordV> {
    routed_answers_upto(reg, af, qs, ifs, unicast, qs.len() as int)
}

/// The packets one datagram produces: none for a malformed message, a
/// non-query or a truncated query; else at most one multicast-addressed
/// packet (first) and at most one unicast-addressed packet back to the
/// sender, each present exactly when its answer set is non-empty, both
/// reusing the query's id.
pub open spec fn datagram_packets_v(
    reg: RegistryV,
    af: AddressFamily,
    ev: DatagramEventV,
    src: SocketAddress,
    ifs: Seq<NetInterface>,
) -> Seq<PacketV> {
    match ev {
        DatagramEventV::Malformed => Seq::empty(),
        DatagramEventV::Parsed(m) => {
            if !m.query || m.truncated {
                Seq::empty()
            } else {
                let mrecs = routed_answers(reg, af, m.questions, ifs, false);
                let urecs = routed_answers(reg, af, m.questions, ifs, true);
                let mpart: Seq<PacketV> = if mrecs.len() > 0 {
                    seq![
                        (PacketV {
                            msg: MessageV { id: m.id, authoritative: true, answers: mrecs },
                            dest: af.group_addr_spec(),
                        }),
                    ]
                } else {
                    Seq::empty()
                };
                let upart: Seq<PacketV> = if urecs.len() > 0 {
                    seq![
                        (PacketV {
                            msg: MessageV { id: m.id, authoritative: true, answers: urecs },
                            dest: src,
                        }),
                    ]
                } else {
                    Seq::empty()
                };
                mpart + upart
            }
        },
    }
}

/// The records of an unsolicited announcement for one service: PTR, SRV and
/// TXT with the requested time-to-live, and the hostname's address records
/// when `include_ip` is set.
pub open spec fn unsolicited_records_v(
    svc: ServiceV,
    hostname: Seq<u8>,
    af: AddressFamily,
    ttl: u32,
    include_ip: bool,
    ifs: Seq<NetInterface>,
) -> Seq<RecordV> {
    seq![
        ptr_record_v(svc, ttl),
        srv_record_v(svc, hostname, ttl),
        txt_record_v(svc, ttl),
    ] + if include_ip {
        ip_records_v(hostname, af, ttl, ifs)
    } else {
        Seq::empty()
    }
}

/// The packets an unsolicited announcement enqueues: one multicast-addressed
/// packet with id zero when the build is non-empty, else nothing.
pub open spec fn unsolicited_packets_v(
    reg: RegistryV,
    af: AddressFamily,
    svc: ServiceV,
    ttl: u32,
    include_ip: bool,
    ifs: Seq<NetInterface>,
) -> Seq<PacketV> {
    let recs = unsolicited_records_v(svc, reg.hostname, af, ttl, include_ip, ifs);
    if recs.len() > 0 {
        seq![
            (PacketV {
                msg: MessageV { id: 0, authoritative: true, answers: recs },
                dest: af.group_addr_spec(),
            }),
        ]
    } else {
        Seq::empty()
    }
}

/// Whether the drain of the outbound queue stops after one send attempt:
/// after a full send, when the send would block, or when the socket is not
/// ready; a partial send or another transport error keeps draining.
pub open spec fn outbound_stop_spec(outcome: SendOutcome, packet_len: usize) -> bool {
    match outcome {
        SendOutcome::Sent { bytes } => bytes == packet_len,
        SendOutcome::WouldBlock => true,
        SendOutcome::Failed => false,
        SendOutcome::NotReady => true,
    }
}

/// Relies on get_if_addrs::get_if_addrs: lists this machine's network
/// interfaces with their addresses and loopback flags. Which interfaces come
/// back depends on the machine, so nothing is promised of the result.
#[verifier::external_body]
fn net_interfaces() -> (r: Result<Vec<NetInterface>, ()>) {
    match get_if_addrs::get_if_addrs() {
        Ok(list) => Ok(
            list.into_iter().map(
                |iface| NetInterface {
                    loopback: iface.is_loopback(),
                    addr: match iface.addr {
                        get_if_addrs::IfAddr::V4(ref a) => IpAddress::V4(u32::from(a.ip)),
                        get_if_addrs::IfAddr::V6(ref a) => IpAddress::V6(u128::from(a.ip)),
                    },
                },
            ).collect(),
        ),
        Err(_) => Err(()),
    }
}

/// One per-address-family responder: the registry it reads, the family
/// policy it was constructed with, and the outbound FIFO of packets awaiting
/// transmission.
#[derive(Debug)]
pub struct FSM {
    pub family: AddressFamily,
    pub services: Services,
    pub outgoing: Vec<OutgoingPacket>,
}

impl FSM {
    /// A responder for one address family over the given registry, with an
    /// empty outbound queue.
    pub fn new(services: Services, family: AddressFamily) -> (r: FSM)
        ensures
            r.family == family,
            r.services@ == services@,
            r.outgoing@ == Seq::<OutgoingPacket>::empty(),
    {
        let fsm = FSM { family, services, outgoing: Vec::new() };
        proof {
            assert(fsm.outgoing@ =~= Seq::<OutgoingPacket>::empty());
        }
        fsm
    }

    /// How many packets await transmission.
    pub fn outgoing_len(&self) -> (r: usize)
        ensures
            r == self.outgoing@.len(),
    {
        self.outgoing.len()
    }

    /// Append the hostname's address records for every non-loopback
    /// interface of this responder's family.
    pub fn add_ip_rr(
        &self,
        hostname: &Name,
        builder: AnswerBuilder,
        ttl: u32,
        ifs: &Vec<NetInterface>,
    ) -> (r: AnswerBuilder)
        ensures
            r@.id == builder@.id,
            r@.authoritative == builder@.authoritative,
            r@.answers == builder@.answers + ip_records_v(hostname@, self.family, ttl, ifs@),
    {
        let mut b = builder;
        let mut i: usize = 0;
        proof {
            assert(b@.answers =~= b@.answers + ip_records_upto(hostname@, self.family, ttl, ifs@, 0));
        }
        while i < ifs.len()
            invariant
                i <= ifs@.len(),
                b@.id == builder@.id,
                b@.authoritative == builder@.authoritative,
                b@.answers == builder@.answers + ip_records_upto(
                    hostname@,
                    self.family,
                    ttl,
                    ifs@,
                    i as int,
                ),
            decreases ifs@.len() - i,
        {
            let nif = ifs[i];
            if !nif.loopback {
                match nif.addr {
                    IpAddress::V4(a) => {
                        if !self.family.v6() {
                            b = b.add_answer(
                                hostname.duplicate(),
                                QueryClass::IN,
                                ttl,
                                RecordData::A { addr: a },
                            );
                        }
                    },
                    IpAddress::V6(a) => {
                        if self.family.v6() {
                            b = b.add_answer(
                                hostname.duplicate(),
                                QueryClass::IN,
                                ttl,
                                RecordData::Aaaa { addr: a },
                            );
                        }
                    },
                }
            }
            proof {
                assert(b@.answers =~= builder@.answers + ip_records_upto(
                    hostname@,
                    self.family,
                    ttl,
                    ifs@,
                    i + 1,
                ));
            }
            i = i + 1;
        }
        b
    }

    /// Dispatch one question: append the records it is answered with to the
    /// response in progress and hand the response back.
    pub fn handle_question(
        &self,
        question: &Question,
        builder: AnswerBuilder,
        ifs: &Vec<NetInterface>,
    ) -> (r: AnswerBuilder)
        ensures
            r@.id == builder@.id,
            r@.authoritative == builder@.authoritative,
            r@.answers == builder@.answers + question_records_v(
                self.services@,
                self.family,
                question@,
                ifs@,
                DEFAULT_TTL,
            ),
    {
        let mut b = builder;
        match question.qtype {
            QueryType::A | QueryType::AAAA | QueryType::All => {
                if names_equal(&question.qname, self.services.get_hostname()) {
                    b = self.add_ip_rr(self.services.get_hostname(), b, DEFAULT_TTL, ifs);
                } else {
                    proof {
                        assert(b@.answers =~= builder@.answers + Seq::<RecordV>::empty());
                    }
                }
            },
            QueryType::PTR => {
                let ghost svcs = self.services@.services;
                let mut i: usize = 0;
                proof {
                    assert(b@.answers =~= builder@.answers + ptr_answers_upto(
                        svcs,
                        question@.qname,
                        self.services@.hostname,
                        self.family,
                        DEFAULT_TTL,
                        ifs@,
                        0,
                    ));
                }
                while i < self.services.services.len()
                    invariant
                        i <= svcs.len(),
                        svcs == self.services@.services,
                        b@.id == builder@.id,
                        b@.authoritative == builder@.authoritative,
                        b@.answers == builder@.answers + ptr_answers_upto(
                            svcs,
                            question@.qname,
                            self.services@.hostname,
                            self.family,
                            DEFAULT_TTL,
                            ifs@,
                            i as int,
                        ),
                    decreases svcs.len() - i,
                {
                    let svc = &self.services.services[i];
                    assert(svc@ == svcs[i as int]);
                    if names_equal(&svc.typ, &question.qname) {
                        b = svc.add_ptr_rr(b, DEFAULT_TTL);
                        b = svc.add_srv_rr(self.services.get_hostname(), b, DEFAULT_TTL);
                        b = svc.add_txt_rr(b, DEFAULT_TTL);
                        b = self.add_ip_rr(self.services.get_hostname(), b, DEFAULT_TTL, ifs);
                    }
                    proof {
                        assert(b@.answers =~= builder@.answers + ptr_answers_upto(
                            svcs,
                            question@.qname,
                            self.services@.hostname,
                            self.family,
                            DEFAULT_TTL,
                            ifs@,
                            i + 1,
                        ));
                    }
                    i = i + 1;
                }
            },
            QueryType::SRV => {
                match self.services.find_by_name(&question.qname) {
                    Some(idx) => {
                        let svc = &self.services.services[idx];
                        assert(svc@ == self.services@.services[idx as int]);
                        b = svc.add_srv_rr(self.services.get_hostname(), b, DEFAULT_TTL);
                        b = self.add_ip_rr(self.services.get_hostname(), b, DEFAULT_TTL, ifs);
                        proof {
                            assert(b@.answers =~= builder@.answers + question_records_v(
                                self.services@,
                                self.family,
                                question@,
                                ifs@,
                                DEFAULT_TTL,
                            ));
                        }
                    },
                    None => {
                        proof {
                            assert(b@.answers =~= builder@.answers + Seq::<RecordV>::empty());
                        }
                    },
                }
            },
            QueryType::TXT => {
                match self.services.find_by_name(&question.qname) {
                    Some(idx) => {
                        let svc = &self.services.services[idx];
                        assert(svc@ == self.services@.services[idx as int]);
                        b = svc.add_txt_rr(b, DEFAULT_TTL);
                        proof {
                            assert(b@.answers =~= builder@.answers + question_records_v(
                                self.services@,
                                self.family,
                                question@,
                                ifs@,
                                DEFAULT_TTL,
                            ));
                        }
                    },
                    None => {
                        proof {
                            assert(b@.answers =~= builder@.answers + Seq::<RecordV>::empty());
                        }
                    },
                }
            },
            QueryType::Other => {
                proof {
                    assert(b@.answers =~= builder@.answers + Seq::<RecordV>::empty());
                }
            },
        }
        b
    }

    /// Process one datagram event against the registry with the given
    /// interface list: ignore anything but an untruncated query, route each
    /// Internet-class question by its `qu` bit, and enqueue the non-empty
    /// builds (multicast to the group, unicast back to the sender).
    pub fn handle_packet(
        &mut self,
        event: &DatagramEvent,
        src: SocketAddress,
        ifs: &Vec<NetInterface>,
    )
        ensures
            final(self).family == old(self).family,
            final(self).services@ == old(self).services@,
            pkts_view(final(self).outgoing@) == pkts_view(old(self).outgoing@)
                + datagram_packets_v(
                old(self).services@,
                old(self).family,
                event@,
                src,
                ifs@,
            ),
    {
        match event {
            DatagramEvent::Malformed => {
                proof {
                    assert(pkts_view(self.outgoing@) =~= pkts_view(self.outgoing@)
                        + Seq::<PacketV>::empty());
                }
            },
            DatagramEvent::Parsed(msg) => {
                if !msg.query || msg.truncated {
                    proof {
                        assert(pkts_view(self.outgoing@) =~= pkts_view(self.outgoing@)
                            + Seq::<PacketV>::empty());
                    }
                    return ;
                }
                let ghost reg = self.services@;
                let ghost af = self.family;
                let ghost qs = msg@.questions;
                let mut unicast_builder = AnswerBuilder::new_response(msg.id, true);
                let mut multicast_builder = AnswerBuilder::new_response(msg.id, true);
                let mut i: usize = 0;
                proof {
                    assert(multicast_builder@.answers =~= routed_answers_upto(
                        reg, af, qs, ifs@, false, 0));
                    assert(unicast_builder@.answers =~= routed_answers_upto(
                        reg, af, qs, ifs@, true, 0));
                }
                while i < msg.questions.len()
                    invariant
                        i <= qs.len(),
                        qs == msg@.questions,
                        reg == self.services@,
                        af == self.family,
                        multicast_builder@.id == msg.id,
                        multicast_builder@.authoritative == true,
                        unicast_builder@.id == msg.id,
                        unicast_builder@.authoritative == true,
                        multicast_builder@.answers == routed_answers_upto(
                            reg, af, qs, ifs@, false, i as int),
                        unicast_builder@.answers == routed_answers_upto(
                            reg, af, qs, ifs@, true, i as int),
                    decreases qs.len() - i,
                {
                    let question = &msg.questions[i];
                    assert(question@ == qs[i as int]);
                    if question.qclass == QueryClass::IN || question.qclass == QueryClass::Any {
                        if question.qu {
                            unicast_builder = self.handle_question(question, unicast_builder, ifs);
                        } else {
                            multicast_builder = self.handle_question(
                                question,
                                multicast_builder,
                                ifs,
                            );
                        }
                    }
                    proof {
                        assert(multicast_builder@.answers =~= routed_answers_upto(
                            reg, af, qs, ifs@, false, i + 1));
                        assert(unicast_builder@.answers =~= routed_answers_upto(
                            reg, af, qs, ifs@, true, i + 1));
                    }
                    i = i + 1;
                }
                let ghost mrecs = multicast_builder@.answers;
                let ghost urecs = unicast_builder@.answers;
                let ghost pkts_before = pkts_view(self.outgoing@);
                if !multicast_builder.is_empty() {
                    let response = multicast_builder.build();
                    let group = self.family.mdns_group();
                    self.outgoing.push(
                        OutgoingPacket {
                            msg: response,
                            dest: SocketAddress { ip: group, port: MDNS_PORT },
                        },
                    );
                }
                if !unicast_builder.is_empty() {
                    let response = unicast_builder.build();
                    self.outgoing.push(OutgoingPacket { msg: response, dest: src });
                }
                proof {
                    assert(pkts_view(self.outgoing@) =~= pkts_before + datagram_packets_v(
                        reg, af, event@, src, ifs@));
                }
            },
        }
    }

    /// Ingest one received datagram: a datagram whose reported length
    /// reaches the receive buffer's capacity is a capacity violation that
    /// enqueues nothing and aborts the batch; anything shorter is processed
    /// against the machine's interfaces as `handle_packet` says.
    pub fn ingest(&mut self, len: usize, event: &DatagramEvent, src: SocketAddress) -> (r: Result<
        (),
        Error,
    >)
        ensures
            final(self).family == old(self).family,
            final(self).services@ == old(self).services@,
            len >= RECV_BUF_SIZE ==> r == Err::<(), Error>(
                Error::BufferTooSmall { bytes: len, size: RECV_BUF_SIZE },
            ) && final(self).outgoing@ == old(self).outgoing@,
            len < RECV_BUF_SIZE ==> r == Ok::<(), Error>(()) && exists|ifs: Seq<NetInterface>|
                pkts_view(final(self).outgoing@) == pkts_view(old(self).outgoing@)
                    + datagram_packets_v(
                    old(self).services@,
                    old(self).family,
                    event@,
                    src,
                    ifs,
                ),
    {
        if len >= RECV_BUF_SIZE {
            return Err(Error::BufferTooSmall { bytes: len, size: RECV_BUF_SIZE });
        }
        let ifs = match net_interfaces() {
            Ok(list) => list,
            Err(_) => Vec::new(),
        };
        let ghost reg = self.services@;
        let ghost af = self.family;
        let ghost before = pkts_view(self.outgoing@);
        self.handle_packet(event, src, &ifs);
        proof {
            assert(pkts_view(self.outgoing@) == before + datagram_packets_v(
                reg, af, event@, src, ifs@));
        }
        Ok(())
    }

    /// Build an unsolicited announcement for one service against the given
    /// interface list and enqueue it to the multicast group when non-empty.
    pub fn send_unsolicited_with(
        &mut self,
        svc: &ServiceData,
        ttl: u32,
        include_ip: bool,
        ifs: &Vec<NetInterface>,
    )
        ensures
            final(self).family == old(self).family,
            final(self).services@ == old(self).services@,
            pkts_view(final(self).outgoing@) == pkts_view(old(self).outgoing@)
                + unsolicited_packets_v(
                old(self).services@,
                old(self).family,
                svc@,
                ttl,
                include_ip,
                ifs@,
            ),
    {
        let ghost reg = self.services@;
        let ghost af = self.family;
        let ghost pkts_before = pkts_view(self.outgoing@);
        let mut builder = AnswerBuilder::new_response(0, true);
        builder = svc.add_ptr_rr(builder, ttl);
        builder = svc.add_srv_rr(self.services.get_hostname(), builder, ttl);
        builder = svc.add_txt_rr(builder, ttl);
        if include_ip {
            builder = self.add_ip_rr(self.services.get_hostname(), builder, ttl, ifs);
        }
        proof {
            assert(builder@.answers =~= unsolicited_records_v(
                svc@, reg.hostname, af, ttl, include_ip, ifs@));
        }
        if !builder.is_empty() {
            let response = builder.build();
            let group = self.family.mdns_group();
            self.outgoing.push(
                OutgoingPacket { msg: response, dest: SocketAddress { ip: group, port: MDNS_PORT } },
            );
        }
        proof {
            assert(pkts_view(self.outgoing@) =~= pkts_before + unsolicited_packets_v(
                reg, af, svc@, ttl, include_ip, ifs@));
        }
    }

    /// Announce one service against the machine's interfaces; enumeration
    /// failure is non-fatal and answers continue without address records.
    pub fn send_unsolicited(&mut self, svc: &ServiceData, ttl: u32, include_ip: bool)
        ensures
            final(self).family == old(self).family,
            final(self).services@ == old(self).services@,
            exists|ifs: Seq<NetInterface>|
                pkts_view(final(self).outgoing@) == pkts_view(old(self).outgoing@)
                    + unsolicited_packets_v(
                    old(self).services@,
                    old(self).family,
                    svc@,
                    ttl,
                    include_ip,
                    ifs,
                ),
    {
        let ifs = match net_interfaces() {
            Ok(list) => list,
            Err(_) => Vec::new(),
        };
        let ghost reg = self.services@;
        let ghost af = self.family;
        let ghost before = pkts_view(self.outgoing@);
        self.send_unsolicited_with(svc, ttl, include_ip, &ifs);
        proof {
            assert(pkts_view(self.outgoing@) == before + unsolicited_packets_v(
                reg, af, svc@, ttl, include_ip, ifs@));
        }
    }

    /// Apply one command (or the channel's closure, as `None`). The result
    /// is `true` exactly when the driver must terminate: on `Shutdown` and
    /// on a closed channel, in either case without touching the queue; an
    /// announcement enqueues its packet and keeps the driver running.
    pub fn handle_command(&mut self, cmd: Option<Command>) -> (r: bool)
        ensures
            final(self).family == old(self).family,
            final(self).services@ == old(self).services@,
            match cmd {
                None => r == true && final(self).outgoing@ == old(self).outgoing@,
                Some(Command::Shutdown) => r == true && final(self).outgoing@ == old(
                    self,
                ).outgoing@,
                Some(Command::SendUnsolicited { svc, ttl, include_ip }) => r == false && exists|
                    ifs: Seq<NetInterface>,
                |
                    pkts_view(final(self).outgoing@) == pkts_view(old(self).outgoing@)
                        + unsolicited_packets_v(
                        old(self).services@,
                        old(self).family,
                        svc@,
                        ttl,
                        include_ip,
                        ifs,
                    ),
            },
    {
        match cmd {
            None => true,
            Some(Command::Shutdown) => true,
            Some(Command::SendUnsolicited { svc, ttl, include_ip }) => {
                self.send_unsolicited(&svc, ttl, include_ip);
                false
            },
        }
    }

    /// The front of the outbound queue, if any: the next packet to send.
    pub fn front_packet(&self) -> (r: Option<&OutgoingPacket>)
        ensures
            match r {
                Some(p) => self.outgoing@.len() > 0 && p@ == self.outgoing@[0]@,
                None => self.outgoing@.len() == 0,
            },
    {
        if self.outgoing.len() > 0 {
            Some(&self.outgoing[0])
        } else {
            None
        }
    }

    /// Whether the outbound drain stops after one send attempt, per
    /// `outbound_stop_spec`.
    pub fn outbound_should_stop(outcome: &SendOutcome, packet_len: usize) -> (r: bool)
        ensures
            r == outbound_stop_spec(*outcome, packet_len),
    {
        match outcome {
            SendOutcome::Sent { bytes } => *bytes == packet_len,
            SendOutcome::WouldBlock => true,
            SendOutcome::Failed => false,
            SendOutcome::NotReady => true,
        }
    }

    /// Close one outbound phase: the front entry, if any, is retired
    /// regardless of how its send attempts went.
    pub fn finish_send_phase(&mut self)
        ensures
            final(self).family == old(self).family,
            final(self).services@ == old(self).services@,
            old(self).outgoing@.len() > 0 ==> final(self).outgoing@ == old(
                self,
            ).outgoing@.drop_first(),
            old(self).outgoing@.len() == 0 ==> final(self).outgoing@ == old(self).outgoing@,
    {
        if self.outgoing.len() > 0 {
            let _front = self.outgoing.remove(0);
            proof {
                assert(self.outgoing@ =~= old(self).outgoing@.drop_first());
            }
        }
    }
}

} // verus!
