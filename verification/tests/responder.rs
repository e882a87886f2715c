use mdns_responder::builder::AnswerBuilder;
use mdns_responder::fsm::{Command, FSM, SendOutcome};
use mdns_responder::registry::{ServiceData, Services};
use mdns_responder::types::{
    AddressFamily, DatagramEvent, Error, InboundMessage, IpAddress, Name, NetInterface,
    OutgoingPacket, Question, QueryClass, QueryType, Record, RecordData, SocketAddress,
    DEFAULT_TTL, MDNS_PORT, RECV_BUF_SIZE,
};

fn name(s: &str) -> Name {
    Name::new(s.as_bytes().to_vec())
}

fn service() -> ServiceData {
    ServiceData {
        name: name("Web._http._tcp.local"),
        typ: name("_http._tcp.local"),
        port: 8080,
        txt: b"path=/".to_vec(),
    }
}

fn registry() -> Services {
    let mut services = Services::new(name("myhost.local"));
    services.register(service());
    services
}

fn fsm_v4() -> FSM {
    FSM::new(registry(), AddressFamily::V4)
}

fn sender() -> SocketAddress {
    SocketAddress { ip: IpAddress::V4(0xC0A8_0142), port: 5353 }
}

fn group_v4() -> SocketAddress {
    SocketAddress { ip: IpAddress::V4(0xE000_00FB), port: MDNS_PORT }
}

fn interfaces() -> Vec<NetInterface> {
    vec![
        NetInterface { loopback: true, addr: IpAddress::V4(0x7F00_0001) },
        NetInterface { loopback: false, addr: IpAddress::V4(0x0A00_0001) },
        NetInterface { loopback: false, addr: IpAddress::V6(0xFE80_0000_0000_0000_0000_0000_0000_0001) },
    ]
}

fn question(qname: &str, qtype: QueryType, qu: bool) -> Question {
    Question { qname: name(qname), qclass: QueryClass::IN, qtype, qu }
}

fn query_event(id: u16, questions: Vec<Question>) -> DatagramEvent {
    DatagramEvent::Parsed(InboundMessage { id, query: true, truncated: false, questions })
}

fn is_ptr(r: &Record) -> bool {
    matches!(r.data, RecordData::Ptr { .. })
}

fn is_srv(r: &Record) -> bool {
    matches!(r.data, RecordData::Srv { .. })
}

fn is_txt(r: &Record) -> bool {
    matches!(r.data, RecordData::Txt { .. })
}

fn is_a(r: &Record) -> bool {
    matches!(r.data, RecordData::A { .. })
}

#[test]
fn ptr_query_yields_ordered_group() {
    let mut fsm = fsm_v4();
    let ev = query_event(7, vec![question("_http._tcp.local", QueryType::PTR, false)]);
    fsm.handle_packet(&ev, sender(), &interfaces());
    assert_eq!(fsm.outgoing.len(), 1);
    let pkt = &fsm.outgoing[0];
    assert_eq!(pkt.dest, group_v4());
    assert_eq!(pkt.msg.id, 7);
    let answers = &pkt.msg.answers;
    assert_eq!(answers.len(), 4);
    assert!(is_ptr(&answers[0]));
    assert!(is_srv(&answers[1]));
    assert!(is_txt(&answers[2]));
    assert!(is_a(&answers[3]));
    assert_eq!(answers[0].name.bytes, b"_http._tcp.local".to_vec());
    match &answers[0].data {
        RecordData::Ptr { instance } => assert_eq!(instance.bytes, b"Web._http._tcp.local".to_vec()),
        _ => unreachable!(),
    }
    match &answers[1].data {
        RecordData::Srv { target, port } => {
            assert_eq!(target.bytes, b"myhost.local".to_vec());
            assert_eq!(*port, 8080);
        }
        _ => unreachable!(),
    }
    match &answers[2].data {
        RecordData::Txt { data } => assert_eq!(data, &b"path=/".to_vec()),
        _ => unreachable!(),
    }
    match &answers[3].data {
        RecordData::A { addr } => assert_eq!(*addr, 0x0A00_0001),
        _ => unreachable!(),
    }
    for r in answers {
        assert_eq!(r.ttl, DEFAULT_TTL);
        assert_eq!(r.class, QueryClass::IN);
    }
}

#[test]
fn qu_set_routes_to_sender() {
    let mut fsm = fsm_v4();
    let ev = query_event(9, vec![question("_http._tcp.local", QueryType::PTR, true)]);
    fsm.handle_packet(&ev, sender(), &interfaces());
    assert_eq!(fsm.outgoing.len(), 1);
    assert_eq!(fsm.outgoing[0].dest, sender());
    assert_ne!(fsm.outgoing[0].dest, group_v4());
}

#[test]
fn qu_unset_routes_to_group() {
    let mut fsm = fsm_v4();
    let ev = query_event(9, vec![question("_http._tcp.local", QueryType::PTR, false)]);
    fsm.handle_packet(&ev, sender(), &interfaces());
    assert_eq!(fsm.outgoing.len(), 1);
    assert_eq!(fsm.outgoing[0].dest, group_v4());
    assert_ne!(fsm.outgoing[0].dest, sender());
}

#[test]
fn mixed_questions_give_one_packet_per_path() {
    let mut fsm = fsm_v4();
    let ev = query_event(
        3,
        vec![
            question("_http._tcp.local", QueryType::PTR, false),
            question("_http._tcp.local", QueryType::PTR, true),
        ],
    );
    fsm.handle_packet(&ev, sender(), &interfaces());
    assert_eq!(fsm.outgoing.len(), 2);
    assert_eq!(fsm.outgoing[0].dest, group_v4());
    assert_eq!(fsm.outgoing[1].dest, sender());
}

#[test]
fn truncated_query_is_dropped() {
    let mut fsm = fsm_v4();
    let ev = DatagramEvent::Parsed(InboundMessage {
        id: 4,
        query: true,
        truncated: true,
        questions: vec![question("_http._tcp.local", QueryType::PTR, false)],
    });
    fsm.handle_packet(&ev, sender(), &interfaces());
    assert_eq!(fsm.outgoing.len(), 0);
}

#[test]
fn non_query_is_dropped() {
    let mut fsm = fsm_v4();
    let ev = DatagramEvent::Parsed(InboundMessage {
        id: 4,
        query: false,
        truncated: false,
        questions: vec![question("_http._tcp.local", QueryType::PTR, false)],
    });
    fsm.handle_packet(&ev, sender(), &interfaces());
    assert_eq!(fsm.outgoing.len(), 0);
}

#[test]
fn malformed_datagram_is_dropped() {
    let mut fsm = fsm_v4();
    fsm.handle_packet(&DatagramEvent::Malformed, sender(), &interfaces());
    assert_eq!(fsm.outgoing.len(), 0);
}

#[test]
fn unknown_names_get_no_answer() {
    let mut fsm = fsm_v4();
    let ev = query_event(
        5,
        vec![
            question("_ipp._tcp.local", QueryType::PTR, false),
            question("other.local", QueryType::A, false),
            question("nothere._http._tcp.local", QueryType::SRV, true),
            question("nothere._http._tcp.local", QueryType::TXT, true),
            question("myhost.local", QueryType::Other, false),
        ],
    );
    fsm.handle_packet(&ev, sender(), &interfaces());
    assert_eq!(fsm.outgoing.len(), 0);
}

#[test]
fn non_internet_class_is_ignored() {
    let mut fsm = fsm_v4();
    let ev = query_event(
        5,
        vec![Question {
            qname: name("_http._tcp.local"),
            qclass: QueryClass::Other,
            qtype: QueryType::PTR,
            qu: false,
        }],
    );
    fsm.handle_packet(&ev, sender(), &interfaces());
    assert_eq!(fsm.outgoing.len(), 0);
}

#[test]
fn oversized_datagram_aborts_without_packet() {
    let mut fsm = fsm_v4();
    let ev = query_event(1, vec![question("_http._tcp.local", QueryType::PTR, false)]);
    let r = fsm.ingest(RECV_BUF_SIZE, &ev, sender());
    assert_eq!(r, Err(Error::BufferTooSmall { bytes: RECV_BUF_SIZE, size: RECV_BUF_SIZE }));
    assert_eq!(fsm.outgoing_len(), 0);
    let r2 = fsm.ingest(RECV_BUF_SIZE + 100, &ev, sender());
    assert_eq!(r2, Err(Error::BufferTooSmall { bytes: RECV_BUF_SIZE + 100, size: RECV_BUF_SIZE }));
    assert_eq!(fsm.outgoing_len(), 0);
}

#[test]
fn short_datagram_is_ingested() {
    let mut fsm = fsm_v4();
    assert_eq!(fsm.ingest(100, &DatagramEvent::Malformed, sender()), Ok(()));
    assert_eq!(fsm.outgoing_len(), 0);
}

#[test]
fn unsolicited_announcement_with_ttl_120() {
    let mut fsm = fsm_v4();
    let svc = service();
    fsm.send_unsolicited_with(&svc, 120, true, &interfaces());
    assert_eq!(fsm.outgoing.len(), 1);
    let pkt = &fsm.outgoing[0];
    assert_eq!(pkt.dest, group_v4());
    assert_eq!(pkt.msg.id, 0);
    let answers = &pkt.msg.answers;
    assert_eq!(answers.len(), 4);
    assert!(is_ptr(&answers[0]));
    assert!(is_srv(&answers[1]));
    assert!(is_txt(&answers[2]));
    assert!(is_a(&answers[3]));
    for r in answers {
        assert_eq!(r.ttl, 120);
    }
}

#[test]
fn unsolicited_announcement_without_ip() {
    let mut fsm = fsm_v4();
    let svc = service();
    fsm.send_unsolicited_with(&svc, 120, false, &interfaces());
    assert_eq!(fsm.outgoing.len(), 1);
    let answers = &fsm.outgoing[0].msg.answers;
    assert_eq!(answers.len(), 3);
    assert!(is_ptr(&answers[0]));
    assert!(is_srv(&answers[1]));
    assert!(is_txt(&answers[2]));
}

#[test]
fn shutdown_terminates_driver() {
    let mut fsm = fsm_v4();
    assert!(fsm.handle_command(Some(Command::Shutdown)));
    assert_eq!(fsm.outgoing_len(), 0);
}

#[test]
fn closed_channel_terminates_driver() {
    let mut fsm = fsm_v4();
    assert!(fsm.handle_command(None));
    assert_eq!(fsm.outgoing_len(), 0);
}

#[test]
fn announce_command_enqueues_and_keeps_running() {
    let mut fsm = fsm_v4();
    let cmd = Command::SendUnsolicited { svc: service(), ttl: 120, include_ip: false };
    assert!(!fsm.handle_command(Some(cmd)));
    assert_eq!(fsm.outgoing_len(), 1);
}

#[test]
fn same_question_twice_doubles_the_answers() {
    let mut fsm = fsm_v4();
    let ev = query_event(
        2,
        vec![
            question("_http._tcp.local", QueryType::PTR, false),
            question("_http._tcp.local", QueryType::PTR, false),
        ],
    );
    fsm.handle_packet(&ev, sender(), &interfaces());
    assert_eq!(fsm.outgoing.len(), 1);
    let answers = &fsm.outgoing[0].msg.answers;
    assert_eq!(answers.len(), 8);
    for k in 0..4 {
        assert_eq!(
            format!("{:?}", answers[k]),
            format!("{:?}", answers[k + 4]),
        );
    }
}

#[test]
fn hostname_query_filters_family_and_loopback() {
    let mut fsm = fsm_v4();
    let ev = query_event(6, vec![question("myhost.local", QueryType::A, false)]);
    fsm.handle_packet(&ev, sender(), &interfaces());
    assert_eq!(fsm.outgoing.len(), 1);
    let answers = &fsm.outgoing[0].msg.answers;
    assert_eq!(answers.len(), 1);
    match &answers[0].data {
        RecordData::A { addr } => assert_eq!(*addr, 0x0A00_0001),
        _ => unreachable!(),
    }
    assert_eq!(answers[0].name.bytes, b"myhost.local".to_vec());
}

#[test]
fn hostname_query_v6_emits_aaaa() {
    let mut fsm = FSM::new(registry(), AddressFamily::V6);
    let ev = query_event(6, vec![question("myhost.local", QueryType::AAAA, false)]);
    fsm.handle_packet(&ev, sender(), &interfaces());
    assert_eq!(fsm.outgoing.len(), 1);
    let answers = &fsm.outgoing[0].msg.answers;
    assert_eq!(answers.len(), 1);
    match &answers[0].data {
        RecordData::Aaaa { addr } => {
            assert_eq!(*addr, 0xFE80_0000_0000_0000_0000_0000_0000_0001)
        }
        _ => unreachable!(),
    }
    assert_eq!(
        fsm.outgoing[0].dest,
        SocketAddress {
            ip: IpAddress::V6(0xFF02_0000_0000_0000_0000_0000_0000_00FB),
            port: MDNS_PORT
        }
    );
}

#[test]
fn srv_query_yields_srv_then_address() {
    let mut fsm = fsm_v4();
    let ev = query_event(8, vec![question("Web._http._tcp.local", QueryType::SRV, false)]);
    fsm.handle_packet(&ev, sender(), &interfaces());
    assert_eq!(fsm.outgoing.len(), 1);
    let answers = &fsm.outgoing[0].msg.answers;
    assert_eq!(answers.len(), 2);
    assert!(is_srv(&answers[0]));
    assert!(is_a(&answers[1]));
}

#[test]
fn txt_query_yields_txt_only() {
    let mut fsm = fsm_v4();
    let ev = query_event(8, vec![question("Web._http._tcp.local", QueryType::TXT, false)]);
    fsm.handle_packet(&ev, sender(), &interfaces());
    assert_eq!(fsm.outgoing.len(), 1);
    let answers = &fsm.outgoing[0].msg.answers;
    assert_eq!(answers.len(), 1);
    assert!(is_txt(&answers[0]));
}

#[test]
fn outbound_queue_is_fifo_and_retires_front() {
    let mut fsm = fsm_v4();
    let ev1 = query_event(1, vec![question("_http._tcp.local", QueryType::PTR, false)]);
    let ev2 = query_event(2, vec![question("_http._tcp.local", QueryType::PTR, true)]);
    fsm.handle_packet(&ev1, sender(), &interfaces());
    fsm.handle_packet(&ev2, sender(), &interfaces());
    assert_eq!(fsm.outgoing_len(), 2);
    assert_eq!(fsm.front_packet().unwrap().msg.id, 1);
    fsm.finish_send_phase();
    assert_eq!(fsm.outgoing_len(), 1);
    assert_eq!(fsm.front_packet().unwrap().msg.id, 2);
    fsm.finish_send_phase();
    assert_eq!(fsm.outgoing_len(), 0);
    assert!(fsm.front_packet().is_none());
    fsm.finish_send_phase();
    assert_eq!(fsm.outgoing_len(), 0);
}

#[test]
fn outbound_stop_decision() {
    assert!(FSM::outbound_should_stop(&SendOutcome::Sent { bytes: 64 }, 64));
    assert!(!FSM::outbound_should_stop(&SendOutcome::Sent { bytes: 10 }, 64));
    assert!(FSM::outbound_should_stop(&SendOutcome::WouldBlock, 64));
    assert!(!FSM::outbound_should_stop(&SendOutcome::Failed, 64));
    assert!(FSM::outbound_should_stop(&SendOutcome::NotReady, 64));
}

#[test]
fn builder_tracks_emptiness_and_contents() {
    let b = AnswerBuilder::new_response(42, true);
    assert!(b.is_empty());
    let b = b.add_answer(
        name("myhost.local"),
        QueryClass::IN,
        60,
        RecordData::A { addr: 1 },
    );
    assert!(!b.is_empty());
    let resp = b.build();
    assert_eq!(resp.id, 42);
    assert!(resp.authoritative);
    assert_eq!(resp.answers.len(), 1);
}

#[test]
fn registry_lookup_by_name() {
    let services = registry();
    assert_eq!(services.get_hostname().bytes, b"myhost.local".to_vec());
    assert_eq!(services.find_by_name(&name("Web._http._tcp.local")), Some(0));
    assert_eq!(services.find_by_name(&name("nothere.local")), None);
}

#[test]
fn ingest_answers_real_machine_query() {
    // Runs against the machine's real interface list; only the routing is
    // asserted, not the interface-dependent record contents.
    let mut fsm = fsm_v4();
    let ev = query_event(11, vec![question("_http._tcp.local", QueryType::PTR, false)]);
    assert_eq!(fsm.ingest(64, &ev, sender()), Ok(()));
    assert_eq!(fsm.outgoing_len(), 1);
    let pkt: &OutgoingPacket = fsm.front_packet().unwrap();
    assert_eq!(pkt.dest, group_v4());
    assert!(pkt.msg.answers.len() >= 3);
}

#[test]
fn registry_lookup_by_type() {
    let mut services = registry();
    services.register(ServiceData {
        name: name("Print._ipp._tcp.local"),
        typ: name("_ipp._tcp.local"),
        port: 631,
        txt: vec![],
    });
    services.register(ServiceData {
        name: name("Web2._http._tcp.local"),
        typ: name("_http._tcp.local"),
        port: 8081,
        txt: vec![],
    });
    assert_eq!(services.find_by_type(&name("_http._tcp.local")), vec![0, 2]);
    assert_eq!(services.find_by_type(&name("_ipp._tcp.local")), vec![1]);
    assert!(services.find_by_type(&name("_ssh._tcp.local")).is_empty());
}

#[test]
fn ptr_query_groups_every_matching_service_in_order() {
    let mut services = registry();
    services.register(ServiceData {
        name: name("Web2._http._tcp.local"),
        typ: name("_http._tcp.local"),
        port: 8081,
        txt: b"v=2".to_vec(),
    });
    let mut fsm = FSM::new(services, AddressFamily::V4);
    let ev = query_event(12, vec![question("_http._tcp.local", QueryType::PTR, false)]);
    fsm.handle_packet(&ev, sender(), &interfaces());
    assert_eq!(fsm.outgoing.len(), 1);
    let answers = &fsm.outgoing[0].msg.answers;
    assert_eq!(answers.len(), 8);
    for g in 0..2 {
        assert!(is_ptr(&answers[4 * g]));
        assert!(is_srv(&answers[4 * g + 1]));
        assert!(is_txt(&answers[4 * g + 2]));
        assert!(is_a(&answers[4 * g + 3]));
    }
    match &answers[0].data {
        RecordData::Ptr { instance } => assert_eq!(instance.bytes, b"Web._http._tcp.local".to_vec()),
        _ => unreachable!(),
    }
    match &answers[4].data {
        RecordData::Ptr { instance } => {
            assert_eq!(instance.bytes, b"Web2._http._tcp.local".to_vec())
        }
        _ => unreachable!(),
    }
}
