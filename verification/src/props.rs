//! Laws of the responder, stated over the same spec functions its
//! contracts use.

use vstd::prelude::*;

use crate::registry::{RegistryV, ServiceV, ptr_record_v, srv_record_v, txt_record_v};
use crate::types::{
    AddressFamily, DatagramEventV, InboundMessageV, NetInterface, PacketV, RecordV, SocketAddress,
    DEFAULT_TTL,
};
use crate::fsm::{
    datagram_packets_v, eligible_class, ip_records_upto, ip_records_v, ptr_answers_upto,
    question_records_v, routed_answers, routed_answers_upto, service_group_v,
    unsolicited_packets_v, unsolicited_records_v,
};
use crate::types::QuestionV;

verus! {

/// Every record the interface walk contributes is an address record for the
/// hostname with the requested time-to-live.
pub proof fn lemma_ip_records_are_addresses(
    hostname: Seq<u8>,
    af: AddressFamily,
    ttl: u32,
    ifs: Seq<NetInterface>,
    n: int,
)
    ensures
        forall|j: int|
            0 <= j < ip_records_upto(hostname, af, ttl, ifs, n).len() ==> ((#[trigger] ip_records_upto(
                hostname,
                af,
                ttl,
                ifs,
                n,
            )[j]).data is A || ip_records_upto(hostname, af, ttl, ifs, n)[j].data is Aaaa)
                && ip_records_upto(hostname, af, ttl, ifs, n)[j].name == hostname
                && ip_records_upto(hostname, af, ttl, ifs, n)[j].ttl == ttl,
    decreases n,
{
    if n > 0 {
        lemma_ip_records_are_addresses(hostname, af, ttl, ifs, n - 1);
    }
}

/// A path's answers are empty when, up to `n`, no question routed to that
/// path contributes any record.
proof fn lemma_routed_answers_empty_upto(
    reg: RegistryV,
    af: AddressFamily,
    qs: Seq<QuestionV>,
    ifs: Seq<NetInterface>,
    unicast: bool,
    n: int,
)
    requires
        n <= qs.len(),
        forall|k: int|
            0 <= k < n ==> !(eligible_class(qs[k]) && qs[k].qu == unicast)
                || question_records_v(reg, af, qs[k], ifs, DEFAULT_TTL)
                == Seq::<RecordV>::empty(),
    ensures
        routed_answers_upto(reg, af, qs, ifs, unicast, n) == Seq::<RecordV>::empty(),
    decreases n,
{
    if n > 0 {
        lemma_routed_answers_empty_upto(reg, af, qs, ifs, unicast, n - 1);
        assert(routed_answers_upto(reg, af, qs, ifs, unicast, n) =~= Seq::<RecordV>::empty());
    }
}

/// Processing one datagram produces at most one multicast-addressed and at
/// most one unicast-addressed outgoing packet: never more than two packets,
/// each addressed either to the family's group or back to the sender, and
/// when both exist the multicast one comes first.
pub proof fn lemma_at_most_two_replies(
    reg: RegistryV,
    af: AddressFamily,
    ev: DatagramEventV,
    src: SocketAddress,
    ifs: Seq<NetInterface>,
)
    ensures
        ({
            let dp = datagram_packets_v(reg, af, ev, src, ifs);
            dp.len() <= 2 && (forall|i: int|
                0 <= i < dp.len() ==> dp[i].dest == af.group_addr_spec() || dp[i].dest == src) && (
            dp.len() == 2 ==> dp[0].dest == af.group_addr_spec() && dp[1].dest == src)
        }),
{
    match ev {
        DatagramEventV::Malformed => {
        },
        DatagramEventV::Parsed(m) => {
            if m.query && !m.truncated {
                let mrecs = routed_answers(reg, af, m.questions, ifs, false);
                let urecs = routed_answers(reg, af, m.questions, ifs, true);
                let dp = datagram_packets_v(reg, af, ev, src, ifs);
                if mrecs.len() > 0 && urecs.len() > 0 {
                    assert(dp.len() == 2);
                } else if mrecs.len() > 0 {
                    assert(dp.len() == 1 && dp[0].dest == af.group_addr_spec());
                } else if urecs.len() > 0 {
                    assert(dp.len() == 1 && dp[0].dest == src);
                } else {
                    assert(dp.len() == 0);
                }
            }
        },
    }
}

/// A datagram none of whose questions matches any record rule produces no
/// outgoing packet at all.
pub proof fn lemma_no_match_no_reply(
    reg: RegistryV,
    af: AddressFamily,
    m: InboundMessageV,
    src: SocketAddress,
    ifs: Seq<NetInterface>,
)
    requires
        forall|k: int|
            0 <= k < m.questions.len() ==> question_records_v(reg, af, m.questions[k], ifs, DEFAULT_TTL)
                == Seq::<RecordV>::empty(),
    ensures
        datagram_packets_v(reg, af, DatagramEventV::Parsed(m), src, ifs)
            == Seq::<PacketV>::empty(),
{
    lemma_routed_answers_empty_upto(reg, af, m.questions, ifs, false, m.questions.len() as int);
    lemma_routed_answers_empty_upto(reg, af, m.questions, ifs, true, m.questions.len() as int);
    assert(datagram_packets_v(reg, af, DatagramEventV::Parsed(m), src, ifs)
        =~= Seq::<PacketV>::empty());
}

/// A truncated inbound message never produces any outgoing packet.
pub proof fn lemma_truncated_produces_nothing(
    reg: RegistryV,
    af: AddressFamily,
    m: InboundMessageV,
    src: SocketAddress,
    ifs: Seq<NetInterface>,
)
    requires
        m.truncated,
    ensures
        datagram_packets_v(reg, af, DatagramEventV::Parsed(m), src, ifs)
            == Seq::<PacketV>::empty(),
{
}

/// The group a matching service contributes to a PTR answer is ordered PTR,
/// then SRV, then TXT, then only address records for the hostname.
pub proof fn lemma_service_group_order(
    svc: ServiceV,
    hostname: Seq<u8>,
    af: AddressFamily,
    ttl: u32,
    ifs: Seq<NetInterface>,
)
    ensures
        ({
            let g = service_group_v(svc, hostname, af, ttl, ifs);
            g.len() >= 3 && g[0] == ptr_record_v(svc, ttl) && g[1] == srv_record_v(
                svc,
                hostname,
                ttl,
            ) && g[2] == txt_record_v(svc, ttl) && (forall|j: int|
                3 <= j < g.len() ==> (g[j].data is A || g[j].data is Aaaa) && g[j].name == hostname
                    && g[j].ttl == ttl)
        }),
{
    lemma_ip_records_are_addresses(hostname, af, ttl, ifs, ifs.len() as int);
}

/// A PTR query is answered with one such ordered group per service
/// registered under the queried type, in registration order: the answers of
/// the first `n` services extend those of the first `n - 1` by exactly that
/// service's group when its type matches, and by nothing otherwise.
pub proof fn lemma_ptr_answer_order(
    reg: RegistryV,
    af: AddressFamily,
    q: QuestionV,
    ifs: Seq<NetInterface>,
    ttl: u32,
    n: int,
)
    requires
        q.qtype is PTR,
        0 < n <= reg.services.len(),
    ensures
        question_records_v(reg, af, q, ifs, ttl) == ptr_answers_upto(
            reg.services,
            q.qname,
            reg.hostname,
            af,
            ttl,
            ifs,
            reg.services.len() as int,
        ),
        reg.services[n - 1].typ == q.qname ==> ptr_answers_upto(
            reg.services,
            q.qname,
            reg.hostname,
            af,
            ttl,
            ifs,
            n,
        ) == ptr_answers_upto(reg.services, q.qname, reg.hostname, af, ttl, ifs, n - 1)
            + service_group_v(reg.services[n - 1], reg.hostname, af, ttl, ifs),
        reg.services[n - 1].typ != q.qname ==> ptr_answers_upto(
            reg.services,
            q.qname,
            reg.hostname,
            af,
            ttl,
            ifs,
            n,
        ) =~= ptr_answers_upto(reg.services, q.qname, reg.hostname, af, ttl, ifs, n - 1),
{
}

/// A single eligible question with the `qu` bit set is answered, if at all,
/// with exactly one packet sent directly back to the sender, never to the
/// multicast group.
pub proof fn lemma_qu_set_routes_to_sender(
    reg: RegistryV,
    af: AddressFamily,
    id: u16,
    q: QuestionV,
    src: SocketAddress,
    ifs: Seq<NetInterface>,
)
    requires
        eligible_class(q),
        q.qu,
    ensures
        ({
            let m = InboundMessageV { id: id, query: true, truncated: false, questions: seq![q] };
            let dp = datagram_packets_v(reg, af, DatagramEventV::Parsed(m), src, ifs);
            let recs = question_records_v(reg, af, q, ifs, DEFAULT_TTL);
            (recs.len() == 0 ==> dp == Seq::<PacketV>::empty()) && (recs.len() > 0 ==> dp == seq![
                (PacketV {
                    msg: crate::types::MessageV { id: id, authoritative: true, answers: recs },
                    dest: src,
                }),
            ])
        }),
{
    let m = InboundMessageV { id: id, query: true, truncated: false, questions: seq![q] };
    let qs = m.questions;
    assert(qs[0] == q);
    assert(routed_answers_upto(reg, af, qs, ifs, true, 0) == Seq::<RecordV>::empty());
    assert(routed_answers_upto(reg, af, qs, ifs, false, 0) == Seq::<RecordV>::empty());
    assert(routed_answers_upto(reg, af, qs, ifs, true, 1) =~= question_records_v(
        reg, af, q, ifs, DEFAULT_TTL));
    assert(routed_answers_upto(reg, af, qs, ifs, false, 1) =~= Seq::<RecordV>::empty());
    let recs = question_records_v(reg, af, q, ifs, DEFAULT_TTL);
    if recs.len() > 0 {
        assert(datagram_packets_v(reg, af, DatagramEventV::Parsed(m), src, ifs) =~= seq![
            (PacketV {
                msg: crate::types::MessageV { id: id, authoritative: true, answers: recs },
                dest: src,
            }),
        ]);
    } else {
        assert(datagram_packets_v(reg, af, DatagramEventV::Parsed(m), src, ifs)
            =~= Seq::<PacketV>::empty());
    }
}

/// A single eligible question with the `qu` bit unset is answered, if at
/// all, with exactly one packet addressed to the family's multicast group,
/// never directly to the sender's address.
pub proof fn lemma_qu_unset_routes_to_group(
    reg: RegistryV,
    af: AddressFamily,
    id: u16,
    q: QuestionV,
    src: SocketAddress,
    ifs: Seq<NetInterface>,
)
    requires
        eligible_class(q),
        !q.qu,
    ensures
        ({
            let m = InboundMessageV { id: id, query: true, truncated: false, questions: seq![q] };
            let dp = datagram_packets_v(reg, af, DatagramEventV::Parsed(m), src, ifs);
            let recs = question_records_v(reg, af, q, ifs, DEFAULT_TTL);
            (recs.len() == 0 ==> dp == Seq::<PacketV>::empty()) && (recs.len() > 0 ==> dp == seq![
                (PacketV {
                    msg: crate::types::MessageV { id: id, authoritative: true, answers: recs },
                    dest: af.group_addr_spec(),
                }),
            ])
        }),
{
    let m = InboundMessageV { id: id, query: true, truncated: false, questions: seq![q] };
    let qs = m.questions;
    assert(qs[0] == q);
    assert(routed_answers_upto(reg, af, qs, ifs, true, 0) == Seq::<RecordV>::empty());
    assert(routed_answers_upto(reg, af, qs, ifs, false, 0) == Seq::<RecordV>::empty());
    assert(routed_answers_upto(reg, af, qs, ifs, false, 1) =~= question_records_v(
        reg, af, q, ifs, DEFAULT_TTL));
    assert(routed_answers_upto(reg, af, qs, ifs, true, 1) =~= Seq::<RecordV>::empty());
    let recs = question_records_v(reg, af, q, ifs, DEFAULT_TTL);
    if recs.len() > 0 {
        assert(datagram_packets_v(reg, af, DatagramEventV::Parsed(m), src, ifs) =~= seq![
            (PacketV {
                msg: crate::types::MessageV { id: id, authoritative: true, answers: recs },
                dest: af.group_addr_spec(),
            }),
        ]);
    } else {
        assert(datagram_packets_v(reg, af, DatagramEventV::Parsed(m), src, ifs)
            =~= Seq::<PacketV>::empty());
    }
}

/// An unsolicited announcement enqueues exactly one multicast-addressed
/// packet with id zero whose answers are PTR, SRV and TXT for the service
/// with the requested time-to-live, followed by the hostname's address
/// records exactly when `include_ip` is set.
pub proof fn lemma_unsolicited_packet_shape(
    reg: RegistryV,
    af: AddressFamily,
    svc: ServiceV,
    ttl: u32,
    include_ip: bool,
    ifs: Seq<NetInterface>,
)
    ensures
        ({
            let up = unsolicited_packets_v(reg, af, svc, ttl, include_ip, ifs);
            let recs = unsolicited_records_v(svc, reg.hostname, af, ttl, include_ip, ifs);
            up.len() == 1 && up[0].dest == af.group_addr_spec() && up[0].msg.id == 0
                && up[0].msg.answers == recs && recs[0] == ptr_record_v(svc, ttl) && recs[1]
                == srv_record_v(svc, reg.hostname, ttl) && recs[2] == txt_record_v(svc, ttl) && (
            include_ip ==> recs == seq![
                ptr_record_v(svc, ttl),
                srv_record_v(svc, reg.hostname, ttl),
                txt_record_v(svc, ttl),
            ] + ip_records_v(reg.hostname, af, ttl, ifs)) && (!include_ip ==> recs.len() == 3) && (
            forall|j: int|
                3 <= j < recs.len() ==> (recs[j].data is A || recs[j].data is Aaaa) && recs[j].ttl
                    == ttl)
        }),
{
    let recs = unsolicited_records_v(svc, reg.hostname, af, ttl, include_ip, ifs);
    assert(recs.len() >= 3);
    lemma_ip_records_are_addresses(reg.hostname, af, ttl, ifs, ifs.len() as int);
    if !include_ip {
        assert(recs =~= seq![
            ptr_record_v(svc, ttl),
            srv_record_v(svc, reg.hostname, ttl),
            txt_record_v(svc, ttl),
        ]);
    }
}

/// Every packet a processed query emits reuses the query's id, is marked
/// authoritative, is non-empty, and carries exactly the answers the question
/// dispatcher accumulated for its routing path: nothing is added, dropped or
/// reordered between dispatch and the outbound queue.
pub proof fn lemma_emitted_matches_dispatch(
    reg: RegistryV,
    af: AddressFamily,
    m: InboundMessageV,
    src: SocketAddress,
    ifs: Seq<NetInterface>,
)
    ensures
        ({
            let dp = datagram_packets_v(reg, af, DatagramEventV::Parsed(m), src, ifs);
            forall|i: int|
                0 <= i < dp.len() ==> dp[i].msg.id == m.id && dp[i].msg.authoritative && dp[i].msg.answers.len()
                    > 0 && (dp[i].msg.answers == routed_answers(reg, af, m.questions, ifs, false)
                    || dp[i].msg.answers == routed_answers(reg, af, m.questions, ifs, true))
        }),
{
}

/// Dispatching the same question twice against a response in progress
/// appends its records twice over: each of the two appended segments is the
/// question's full record set, so no deduplication or suppression takes
/// place.
pub proof fn lemma_dispatch_idempotent(
    reg: RegistryV,
    af: AddressFamily,
    q: QuestionV,
    ifs: Seq<NetInterface>,
    ttl: u32,
    base: Seq<RecordV>,
)
    ensures
        ({
            let r = question_records_v(reg, af, q, ifs, ttl);
            let twice = (base + r) + r;
            twice.len() == base.len() + 2 * r.len() && twice.subrange(
                base.len() as int,
                (base.len() + r.len()) as int,
            ) == r && twice.subrange((base.len() + r.len()) as int, twice.len() as int) == r
        }),
{
    let r = question_records_v(reg, af, q, ifs, ttl);
    let twice = (base + r) + r;
    assert(twice.subrange(base.len() as int, (base.len() + r.len()) as int) =~= r);
    assert(twice.subrange((base.len() + r.len()) as int, twice.len() as int) =~= r);
}

} // verus!
