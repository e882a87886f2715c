//! Accumulator for one DNS response in progress.

use vstd::prelude::*;

use crate::types::{DnsResponse, MessageV, Name, QueryClass, Record, RecordData, RecordV, recs_view};

verus! {

/// An in-progress DNS response: the header fields it was opened with and the
/// answer records appended so far. Emptiness is observable and gates whether
/// a build is finalized into a packet.
#[derive(Debug)]
pub struct AnswerBuilder {
    pub resp: DnsResponse,
}

impl View for AnswerBuilder {
    type V = MessageV;

    open spec fn view(&self) -> MessageV {
        self.resp@
    }
}

impl AnswerBuilder {
    /// Open a response with the given id and authoritative flag, no answers
    /// yet. The response bit is set and the truncated bit clear by
    /// construction of `DnsResponse`.
    pub fn new_response(id: u16, authoritative: bool) -> (r: AnswerBuilder)
        ensures
            r@.id == id,
            r@.authoritative == authoritative,
            r@.answers == Seq::<RecordV>::empty(),
    {
        let resp = DnsResponse { id, authoritative, answers: Vec::new() };
        let b = AnswerBuilder { resp };
        proof {
            assert(recs_view(b.resp.answers@) =~= Seq::<RecordV>::empty());
        }
        b
    }

    /// Append one answer record.
    pub fn add_answer(self, name: Name, class: QueryClass, ttl: u32, data: RecordData) -> (r:
        AnswerBuilder)
        ensures
            r@.id == self@.id,
            r@.authoritative == self@.authoritative,
            r@.answers == self@.answers.push(
                (RecordV { name: name@, class: class, ttl: ttl, data: data@ }),
            ),
    {
        let ghost rec_v = RecordV { name: name@, class: class, ttl: ttl, data: data@ };
        let mut resp = self.resp;
        let ghost before = resp.answers@;
        resp.answers.push(Record { name, class, ttl, data });
        proof {
            assert(recs_view(resp.answers@) =~= recs_view(before).push(rec_v));
        }
        AnswerBuilder { resp }
    }

    /// Whether no record has been appended yet.
    pub fn is_empty(&self) -> (r: bool)
        ensures
            r == (self@.answers.len() == 0),
    {
        self.resp.answers.len() == 0
    }

    /// Finalize the build into the response message.
    pub fn build(self) -> (r: DnsResponse)
        ensures
            r@ == self@,
    {
        self.resp
    }
}

} // verus!
