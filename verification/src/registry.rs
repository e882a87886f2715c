//! The service registry the responder reads: the local hostname and the
//! registered service instances, with lookup by instance name, plus the
//! per-service record emitters.

use vstd::prelude::*;

use crate::builder::AnswerBuilder;
use crate::types::{Name, QueryClass, RecordData, RecordDataV, RecordV, dup_bytes, names_equal};

verus! {

/// One registered service instance.
#[derive(Clone, Debug)]
pub struct ServiceData {
    /// The instance name (e.g. `Web Server._http._tcp.local`).
    pub name: Name,
    /// The service type (e.g. `_http._tcp.local`).
    pub typ: Name,
    /// The port the service listens on.
    pub port: u16,
    /// TXT metadata bytes.
    pub txt: Vec<u8>,
}

/// View of a service instance.
pub struct ServiceV {
    pub name: Seq<u8>,
    pub typ: Seq<u8>,
    pub port: u16,
    pub txt: Seq<u8>,
}

impl View for ServiceData {
    type V = ServiceV;

    open spec fn view(&self) -> ServiceV {
        ServiceV { name: self.name@, typ: self.typ@, port: self.port, txt: self.txt@ }
    }
}

/// The PTR record announcing a service instance under its type.
pub open spec fn ptr_record_v(svc: ServiceV, ttl: u32) -> RecordV {
    RecordV {
        name: svc.typ,
        class: QueryClass::IN,
        ttl: ttl,
        data: RecordDataV::Ptr { instance: svc.name },
    }
}

/// The SRV record locating a service instance on the given host.
pub open spec fn srv_record_v(svc: ServiceV, hostname: Seq<u8>, ttl: u32) -> RecordV {
    RecordV {
        name: svc.name,
        class: QueryClass::IN,
        ttl: ttl,
        data: RecordDataV::Srv { target: hostname, port: svc.port },
    }
}

/// The TXT record carrying a service instance's metadata.
pub open spec fn txt_record_v(svc: ServiceV, ttl: u32) -> RecordV {
    RecordV {
        name: svc.name,
        class: QueryClass::IN,
        ttl: ttl,
        data: RecordDataV::Txt { data: svc.txt },
    }
}

impl ServiceData {
    /// An owned copy of this service's data.
    pub fn duplicate(&self) -> (r: ServiceData)
        ensures
            r@ == self@,
    {
        ServiceData {
            name: self.name.duplicate(),
            typ: self.typ.duplicate(),
            port: self.port,
            txt: dup_bytes(&self.txt),
        }
    }

    /// Append this service's PTR record.
    pub fn add_ptr_rr(&self, builder: AnswerBuilder, ttl: u32) -> (r: AnswerBuilder)
        ensures
            r@.id == builder@.id,
            r@.authoritative == builder@.authoritative,
            r@.answers == builder@.answers.push(ptr_record_v(self@, ttl)),
    {
        builder.add_answer(
            self.typ.duplicate(),
            QueryClass::IN,
            ttl,
            RecordData::Ptr { instance: self.name.duplicate() },
        )
    }

    /// Append this service's SRV record, referencing the given hostname.
    pub fn add_srv_rr(&self, hostname: &Name, builder: AnswerBuilder, ttl: u32) -> (r:
        AnswerBuilder)
        ensures
            r@.id == builder@.id,
            r@.authoritative == builder@.authoritative,
            r@.answers == builder@.answers.push(srv_record_v(self@, hostname@, ttl)),
    {
        builder.add_answer(
            self.name.duplicate(),
            QueryClass::IN,
            ttl,
            RecordData::Srv { target: hostname.duplicate(), port: self.port },
        )
    }

    /// Append this service's TXT record.
    pub fn add_txt_rr(&self, builder: AnswerBuilder, ttl: u32) -> (r: AnswerBuilder)
        ensures
            r@.id == builder@.id,
            r@.authoritative == builder@.authoritative,
            r@.answers == builder@.answers.push(txt_record_v(self@, ttl)),
    {
        builder.add_answer(
            self.name.duplicate(),
            QueryClass::IN,
            ttl,
            RecordData::Txt { data: dup_bytes(&self.txt) },
        )
    }
}

/// The registry: the local hostname and the registered services. The
/// responder only ever reads it; registration is external and modelled by
/// plain construction.
#[derive(Debug)]
pub struct Services {
    pub hostname: Name,
    pub services: Vec<ServiceData>,
}

/// View of the registry.
pub struct RegistryV {
    pub hostname: Seq<u8>,
    pub services: Seq<ServiceV>,
}

impl View for Services {
    type V = RegistryV;

    open spec fn view(&self) -> RegistryV {
        RegistryV {
            hostname: self.hostname@,
            services: self.services@.map_values(|s: ServiceData| s@),
        }
    }
}

/// The index of the first service at or after `i` whose instance name is
/// `name`, if any.
pub open spec fn find_name_from(s: Seq<ServiceV>, name: Seq<u8>, i: int) -> Option<int>
    decreases s.len() - i,
{
    if i < 0 || i >= s.len() {
        None
    } else if s[i].name == name {
        Some(i)
    } else {
        find_name_from(s, name, i + 1)
    }
}

/// The index of the first service registered under `name`, if any.
pub open spec fn find_name(s: Seq<ServiceV>, name: Seq<u8>) -> Option<int> {
    find_name_from(s, name, 0)
}

/// The indices, in registration order, of the services among the first `n`
/// whose type is `t`.
pub open spec fn type_indices_upto(s: Seq<ServiceV>, t: Seq<u8>, n: int) -> Seq<int>
    decreases n,
{
    if n <= 0 {
        Seq::empty()
    } else {
        type_indices_upto(s, t, n - 1) + if s[n - 1].typ == t {
            seq![n - 1]
        } else {
            Seq::empty()
        }
    }
}

/// The indices, in registration order, of the services of type `t`.
pub open spec fn type_indices(s: Seq<ServiceV>, t: Seq<u8>) -> Seq<int> {
    type_indices_upto(s, t, s.len() as int)
}

impl Services {
    /// A registry with the given hostname and no services.
    pub fn new(hostname: Name) -> (r: Services)
        ensures
            r@.hostname == hostname@,
            r@.services == Seq::<ServiceV>::empty(),
    {
        let s = Services { hostname, services: Vec::new() };
        proof {
            assert(s@.services =~= Seq::<ServiceV>::empty());
        }
        s
    }

    /// Add one service instance.
    pub fn register(&mut self, svc: ServiceData)
        ensures
            final(self)@.hostname == old(self)@.hostname,
            final(self)@.services == old(self)@.services.push(svc@),
    {
        let ghost before = self@.services;
        let ghost svc_v = svc@;
        self.services.push(svc);
        proof {
            assert(self@.services =~= before.push(svc_v));
        }
    }

    /// The hostname this responder answers address queries for.
    pub fn get_hostname(&self) -> (r: &Name)
        ensures
            r@ == self@.hostname,
    {
        &self.hostname
    }

    /// The indices of every service registered under the given type, in
    /// registration order.
    pub fn find_by_type(&self, typ: &Name) -> (r: Vec<usize>)
        ensures
            r@.map_values(|u: usize| u as int) == type_indices(self@.services, typ@),
            forall|k: int| 0 <= k < r@.len() ==> r@[k] < self@.services.len(),
    {
        let ghost svcs = self@.services;
        let mut r: Vec<usize> = Vec::new();
        let mut i: usize = 0;
        proof {
            assert(r@.map_values(|u: usize| u as int) =~= type_indices_upto(svcs, typ@, 0));
        }
        while i < self.services.len()
            invariant
                i <= svcs.len(),
                svcs == self@.services,
                r@.map_values(|u: usize| u as int) == type_indices_upto(svcs, typ@, i as int),
                forall|k: int| 0 <= k < r@.len() ==> r@[k] < svcs.len(),
            decreases svcs.len() - i,
        {
            if names_equal(&self.services[i].typ, typ) {
                assert(svcs[i as int].typ == typ@);
                r.push(i);
            } else {
                assert(svcs[i as int].typ != typ@);
            }
            proof {
                assert(r@.map_values(|u: usize| u as int) =~= type_indices_upto(
                    svcs,
                    typ@,
                    i + 1,
                ));
            }
            i = i + 1;
        }
        r
    }

    /// Look a service up by instance name; the first registered match wins.
    pub fn find_by_name(&self, name: &Name) -> (r: Option<usize>)
        ensures
            match r {
                Some(u) => find_name(self@.services, name@) == Some(u as int) && u
                    < self@.services.len(),
                None => find_name(self@.services, name@) is None,
            },
    {
        let mut i: usize = 0;
        while i < self.services.len()
            invariant
                i <= self@.services.len(),
                find_name(self@.services, name@) == find_name_from(self@.services, name@, i as int),
            decreases self@.services.len() - i,
        {
            if names_equal(&self.services[i].name, name) {
                assert(self@.services[i as int].name == name@);
                return Some(i);
            }
            assert(self@.services[i as int].name != name@);
            i = i + 1;
        }
        None
    }
}

} // verus!
