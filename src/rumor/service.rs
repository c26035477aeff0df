//! The Service rumor.
//!
//! A service rumor declares that a member runs a service in a service group.
use vstd::prelude::*;

use crate::error::{Error, Field};
use crate::ids::{bytes_eq, text_eq};
use crate::proto;
use crate::rumor::RumorType;
use crate::text::toml_table_bytes;
use core::cmp::Ordering;

verus! {

pub use crate::proto::SysInfo;

/// A service that a member runs.
#[derive(Clone, Debug)]
pub struct Service {
    pub member_id: String,
    pub service_group: String,
    pub incarnation: u64,
    pub initialized: bool,
    pub pkg: String,
    pub cfg: Vec<u8>,
    pub sys: SysInfo,
}

/// The parts of `s` between occurrences of `c`, in order.
pub open spec fn split_text(s: Seq<char>, c: char) -> Seq<Seq<char>>
    decreases s.len(),
{
    if s.len() == 0 {
        seq![Seq::empty()]
    } else {
        let rest = split_text(s.drop_last(), c);
        if s.last() == c {
            rest.push(Seq::empty())
        } else {
            rest.update(rest.len() - 1, rest.last().push(s.last()))
        }
    }
}

/// A package identifier is fully qualified when it names an origin, a name,
/// a version and a release, as `origin/name/version/release`.
pub open spec fn fully_qualified(pkg: Seq<char>) -> bool {
    let parts = split_text(pkg, '/');
    parts.len() == 4 && forall|i: int| 0 <= i < 4 ==> (#[trigger] parts[i]).len() > 0
}

/// The name of a package: the second part of its identifier.
pub open spec fn package_name(pkg: Seq<char>) -> Seq<char> {
    split_text(pkg, '/')[1]
}

/// The service of a service group `service.group@organization`.
pub open spec fn service_of_group(service_group: Seq<char>) -> Seq<char> {
    split_text(service_group, '.')[0]
}

/// Two service rumors can be compared when they are of the same member and group.
pub open spec fn services_comparable(a: Service, b: Service) -> bool {
    a.member_id@ == b.member_id@ && a.service_group@ == b.service_group@
}

impl PartialEq for Service {
    fn eq(&self, other: &Service) -> (r: bool) {
        text_eq(&self.member_id, &other.member_id) && text_eq(
            &self.service_group,
            &other.service_group,
        ) && self.incarnation == other.incarnation
    }
}

impl vstd::std_specs::cmp::PartialEqSpecImpl for Service {
    open spec fn obeys_eq_spec() -> bool {
        true
    }

    open spec fn eq_spec(&self, other: &Service) -> bool {
        services_comparable(*self, *other) && self.incarnation == other.incarnation
    }
}

impl PartialOrd for Service {
    fn partial_cmp(&self, other: &Service) -> (r: Option<Ordering>) {
        if !text_eq(&self.member_id, &other.member_id) || !text_eq(
            &self.service_group,
            &other.service_group,
        ) {
            None
        } else if self.incarnation < other.incarnation {
            Some(Ordering::Less)
        } else if self.incarnation > other.incarnation {
            Some(Ordering::Greater)
        } else {
            Some(Ordering::Equal)
        }
    }
}

impl vstd::std_specs::cmp::PartialOrdSpecImpl for Service {
    open spec fn obeys_partial_cmp_spec() -> bool {
        true
    }

    open spec fn partial_cmp_spec(&self, other: &Service) -> Option<Ordering> {
        if !services_comparable(*self, *other) {
            None
        } else if self.incarnation < other.incarnation {
            Some(Ordering::Less)
        } else if self.incarnation > other.incarnation {
            Some(Ordering::Greater)
        } else {
            Some(Ordering::Equal)
        }
    }
}

/// The first field a service record lacks, if any.
pub open spec fn service_proto_error(r: proto::Rumor) -> Option<Error> {
    match r.payload {
        Some(proto::rumor::Payload::Service(p)) => {
            if p.member_id is None {
                Some(Error::ProtocolMismatch(Field::MemberId))
            } else if p.service_group is None {
                Some(Error::ProtocolMismatch(Field::ServiceGroup))
            } else if p.pkg is None {
                Some(Error::ProtocolMismatch(Field::Pkg))
            } else if p.sys is None {
                Some(Error::ProtocolMismatch(Field::Sys))
            } else {
                None
            }
        },
        _ => Some(Error::ProtocolMismatch(Field::Payload)),
    }
}

/// `s` is what rumor record `r` decodes to.
pub open spec fn service_decoded(r: proto::Rumor, s: Service) -> bool {
    service_proto_error(r) is None && match r.payload {
        Some(proto::rumor::Payload::Service(p)) => {
            &&& p.member_id == Some(s.member_id)
            &&& p.service_group == Some(s.service_group)
            &&& s.incarnation == match p.incarnation {
                Some(i) => i,
                None => 0,
            }
            &&& s.initialized == (p.initialized == Some(true))
            &&& p.pkg == Some(s.pkg)
            &&& s.cfg@ == match p.cfg {
                Some(c) => c@,
                None => Seq::<u8>::empty(),
            }
            &&& p.sys == Some(s.sys)
        },
        _ => false,
    }
}

/// What `l` becomes on receiving `i`, and whether it changed: a newer
/// incarnation of the same member and service group wins, anything else changes nothing.
pub open spec fn service_merge(l: Service, i: Service) -> (Service, bool) {
    if services_comparable(l, i) && i.incarnation > l.incarnation {
        (i, true)
    } else {
        (l, false)
    }
}

/// Merging two rumors of one key into a third gives the same result in
/// either order, unless the two are different rumors of one incarnation.
pub proof fn lemma_service_merge_commutes(a: Service, b: Service, c: Service)
    requires
        services_comparable(a, b),
        services_comparable(a, c),
        b.incarnation != c.incarnation || b == c,
    ensures
        service_merge(service_merge(a, b).0, c).0 == service_merge(service_merge(a, c).0, b).0,
{
}

impl Service {
    /// A copy of this rumor.
    pub fn duplicate(&self) -> (r: Service)
        ensures
            r.member_id == self.member_id && r.service_group == self.service_group && r.incarnation == self.incarnation && r.initialized == self.initialized && r.pkg == self.pkg && r.cfg@ == self.cfg@ && r.sys == self.sys,
    {
        Service {
            member_id: self.member_id.clone(),
            service_group: self.service_group.clone(),
            incarnation: self.incarnation,
            initialized: self.initialized,
            pkg: self.pkg.clone(),
            cfg: crate::ids::copy_bytes(&self.cfg),
            sys: self.sys.duplicate(),
        }
    }

    /// A new service rumor in its first incarnation, not yet initialized.
    /// `pkg` is the fully qualified identifier of the package the service
    /// runs, whose name is the service of `service_group`; `cfg` is its
    /// configuration, kept as TOML text (empty when there is none, or when the
    /// table cannot be written).
    pub fn new(
        member_id: String,
        pkg: String,
        service_group: String,
        sys: SysInfo,
        cfg: Option<&toml::Table>,
    ) -> (r: Service)
        requires
            fully_qualified(pkg@),
            package_name(pkg@) == service_of_group(service_group@),
        ensures
            r.member_id == member_id,
            r.service_group == service_group,
            r.incarnation == 0,
            !r.initialized,
            r.pkg == pkg,
            r.sys == sys,
            cfg is None ==> r.cfg@.len() == 0,
    {
        let cfg = match cfg {
            Some(table) => match toml_table_bytes(table) {
                Some(bytes) => bytes,
                None => Vec::new(),
            },
            None => Vec::new(),
        };
        Service { member_id, service_group, incarnation: 0, initialized: false, pkg, cfg, sys }
    }

    pub fn set_incarnation(&mut self, incarnation: u64)
        ensures
            *final(self) == (Service { incarnation, ..*old(self) }),
    {
        self.incarnation = incarnation;
    }

    pub fn set_service_group(&mut self, service_group: String)
        ensures
            *final(self) == (Service { service_group, ..*old(self) }),
    {
        self.service_group = service_group;
    }

    /// A newer incarnation of the same member's service replaces this one;
    /// anything else changes nothing. Returns whether it was replaced.
    pub fn merge(&mut self, other: Service) -> (r: bool)
        ensures
            (*final(self), r) == service_merge(*old(self), other),
    {
        if text_eq(&self.member_id, &other.member_id) && text_eq(
            &self.service_group,
            &other.service_group,
        ) && other.incarnation > self.incarnation {
            *self = other;
            true
        } else {
            false
        }
    }

    /// Checks a rumor record that must carry a service.
    pub fn from_proto(rumor: proto::Rumor) -> (r: Result<Service, Error>)
        ensures
            match r {
                Ok(s) => service_decoded(rumor, s),
                Err(e) => service_proto_error(rumor) == Some(e),
            },
    {
        let p = match rumor.payload {
            Some(proto::rumor::Payload::Service(p)) => p,
            _ => return Err(Error::ProtocolMismatch(Field::Payload)),
        };
        let member_id = match p.member_id {
            Some(m) => m,
            None => return Err(Error::ProtocolMismatch(Field::MemberId)),
        };
        let service_group = match p.service_group {
            Some(sg) => sg,
            None => return Err(Error::ProtocolMismatch(Field::ServiceGroup)),
        };
        let pkg = match p.pkg {
            Some(pkg) => pkg,
            None => return Err(Error::ProtocolMismatch(Field::Pkg)),
        };
        let sys = match p.sys {
            Some(sys) => sys,
            None => return Err(Error::ProtocolMismatch(Field::Sys)),
        };
        let cfg = match p.cfg {
            Some(c) => c,
            None => Vec::new(),
        };
        Ok(
            Service {
                member_id,
                service_group,
                incarnation: match p.incarnation {
                    Some(i) => i,
                    None => 0,
                },
                initialized: p.initialized == Some(true),
                pkg,
                cfg,
                sys,
            },
        )
    }

    /// The rumor record of this service, sent in the name of its member.
    pub fn to_proto(self) -> (r: proto::Rumor)
        ensures
            r.type_ == proto::rumor::Type::Service.spec_number(),
            r.tag@.len() == 0,
            r.from_id == Some(self.member_id),
            r.payload == Some(
                proto::rumor::Payload::Service(
                    proto::Service {
                        member_id: Some(self.member_id),
                        service_group: Some(self.service_group),
                        incarnation: Some(self.incarnation),
                        initialized: Some(self.initialized),
                        pkg: Some(self.pkg),
                        cfg: Some(self.cfg),
                        sys: Some(self.sys),
                    },
                ),
            ),
    {
        let from_id = self.member_id.clone();
        proto::Rumor {
            type_: proto::rumor::Type::Service.to_i32(),
            tag: Vec::new(),
            from_id: Some(from_id),
            payload: Some(
                proto::rumor::Payload::Service(
                    proto::Service {
                        member_id: Some(self.member_id),
                        service_group: Some(self.service_group),
                        incarnation: Some(self.incarnation),
                        initialized: Some(self.initialized),
                        pkg: Some(self.pkg),
                        cfg: Some(self.cfg),
                        sys: Some(self.sys),
                    },
                ),
            ),
        }
    }

    /// The kind of rumor a service is.
    pub fn kind(&self) -> (r: RumorType)
        ensures
            r == RumorType::Service,
    {
        RumorType::Service
    }

    /// Services are told apart by the member that runs them.
    pub fn id(&self) -> (r: &str)
        ensures
            r@ == self.member_id@,
    {
        self.member_id.as_str()
    }

    /// Services are filed under their service group.
    pub fn key(&self) -> (r: &str)
        ensures
            r@ == self.service_group@,
    {
        self.service_group.as_str()
    }
}

} // verus!
