//! The ServiceFile rumor.
//!
//! Holds a file injected for every member of a service group.
use vstd::prelude::*;

use crate::error::{Error, Field};
use crate::ids::{bytes_eq, text_eq};
use crate::proto;
use crate::rumor::RumorType;
use core::cmp::Ordering;

verus! {

/// A file for a service group.
#[derive(Clone, Debug)]
pub struct ServiceFile {
    pub from_id: String,
    pub service_group: String,
    pub incarnation: u64,
    pub encrypted: bool,
    pub filename: String,
    pub body: Vec<u8>,
}

impl PartialEq for ServiceFile {
    fn eq(&self, other: &ServiceFile) -> (r: bool) {
        text_eq(&self.service_group, &other.service_group) && self.incarnation
            == other.incarnation && self.encrypted == other.encrypted && text_eq(
            &self.filename,
            &other.filename,
        ) && bytes_eq(&self.body, &other.body)
    }
}

impl vstd::std_specs::cmp::PartialEqSpecImpl for ServiceFile {
    open spec fn obeys_eq_spec() -> bool {
        true
    }

    open spec fn eq_spec(&self, other: &ServiceFile) -> bool {
        &&& self.service_group@ == other.service_group@
        &&& self.incarnation == other.incarnation
        &&& self.encrypted == other.encrypted
        &&& self.filename@ == other.filename@
        &&& self.body@ == other.body@
    }
}

impl PartialOrd for ServiceFile {
    fn partial_cmp(&self, other: &ServiceFile) -> (r: Option<Ordering>) {
        if !text_eq(&self.service_group, &other.service_group) {
            None
        } else if self.incarnation < other.incarnation {
            Some(Ordering::Less)
        } else if self.incarnation > other.incarnation {
            Some(Ordering::Greater)
        } else {
            Some(Ordering::Equal)
        }
    }
}

impl vstd::std_specs::cmp::PartialOrdSpecImpl for ServiceFile {
    open spec fn obeys_partial_cmp_spec() -> bool {
        true
    }

    open spec fn partial_cmp_spec(&self, other: &ServiceFile) -> Option<Ordering> {
        if self.service_group@ != other.service_group@ {
            None
        } else if self.incarnation < other.incarnation {
            Some(Ordering::Less)
        } else if self.incarnation > other.incarnation {
            Some(Ordering::Greater)
        } else {
            Some(Ordering::Equal)
        }
    }
}

/// The first field a service file record lacks, if any.
pub open spec fn service_file_proto_error(r: proto::Rumor) -> Option<Error> {
    match r.payload {
        Some(proto::rumor::Payload::ServiceFile(p)) => {
            if r.from_id is None {
                Some(Error::ProtocolMismatch(Field::FromId))
            } else if p.service_group is None {
                Some(Error::ProtocolMismatch(Field::ServiceGroup))
            } else if p.filename is None {
                Some(Error::ProtocolMismatch(Field::Filename))
            } else {
                None
            }
        },
        _ => Some(Error::ProtocolMismatch(Field::Payload)),
    }
}

/// `s` is what rumor record `r` decodes to.
pub open spec fn service_file_decoded(r: proto::Rumor, s: ServiceFile) -> bool {
    service_file_proto_error(r) is None && r.from_id == Some(
        s.from_id,
    ) && match r.payload {
        Some(proto::rumor::Payload::ServiceFile(p)) => {
            &&& p.service_group == Some(s.service_group)
            &&& s.incarnation == match p.incarnation {
                Some(i) => i,
                None => 0,
            }
            &&& s.encrypted == (p.encrypted == Some(true))
            &&& p.filename == Some(s.filename)
            &&& s.body@ == match p.body {
                Some(b) => b@,
                None => Seq::<u8>::empty(),
            }
        },
        _ => false,
    }
}

/// What `l` becomes on receiving `i`, and whether it changed: a newer
/// incarnation of the same service group wins, anything else changes nothing.
pub open spec fn service_file_merge(l: ServiceFile, i: ServiceFile) -> (ServiceFile, bool) {
    if l.service_group@ == i.service_group@ && i.incarnation > l.incarnation {
        (i, true)
    } else {
        (l, false)
    }
}

/// Merging two rumors of one key into a third gives the same result in
/// either order, unless the two are different rumors of one incarnation.
pub proof fn lemma_service_file_merge_commutes(a: ServiceFile, b: ServiceFile, c: ServiceFile)
    requires
        a.service_group@ == b.service_group@,
        a.service_group@ == c.service_group@,
        b.incarnation != c.incarnation || b == c,
    ensures
        service_file_merge(service_file_merge(a, b).0, c).0 == service_file_merge(service_file_merge(a, c).0, b).0,
{
}

impl ServiceFile {
    /// A copy of this rumor.
    pub fn duplicate(&self) -> (r: ServiceFile)
        ensures
            r.from_id == self.from_id && r.service_group == self.service_group && r.incarnation == self.incarnation && r.encrypted == self.encrypted && r.filename == self.filename && r.body@ == self.body@,
    {
        ServiceFile {
            from_id: self.from_id.clone(),
            service_group: self.service_group.clone(),
            incarnation: self.incarnation,
            encrypted: self.encrypted,
            filename: self.filename.clone(),
            body: crate::ids::copy_bytes(&self.body),
        }
    }

    /// A new, unencrypted file in its first incarnation.
    pub fn new(member_id: String, service_group: String, filename: String, body: Vec<u8>) -> (r:
        ServiceFile)
        ensures
            r == (ServiceFile {
                from_id: member_id,
                service_group,
                incarnation: 0,
                encrypted: false,
                filename,
                body,
            }),
    {
        ServiceFile {
            from_id: member_id,
            service_group,
            incarnation: 0,
            encrypted: false,
            filename,
            body,
        }
    }

    pub fn set_incarnation(&mut self, incarnation: u64)
        ensures
            *final(self) == (ServiceFile { incarnation, ..*old(self) }),
    {
        self.incarnation = incarnation;
    }

    pub fn set_service_group(&mut self, service_group: String)
        ensures
            *final(self) == (ServiceFile { service_group, ..*old(self) }),
    {
        self.service_group = service_group;
    }

    /// A newer incarnation for the same service group replaces this one;
    /// anything else changes nothing. Returns whether it was replaced.
    pub fn merge(&mut self, other: ServiceFile) -> (r: bool)
        ensures
            (*final(self), r) == service_file_merge(*old(self), other),
    {
        if text_eq(&self.service_group, &other.service_group) && other.incarnation
            > self.incarnation {
            *self = other;
            true
        } else {
            false
        }
    }

    /// A copy of the body. A sealed body must be opened with the service key
    /// by its consumer first.
    pub fn body(&self) -> (r: Result<Vec<u8>, Error>)
        ensures
            self.encrypted ==> r == Err::<Vec<u8>, Error>(Error::Encrypted),
            !self.encrypted ==> (r matches Ok(b) && b@ == self.body@),
    {
        if self.encrypted {
            return Err(Error::Encrypted);
        }
        Ok(crate::ids::copy_bytes(&self.body))
    }

    /// Checks a rumor record that must carry a service file.
    pub fn from_proto(rumor: proto::Rumor) -> (r: Result<ServiceFile, Error>)
        ensures
            match r {
                Ok(s) => service_file_decoded(rumor, s),
                Err(e) => service_file_proto_error(rumor) == Some(e),
            },
    {
        let p = match rumor.payload {
            Some(proto::rumor::Payload::ServiceFile(p)) => p,
            _ => return Err(Error::ProtocolMismatch(Field::Payload)),
        };
        let from_id = match rumor.from_id {
            Some(f) => f,
            None => return Err(Error::ProtocolMismatch(Field::FromId)),
        };
        let service_group = match p.service_group {
            Some(sg) => sg,
            None => return Err(Error::ProtocolMismatch(Field::ServiceGroup)),
        };
        let filename = match p.filename {
            Some(f) => f,
            None => return Err(Error::ProtocolMismatch(Field::Filename)),
        };
        let body = match p.body {
            Some(b) => b,
            None => Vec::new(),
        };
        Ok(
            ServiceFile {
                from_id,
                service_group,
                incarnation: match p.incarnation {
                    Some(i) => i,
                    None => 0,
                },
                encrypted: p.encrypted == Some(true),
                filename,
                body,
            },
        )
    }

    /// The rumor record of this file, sent in the name of its author.
    pub fn to_proto(self) -> (r: proto::Rumor)
        ensures
            r.type_ == proto::rumor::Type::ServiceFile.spec_number(),
            r.tag@.len() == 0,
            r.from_id == Some(self.from_id),
            r.payload == Some(
                proto::rumor::Payload::ServiceFile(
                    proto::ServiceFile {
                        service_group: Some(self.service_group),
                        incarnation: Some(self.incarnation),
                        encrypted: Some(self.encrypted),
                        filename: Some(self.filename),
                        body: Some(self.body),
                    },
                ),
            ),
    {
        proto::Rumor {
            type_: proto::rumor::Type::ServiceFile.to_i32(),
            tag: Vec::new(),
            from_id: Some(self.from_id),
            payload: Some(
                proto::rumor::Payload::ServiceFile(
                    proto::ServiceFile {
                        service_group: Some(self.service_group),
                        incarnation: Some(self.incarnation),
                        encrypted: Some(self.encrypted),
                        filename: Some(self.filename),
                        body: Some(self.body),
                    },
                ),
            ),
        }
    }

    /// The kind of rumor a service file is.
    pub fn kind(&self) -> (r: RumorType)
        ensures
            r == RumorType::ServiceFile,
    {
        RumorType::ServiceFile
    }

    /// Files are told apart by their name.
    pub fn id(&self) -> (r: &str)
        ensures
            r@ == self.filename@,
    {
        self.filename.as_str()
    }

    /// Files are filed under their service group.
    pub fn key(&self) -> (r: &str)
        ensures
            r@ == self.service_group@,
    {
        self.service_group.as_str()
    }
}

} // verus!
