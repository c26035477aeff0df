//! The ServiceConfig rumor.
//!
//! Holds the TOML configuration injected for a service group.
use vstd::prelude::*;

use crate::error::{Error, Field};
use crate::ids::{bytes_eq, text_eq};
use crate::proto;
use crate::rumor::RumorType;
use crate::text::{is_utf8_text, parse_toml_table, toml_table_parses, utf8_text};
use core::cmp::Ordering;

verus! {

/// The configuration of a service group.
#[derive(Clone, Debug)]
pub struct ServiceConfig {
    pub from_id: String,
    pub service_group: String,
    pub incarnation: u64,
    pub encrypted: bool,
    pub config: Vec<u8>,
}

impl PartialEq for ServiceConfig {
    fn eq(&self, other: &ServiceConfig) -> (r: bool) {
        text_eq(&self.service_group, &other.service_group) && self.incarnation
            == other.incarnation && self.encrypted == other.encrypted && bytes_eq(
            &self.config,
            &other.config,
        )
    }
}

impl vstd::std_specs::cmp::PartialEqSpecImpl for ServiceConfig {
    open spec fn obeys_eq_spec() -> bool {
        true
    }

    open spec fn eq_spec(&self, other: &ServiceConfig) -> bool {
        &&& self.service_group@ == other.service_group@
        &&& self.incarnation == other.incarnation
        &&& self.encrypted == other.encrypted
        &&& self.config@ == other.config@
    }
}

impl PartialOrd for ServiceConfig {
    fn partial_cmp(&self, other: &ServiceConfig) -> (r: Option<Ordering>) {
        if !text_eq(&self.service_group, &other.service_group) {
            None
        } else if self.incarnation < other.incarnation {
            Some(Ordering::Less)
        } else if self.incarnation > other.incarnation {
            Some(Ordering::Greater)
        } else {
            Some(Ordering::Equal)
        }
    }
}

impl vstd::std_specs::cmp::PartialOrdSpecImpl for ServiceConfig {
    open spec fn obeys_partial_cmp_spec() -> bool {
        true
    }

    open spec fn partial_cmp_spec(&self, other: &ServiceConfig) -> Option<Ordering> {
        if self.service_group@ != other.service_group@ {
            None
        } else if self.incarnation < other.incarnation {
            Some(Ordering::Less)
        } else if self.incarnation > other.incarnation {
            Some(Ordering::Greater)
        } else {
            Some(Ordering::Equal)
        }
    }
}

/// The first field a service configuration record lacks, if any.
pub open spec fn service_config_proto_error(r: proto::Rumor) -> Option<Error> {
    match r.payload {
        Some(proto::rumor::Payload::ServiceConfig(p)) => {
            if r.from_id is None {
                Some(Error::ProtocolMismatch(Field::FromId))
            } else if p.service_group is None {
                Some(Error::ProtocolMismatch(Field::ServiceGroup))
            } else {
                None
            }
        },
        _ => Some(Error::ProtocolMismatch(Field::Payload)),
    }
}

/// `s` is what rumor record `r` decodes to.
pub open spec fn service_config_decoded(r: proto::Rumor, s: ServiceConfig) -> bool {
    service_config_proto_error(r) is None && r.from_id == Some(
        s.from_id,
    ) && match r.payload {
        Some(proto::rumor::Payload::ServiceConfig(p)) => {
            &&& p.service_group == Some(s.service_group)
            &&& s.incarnation == match p.incarnation {
                Some(i) => i,
                None => 0,
            }
            &&& s.encrypted == (p.encrypted == Some(true))
            &&& s.config@ == match p.config {
                Some(c) => c@,
                None => Seq::<u8>::empty(),
            }
        },
        _ => false,
    }
}

/// What `l` becomes on receiving `i`, and whether it changed: a newer
/// incarnation of the same service group wins, anything else changes nothing.
pub open spec fn service_config_merge(l: ServiceConfig, i: ServiceConfig) -> (ServiceConfig, bool) {
    if l.service_group@ == i.service_group@ && i.incarnation > l.incarnation {
        (i, true)
    } else {
        (l, false)
    }
}

/// Merging two rumors of one key into a third gives the same result in
/// either order, unless the two are different rumors of one incarnation.
pub proof fn lemma_service_config_merge_commutes(a: ServiceConfig, b: ServiceConfig, c: ServiceConfig)
    requires
        a.service_group@ == b.service_group@,
        a.service_group@ == c.service_group@,
        b.incarnation != c.incarnation || b == c,
    ensures
        service_config_merge(service_config_merge(a, b).0, c).0 == service_config_merge(service_config_merge(a, c).0, b).0,
{
}

impl ServiceConfig {
    /// A copy of this rumor.
    pub fn duplicate(&self) -> (r: ServiceConfig)
        ensures
            r.from_id == self.from_id && r.service_group == self.service_group && r.incarnation == self.incarnation && r.encrypted == self.encrypted && r.config@ == self.config@,
    {
        ServiceConfig {
            from_id: self.from_id.clone(),
            service_group: self.service_group.clone(),
            incarnation: self.incarnation,
            encrypted: self.encrypted,
            config: crate::ids::copy_bytes(&self.config),
        }
    }

    /// A new, unencrypted configuration in its first incarnation.
    pub fn new(member_id: String, service_group: String, config: Vec<u8>) -> (r: ServiceConfig)
        ensures
            r == (ServiceConfig {
                from_id: member_id,
                service_group,
                incarnation: 0,
                encrypted: false,
                config,
            }),
    {
        ServiceConfig { from_id: member_id, service_group, incarnation: 0, encrypted: false, config }
    }

    /// A newer incarnation for the same service group replaces this one;
    /// anything else changes nothing. Returns whether it was replaced.
    pub fn merge(&mut self, other: ServiceConfig) -> (r: bool)
        ensures
            (*final(self), r) == service_config_merge(*old(self), other),
    {
        if text_eq(&self.service_group, &other.service_group) && other.incarnation
            > self.incarnation {
            *self = other;
            true
        } else {
            false
        }
    }

    /// The configuration as a TOML table. A sealed configuration must be opened
    /// with the service key by its consumer first.
    pub fn config(&self) -> (r: Result<toml::Table, Error>)
        ensures
            self.encrypted ==> r == Err::<toml::Table, Error>(Error::Encrypted),
            !self.encrypted && !is_utf8_text(self.config@) ==> r == Err::<
                toml::Table,
                Error,
            >(Error::ServiceConfigNotUtf8),
            !self.encrypted && is_utf8_text(self.config@) ==> (r is Ok <==> toml_table_parses(
                vstd::utf8::decode_utf8(self.config@),
            )),
            r is Err ==> r == Err::<toml::Table, Error>(Error::Encrypted) || r == Err::<
                toml::Table,
                Error,
            >(Error::ServiceConfigNotUtf8) || r == Err::<toml::Table, Error>(
                Error::ServiceConfigDecode,
            ),
            !self.encrypted && is_utf8_text(self.config@) && r is Err ==> r == Err::<
                toml::Table,
                Error,
            >(Error::ServiceConfigDecode),
    {
        if self.encrypted {
            return Err(Error::Encrypted);
        }
        match utf8_text(self.config.as_slice()) {
            None => Err(Error::ServiceConfigNotUtf8),
            Some(text) => match parse_toml_table(text) {
                Some(table) => Ok(table),
                None => Err(Error::ServiceConfigDecode),
            },
        }
    }

    /// Checks a rumor record that must carry a service configuration.
    pub fn from_proto(rumor: proto::Rumor) -> (r: Result<ServiceConfig, Error>)
        ensures
            match r {
                Ok(s) => service_config_decoded(rumor, s),
                Err(e) => service_config_proto_error(rumor) == Some(e),
            },
    {
        let p = match rumor.payload {
            Some(proto::rumor::Payload::ServiceConfig(p)) => p,
            _ => return Err(Error::ProtocolMismatch(Field::Payload)),
        };
        let from_id = match rumor.from_id {
            Some(f) => f,
            None => return Err(Error::ProtocolMismatch(Field::FromId)),
        };
        let service_group = match p.service_group {
            Some(sg) => sg,
            None => return Err(Error::ProtocolMismatch(Field::ServiceGroup)),
        };
        let config = match p.config {
            Some(c) => c,
            None => Vec::new(),
        };
        Ok(
            ServiceConfig {
                from_id,
                service_group,
                incarnation: match p.incarnation {
                    Some(i) => i,
                    None => 0,
                },
                encrypted: p.encrypted == Some(true),
                config,
            },
        )
    }

    /// The rumor record of this configuration, sent in the name of its author.
    pub fn to_proto(self) -> (r: proto::Rumor)
        ensures
            r.type_ == proto::rumor::Type::ServiceConfig.spec_number(),
            r.tag@.len() == 0,
            r.from_id == Some(self.from_id),
            r.payload == Some(
                proto::rumor::Payload::ServiceConfig(
                    proto::ServiceConfig {
                        service_group: Some(self.service_group),
                        incarnation: Some(self.incarnation),
                        encrypted: Some(self.encrypted),
                        config: Some(self.config),
                    },
                ),
            ),
    {
        proto::Rumor {
            type_: proto::rumor::Type::ServiceConfig.to_i32(),
            tag: Vec::new(),
            from_id: Some(self.from_id),
            payload: Some(
                proto::rumor::Payload::ServiceConfig(
                    proto::ServiceConfig {
                        service_group: Some(self.service_group),
                        incarnation: Some(self.incarnation),
                        encrypted: Some(self.encrypted),
                        config: Some(self.config),
                    },
                ),
            ),
        }
    }

    /// The kind of rumor a configuration is.
    pub fn kind(&self) -> (r: RumorType)
        ensures
            r == RumorType::ServiceConfig,
    {
        RumorType::ServiceConfig
    }

    /// There is one configuration per service group.
    pub fn id(&self) -> (r: &'static str)
        ensures
            r@ == "service_config"@,
    {
        "service_config"
    }

    /// Configurations are filed under their service group.
    pub fn key(&self) -> (r: &str)
        ensures
            r@ == self.service_group@,
    {
        self.service_group.as_str()
    }
}

} // verus!
