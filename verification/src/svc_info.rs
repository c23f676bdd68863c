//! Resolution of the backing service's port.
//!
//! The gateway is told the service's name and, optionally, the name of
//! one of its ports. At boot the declared ports of the service are
//! listed and exactly one of them is selected: the named one when a
//! name was given, the first declared one otherwise.

use vstd::prelude::*;

verus! {

/// A port as the service declares it: an optional name and a number.
#[derive(Clone, Debug)]
pub struct ServicePort {
    pub name: Option<String>,
    pub number: u16,
}

/// The resolved port of the backing service: its declared name (empty
/// when the service left the port unnamed) and its number.
#[derive(Debug)]
pub struct ServicePortInfo {
    pub name: String,
    pub number: u16,
}

/// Failure of port resolution; fatal at startup.
#[derive(Clone, Copy, Debug, PartialEq, Eq, Structural)]
pub enum ConfigError {
    /// The service declares no ports at all.
    NoPorts,
    /// No declared port matches the requested name, or none exists to
    /// serve as the default.
    PortNotFound,
}

/// True when the declared port carries exactly the requested name.
pub open spec fn port_name_matches(p: ServicePort, q: Seq<char>) -> bool {
    match p.name {
        Some(n) => n@ == q,
        None => false,
    }
}

/// The declared name of a port, the empty string standing for an
/// unnamed port.
pub open spec fn declared_name(p: ServicePort) -> Seq<char> {
    match p.name {
        Some(n) => n@,
        None => Seq::<char>::empty(),
    }
}

/// What selecting the default (first) port returns: the first declared
/// port, or `PortNotFound` when the list is empty.
pub open spec fn resolves_default(ps: Seq<ServicePort>, r: Result<
    ServicePortInfo,
    ConfigError,
>) -> bool {
    if ps.len() == 0 {
        r == Err::<ServicePortInfo, ConfigError>(ConfigError::PortNotFound)
    } else {
        r matches Ok(info) && info.number == ps[0].number && info.name@ == declared_name(ps[0])
    }
}

/// What selecting a named port returns: the first port of that name,
/// or `PortNotFound` when no declared port carries it.
pub open spec fn resolves_named(ps: Seq<ServicePort>, q: Seq<char>, r: Result<
    ServicePortInfo,
    ConfigError,
>) -> bool {
    &&& (r is Ok <==> exists|i: int| 0 <= i < ps.len() && port_name_matches(ps[i], q))
    &&& (r is Err ==> r == Err::<ServicePortInfo, ConfigError>(ConfigError::PortNotFound))
    &&& (r matches Ok(info) ==> exists|i: int|
        {
            &&& 0 <= i < ps.len()
            &&& port_name_matches(ps[i], q)
            &&& (forall|j: int| 0 <= j < i ==> !port_name_matches(ps[j], q))
            &&& info.number == ps[i].number
            &&& info.name@ == q
        })
}

impl ServicePortInfo {
    /// Select the service port the gateway observes and proxies to.
    ///
    /// `ports` is the service's declared port list, `None` when the
    /// service has no `ports` field. With a requested name the first
    /// port of that name is taken; without one the first declared
    /// port. Missing ports or an unmatched name are configuration
    /// errors.
    pub fn try_new(ports: Option<&Vec<ServicePort>>, port_name: Option<&String>) -> (r: Result<
        ServicePortInfo,
        ConfigError,
    >)
        ensures
            match ports {
                None => r == Err::<ServicePortInfo, ConfigError>(ConfigError::NoPorts),
                Some(ps) => match port_name {
                    None => resolves_default(ps@, r),
                    Some(q) => resolves_named(ps@, q@, r),
                },
            },
    {
        match (ports, port_name) {
            (None, _) => Err(ConfigError::NoPorts),
            (Some(ps), None) => {
                if ps.len() == 0 {
                    Err(ConfigError::PortNotFound)
                } else {
                    let name = match &ps[0].name {
                        Some(n) => n.clone(),
                        None => String::new(),
                    };
                    Ok(ServicePortInfo { name, number: ps[0].number })
                }
            },
            (Some(ps), Some(q)) => {
                let mut i: usize = 0;
                while i < ps.len()
                    invariant
                        ports == Some(ps),
                        port_name == Some(q),
                        0 <= i <= ps@.len(),
                        forall|j: int| 0 <= j < i ==> !port_name_matches(ps@[j], q@),
                    decreases ps@.len() - i,
                {
                    match &ps[i].name {
                        Some(n) => {
                            if *n == *q {
                                proof {
                                    assert(port_name_matches(ps@[i as int], q@));
                                }
                                return Ok(ServicePortInfo { name: n.clone(), number: ps[i].number });
                            }
                        },
                        None => {},
                    }
                    i += 1;
                }
                Err(ConfigError::PortNotFound)
            },
        }
    }
}

} // verus!
