//! Rendering a resolved configuration out of parsed INI data. Reading the
//! file and the command line happens outside the library; the sections come
//! in as plain key/value lists and every rule applied to them is stated here:
//! which sections and keys are required, how bind addresses are parsed, and
//! which error names the first thing found missing.

use vstd::prelude::*;

use crate::text::{all_digits, digits_val, find_char, first_sep, split_on, split_spec, trim,
    trim_spec};

verus! {

/// One configured service: where callers reach it, which upstream it fronts,
/// and which field path is extracted from the upstream's response.
#[derive(Debug, Clone)]
pub struct Service {
    pub domain: String,
    pub target: String,
    pub endpoint: String,
    pub extract: String,
    pub uri: String,
    pub redirect: String,
}

/// TLS material locations.
#[derive(Debug, Clone)]
pub struct HTTPSConfig {
    pub cert: String,
    pub key: String,
}

/// One IPv4 bind address with its port: the four octets and the port.
#[derive(Debug, Clone, Copy, PartialEq, Eq, Structural)]
pub struct BindAddr {
    pub a: u8,
    pub b: u8,
    pub c: u8,
    pub d: u8,
    pub port: u16,
}

/// The resolved configuration the rest of the system consumes.
#[derive(Debug, Clone)]
pub struct Config {
    pub https: Option<HTTPSConfig>,
    pub routing: Vec<(String, BindAddr)>,
    pub service: Service,
}

/// What is wrong with a configuration; all of these are fatal at startup and
/// none of them is answered by starting to serve.
#[derive(Debug, Clone, PartialEq)]
pub enum ConfigError {
    /// The https section is there but lacks this key.
    MissingHttpsField(String),
    /// No routing section.
    MissingRouting,
    /// This routing entry's address is not an IPv4 address with an optional port.
    InvalidAddress(String),
    /// No service section.
    MissingService,
    /// The service section lacks this key.
    MissingServiceField(String),
}

/// The entries of the first section of that name.
pub open spec fn find_section(
    sections: Seq<(String, Vec<(String, Option<String>)>)>,
    name: Seq<char>,
) -> Option<Vec<(String, Option<String>)>>
    decreases sections.len(),
{
    if sections.len() == 0 {
        None
    } else if sections[0].0@ == name {
        Some(sections[0].1)
    } else {
        find_section(sections.drop_first(), name)
    }
}

/// The value of the first key of that name.
pub open spec fn find_key(entries: Seq<(String, Option<String>)>, name: Seq<char>) -> Option<
    Option<String>,
>
    decreases entries.len(),
{
    if entries.len() == 0 {
        None
    } else if entries[0].0@ == name {
        Some(entries[0].1)
    } else {
        find_key(entries.drop_first(), name)
    }
}

/// A decimal IPv4 octet: non-empty digits, no leading zero, at most 255.
pub open spec fn valid_octet(s: Seq<char>) -> bool {
    s.len() > 0 && all_digits(s) && (s.len() == 1 || s[0] != '0') && digits_val(s) <= 255
}

/// An IPv4 address in dotted decimal: exactly four valid octets.
pub open spec fn ipv4_spec(s: Seq<char>) -> Option<(u8, u8, u8, u8)> {
    let parts = split_spec(s, '.');
    if parts.len() == 4 && valid_octet(parts[0]) && valid_octet(parts[1]) && valid_octet(parts[2])
        && valid_octet(parts[3]) {
        Some(
            (
                digits_val(parts[0]) as u8,
                digits_val(parts[1]) as u8,
                digits_val(parts[2]) as u8,
                digits_val(parts[3]) as u8,
            ),
        )
    } else {
        None
    }
}

/// A port: non-empty digits whose value fits in 16 bits.
pub open spec fn valid_port(s: Seq<char>) -> bool {
    s.len() > 0 && all_digits(s) && digits_val(s) <= 65535
}

/// What one routing entry yields: nothing, a bind address, or a fault.
pub enum RouteParse {
    /// The entry does not name an address this server binds (no port and not
    /// an http or https key): it is passed over.
    Skip,
    /// The entry should name an address but does not parse.
    Bad,
    /// The entry's address.
    Addr(BindAddr),
}

/// How one routing entry is read: `ip:port` when a colon is there; a bare ip
/// with the default port for the `http` and `https` keys; any other key
/// without a port is passed over.
pub open spec fn route_entry_spec(key: Seq<char>, value: Seq<char>) -> RouteParse {
    let i = first_sep(value, ':');
    if i < value.len() {
        match ipv4_spec(value.take(i)) {
            Some(q) => if valid_port(value.skip(i + 1)) {
                RouteParse::Addr(
                    BindAddr {
                        a: q.0,
                        b: q.1,
                        c: q.2,
                        d: q.3,
                        port: digits_val(value.skip(i + 1)) as u16,
                    },
                )
            } else {
                RouteParse::Bad
            },
            None => RouteParse::Bad,
        }
    } else if key == "http"@ {
        match ipv4_spec(value) {
            Some(q) => RouteParse::Addr(BindAddr { a: q.0, b: q.1, c: q.2, d: q.3, port: 80 }),
            None => RouteParse::Bad,
        }
    } else if key == "https"@ {
        match ipv4_spec(value) {
            Some(q) => RouteParse::Addr(BindAddr { a: q.0, b: q.1, c: q.2, d: q.3, port: 443 }),
            None => RouteParse::Bad,
        }
    } else {
        RouteParse::Skip
    }
}

/// The routing table a section's entries yield, in order, entries without a
/// value or without an address of their own passed over; the first entry that
/// should parse and does not names the fault.
pub open spec fn routing_spec(entries: Seq<(String, Option<String>)>) -> Result<
    Seq<(Seq<char>, BindAddr)>,
    Seq<char>,
>
    decreases entries.len(),
{
    if entries.len() == 0 {
        Ok(Seq::empty())
    } else {
        let rest = routing_spec(entries.drop_first());
        match entries[0].1 {
            None => rest,
            Some(v) => match route_entry_spec(entries[0].0@, v@) {
                RouteParse::Skip => rest,
                RouteParse::Bad => Err(entries[0].0@),
                RouteParse::Addr(addr) => match rest {
                    Ok(tail) => Ok(seq![(entries[0].0@, addr)] + tail),
                    Err(e) => Err(e),
                },
            },
        }
    }
}

/// The views of a routing table.
pub open spec fn routing_view(rs: Seq<(String, BindAddr)>) -> Seq<(Seq<char>, BindAddr)> {
    rs.map_values(|p: (String, BindAddr)| (p.0@, p.1))
}

/// The https section is either absent or carries both of its keys.
pub open spec fn https_section_ok(
    sections: Seq<(String, Vec<(String, Option<String>)>)>,
) -> bool {
    match find_section(sections, "https"@) {
        None => true,
        Some(h) => find_key(h@, "cert"@) matches Some(Some(_c)) && find_key(h@, "key"@) matches Some(
            Some(_k),
        ),
    }
}

fn section_lookup<'a>(
    sections: &'a Vec<(String, Vec<(String, Option<String>)>)>,
    name: &str,
) -> (r: Option<&'a Vec<(String, Option<String>)>>)
    ensures
        match r {
            Some(v) => find_section(sections@, name@) == Some(*v),
            None => find_section(sections@, name@) is None,
        },
{
    let n = sections.len();
    let mut i: usize = 0;
    proof {
        assert(sections@.skip(0) =~= sections@);
    }
    while i < n
        invariant
            0 <= i <= n,
            n == sections@.len(),
            find_section(sections@, name@) == find_section(sections@.skip(i as int), name@),
        decreases n - i,
    {
        proof {
            assert(sections@.skip(i as int)[0] == sections@[i as int]);
        }
        if crate::json::str_eq(sections[i].0.as_str(), name) {
            return Some(&sections[i].1);
        }
        proof {
            assert(sections@.skip(i as int).drop_first() =~= sections@.skip(i as int + 1));
        }
        i += 1;
    }
    proof {
        assert(sections@.skip(n as int) =~= Seq::<(String, Vec<(String, Option<String>)>)>::empty());
    }
    None
}

fn key_lookup<'a>(entries: &'a Vec<(String, Option<String>)>, name: &str) -> (r: Option<
    &'a Option<String>,
>)
    ensures
        match r {
            Some(v) => find_key(entries@, name@) == Some(*v),
            None => find_key(entries@, name@) is None,
        },
{
    let n = entries.len();
    let mut i: usize = 0;
    proof {
        assert(entries@.skip(0) =~= entries@);
    }
    while i < n
        invariant
            0 <= i <= n,
            n == entries@.len(),
            find_key(entries@, name@) == find_key(entries@.skip(i as int), name@),
        decreases n - i,
    {
        proof {
            assert(entries@.skip(i as int)[0] == entries@[i as int]);
        }
        if crate::json::str_eq(entries[i].0.as_str(), name) {
            return Some(&entries[i].1);
        }
        proof {
            assert(entries@.skip(i as int).drop_first() =~= entries@.skip(i as int + 1));
        }
        i += 1;
    }
    proof {
        assert(entries@.skip(n as int) =~= Seq::<(String, Option<String>)>::empty());
    }
    None
}

fn parse_octet(s: &str) -> (r: Option<u8>)
    ensures
        match r {
            Some(b) => valid_octet(s@) && b == digits_val(s@),
            None => !valid_octet(s@),
        },
{
    let n = s.unicode_len();
    if n == 0 {
        return None;
    }
    if n > 1 && s.get_char(0) == '0' {
        return None;
    }
    match crate::text::parse_u64(s) {
        Some(v) => if v <= 255 {
            Some(v as u8)
        } else {
            None
        },
        None => None,
    }
}

/// Parses a dotted-decimal IPv4 address.
pub fn parse_ipv4(s: &str) -> (r: Option<(u8, u8, u8, u8)>)
    ensures
        r == ipv4_spec(s@),
{
    let parts = split_on(s, '.');
    proof {
        assert(crate::text::strings_view(parts@).len() == parts@.len());
    }
    if parts.len() != 4 {
        return None;
    }
    proof {
        assert forall|k: int| 0 <= k < 4 implies split_spec(s@, '.')[k] == parts@[k]@ by {
            assert(crate::text::strings_view(parts@)[k] == parts@[k]@);
        }
    }
    let a = match parse_octet(parts[0].as_str()) {
        Some(b) => b,
        None => {
            return None;
        },
    };
    let b = match parse_octet(parts[1].as_str()) {
        Some(x) => x,
        None => {
            return None;
        },
    };
    let c = match parse_octet(parts[2].as_str()) {
        Some(x) => x,
        None => {
            return None;
        },
    };
    let d = match parse_octet(parts[3].as_str()) {
        Some(x) => x,
        None => {
            return None;
        },
    };
    Some((a, b, c, d))
}

fn parse_route_entry(key: &String, value: &String) -> (r: RouteParse)
    ensures
        r == route_entry_spec(key@, value@),
{
    match find_char(value.as_str(), ':') {
        Some(i) => {
            let n = value.as_str().unicode_len();
            let ip_text = value.as_str().substring_char(0, i);
            let port_text = value.as_str().substring_char(i + 1, n);
            proof {
                assert(ip_text@ =~= value@.take(i as int));
                assert(port_text@ =~= value@.skip(i as int + 1));
            }
            match parse_ipv4(ip_text) {
                Some(q) => match crate::text::parse_u64(port_text) {
                    Some(p) => if p <= 65535 {
                        RouteParse::Addr(BindAddr { a: q.0, b: q.1, c: q.2, d: q.3, port: p as u16 })
                    } else {
                        RouteParse::Bad
                    },
                    None => RouteParse::Bad,
                },
                None => RouteParse::Bad,
            }
        },
        None => {
            if crate::json::str_eq(key.as_str(), "http") {
                match parse_ipv4(value.as_str()) {
                    Some(q) => RouteParse::Addr(BindAddr { a: q.0, b: q.1, c: q.2, d: q.3, port: 80 }),
                    None => RouteParse::Bad,
                }
            } else if crate::json::str_eq(key.as_str(), "https") {
                match parse_ipv4(value.as_str()) {
                    Some(q) => RouteParse::Addr(BindAddr { a: q.0, b: q.1, c: q.2, d: q.3, port: 443 }),
                    None => RouteParse::Bad,
                }
            } else {
                RouteParse::Skip
            }
        },
    }
}

fn service_field(svc: &Vec<(String, Option<String>)>, name: &str) -> (r: Result<
    String,
    ConfigError,
>)
    ensures
        match r {
            Ok(v) => find_key(svc@, name@) matches Some(Some(x)) && v@ == x@,
            Err(e) => {
                &&& !(find_key(svc@, name@) matches Some(Some(_x)))
                &&& e matches ConfigError::MissingServiceField(f) && f@ == name@
            },
        },
{
    match key_lookup(svc, name) {
        Some(opt) => match opt {
            Some(x) => Ok(x.clone()),
            None => Err(ConfigError::MissingServiceField(name.to_owned())),
        },
        None => Err(ConfigError::MissingServiceField(name.to_owned())),
    }
}

/// Renders the configuration from parsed INI sections. The https section is
/// optional but must be whole; the routing section is required and each of
/// its addressed entries must parse; the service section is required with all
/// six of its keys. The first thing found missing, in that order, names the
/// error and nothing is served.
pub fn render_config(sections: &Vec<(String, Vec<(String, Option<String>)>)>) -> (r: Result<
    Config,
    ConfigError,
>)
    ensures
        match r {
            Ok(cfg) => {
                &&& https_section_ok(sections@)
                &&& (match find_section(sections@, "https"@) {
                    None => cfg.https is None,
                    Some(h) => {
                        &&& cfg.https matches Some(hc)
                        &&& find_key(h@, "cert"@) matches Some(Some(c)) && hc.cert@ == trim_spec(
                            c@,
                        )
                        &&& find_key(h@, "key"@) matches Some(Some(k)) && hc.key@ == trim_spec(k@)
                    },
                })
                &&& (match find_section(sections@, "routing"@) {
                    Some(entries) => routing_spec(entries@) == Ok::<
                        Seq<(Seq<char>, BindAddr)>,
                        Seq<char>,
                    >(routing_view(cfg.routing@)),
                    None => false,
                })
                &&& (match find_section(sections@, "service"@) {
                    Some(svc) => {
                        &&& find_key(svc@, "domain"@) matches Some(Some(v)) && cfg.service.domain@
                            == v@
                        &&& find_key(svc@, "target"@) matches Some(Some(v)) && cfg.service.target@
                            == v@
                        &&& find_key(svc@, "endpoint"@) matches Some(Some(v))
                            && cfg.service.endpoint@ == v@
                        &&& find_key(svc@, "redirect"@) matches Some(Some(v))
                            && cfg.service.redirect@ == v@
                        &&& find_key(svc@, "uri"@) matches Some(Some(v)) && cfg.service.uri@ == v@
                        &&& find_key(svc@, "extract"@) matches Some(Some(v))
                            && cfg.service.extract@ == v@
                    },
                    None => false,
                })
            },
            Err(e) => match e {
                ConfigError::MissingHttpsField(f) => (match find_section(
                    sections@,
                    "https"@,
                ) {
                    Some(h) => (f@ == "cert"@ && !(find_key(h@, "cert"@) matches Some(Some(_c))))
                        || (f@ == "key"@ && (find_key(h@, "cert"@) matches Some(Some(_c))) && !(
                    find_key(h@, "key"@) matches Some(Some(_k)))),
                    None => false,
                }),
                ConfigError::MissingRouting => https_section_ok(sections@) && find_section(
                    sections@,
                    "routing"@,
                ) is None,
                ConfigError::InvalidAddress(k) => {
                    &&& https_section_ok(sections@)
                    &&& (match find_section(sections@, "routing"@) {
                        Some(entries) => routing_spec(entries@) == Err::<
                            Seq<(Seq<char>, BindAddr)>,
                            Seq<char>,
                        >(k@),
                        None => false,
                    })
                },
                ConfigError::MissingService => {
                    &&& https_section_ok(sections@)
                    &&& (match find_section(sections@, "routing"@) {
                        Some(entries) => routing_spec(entries@) is Ok,
                        None => false,
                    })
                    &&& find_section(sections@, "service"@) is None
                },
                ConfigError::MissingServiceField(f) => {
                    &&& https_section_ok(sections@)
                    &&& (match find_section(sections@, "routing"@) {
                        Some(entries) => routing_spec(entries@) is Ok,
                        None => false,
                    })
                    &&& (match find_section(sections@, "service"@) {
                        Some(svc) => {
                            ||| f@ == "domain"@ && !(find_key(svc@, "domain"@) matches Some(
                                Some(_v),
                            ))
                            ||| f@ == "target"@ && (find_key(svc@, "domain"@) matches Some(
                                Some(_v),
                            )) && !(find_key(svc@, "target"@) matches Some(Some(_v)))
                            ||| f@ == "endpoint"@ && (find_key(svc@, "target"@) matches Some(
                                Some(_v),
                            )) && !(find_key(svc@, "endpoint"@) matches Some(Some(_v)))
                            ||| f@ == "redirect"@ && (find_key(svc@, "endpoint"@) matches Some(
                                Some(_v),
                            )) && !(find_key(svc@, "redirect"@) matches Some(Some(_v)))
                            ||| f@ == "uri"@ && (find_key(svc@, "redirect"@) matches Some(
                                Some(_v),
                            )) && !(find_key(svc@, "uri"@) matches Some(Some(_v)))
                            ||| f@ == "extract"@ && (find_key(svc@, "uri"@) matches Some(Some(_v)))
                                && !(find_key(svc@, "extract"@) matches Some(Some(_v)))
                        },
                        None => false,
                    })
                },
            },
        },
{
    let https = match section_lookup(sections, "https") {
        Some(h) => {
            let cert = match key_lookup(h, "cert") {
                Some(opt) => match opt {
                    Some(c) => c.clone(),
                    None => {
                        return Err(ConfigError::MissingHttpsField(String::from_str("cert")));
                    },
                },
                None => {
                    return Err(ConfigError::MissingHttpsField(String::from_str("cert")));
                },
            };
            let key = match key_lookup(h, "key") {
                Some(opt) => match opt {
                    Some(k) => k.clone(),
                    None => {
                        return Err(ConfigError::MissingHttpsField(String::from_str("key")));
                    },
                },
                None => {
                    return Err(ConfigError::MissingHttpsField(String::from_str("key")));
                },
            };
            Some(HTTPSConfig { cert: trim(cert.as_str()), key: trim(key.as_str()) })
        },
        None => None,
    };
    let entries = match section_lookup(sections, "routing") {
        Some(e) => e,
        None => {
            return Err(ConfigError::MissingRouting);
        },
    };
    let n = entries.len();
    let mut routing: Vec<(String, BindAddr)> = Vec::new();
    let mut i: usize = 0;
    proof {
        assert(entries@.skip(0) =~= entries@);
        assert(routing_view(routing@) =~= Seq::<(Seq<char>, BindAddr)>::empty());
    }
    while i < n
        invariant
            0 <= i <= n,
            n == entries@.len(),
            https_section_ok(sections@),
            find_section(sections@, "routing"@) == Some(*entries),
            routing_spec(entries@.skip(i as int)) matches Ok(tail) ==> routing_spec(entries@)
                == Ok::<Seq<(Seq<char>, BindAddr)>, Seq<char>>(routing_view(routing@) + tail),
            routing_spec(entries@.skip(i as int)) matches Err(e) ==> routing_spec(entries@)
                == Err::<Seq<(Seq<char>, BindAddr)>, Seq<char>>(e),
        decreases n - i,
    {
        proof {
            assert(entries@.skip(i as int)[0] == entries@[i as int]);
            assert(entries@.skip(i as int).drop_first() =~= entries@.skip(i as int + 1));
        }
        match &entries[i].1 {
            Some(v) => {
                match parse_route_entry(&entries[i].0, v) {
                    RouteParse::Skip => {},
                    RouteParse::Bad => {
                        return Err(ConfigError::InvalidAddress(entries[i].0.clone()));
                    },
                    RouteParse::Addr(addr) => {
                        let ghost old_routing = routing@;
                        routing.push((entries[i].0.clone(), addr));
                        proof {
                            assert(routing_view(routing@) =~= routing_view(old_routing).push(
                                (entries@[i as int].0@, addr),
                            ));
                            if routing_spec(entries@.skip(i as int + 1)) is Ok {
                                let tail = routing_spec(entries@.skip(i as int + 1))->Ok_0;
                                assert(routing_view(old_routing) + (seq![
                                    (entries@[i as int].0@, addr),
                                ] + tail) =~= routing_view(routing@) + tail);
                            }
                        }
                    },
                }
            },
            None => {},
        }
        i += 1;
    }
    proof {
        assert(entries@.skip(n as int) =~= Seq::<(String, Option<String>)>::empty());
        assert(routing_view(routing@) + Seq::<(Seq<char>, BindAddr)>::empty() =~= routing_view(
            routing@,
        ));
    }
    let svc = match section_lookup(sections, "service") {
        Some(s) => s,
        None => {
            return Err(ConfigError::MissingService);
        },
    };
    let domain = match service_field(svc, "domain") {
        Ok(v) => v,
        Err(e) => {
            return Err(e);
        },
    };
    let target = match service_field(svc, "target") {
        Ok(v) => v,
        Err(e) => {
            return Err(e);
        },
    };
    let endpoint = match service_field(svc, "endpoint") {
        Ok(v) => v,
        Err(e) => {
            return Err(e);
        },
    };
    let redirect = match service_field(svc, "redirect") {
        Ok(v) => v,
        Err(e) => {
            return Err(e);
        },
    };
    let uri = match service_field(svc, "uri") {
        Ok(v) => v,
        Err(e) => {
            return Err(e);
        },
    };
    let extract = match service_field(svc, "extract") {
        Ok(v) => v,
        Err(e) => {
            return Err(e);
        },
    };
    Ok(
        Config {
            https,
            routing,
            service: Service { domain, target, endpoint, extract, uri, redirect },
        },
    )
}

/// The HTTPS URL an HTTP request is redirected to: the scheme, the configured
/// host, then the request's own path.
pub fn http_upgrade_url(uri: &str, path: &str) -> (r: String)
    ensures
        r@ == "https://"@ + uri@ + path@,
{
    let mut out = String::new();
    out.append("https://");
    out.append(uri);
    out.append(path);
    out
}

} // verus!
