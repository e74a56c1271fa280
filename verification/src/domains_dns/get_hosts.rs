//! `domains.dns.getHosts`: reading the DNS host records of a domain.
use vstd::prelude::*;

use crate::json::{pointer_get, JsonValue};

verus! {

/// The API command that lists the host records of a domain.
pub const GET_HOSTS_COMMAND: &'static str = "namecheap.domains.dns.getHosts";

/// Where the reply lists the host records.
pub open spec fn hosts_path() -> Seq<Seq<char>> {
    seq!["ApiResponse"@, "CommandResponse"@, "DomainDNSGetHostsResult"@, "host"@]
}

/// `v` is the string whose text is `text`.
pub open spec fn is_str_of(v: JsonValue, text: Seq<char>) -> bool {
    match v {
        JsonValue::Str(s) => s@ == text,
        _ => false,
    }
}

/// `v` is the object `{"SLD": sld, "TLD": tld}`.
pub open spec fn is_get_hosts_params(v: JsonValue, sld: Seq<char>, tld: Seq<char>) -> bool {
    match v {
        JsonValue::Object(es) => {
            &&& es@.len() == 2
            &&& es@[0].0@ == "SLD"@ && is_str_of(es@[0].1, sld)
            &&& es@[1].0@ == "TLD"@ && is_str_of(es@[1].1, tld)
        },
        _ => false,
    }
}

/// The parameters of a `getHosts` request: the object
/// `{"SLD": sld, "TLD": tld}`.
pub fn get_hosts_params(sld: &str, tld: &str) -> (params: JsonValue)
    ensures
        is_get_hosts_params(params, sld@, tld@),
{
    let mut es: Vec<(String, JsonValue)> = Vec::new();
    es.push((String::from_str("SLD"), JsonValue::Str(String::from_str(sld))));
    es.push((String::from_str("TLD"), JsonValue::Str(String::from_str(tld))));
    JsonValue::Object(es)
}

/// The host records of a `getHosts` reply: the value at
/// `ApiResponse/CommandResponse/DomainDNSGetHostsResult/host`, or an empty
/// array when the reply has none there.
pub fn extract_hosts(reply: JsonValue) -> (hosts: JsonValue)
    ensures
        match pointer_get(reply, hosts_path()) {
            Some(h) => hosts == h,
            None => hosts matches JsonValue::Array(items) && items@.len() == 0,
        },
{
    match reply.take_path4("ApiResponse", "CommandResponse", "DomainDNSGetHostsResult", "host") {
        Some(h) => h,
        None => JsonValue::Array(Vec::new()),
    }
}

} // verus!
