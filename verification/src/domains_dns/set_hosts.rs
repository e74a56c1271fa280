//! `domains.dns.setHosts`: replacing the DNS host records of a domain with
//! its current records followed by new ones.
use vstd::prelude::*;

use crate::json::{lemma_lookup_at, obj_get, pointer_get, str_or, JsonValue};
use crate::{api_url_for, NameCheapClient, NAMECHEAP_API_URL, NAMECHEAP_SANDBOX_API_URL};
use crate::text::{decimal, decimal_spec, join, join_spec, replace_all, replace_spec, views_of};

verus! {

/// The parameters of one DNS host record to add.
#[derive(Debug, Clone, PartialEq, Eq)]
pub struct HostRequest {
    pub host_name: String,
    pub record_type: String,
    pub address: String,
    pub mx_pref: Option<String>,
    pub email_type: Option<String>,
    pub ttl: Option<String>,
    pub flag: Option<String>,
    pub tag: Option<String>,
}

impl HostRequest {
    /// Gathers the parameters of a host record.
    pub fn new(
        host_name: String,
        record_type: String,
        address: String,
        mx_pref: Option<String>,
        email_type: Option<String>,
        ttl: Option<String>,
        flag: Option<String>,
        tag: Option<String>,
    ) -> (req: Self)
        ensures
            req.host_name == host_name,
            req.record_type == record_type,
            req.address == address,
            req.mx_pref == mx_pref,
            req.email_type == email_type,
            req.ttl == ttl,
            req.flag == flag,
            req.tag == tag,
    {
        HostRequest { host_name, record_type, address, mx_pref, email_type, ttl, flag, tag }
    }
}

/// An optional text as JSON: the string, or `null` when absent.
pub open spec fn opt_json(o: Option<String>) -> JsonValue {
    match o {
        Some(s) => JsonValue::Str(s),
        None => JsonValue::Null,
    }
}

/// `v` is the JSON object that describes the host record `h`: its members,
/// in key order, are `Address`, `EmailType`, `Flag`, `HostName`, `MXPref`,
/// `RecordType`, `TTL` and `Tag`.
pub open spec fn is_host_json(v: JsonValue, h: HostRequest) -> bool {
    match v {
        JsonValue::Object(es) => {
            &&& es@.len() == 8
            &&& es@[0].0@ == "Address"@ && es@[0].1 == JsonValue::Str(h.address)
            &&& es@[1].0@ == "EmailType"@ && es@[1].1 == opt_json(h.email_type)
            &&& es@[2].0@ == "Flag"@ && es@[2].1 == opt_json(h.flag)
            &&& es@[3].0@ == "HostName"@ && es@[3].1 == JsonValue::Str(h.host_name)
            &&& es@[4].0@ == "MXPref"@ && es@[4].1 == opt_json(h.mx_pref)
            &&& es@[5].0@ == "RecordType"@ && es@[5].1 == JsonValue::Str(h.record_type)
            &&& es@[6].0@ == "TTL"@ && es@[6].1 == opt_json(h.ttl)
            &&& es@[7].0@ == "Tag"@ && es@[7].1 == opt_json(h.tag)
        },
        _ => false,
    }
}

fn clone_opt(o: &Option<String>) -> (res: Option<String>)
    ensures
        res == *o,
{
    match o {
        Some(s) => Some(s.clone()),
        None => None,
    }
}

fn opt_to_json(o: &Option<String>) -> (res: JsonValue)
    ensures
        res == opt_json(*o),
{
    match clone_opt(o) {
        Some(s) => JsonValue::Str(s),
        None => JsonValue::Null,
    }
}

impl HostRequest {
    /// The JSON object that describes this record.
    pub fn to_json(&self) -> (v: JsonValue)
        ensures
            is_host_json(v, *self),
    {
        let mut es: Vec<(String, JsonValue)> = Vec::new();
        es.push((String::from_str("Address"), JsonValue::Str(self.address.clone())));
        es.push((String::from_str("EmailType"), opt_to_json(&self.email_type)));
        es.push((String::from_str("Flag"), opt_to_json(&self.flag)));
        es.push((String::from_str("HostName"), JsonValue::Str(self.host_name.clone())));
        es.push((String::from_str("MXPref"), opt_to_json(&self.mx_pref)));
        es.push((String::from_str("RecordType"), JsonValue::Str(self.record_type.clone())));
        es.push((String::from_str("TTL"), opt_to_json(&self.ttl)));
        es.push((String::from_str("Tag"), opt_to_json(&self.tag)));
        JsonValue::Object(es)
    }
}

/// The records already on the domain: the items of `existing` when it is an
/// array, and none otherwise.
pub open spec fn existing_records(existing: JsonValue) -> Seq<JsonValue> {
    match existing {
        JsonValue::Array(items) => items@,
        _ => Seq::empty(),
    }
}

/// The records to send: the existing ones, unchanged and in order, followed
/// by one object per new record, in order.
pub fn combine_hosts(existing: JsonValue, new_hosts: &Vec<HostRequest>) -> (combined: Vec<
    JsonValue,
>)
    ensures
        combined@.len() == existing_records(existing).len() + new_hosts@.len(),
        combined@.take(existing_records(existing).len() as int) == existing_records(existing),
        match existing {
            JsonValue::Array(items) => combined@.len() == items@.len() + new_hosts@.len()
                && combined@.take(items@.len() as int) == items@,
            _ => combined@.len() == new_hosts@.len(),
        },
        forall|j: int|
            0 <= j < new_hosts@.len() ==> is_host_json(
                #[trigger] combined@[existing_records(existing).len() + j],
                new_hosts@[j],
            ),
{
    let ghost base = existing_records(existing);
    let mut combined: Vec<JsonValue> = match existing {
        JsonValue::Array(items) => items,
        _ => Vec::new(),
    };
    let mut j: usize = 0;
    while j < new_hosts.len()
        invariant
            j <= new_hosts@.len(),
            combined@.len() == base.len() + j,
            combined@.take(base.len() as int) == base,
            forall|k: int|
                0 <= k < j ==> is_host_json(#[trigger] combined@[base.len() + k], new_hosts@[k]),
        decreases new_hosts@.len() - j,
    {
        let ghost before = combined@;
        combined.push(new_hosts[j].to_json());
        assert(combined@.take(base.len() as int) =~= before.take(base.len() as int));
        assert forall|k: int| 0 <= k < j + 1 implies is_host_json(
            #[trigger] combined@[base.len() + k],
            new_hosts@[k],
        ) by {
            if k < j {
                assert(combined@[base.len() + k] == before[base.len() + k]);
            }
        }
        j = j + 1;
    }
    combined
}

// ---------------------------------------------------------------------------
// Reading the fields of a record that the request sends
// ---------------------------------------------------------------------------

/// The fields of a record that the request sends: the host name, record
/// type, address and TTL as text, and the MX preference, email type, flag
/// and tag when the record has them.
pub struct HostFields {
    pub name: Seq<char>,
    pub record_type: Seq<char>,
    pub address: Seq<char>,
    pub ttl: Seq<char>,
    pub mx_pref: Option<Seq<char>>,
    pub email_type: Option<Seq<char>>,
    pub flag: Option<Seq<char>>,
    pub tag: Option<Seq<char>>,
}

/// The member `key` of `host` can be read as text: it is absent or a string.
/// (A member that is present with another kind of value cannot be read.)
pub open spec fn field_readable(host: JsonValue, key: Seq<char>) -> bool {
    match obj_get(host, key) {
        Some(JsonValue::Str(_)) => true,
        Some(_) => false,
        None => true,
    }
}

/// The host name, record type, address and TTL can all be read as text (the
/// optional members are read only when they are strings).
pub open spec fn record_readable(host: JsonValue) -> bool {
    &&& field_readable(host, "HostName"@)
    &&& field_readable(host, "RecordType"@)
    &&& field_readable(host, "Address"@)
    &&& field_readable(host, "TTL"@)
}

/// The text of the member `key`; empty when it is absent.
pub open spec fn field_text(host: JsonValue, key: Seq<char>) -> Seq<char> {
    str_or(obj_get(host, key), Seq::empty())
}

/// The text of the member `key` when it is a string; `None` when it is
/// absent, `null` or of another kind.
pub open spec fn optional_text(host: JsonValue, key: Seq<char>) -> Option<Seq<char>> {
    match obj_get(host, key) {
        Some(JsonValue::Str(s)) => Some(s@),
        _ => None,
    }
}

/// The text of an optional parameter.
pub open spec fn opt_view(o: Option<String>) -> Option<Seq<char>> {
    match o {
        Some(s) => Some(s@),
        None => None,
    }
}

/// The fields of a record that the domain already has: its host name, record
/// type, address and TTL. Such a record is sent with these alone.
pub open spec fn kept_fields(host: JsonValue) -> HostFields {
    HostFields {
        name: field_text(host, "HostName"@),
        record_type: field_text(host, "RecordType"@),
        address: field_text(host, "Address"@),
        ttl: field_text(host, "TTL"@),
        mx_pref: None,
        email_type: None,
        flag: None,
        tag: None,
    }
}

/// The fields of a new record held as JSON: the four texts and the optional
/// parameters that it carries as strings.
pub open spec fn json_fields(host: JsonValue) -> HostFields {
    HostFields {
        name: field_text(host, "HostName"@),
        record_type: field_text(host, "RecordType"@),
        address: field_text(host, "Address"@),
        ttl: field_text(host, "TTL"@),
        mx_pref: optional_text(host, "MXPref"@),
        email_type: optional_text(host, "EmailType"@),
        flag: optional_text(host, "Flag"@),
        tag: optional_text(host, "Tag"@),
    }
}

/// The fields of a new record (its TTL is expected to be present).
pub open spec fn request_fields(h: HostRequest) -> HostFields {
    HostFields {
        name: h.host_name@,
        record_type: h.record_type@,
        address: h.address@,
        ttl: match h.ttl {
            Some(t) => t@,
            None => Seq::empty(),
        },
        mx_pref: opt_view(h.mx_pref),
        email_type: opt_view(h.email_type),
        flag: opt_view(h.flag),
        tag: opt_view(h.tag),
    }
}

/// What the object of a new record yields when the request reads it: its
/// record type, host name and address, and its TTL, which can be read only
/// when it is present.
pub proof fn lemma_host_json_fields(v: JsonValue, h: HostRequest)
    requires
        is_host_json(v, h),
    ensures
        obj_get(v, "HostName"@) == Some(JsonValue::Str(h.host_name)),
        obj_get(v, "RecordType"@) == Some(JsonValue::Str(h.record_type)),
        obj_get(v, "Address"@) == Some(JsonValue::Str(h.address)),
        obj_get(v, "TTL"@) == Some(opt_json(h.ttl)),
        obj_get(v, "MXPref"@) == Some(opt_json(h.mx_pref)),
        obj_get(v, "EmailType"@) == Some(opt_json(h.email_type)),
        obj_get(v, "Flag"@) == Some(opt_json(h.flag)),
        obj_get(v, "Tag"@) == Some(opt_json(h.tag)),
        record_readable(v) <==> h.ttl is Some,
        h.ttl is Some ==> json_fields(v) == request_fields(h),
{
    reveal_strlit("Address");
    reveal_strlit("EmailType");
    reveal_strlit("Flag");
    reveal_strlit("HostName");
    reveal_strlit("MXPref");
    reveal_strlit("RecordType");
    reveal_strlit("TTL");
    reveal_strlit("Tag");
    assert("Address"@.len() == 7);
    assert("EmailType"@.len() == 9);
    assert("Flag"@.len() == 4);
    assert("HostName"@.len() == 8);
    assert("MXPref"@.len() == 6);
    assert("RecordType"@.len() == 10);
    assert("TTL"@.len() == 3);
    if let JsonValue::Object(es) = v {
        let s = es@;
        lemma_lookup_at(s, "Address"@, 0);
        assert forall|j: int| 0 <= j < 3 implies #[trigger] s[j].0@ != "HostName"@ by {
            if j == 0 {
            } else if j == 1 {
            } else {
            }
        }
        lemma_lookup_at(s, "HostName"@, 3);
        assert forall|j: int| 0 <= j < 5 implies #[trigger] s[j].0@ != "RecordType"@ by {
            if j == 0 {
            } else if j == 1 {
            } else if j == 2 {
            } else if j == 3 {
            } else {
            }
        }
        lemma_lookup_at(s, "RecordType"@, 5);
        assert forall|j: int| 0 <= j < 6 implies #[trigger] s[j].0@ != "TTL"@ by {
            if j == 0 {
            } else if j == 1 {
            } else if j == 2 {
            } else if j == 3 {
            } else if j == 4 {
            } else {
            }
        }
        lemma_lookup_at(s, "TTL"@, 6);
        assert forall|j: int| 0 <= j < 1 implies #[trigger] s[j].0@ != "EmailType"@ by {}
        lemma_lookup_at(s, "EmailType"@, 1);
        assert forall|j: int| 0 <= j < 2 implies #[trigger] s[j].0@ != "Flag"@ by {
            if j == 0 {
            } else {
            }
        }
        lemma_lookup_at(s, "Flag"@, 2);
        assert forall|j: int| 0 <= j < 4 implies #[trigger] s[j].0@ != "MXPref"@ by {
            if j == 0 {
            } else if j == 1 {
            } else if j == 2 {
            } else {
            }
        }
        lemma_lookup_at(s, "MXPref"@, 4);
        assert("TTL"@[1] != "Tag"@[1]);
        assert forall|j: int| 0 <= j < 7 implies #[trigger] s[j].0@ != "Tag"@ by {
            if j == 0 {
            } else if j == 1 {
            } else if j == 2 {
            } else if j == 3 {
            } else if j == 4 {
            } else if j == 5 {
            } else {
            }
        }
        lemma_lookup_at(s, "Tag"@, 7);
    }
}

/// Reads the member `key` of `host` as text (empty when absent).
fn field_string(host: &JsonValue, key: &str) -> (s: String)
    requires
        field_readable(*host, key@),
    ensures
        s@ == field_text(*host, key@),
{
    match host.get(key) {
        Some(v) => match v.as_str() {
            Some(text) => text.clone(),
            None => String::new(),
        },
        None => String::new(),
    }
}

// ---------------------------------------------------------------------------
// The XML lines of the records
// ---------------------------------------------------------------------------

/// An optional attribute: `prefix`, the text and a closing quote when the
/// value is present, and nothing otherwise.
pub open spec fn optional_attr_spec(prefix: Seq<char>, value: Option<Seq<char>>) -> Seq<char> {
    match value {
        Some(text) => prefix + text + "\""@,
        None => Seq::empty(),
    }
}

/// The XML element that describes a record with the given (1-based) id:
/// its name, type, address and TTL, then its MX preference, email type,
/// flag and tag for those it has.
pub open spec fn host_line_spec(id: nat, f: HostFields) -> Seq<char> {
    "<Host HostId=\""@ + decimal_spec(id) + "\" Name=\""@ + f.name + "\" Type=\""@
        + f.record_type + "\" Address=\""@ + f.address + "\" TTL=\""@ + f.ttl + "\""@
        + optional_attr_spec(" MXPref=\""@, f.mx_pref) + optional_attr_spec(
        " EmailType=\""@,
        f.email_type,
    ) + optional_attr_spec(" Flag=\""@, f.flag) + optional_attr_spec(" Tag=\""@, f.tag)
        + " />"@
}

/// One element per record, numbered from 1 in order.
pub open spec fn host_lines_spec(fs: Seq<HostFields>) -> Seq<Seq<char>> {
    Seq::new(fs.len(), |i: int| host_line_spec((i + 1) as nat, fs[i]))
}

/// The elements of all records, one per line.
pub open spec fn hosts_xml_spec(fs: Seq<HostFields>) -> Seq<char> {
    join_spec(host_lines_spec(fs), "\n"@)
}

/// The fields of each record of a list whose first `kept` records are the
/// domain's own and whose others are new.
pub open spec fn record_fields(hosts: Seq<JsonValue>, kept: int) -> Seq<HostFields> {
    Seq::new(
        hosts.len(),
        |i: int|
            if i < kept {
                kept_fields(hosts[i])
            } else {
                json_fields(hosts[i])
            },
    )
}

/// Appends the attribute for the member `key` of `host` when it is a string.
fn append_optional_attr(s: &mut String, host: &JsonValue, key: &str, prefix: &str)
    ensures
        final(s)@ == old(s)@ + optional_attr_spec(prefix@, optional_text(*host, key@)),
{
    match host.get(key) {
        Some(v) => match v.as_str() {
            Some(text) => {
                s.append(prefix);
                s.append(text.as_str());
                s.append("\"");
            },
            None => {
                assert(old(s)@ + Seq::<char>::empty() =~= old(s)@);
            },
        },
        None => {
            assert(old(s)@ + Seq::<char>::empty() =~= old(s)@);
        },
    }
}

/// Renders the element of one record; the optional parameters are written
/// only for a new record.
fn host_line(id: usize, host: &JsonValue, is_new: bool) -> (s: String)
    requires
        record_readable(*host),
    ensures
        s@ == host_line_spec(
            id as nat,
            if is_new {
                json_fields(*host)
            } else {
                kept_fields(*host)
            },
        ),
{
    let mut s = String::from_str("<Host HostId=\"");
    s.append(decimal(id).as_str());
    s.append("\" Name=\"");
    s.append(field_string(host, "HostName").as_str());
    s.append("\" Type=\"");
    s.append(field_string(host, "RecordType").as_str());
    s.append("\" Address=\"");
    s.append(field_string(host, "Address").as_str());
    s.append("\" TTL=\"");
    s.append(field_string(host, "TTL").as_str());
    s.append("\"");
    if is_new {
        append_optional_attr(&mut s, host, "MXPref", " MXPref=\"");
        append_optional_attr(&mut s, host, "EmailType", " EmailType=\"");
        append_optional_attr(&mut s, host, "Flag", " Flag=\"");
        append_optional_attr(&mut s, host, "Tag", " Tag=\"");
    }
    s.append(" />");
    s
}

/// Renders the elements of all records, numbered from 1, one per line. The
/// first `kept` records are the domain's own; the others are new.
pub fn render_hosts_xml(hosts: &Vec<JsonValue>, kept: usize) -> (xml: String)
    requires
        forall|i: int| 0 <= i < hosts@.len() ==> record_readable(#[trigger] hosts@[i]),
    ensures
        xml@ == hosts_xml_spec(record_fields(hosts@, kept as int)),
{
    let ghost want = host_lines_spec(record_fields(hosts@, kept as int));
    let mut lines: Vec<String> = Vec::new();
    let mut i: usize = 0;
    while i < hosts.len()
        invariant
            i <= hosts@.len(),
            forall|k: int| 0 <= k < hosts@.len() ==> record_readable(#[trigger] hosts@[k]),
            want == host_lines_spec(record_fields(hosts@, kept as int)),
            views_of(lines@) == want.take(i as int),
        decreases hosts@.len() - i,
    {
        let line = host_line(i + 1, &hosts[i], i >= kept);
        let ghost before = lines@;
        lines.push(line);
        assert(views_of(lines@) =~= views_of(before).push(line@));
        assert(want.take(i + 1) =~= want.take(i as int).push(want[i as int]));
        i = i + 1;
    }
    assert(want.take(hosts@.len() as int) =~= want);
    join(&lines, "\n")
}

// ---------------------------------------------------------------------------
// The request: address and XML document
// ---------------------------------------------------------------------------

/// The API command that replaces the host records of a domain.
pub const SET_HOSTS_COMMAND: &'static str = "namecheap.domains.dns.setHosts";

/// The XML document of the request, with a `{..}` placeholder for each value.
pub const SET_HOSTS_XML_TEMPLATE: &'static str = "\n            <?xml version=\"1.0\" encoding=\"UTF-8\"?>\n            <ApiRequest>\n              <Command>namecheap.domains.dns.setHosts</Command>\n              <ClientIp>{client_ip}</ClientIp>\n              <UserName>{user_name}</UserName>\n              <ApiUser>{api_user}</ApiUser>\n              <ApiKey>{api_key}</ApiKey>\n              <SLD>{sld}</SLD>\n              <TLD>{tld}</TLD>\n              {hosts}\n            </ApiRequest>\n        ";

/// The request document: the template with its placeholders replaced one
/// after another, in the order client IP, user name, API user, API key, SLD,
/// TLD, hosts. Each replacement acts on the text that the previous ones left,
/// inserted values included.
pub open spec fn set_hosts_xml_spec(
    client: NameCheapClient,
    sld: Seq<char>,
    tld: Seq<char>,
    hosts_xml: Seq<char>,
) -> Seq<char> {
    let s1 = replace_spec(SET_HOSTS_XML_TEMPLATE@, "{client_ip}"@, client.client_ip@);
    let s2 = replace_spec(s1, "{user_name}"@, client.user_name@);
    let s3 = replace_spec(s2, "{api_user}"@, client.api_user@);
    let s4 = replace_spec(s3, "{api_key}"@, client.api_key@);
    let s5 = replace_spec(s4, "{sld}"@, sld);
    let s6 = replace_spec(s5, "{tld}"@, tld);
    replace_spec(s6, "{hosts}"@, hosts_xml)
}

/// The address the request is posted to: the address of the client's
/// environment (production or sandbox), then the XML endpoint with the
/// values inserted as they are.
pub open spec fn set_hosts_url_spec(client: NameCheapClient, sld: Seq<char>, tld: Seq<char>) -> Seq<
    char,
> {
    api_url_for(client.production) + "/xml.response?ApiUser="@ + client.api_user@ + "&ApiKey="@
        + client.api_key@ + "&UserName="@ + client.user_name@ + "&Command="@
        + SET_HOSTS_COMMAND@ + "&ClientIp="@ + client.client_ip@ + "&SLD="@ + sld + "&TLD="@ + tld
}

/// The fields of the records that the request sends: those of the existing
/// records, then those of the new ones.
pub open spec fn combined_fields(existing: JsonValue, new_hosts: Seq<HostRequest>) -> Seq<
    HostFields,
> {
    existing_records(existing).map_values(|h: JsonValue| kept_fields(h)) + new_hosts.map_values(
        |h: HostRequest| request_fields(h),
    )
}

/// The inputs on which building the request does not fail: every existing
/// record can be read as text, and every new record has a TTL.
pub open spec fn set_hosts_inputs_ok(existing: JsonValue, new_hosts: Seq<HostRequest>) -> bool {
    &&& forall|i: int|
        0 <= i < existing_records(existing).len() ==> record_readable(
            #[trigger] existing_records(existing)[i],
        )
    &&& forall|j: int| 0 <= j < new_hosts.len() ==> (#[trigger] new_hosts[j]).ttl is Some
}

/// The address and the XML document of a `setHosts` request.
#[derive(Debug, PartialEq, Eq)]
pub struct SetHostsRequest {
    pub url: String,
    pub xml_body: String,
}

impl NameCheapClient {
    /// The request document for the given domain and records XML.
    pub fn set_hosts_xml_body(&self, sld: &str, tld: &str, hosts_xml: &str) -> (body: String)
        ensures
            body@ == set_hosts_xml_spec(*self, sld@, tld@, hosts_xml@),
    {
        proof {
            reveal_strlit("{client_ip}");
            reveal_strlit("{user_name}");
            reveal_strlit("{api_user}");
            reveal_strlit("{api_key}");
            reveal_strlit("{sld}");
            reveal_strlit("{tld}");
            reveal_strlit("{hosts}");
            assert("{client_ip}"@.len() > 0);
            assert("{user_name}"@.len() > 0);
            assert("{api_user}"@.len() > 0);
            assert("{api_key}"@.len() > 0);
            assert("{sld}"@.len() > 0);
            assert("{tld}"@.len() > 0);
            assert("{hosts}"@.len() > 0);
        }
        let b = replace_all(SET_HOSTS_XML_TEMPLATE, "{client_ip}", self.client_ip.as_str());
        let b = replace_all(b.as_str(), "{user_name}", self.user_name.as_str());
        let b = replace_all(b.as_str(), "{api_user}", self.api_user.as_str());
        let b = replace_all(b.as_str(), "{api_key}", self.api_key.as_str());
        let b = replace_all(b.as_str(), "{sld}", sld);
        let b = replace_all(b.as_str(), "{tld}", tld);
        replace_all(b.as_str(), "{hosts}", hosts_xml)
    }

    /// The address the request for the given domain is posted to.
    pub fn set_hosts_url(&self, sld: &str, tld: &str) -> (url: String)
        ensures
            url@ == set_hosts_url_spec(*self, sld@, tld@),
    {
        let mut url = if self.production {
            String::from_str(NAMECHEAP_API_URL)
        } else {
            String::from_str(NAMECHEAP_SANDBOX_API_URL)
        };
        url.append("/xml.response?ApiUser=");
        url.append(self.api_user.as_str());
        url.append("&ApiKey=");
        url.append(self.api_key.as_str());
        url.append("&UserName=");
        url.append(self.user_name.as_str());
        url.append("&Command=");
        url.append(SET_HOSTS_COMMAND);
        url.append("&ClientIp=");
        url.append(self.client_ip.as_str());
        url.append("&SLD=");
        url.append(sld);
        url.append("&TLD=");
        url.append(tld);
        url
    }

    /// Builds the `setHosts` request that keeps the domain's `existing`
    /// records (as read from it) and adds `new_hosts` after them.
    pub fn prepare_set_hosts(
        &self,
        sld: &str,
        tld: &str,
        existing: JsonValue,
        new_hosts: &Vec<HostRequest>,
    ) -> (req: SetHostsRequest)
        requires
            set_hosts_inputs_ok(existing, new_hosts@),
        ensures
            req.url@ == set_hosts_url_spec(*self, sld@, tld@),
            req.xml_body@ == set_hosts_xml_spec(
                *self,
                sld@,
                tld@,
                hosts_xml_spec(combined_fields(existing, new_hosts@)),
            ),
    {
        let ghost base = existing_records(existing);
        let kept: usize = match &existing {
            JsonValue::Array(items) => items.len(),
            _ => 0,
        };
        let combined = combine_hosts(existing, new_hosts);
        assert forall|i: int| 0 <= i < combined@.len() implies record_readable(
            #[trigger] combined@[i],
        ) by {
            if i < base.len() {
                assert(combined@[i] == combined@.take(base.len() as int)[i]);
            } else {
                let j = i - base.len();
                assert(combined@[base.len() + j] == combined@[i]);
                lemma_host_json_fields(combined@[i], new_hosts@[j]);
            }
        }
        assert(record_fields(combined@, kept as int) =~= combined_fields(existing, new_hosts@)) by {
            assert forall|i: int| 0 <= i < combined@.len() implies #[trigger] record_fields(
                combined@,
                kept as int,
            )[i] == combined_fields(existing, new_hosts@)[i] by {
                if i < base.len() {
                    assert(combined@[i] == combined@.take(base.len() as int)[i]);
                } else {
                    let j = i - base.len();
                    assert(combined@[base.len() + j] == combined@[i]);
                    lemma_host_json_fields(combined@[i], new_hosts@[j]);
                }
            }
        }
        let hosts_xml = render_hosts_xml(&combined, kept);
        let xml_body = self.set_hosts_xml_body(sld, tld, hosts_xml.as_str());
        let url = self.set_hosts_url(sld, tld);
        SetHostsRequest { url, xml_body }
    }
}

// ---------------------------------------------------------------------------
// The reply
// ---------------------------------------------------------------------------

/// Why a `setHosts` request did not succeed.
#[derive(Debug, PartialEq, Eq)]
pub enum SetHostsError {
    /// The API answered with status `ERROR`; the text describes its errors.
    Api(String),
    /// The reply holds no `setHosts` result.
    MissingResult,
}

impl SetHostsError {
    /// The text of the error.
    pub fn message(&self) -> (m: String)
        ensures
            match self {
                SetHostsError::Api(text) => m@ == text@,
                SetHostsError::MissingResult => m@ == "Failed to set host records"@,
            },
    {
        match self {
            SetHostsError::Api(text) => text.clone(),
            SetHostsError::MissingResult => String::from_str("Failed to set host records"),
        }
    }
}

/// Where the reply's status is.
pub open spec fn status_path() -> Seq<Seq<char>> {
    seq!["ApiResponse"@, "Status"@]
}

/// Where the reply's list of errors is.
pub open spec fn errors_path() -> Seq<Seq<char>> {
    seq!["ApiResponse"@, "Errors"@, "Error"@]
}

/// Where the result of the command is.
pub open spec fn set_hosts_result_path() -> Seq<Seq<char>> {
    seq!["ApiResponse"@, "CommandResponse"@, "DomainDNSSetHostsResult"@]
}

/// The status of a reply: its text, or `UNKNOWN` when it has none.
pub open spec fn status_text(reply: JsonValue) -> Seq<char> {
    str_or(pointer_get(reply, status_path()), "UNKNOWN"@)
}

/// The description of one reported error.
pub open spec fn error_entry_text(e: JsonValue) -> Seq<char> {
    "Error "@ + str_or(obj_get(e, "Number"@), "Unknown"@) + ": "@ + str_or(
        obj_get(e, "$text"@),
        "No description"@,
    )
}

/// The descriptions of the reported errors, separated by `"; "`, or
/// `Unknown error` when the reply holds no list of errors.
pub open spec fn api_errors_text(reply: JsonValue) -> Seq<char> {
    match pointer_get(reply, errors_path()) {
        Some(JsonValue::Array(items)) => join_spec(
            items@.map_values(|e: JsonValue| error_entry_text(e)),
            "; "@,
        ),
        _ => "Unknown error"@,
    }
}

/// The message of an error reply.
pub open spec fn api_error_message(reply: JsonValue) -> Seq<char> {
    "Namecheap API error: "@ + api_errors_text(reply)
}

/// Reads a member as text, with a default when it is absent or no string.
fn str_member_or(v: &JsonValue, key: &str, default: &str) -> (s: String)
    ensures
        s@ == str_or(obj_get(*v, key@), default@),
{
    match v.get(key) {
        Some(m) => match m.as_str() {
            Some(text) => text.clone(),
            None => String::from_str(default),
        },
        None => String::from_str(default),
    }
}

fn error_entry(e: &JsonValue) -> (s: String)
    ensures
        s@ == error_entry_text(*e),
{
    let mut s = String::from_str("Error ");
    s.append(str_member_or(e, "Number", "Unknown").as_str());
    s.append(": ");
    s.append(str_member_or(e, "$text", "No description").as_str());
    s
}

fn api_errors(reply: &JsonValue) -> (s: String)
    ensures
        s@ == api_errors_text(*reply),
{
    match reply.get_path3("ApiResponse", "Errors", "Error") {
        Some(JsonValue::Array(items)) => {
            let ghost want = items@.map_values(|e: JsonValue| error_entry_text(e));
            let mut parts: Vec<String> = Vec::new();
            let mut i: usize = 0;
            while i < items.len()
                invariant
                    i <= items@.len(),
                    want == items@.map_values(|e: JsonValue| error_entry_text(e)),
                    views_of(parts@) == want.take(i as int),
                decreases items@.len() - i,
            {
                let part = error_entry(&items[i]);
                let ghost before = parts@;
                parts.push(part);
                assert(views_of(parts@) =~= views_of(before).push(part@));
                assert(want.take(i + 1) =~= want.take(i as int).push(want[i as int]));
                i = i + 1;
            }
            assert(want.take(items@.len() as int) =~= want);
            join(&parts, "; ")
        },
        _ => String::from_str("Unknown error"),
    }
}

/// Interprets the reply to a `setHosts` request: a reply whose status is
/// `ERROR` becomes an error that lists the reported errors; otherwise the
/// command's result is returned, or an error when the reply has none.
pub fn interpret_set_hosts_reply(reply: JsonValue) -> (r: Result<JsonValue, SetHostsError>)
    ensures
        status_text(reply) == "ERROR"@ ==> (r matches Err(SetHostsError::Api(m)) && m@
            == api_error_message(reply)),
        status_text(reply) != "ERROR"@ ==> match pointer_get(reply, set_hosts_result_path()) {
            Some(result) => r == Ok::<JsonValue, SetHostsError>(result),
            None => r == Err::<JsonValue, SetHostsError>(SetHostsError::MissingResult),
        },
        (r matches Err(SetHostsError::Api(_))) <==> status_member_is(reply, "ERROR"@),
        !status_member_is(reply, "ERROR"@) ==> match pointer_get(
            reply,
            seq!["ApiResponse"@, "CommandResponse"@, "DomainDNSSetHostsResult"@],
        ) {
            Some(result) => r == Ok::<JsonValue, SetHostsError>(result),
            None => r == Err::<JsonValue, SetHostsError>(SetHostsError::MissingResult),
        },
{
    proof {
        lemma_error_status_is_error_member(reply);
    }
    let status = match reply.get_path2("ApiResponse", "Status") {
        Some(v) => match v.as_str() {
            Some(text) => text.clone(),
            None => String::from_str("UNKNOWN"),
        },
        None => String::from_str("UNKNOWN"),
    };
    if status == String::from_str("ERROR") {
        let mut message = String::from_str("Namecheap API error: ");
        message.append(api_errors(&reply).as_str());
        return Err(SetHostsError::Api(message));
    }
    match reply.take_path3("ApiResponse", "CommandResponse", "DomainDNSSetHostsResult") {
        Some(result) => Ok(result),
        None => Err(SetHostsError::MissingResult),
    }
}

// ---------------------------------------------------------------------------
// Laws
// ---------------------------------------------------------------------------

/// Setting host records keeps the domain's records: the request lists every
/// existing record first, in order, numbered from 1, with its host name,
/// record type, address and TTL as read, and then every new record, in
/// order, numbered after them, with all of its parameters.
pub proof fn lemma_set_hosts_keeps_existing(existing: JsonValue, new_hosts: Seq<HostRequest>)
    ensures
        ({
            let lines = host_lines_spec(combined_fields(existing, new_hosts));
            let n = existing_records(existing).len();
            &&& lines.len() == n + new_hosts.len()
            &&& forall|i: int|
                0 <= i < n ==> #[trigger] lines[i] == host_line_spec(
                    (i + 1) as nat,
                    kept_fields(existing_records(existing)[i]),
                )
            &&& forall|j: int|
                0 <= j < new_hosts.len() ==> #[trigger] lines[n + j] == host_line_spec(
                    (n + j + 1) as nat,
                    request_fields(new_hosts[j]),
                )
        }),
{
    let fs = combined_fields(existing, new_hosts);
    let n = existing_records(existing).len();
    assert forall|j: int| 0 <= j < new_hosts.len() implies #[trigger] fs[n + j] == request_fields(
        new_hosts[j],
    ) by {
        assert(fs[n + j] == new_hosts.map_values(|h: HostRequest| request_fields(h))[j]);
    }
}

/// The member `ApiResponse/Status` of `reply` is the string `text`.
pub open spec fn status_member_is(reply: JsonValue, text: Seq<char>) -> bool {
    match pointer_get(reply, seq!["ApiResponse"@, "Status"@]) {
        Some(JsonValue::Str(s)) => s@ == text,
        _ => false,
    }
}

/// Setting host records never drops an existing record: when the domain's
/// records are an array of `n` items and `m` records are added, the request
/// holds exactly `n + m` records, and its first `n` are the items, in order,
/// each with its own host name, record type, address and TTL.
pub proof fn lemma_every_existing_record_is_sent(items: Vec<JsonValue>, new_hosts: Seq<HostRequest>)
    ensures
        existing_records(JsonValue::Array(items)) == items@,
        combined_fields(JsonValue::Array(items), new_hosts).len() == items@.len()
            + new_hosts.len(),
        forall|i: int|
            0 <= i < items@.len() ==> #[trigger] combined_fields(
                JsonValue::Array(items),
                new_hosts,
            )[i] == kept_fields(items@[i]),
        forall|j: int|
            0 <= j < new_hosts.len() ==> #[trigger] combined_fields(
                JsonValue::Array(items),
                new_hosts,
            )[items@.len() + j] == request_fields(new_hosts[j]),
{
    let fs = combined_fields(JsonValue::Array(items), new_hosts);
    assert forall|j: int| 0 <= j < new_hosts.len() implies #[trigger] fs[items@.len() + j]
        == request_fields(new_hosts[j]) by {
        assert(fs[items@.len() + j] == new_hosts.map_values(|h: HostRequest| request_fields(h))[j]);
    }
}

/// A record's texts are read whole: the text read for a member that holds a
/// string is that string, character for character, whatever its length; a
/// new record's texts are its parameters as given.
pub proof fn lemma_record_texts_are_whole(host: JsonValue, key: Seq<char>, s: String, h: HostRequest)
    requires
        obj_get(host, key) == Some(JsonValue::Str(s)),
    ensures
        field_text(host, key) == s@,
        field_text(host, key).len() == s@.len(),
        key == "Address"@ ==> kept_fields(host).address == s@ && json_fields(host).address == s@,
        key == "HostName"@ ==> kept_fields(host).name == s@ && json_fields(host).name == s@,
        key == "RecordType"@ ==> kept_fields(host).record_type == s@ && json_fields(
            host,
        ).record_type == s@,
        key == "TTL"@ ==> kept_fields(host).ttl == s@ && json_fields(host).ttl == s@,
        request_fields(h).name == h.host_name@,
        request_fields(h).record_type == h.record_type@,
        request_fields(h).address == h.address@,
        h.ttl matches Some(t) ==> request_fields(h).ttl == t@,
{
}

/// The `<Host>` element of a record carries its address unchanged: the line
/// is some text, then `" Address="`, the address itself, then `" TTL="` and
/// the rest. The returned pair is that leading and trailing text.
pub proof fn lemma_line_carries_address(id: nat, f: HostFields) -> (parts: (Seq<char>, Seq<char>))
    ensures
        host_line_spec(id, f) == parts.0 + "\" Address=\""@ + f.address + "\" TTL=\""@ + parts.1,
{
    let before = "<Host HostId=\""@ + decimal_spec(id) + "\" Name=\""@ + f.name + "\" Type=\""@
        + f.record_type;
    let after = f.ttl + "\""@ + optional_attr_spec(" MXPref=\""@, f.mx_pref) + optional_attr_spec(
        " EmailType=\""@,
        f.email_type,
    ) + optional_attr_spec(" Flag=\""@, f.flag) + optional_attr_spec(" Tag=\""@, f.tag)
        + " />"@;
    assert(host_line_spec(id, f) =~= before + "\" Address=\""@ + f.address + "\" TTL=\""@ + after);
    (before, after)
}

/// The error branch is taken exactly when the reply's status member is the
/// string `ERROR`: a missing or non-string status counts as `UNKNOWN`, and
/// other members of the reply (such as an empty `Errors`) play no part.
pub proof fn lemma_error_status_is_error_member(reply: JsonValue)
    ensures
        (status_text(reply) == "ERROR"@) <==> status_member_is(reply, "ERROR"@),
        pointer_get(reply, seq!["ApiResponse"@, "Status"@]) matches Some(JsonValue::Str(s))
            ==> status_text(reply) == s@,
        !(pointer_get(reply, seq!["ApiResponse"@, "Status"@]) matches Some(JsonValue::Str(_)))
            ==> status_text(reply) == "UNKNOWN"@,
        set_hosts_result_path() == seq![
            "ApiResponse"@,
            "CommandResponse"@,
            "DomainDNSSetHostsResult"@,
        ],
{
    reveal_strlit("UNKNOWN");
    reveal_strlit("ERROR");
    assert("UNKNOWN"@.len() != "ERROR"@.len());
}

/// When the domain has no records to keep (the reply listed none, or listed
/// something other than an array), the request sends exactly the new ones.
pub proof fn lemma_only_new_hosts_when_none_exist(existing: JsonValue, new_hosts: Seq<HostRequest>)
    requires
        existing_records(existing).len() == 0,
    ensures
        combined_fields(existing, new_hosts) == new_hosts.map_values(
            |h: HostRequest| request_fields(h),
        ),
{
    assert(existing_records(existing).map_values(|h: JsonValue| kept_fields(h)) =~= Seq::<
        HostFields,
    >::empty());
    assert(combined_fields(existing, new_hosts) =~= new_hosts.map_values(
        |h: HostRequest| request_fields(h),
    ));
}

} // verus!
