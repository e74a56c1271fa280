use namecheap::domains_dns::set_hosts::{
    combine_hosts, interpret_set_hosts_reply, render_hosts_xml, HostRequest, SetHostsError,
    SET_HOSTS_COMMAND, SET_HOSTS_XML_TEMPLATE,
};
use namecheap::json::JsonValue;
use namecheap::NameCheapClient;

fn s(t: &str) -> String {
    t.to_string()
}

fn text(t: &str) -> JsonValue {
    JsonValue::Str(t.to_string())
}

fn object(entries: Vec<(&str, JsonValue)>) -> JsonValue {
    JsonValue::Object(entries.into_iter().map(|(k, v)| (k.to_string(), v)).collect())
}

fn client() -> NameCheapClient {
    NameCheapClient::new(s("apiuser"), s("apikey"), s("10.1.2.3"), s("xylex"), false)
}

fn apex_a() -> HostRequest {
    HostRequest::new(s("@"), s("A"), s("213.87.128.103"), None, None, Some(s("3600")), None, None)
}

fn www_cname() -> HostRequest {
    HostRequest::new(s("www"), s("CNAME"), s("example.com."), None, None, Some(s("1200")), None, None)
}

fn existing_record(name: &str, kind: &str, address: &str, ttl: &str) -> JsonValue {
    object(vec![
        ("HostName", text(name)),
        ("RecordType", text(kind)),
        ("Address", text(address)),
        ("TTL", text(ttl)),
    ])
}

#[test]
fn host_request_new_keeps_parameters() {
    let h = HostRequest::new(
        s("mail"),
        s("MX"),
        s("mx.example.com."),
        Some(s("10")),
        Some(s("MX")),
        Some(s("1800")),
        Some(s("0")),
        Some(s("issue")),
    );
    assert_eq!(h.host_name, "mail");
    assert_eq!(h.record_type, "MX");
    assert_eq!(h.address, "mx.example.com.");
    assert_eq!(h.mx_pref.as_deref(), Some("10"));
    assert_eq!(h.email_type.as_deref(), Some("MX"));
    assert_eq!(h.ttl.as_deref(), Some("1800"));
    assert_eq!(h.flag.as_deref(), Some("0"));
    assert_eq!(h.tag.as_deref(), Some("issue"));
}

#[test]
fn host_request_to_json_lists_all_members() {
    let expected = object(vec![
        ("Address", text("213.87.128.103")),
        ("EmailType", JsonValue::Null),
        ("Flag", JsonValue::Null),
        ("HostName", text("@")),
        ("MXPref", JsonValue::Null),
        ("RecordType", text("A")),
        ("TTL", text("3600")),
        ("Tag", JsonValue::Null),
    ]);
    assert_eq!(apex_a().to_json(), expected);
}

#[test]
fn combine_hosts_keeps_existing_then_adds_new() {
    let existing = JsonValue::Array(vec![existing_record("old", "TXT", "v=spf1", "60")]);
    let combined = combine_hosts(existing, &vec![apex_a(), www_cname()]);
    assert_eq!(combined.len(), 3);
    assert_eq!(combined[0], existing_record("old", "TXT", "v=spf1", "60"));
    assert_eq!(combined[1], apex_a().to_json());
    assert_eq!(combined[2], www_cname().to_json());
}

#[test]
fn combine_hosts_ignores_existing_that_is_no_list() {
    let combined = combine_hosts(text("nothing"), &vec![apex_a()]);
    assert_eq!(combined, vec![apex_a().to_json()]);
}

#[test]
fn render_hosts_xml_numbers_records() {
    let hosts = vec![
        existing_record("old", "TXT", "v=spf1", "60"),
        object(vec![("Name", text("ignored"))]),
        apex_a().to_json(),
    ];
    let expected = [
        r#"<Host HostId="1" Name="old" Type="TXT" Address="v=spf1" TTL="60" />"#,
        r#"<Host HostId="2" Name="" Type="" Address="" TTL="" />"#,
        r#"<Host HostId="3" Name="@" Type="A" Address="213.87.128.103" TTL="3600" />"#,
    ]
    .join("\n");
    assert_eq!(render_hosts_xml(&hosts, 2), expected);
}

#[test]
fn render_hosts_xml_ids_beyond_nine() {
    let hosts: Vec<JsonValue> = (0..11).map(|i| existing_record(&format!("h{}", i), "A", "1.1.1.1", "60")).collect();
    let xml = render_hosts_xml(&hosts, 11);
    let last = xml.lines().last().unwrap().to_string();
    assert_eq!(last, r#"<Host HostId="11" Name="h10" Type="A" Address="1.1.1.1" TTL="60" />"#);
    assert_eq!(xml.lines().count(), 11);
}

#[test]
fn set_hosts_url_follows_sandbox_environment() {
    let url = client().set_hosts_url("xylex", "ai");
    assert_eq!(
        url,
        "https://api.sandbox.namecheap.com/xml.response?ApiUser=apiuser&ApiKey=apikey&UserName=xylex&Command=namecheap.domains.dns.setHosts&ClientIp=10.1.2.3&SLD=xylex&TLD=ai"
    );
    assert_eq!(SET_HOSTS_COMMAND, "namecheap.domains.dns.setHosts");
}

#[test]
fn set_hosts_url_follows_production_environment() {
    let c = NameCheapClient::new(s("apiuser"), s("apikey"), s("10.1.2.3"), s("xylex"), true);
    assert_eq!(
        c.set_hosts_url("xylex", "ai"),
        "https://api.namecheap.com/xml.response?ApiUser=apiuser&ApiKey=apikey&UserName=xylex&Command=namecheap.domains.dns.setHosts&ClientIp=10.1.2.3&SLD=xylex&TLD=ai"
    );
}

#[test]
fn render_hosts_xml_carries_optional_parameters() {
    let mx = HostRequest::new(
        s("mail"),
        s("MX"),
        s("mx.example.com."),
        Some(s("10")),
        Some(s("MX")),
        Some(s("1800")),
        Some(s("0")),
        Some(s("issue")),
    );
    let caa = HostRequest::new(s("@"), s("CAA"), s("letsencrypt.org"), None, None, Some(s("60")), Some(s("128")), None);
    let hosts = vec![
        object(vec![
            ("HostName", text("mail")),
            ("RecordType", text("MX")),
            ("Address", text("mx.old.example.")),
            ("TTL", text("1800")),
            ("MXPref", text("10")),
            ("EmailType", text("MX")),
            ("Flag", text("0")),
            ("Tag", text("issue")),
        ]),
        mx.to_json(),
        caa.to_json(),
    ];
    let expected = [
        r#"<Host HostId="1" Name="mail" Type="MX" Address="mx.old.example." TTL="1800" />"#,
        r#"<Host HostId="2" Name="mail" Type="MX" Address="mx.example.com." TTL="1800" MXPref="10" EmailType="MX" Flag="0" Tag="issue" />"#,
        r#"<Host HostId="3" Name="@" Type="CAA" Address="letsencrypt.org" TTL="60" Flag="128" />"#,
    ]
    .join("\n");
    assert_eq!(render_hosts_xml(&hosts, 1), expected);
}

#[test]
fn prepare_set_hosts_sends_existing_records_with_five_attributes() {
    let existing = JsonValue::Array(vec![object(vec![
        ("HostName", text("mail")),
        ("RecordType", text("MX")),
        ("Address", text("mx.example.com.")),
        ("TTL", text("1800")),
        ("MXPref", text("10")),
    ])]);
    let req = client().prepare_set_hosts("xylex", "ai", existing, &Vec::new());
    let hosts_xml = r#"<Host HostId="1" Name="mail" Type="MX" Address="mx.example.com." TTL="1800" />"#;
    assert_eq!(req.xml_body, client().set_hosts_xml_body("xylex", "ai", hosts_xml));
}

#[test]
fn set_hosts_xml_body_fills_template() {
    let body = client().set_hosts_xml_body("xylex", "ai", "<Host />");
    let expected = SET_HOSTS_XML_TEMPLATE
        .replace("{client_ip}", "10.1.2.3")
        .replace("{user_name}", "xylex")
        .replace("{api_user}", "apiuser")
        .replace("{api_key}", "apikey")
        .replace("{sld}", "xylex")
        .replace("{tld}", "ai")
        .replace("{hosts}", "<Host />");
    assert_eq!(body, expected);
    assert!(body.contains("<ClientIp>10.1.2.3</ClientIp>"));
    assert!(body.contains("<SLD>xylex</SLD>"));
    assert!(body.contains("<TLD>ai</TLD>"));
    assert!(body.contains("<Command>namecheap.domains.dns.setHosts</Command>"));
}

#[test]
fn set_hosts_xml_body_replaces_in_order() {
    // A value that holds a later placeholder is filled in by the later replacement.
    let c = NameCheapClient::new(s("u"), s("k"), s("{user_name}"), s("name"), false);
    let body = c.set_hosts_xml_body("d", "t", "");
    assert!(body.contains("<ClientIp>name</ClientIp>"));
}

#[test]
fn prepare_set_hosts_builds_request() {
    let existing = JsonValue::Array(vec![existing_record("old", "TXT", "v=spf1", "60")]);
    let req = client().prepare_set_hosts("xylex", "ai", existing, &vec![apex_a(), www_cname()]);
    let hosts_xml = [
        r#"<Host HostId="1" Name="old" Type="TXT" Address="v=spf1" TTL="60" />"#,
        r#"<Host HostId="2" Name="@" Type="A" Address="213.87.128.103" TTL="3600" />"#,
        r#"<Host HostId="3" Name="www" Type="CNAME" Address="example.com." TTL="1200" />"#,
    ]
    .join("\n");
    assert_eq!(req.xml_body, client().set_hosts_xml_body("xylex", "ai", &hosts_xml));
    assert_eq!(req.url, client().set_hosts_url("xylex", "ai"));
}

#[test]
fn prepare_set_hosts_without_existing_records() {
    let req = client().prepare_set_hosts("xylex", "ai", JsonValue::Array(Vec::new()), &vec![www_cname()]);
    let hosts_xml = r#"<Host HostId="1" Name="www" Type="CNAME" Address="example.com." TTL="1200" />"#;
    assert_eq!(req.xml_body, client().set_hosts_xml_body("xylex", "ai", hosts_xml));
}

fn reply(status: JsonValue, rest: Vec<(&str, JsonValue)>) -> JsonValue {
    let mut members = vec![("Status", status)];
    members.extend(rest);
    object(vec![("ApiResponse", object(members))])
}

#[test]
fn interpret_reply_returns_result() {
    let result = object(vec![("Domain", text("xylex.ai")), ("IsSuccess", JsonValue::Bool(true))]);
    let r = reply(
        text("OK"),
        vec![("CommandResponse", object(vec![("DomainDNSSetHostsResult", result)]))],
    );
    let expected = object(vec![("Domain", text("xylex.ai")), ("IsSuccess", JsonValue::Bool(true))]);
    assert_eq!(interpret_set_hosts_reply(r), Ok(expected));
}

#[test]
fn interpret_reply_without_result_fails() {
    let r = reply(text("OK"), vec![]);
    let err = interpret_set_hosts_reply(r).unwrap_err();
    assert_eq!(err, SetHostsError::MissingResult);
    assert_eq!(err.message(), "Failed to set host records");
    // A reply with no status at all is not an error reply either.
    assert_eq!(interpret_set_hosts_reply(JsonValue::Null), Err(SetHostsError::MissingResult));
}

#[test]
fn interpret_error_reply_lists_errors() {
    let errors = JsonValue::Array(vec![
        object(vec![("Number", text("2019166")), ("$text", text("Domain not found"))]),
        object(vec![("Number", JsonValue::Number(s("3")))]),
    ]);
    let r = reply(
        text("ERROR"),
        vec![
            ("Errors", object(vec![("Error", errors)])),
            ("CommandResponse", object(vec![("DomainDNSSetHostsResult", text("ignored"))])),
        ],
    );
    let err = interpret_set_hosts_reply(r).unwrap_err();
    assert_eq!(
        err.message(),
        "Namecheap API error: Error 2019166: Domain not found; Error Unknown: No description"
    );
}

#[test]
fn interpret_error_reply_without_error_list() {
    let single = object(vec![("Number", text("1")), ("$text", text("x"))]);
    let r = reply(text("ERROR"), vec![("Errors", object(vec![("Error", single)]))]);
    assert_eq!(
        interpret_set_hosts_reply(r),
        Err(SetHostsError::Api(s("Namecheap API error: Unknown error")))
    );
}
