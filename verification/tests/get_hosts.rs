use namecheap::domains_dns::get_hosts::{extract_hosts, get_hosts_params, GET_HOSTS_COMMAND};
use namecheap::json::JsonValue;

fn text(t: &str) -> JsonValue {
    JsonValue::Str(t.to_string())
}

fn object(entries: Vec<(&str, JsonValue)>) -> JsonValue {
    JsonValue::Object(entries.into_iter().map(|(k, v)| (k.to_string(), v)).collect())
}

#[test]
fn get_hosts_command_name() {
    assert_eq!(GET_HOSTS_COMMAND, "namecheap.domains.dns.getHosts");
}

#[test]
fn get_hosts_params_name_the_domain() {
    assert_eq!(get_hosts_params("xylex", "ai"), object(vec![("SLD", text("xylex")), ("TLD", text("ai"))]));
}

#[test]
fn extract_hosts_reads_the_host_list() {
    let hosts = JsonValue::Array(vec![
        object(vec![("Name", text("@")), ("Type", text("A"))]),
        object(vec![("Name", text("www")), ("Type", text("CNAME"))]),
    ]);
    let reply = object(vec![(
        "ApiResponse",
        object(vec![
            ("Status", text("OK")),
            (
                "CommandResponse",
                object(vec![("DomainDNSGetHostsResult", object(vec![("host", hosts)]))]),
            ),
        ]),
    )]);
    let expected = JsonValue::Array(vec![
        object(vec![("Name", text("@")), ("Type", text("A"))]),
        object(vec![("Name", text("www")), ("Type", text("CNAME"))]),
    ]);
    assert_eq!(extract_hosts(reply), expected);
}

#[test]
fn extract_hosts_defaults_to_empty_list() {
    let reply = object(vec![("ApiResponse", object(vec![("Status", text("OK"))]))]);
    assert_eq!(extract_hosts(reply), JsonValue::Array(Vec::new()));
    assert_eq!(extract_hosts(JsonValue::Null), JsonValue::Array(Vec::new()));
}
