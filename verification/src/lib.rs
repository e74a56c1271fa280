use vstd::prelude::*;

pub mod domains_dns;
pub mod json;
pub mod text;

use crate::text::{parse_bool, parse_bool_spec, spec_to_lowercase, to_lowercase};

verus! {

/// Address of the production API.
pub const NAMECHEAP_API_URL: &'static str = "https://api.namecheap.com";

/// Address of the sandbox API.
pub const NAMECHEAP_SANDBOX_API_URL: &'static str = "https://api.sandbox.namecheap.com";

/// Credentials and configuration for requests to the API.
///
/// `production` selects the production environment when `true` and the
/// sandbox when `false`; `api_url` holds the matching address.
#[derive(Debug, Clone, PartialEq, Eq, Hash)]
pub struct NameCheapClient {
    pub api_user: String,
    pub api_key: String,
    pub client_ip: String,
    pub user_name: String,
    pub production: bool,
    pub api_url: Option<String>,
}

/// The address that a client for the given environment talks to.
pub open spec fn api_url_for(production: bool) -> Seq<char> {
    if production {
        NAMECHEAP_API_URL@
    } else {
        NAMECHEAP_SANDBOX_API_URL@
    }
}

impl NameCheapClient {
    /// Creates a client from its credentials; the address follows `production`.
    pub fn new(
        api_user: String,
        api_key: String,
        client_ip: String,
        user_name: String,
        production: bool,
    ) -> (client: Self)
        ensures
            client.api_user == api_user,
            client.api_key == api_key,
            client.client_ip == client_ip,
            client.user_name == user_name,
            client.production == production,
            client.api_url is Some,
            client.api_url.unwrap()@ == api_url_for(production),
    {
        let api_url = if production {
            String::from_str(NAMECHEAP_API_URL)
        } else {
            String::from_str(NAMECHEAP_SANDBOX_API_URL)
        };
        NameCheapClient { api_user, api_key, client_ip, user_name, production, api_url: Some(api_url) }
    }
}

/// The two environments have different addresses, so a client's address
/// tells which environment it uses.
pub proof fn lemma_environment_addresses_differ()
    ensures
        api_url_for(true) != api_url_for(false),
{
    reveal_strlit("https://api.namecheap.com");
    reveal_strlit("https://api.sandbox.namecheap.com");
    assert(NAMECHEAP_API_URL@.len() != NAMECHEAP_SANDBOX_API_URL@.len());
}

/// The `production` setting read from the environment: its text parsed as a
/// `bool` (`"true"` or `"false"`), and `false` when it is absent or
/// anything else.
pub open spec fn production_setting(setting: Option<String>) -> bool {
    match setting {
        Some(text) => match parse_bool_spec(text@) {
            Some(b) => b,
            None => false,
        },
        None => false,
    }
}

impl NameCheapClient {
    /// Creates a client from the values of the environment settings: the
    /// account user name (used both as API user and as user name), the API
    /// key, the client IP and the optional production flag.
    pub fn from_env_values(
        user_name: String,
        api_key: String,
        client_ip: String,
        production: Option<String>,
    ) -> (client: Self)
        ensures
            client.api_user == user_name,
            client.user_name == user_name,
            client.api_key == api_key,
            client.client_ip == client_ip,
            client.production == production_setting(production),
            client.api_url is Some,
            client.api_url.unwrap()@ == api_url_for(production_setting(production)),
    {
        let flag = match &production {
            Some(text) => match parse_bool(text.as_str()) {
                Some(b) => b,
                None => false,
            },
            None => false,
        };
        let api_user = user_name.clone();
        Self::new(api_user, api_key, client_ip, user_name, flag)
    }
}

/// A domain as the API describes it.
#[derive(Debug, Clone, PartialEq, Eq, Hash)]
pub struct Domain {
    pub id: i64,
    pub name: String,
    pub user: String,
    pub created: String,
    pub expires: String,
    pub is_expired: bool,
    pub is_locked: bool,
    pub auto_renew: bool,
    pub whois_guard: bool,
    pub is_premium: bool,
    pub is_our_dns: bool,
}

/// A contact of a domain.
#[derive(Debug, Clone, PartialEq, Eq, Hash)]
pub struct Contact {
    pub type_: String,
    pub address_1: String,
    pub address_2: String,
    pub city: String,
    pub country: String,
    pub email_address: String,
    pub fax: String,
    pub first_name: String,
    pub job_title: String,
    pub last_name: String,
    pub organization_name: String,
    pub phone: String,
    pub phone_ext: String,
    pub postal_code: String,
    pub state_province: String,
    pub state_province_choice: String,
    pub read_only: bool,
}

/// A DNS host record as the API describes it.
#[derive(Debug, Clone, PartialEq, Eq, Hash)]
pub struct Host {
    pub host_id: String,
    pub name: String,
    pub address: String,
    pub type_: String,
    pub is_active: bool,
    pub ttl: i64,
    pub mx_pref: String,
    pub is_ddns_enabled: bool,
    pub friendly_name: String,
    pub associated_app_title: String,
}

impl Host {
    /// A host record with empty texts, `false` flags and a TTL of 0.
    pub fn new() -> (host: Self)
        ensures
            host.host_id@ == Seq::<char>::empty(),
            host.name@ == Seq::<char>::empty(),
            host.address@ == Seq::<char>::empty(),
            host.type_@ == Seq::<char>::empty(),
            !host.is_active,
            host.ttl == 0,
            host.mx_pref@ == Seq::<char>::empty(),
            !host.is_ddns_enabled,
            host.friendly_name@ == Seq::<char>::empty(),
            host.associated_app_title@ == Seq::<char>::empty(),
    {
        Host {
            host_id: String::new(),
            name: String::new(),
            address: String::new(),
            type_: String::new(),
            is_active: false,
            ttl: 0,
            mx_pref: String::new(),
            is_ddns_enabled: false,
            friendly_name: String::new(),
            associated_app_title: String::new(),
        }
    }
}

/// The flag that a lowercased text stands for in a host record: `"true"`
/// and `"1"` are `true`; `"false"`, `"0"` and the empty text are `false`;
/// anything else stands for no flag.
pub open spec fn string_bool_spec(lower: Seq<char>) -> Option<bool> {
    if lower == "true"@ || lower == "1"@ {
        Some(true)
    } else if lower == "false"@ || lower == "0"@ || lower.len() == 0 {
        Some(false)
    } else {
        None
    }
}

/// The flag that an already lowercased text stands for.
pub fn bool_from_lowercase(lower: &str) -> (res: Option<bool>)
    ensures
        res == string_bool_spec(lower@),
{
    let text = String::from_str(lower);
    if text == String::from_str("true") || text == String::from_str("1") {
        Some(true)
    } else if text == String::from_str("false") || text == String::from_str("0")
        || lower.unicode_len() == 0 {
        Some(false)
    } else {
        None
    }
}

/// The flag that a text in a host record stands for, read without regard to
/// case: the text is lowercased first.
pub fn parse_string_bool(value: &str) -> (res: Option<bool>)
    ensures
        res == string_bool_spec(spec_to_lowercase(value@)),
{
    let lower = to_lowercase(value);
    bool_from_lowercase(lower.as_str())
}


} // verus!
