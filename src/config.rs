//! A service's configuration: its address and the raw section it was read
//! from, loaded from the text of a shared JSON document.
use crate::address::{address_of, decimal_of, default_address, host_url_of, port_of, Address};
use crate::json::{json_from_str, json_member, json_of, json_string, member, parse_json, Json};
use vstd::prelude::*;

verus! {

/// Why a document could not be read.
#[derive(Debug)]
pub enum ConfigError {
    /// The text is not a JSON document.
    InvalidJson,
    /// The command line does not match the accepted options; the message says how.
    Usage(String),
}

/// The settings of one named service.
#[derive(Debug)]
pub struct Config {
    addr: Address,
    /// The service's whole section of the document, unvalidated.
    pub raw: serde_json::Value,
}

impl View for Config {
    type V = ((Seq<char>, u16), Json);

    closed spec fn view(&self) -> ((Seq<char>, u16), Json) {
        (self.addr@, json_of(self.raw))
    }
}

/// The configuration used where the document or the service's section is
/// missing: the default address and an empty string as the raw section.
pub open spec fn default_config() -> ((Seq<char>, u16), Json) {
    (default_address(), Json::Str(Seq::empty()))
}

/// The address of a section: its `addr` member where that describes a whole
/// address, the default address otherwise.
pub open spec fn section_address(section: Json) -> (Seq<char>, u16) {
    match member(section, "addr"@) {
        Some(a) => match address_of(a) {
            Some(x) => x,
            None => default_address(),
        },
        None => default_address(),
    }
}

/// The configuration of service `name` in a document.
pub open spec fn config_of(doc: Json, name: Seq<char>) -> ((Seq<char>, u16), Json) {
    match member(doc, name) {
        Some(section) => (section_address(section), section),
        None => default_config(),
    }
}

/// The configuration of service `name` loaded from a text: the defaults
/// where the text is not a JSON document.
pub open spec fn load_of(text: Seq<char>, name: Seq<char>) -> ((Seq<char>, u16), Json) {
    match parse_json(text) {
        Some(doc) => config_of(doc, name),
        None => default_config(),
    }
}

/// The text that a file read gives: its contents, or nothing where it could
/// not be read.
pub open spec fn text_of(contents: Option<String>) -> Seq<char> {
    match contents {
        Some(t) => t@,
        None => Seq::empty(),
    }
}

impl Default for Config {
    fn default() -> (r: Config)
        ensures
            r@ == default_config(),
    {
        let raw = json_string("");
        proof {
            reveal_strlit("");
            assert(""@ =~= Seq::<char>::empty());
        }
        Config { addr: Address::default(), raw }
    }
}

impl Config {
    /// Loads the configuration of service `name` from the contents of the
    /// configuration file, `None` where the file could not be read. Never
    /// fails: whatever is missing or malformed takes its default.
    pub fn new(name: &str, contents: Option<String>) -> (r: Config)
        ensures
            r@ == load_of(text_of(contents), name@),
            text_of(contents).len() == 0 ==> r@ == default_config(),
    {
        let text = match contents {
            Some(t) => t,
            None => String::new(),
        };
        match parse_config(name, text.as_str()) {
            Ok(c) => c,
            Err(_) => Config::default(),
        }
    }

    /// Formats the address as `<ip>:<port>`.
    pub fn hosturl(&self) -> (r: String)
        ensures
            r@ == crate::address::host_url_of(self@.0),
    {
        self.addr.hosturl()
    }
}

/// Reads the configuration of service `name` from a text. Fails only where
/// the text is not a JSON document.
pub fn parse_config(name: &str, text: &str) -> (r: Result<Config, ConfigError>)
    ensures
        match parse_json(text@) {
            Some(doc) => r matches Ok(c) && c@ == config_of(doc, name@),
            None => r matches Err(ConfigError::InvalidJson),
        },
        text@.len() == 0 ==> r is Err,
{
    let doc = match json_from_str(text) {
        Ok(d) => d,
        Err(_) => return Err(ConfigError::InvalidJson),
    };
    let section = match json_member(&doc, name) {
        Some(s) => s,
        None => return Ok(Config::default()),
    };
    let addr = match json_member(&section, "addr") {
        Some(a) => match Address::from_json(&a) {
            Some(x) => x,
            None => Address::default(),
        },
        None => Address::default(),
    };
    Ok(Config { addr, raw: section })
}

/// A service that the document does not name gets the default address and
/// an empty raw section.
pub proof fn lemma_absent_service_defaults(text: Seq<char>, name: Seq<char>)
    requires
        parse_json(text) matches Some(doc) && member(doc, name) is None,
    ensures
        load_of(text, name) == default_config(),
{
}

/// Where a service's `addr` is `{"ip": "10.0.0.5", "port": 9000}`, its URL
/// is `10.0.0.5:9000`.
pub proof fn lemma_configured_url(text: Seq<char>, name: Seq<char>)
    requires
        parse_json(text) matches Some(doc) && member(doc, name) matches Some(section) && member(
            section,
            "addr"@,
        ) == Some(
            Json::Object(map!["ip"@ => Json::Str("10.0.0.5"@), "port"@ => Json::Int(9000)]),
        ),
    ensures
        host_url_of(load_of(text, name).0) == "10.0.0.5:9000"@,
{
    reveal_strlit("ip");
    reveal_strlit("port");
    reveal_strlit("10.0.0.5");
    reveal_strlit(":");
    reveal_strlit("10.0.0.5:9000");
    let m = map!["ip"@ => Json::Str("10.0.0.5"@), "port"@ => Json::Int(9000)];
    assert("ip"@.len() != "port"@.len());
    assert(m["ip"@] == Json::Str("10.0.0.5"@) && m["port"@] == Json::Int(9000));
    assert(port_of(Json::Int(9000)) == Some(9000u16));
    assert(load_of(text, name).0 == ("10.0.0.5"@, 9000u16));
    assert(decimal_of(9) == seq!['9']);
    assert(decimal_of(90) == seq!['9', '0']);
    assert(decimal_of(900) == seq!['9', '0', '0']);
    assert(decimal_of(9000) == seq!['9', '0', '0', '0']);
    assert(host_url_of(("10.0.0.5"@, 9000u16)) =~= "10.0.0.5:9000"@);
}

/// Where a service's `addr.port` is a string, the service gets the default
/// address, and its raw section is still the whole section.
pub proof fn lemma_port_string_falls_back(text: Seq<char>, name: Seq<char>)
    requires
        parse_json(text) matches Some(doc) && member(doc, name) matches Some(section) && member(
            section,
            "addr"@,
        ) matches Some(Json::Object(m)) && m.contains_key("port"@) && m["port"@] is Str,
    ensures
        load_of(text, name) == (default_address(), member(parse_json(text)->0, name)->0),
{
}

/// Loading twice from the same file contents gives the same configuration.
pub proof fn lemma_load_repeatable(name: Seq<char>, contents: Option<String>, a: Config, b: Config)
    requires
        a@ == load_of(text_of(contents), name),
        b@ == load_of(text_of(contents), name),
    ensures
        a@ == b@,
{
}

} // verus!
