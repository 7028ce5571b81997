//! Startup configuration: which profile is active, where the server
//! listens, and the static list of monitored services.
//!
//! Reading the files is I/O and stays outside the library; these functions
//! take the file text and extract the configuration through serde_yaml's
//! dynamic document form.

use vstd::prelude::*;
use vstd::string::StringExecFns;

verus! {

/// Contents of the profile file: which environment is active.
#[derive(Debug, Clone, PartialEq)]
pub struct Profiles {
    pub active: String,
}

#[derive(Debug, Clone, PartialEq)]
pub struct EnvConfig {
    pub profiles: Profiles,
}

/// Where the ingestion server listens.
#[derive(Debug, Clone, PartialEq)]
pub struct Server {
    pub addr: String,
}

/// One monitored service: a display name and the endpoint to probe.
#[derive(Debug, Clone, PartialEq)]
pub struct Service {
    pub name: String,
    pub api: String,
}

/// The full startup configuration of one environment.
#[derive(Debug, Clone, PartialEq)]
pub struct Bootstrap {
    pub server: Server,
    pub services: Vec<Service>,
}

/// serde_yaml's dynamic document value; opaque to the verifier.
#[verifier::external_type_specification]
#[verifier::external_body]
pub struct ExYamlValue(serde_yaml::Value);

/// Relies on serde_yaml::from_str::<Value>: parses YAML text into its
/// dynamic document form; None when the text is not valid YAML.
#[verifier::external_body]
fn yaml_parse(text: &str) -> Option<serde_yaml::Value> {
    serde_yaml::from_str::<serde_yaml::Value>(text).ok()
}

/// Relies on serde_yaml::Value::get: the value under a string key; None
/// when the value is not a mapping or lacks the key.
#[verifier::external_body]
fn yaml_get<'a>(v: &'a serde_yaml::Value, key: &str) -> Option<&'a serde_yaml::Value> {
    v.get(key)
}

/// Relies on serde_yaml::Value::as_str: the content of a string scalar;
/// None when the value is not a string.
#[verifier::external_body]
fn yaml_as_str(v: &serde_yaml::Value) -> Option<&str> {
    v.as_str()
}

/// Relies on serde_yaml::Value::as_sequence: the elements of a YAML
/// sequence; None when the value is not a sequence.
#[verifier::external_body]
fn yaml_as_sequence(v: &serde_yaml::Value) -> Option<&Vec<serde_yaml::Value>> {
    v.as_sequence()
}

/// Extract the profile selection from the text of the profile file
/// (`profiles.active`); None when the text does not hold one.
pub fn load_env_config(text: &str) -> (r: Option<EnvConfig>) {
    match yaml_parse(text) {
        None => None,
        Some(doc) => match yaml_get(&doc, "profiles") {
            None => None,
            Some(profiles) => match yaml_get(profiles, "active") {
                None => None,
                Some(active) => match yaml_as_str(active) {
                    None => None,
                    Some(s) => Some(EnvConfig { profiles: Profiles { active: s.to_owned() } }),
                },
            },
        },
    }
}

/// The name of the configuration file that belongs to the active profile.
pub fn bootstrap_config_path(active: &str) -> (p: String)
    ensures
        p@ == "application-"@ + active@ + ".yml"@,
{
    let mut p = "application-".to_owned();
    p.append(active);
    p.append(".yml");
    proof {
        assert(p@ =~= "application-"@ + active@ + ".yml"@);
    }
    p
}

/// Extract one service entry (`name` and `api`) from a sequence element;
/// None when either field is missing or not a string.
fn service_entry(v: &serde_yaml::Value) -> (r: Option<Service>) {
    match yaml_get(v, "name") {
        None => None,
        Some(name_value) => match yaml_as_str(name_value) {
            None => None,
            Some(name) => match yaml_get(v, "api") {
                None => None,
                Some(api_value) => match yaml_as_str(api_value) {
                    None => None,
                    Some(api) => Some(
                        Service { name: name.to_owned(), api: api.to_owned() },
                    ),
                },
            },
        },
    }
}

/// Extract the environment configuration (`server.addr` and the service
/// list) from the text of a profile's configuration file; None when the
/// text does not hold a complete one.
pub fn load_bootstrap_config_from_env(text: &str) -> (r: Option<Bootstrap>) {
    let doc = match yaml_parse(text) {
        None => {
            return None;
        },
        Some(doc) => doc,
    };
    let addr = match yaml_get(&doc, "server") {
        None => {
            return None;
        },
        Some(server) => match yaml_get(server, "addr") {
            None => {
                return None;
            },
            Some(addr_value) => match yaml_as_str(addr_value) {
                None => {
                    return None;
                },
                Some(addr) => addr.to_owned(),
            },
        },
    };
    let entries = match yaml_get(&doc, "services") {
        None => {
            return None;
        },
        Some(services_value) => match yaml_as_sequence(services_value) {
            None => {
                return None;
            },
            Some(entries) => entries,
        },
    };
    let mut services: Vec<Service> = Vec::new();
    let mut i: usize = 0;
    let n = entries.len();
    while i < n
        invariant
            n == entries@.len(),
            i <= n,
        decreases n - i,
    {
        match service_entry(&entries[i]) {
            None => {
                return None;
            },
            Some(service) => services.push(service),
        }
        i = i + 1;
    }
    Some(Bootstrap { server: Server { addr }, services })
}

/// Load the configuration of the active profile. The caller reads the
/// profile file and hands in its text, then reads the file named by
/// `bootstrap_config_path` for the active profile and hands in that text
/// too; None when either text does not parse.
pub fn load_bootstrap_config(env_text: &str, bootstrap_text: &str) -> (r: Option<Bootstrap>) {
    match load_env_config(env_text) {
        None => None,
        Some(_env) => load_bootstrap_config_from_env(bootstrap_text),
    }
}

} // verus!
