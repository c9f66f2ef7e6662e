//! The service's settings, and where they are read from.

use vstd::prelude::*;

verus! {

pub struct Server {
    pub run_level: String,
}

pub struct Sessions {
    /// Minutes after its last use that a session expires.
    pub expire: i64,
}

pub struct WebService {
    pub bind_address: String,
    pub bind_port: u16,
}

pub struct LogConfig {
    pub level: String,
    pub applog_path: String,
    pub weblog_path: String,
}

pub struct Settings {
    pub server: Server,
    pub webservice: WebService,
    pub sessions: Sessions,
    pub database_url: String,
    pub logconfig: LogConfig,
    pub google_api_client_id: String,
    pub google_api_client_secret: String,
    pub google_maps_api_key: String,
}

/// The run mode used when `PPS_RUN_MODE` is not set: `"development"`.
pub open spec fn spec_default_run_mode() -> Seq<char> {
    seq!['d', 'e', 'v', 'e', 'l', 'o', 'p', 'm', 'e', 'n', 't']
}

/// The run mode: the value of `PPS_RUN_MODE` if set, else `"development"`.
pub fn run_mode(env_value: Option<String>) -> (mode: String)
    ensures
        mode@ == match env_value {
            Some(v) => v@,
            None => spec_default_run_mode(),
        },
{
    match env_value {
        Some(v) => v,
        None => {
            let d = String::from_str("development");
            proof {
                reveal_strlit("development");
                assert(d@ =~= spec_default_run_mode());
            }
            d
        },
    }
}

/// A configuration file to merge, named without its extension.
pub struct ConfigFile {
    pub name: String,
    /// Whether reading the settings fails when the file is missing.
    pub required: bool,
}

/// `"conf/"`, the directory of the configuration files.
pub open spec fn spec_conf_dir() -> Seq<char> {
    seq!['c', 'o', 'n', 'f', '/']
}

/// The configuration files, in the order they are merged, later ones
/// overriding earlier ones: `conf/default` (required), then the file of the
/// run mode and `conf/local` (both optional).
pub fn config_files(run_mode: &str) -> (files: Vec<ConfigFile>)
    ensures
        files@.len() == 3,
        files@[0].name@ == spec_conf_dir() + seq!['d', 'e', 'f', 'a', 'u', 'l', 't'],
        files@[0].required,
        files@[1].name@ == spec_conf_dir() + run_mode@,
        !files@[1].required,
        files@[2].name@ == spec_conf_dir() + seq!['l', 'o', 'c', 'a', 'l'],
        !files@[2].required,
{
    proof {
        reveal_strlit("conf/default");
        reveal_strlit("conf/");
        reveal_strlit("conf/local");
    }
    let default_file = String::from_str("conf/default");
    let mut mode_file = String::from_str("conf/");
    mode_file.append(run_mode);
    let local_file = String::from_str("conf/local");
    assert(default_file@ =~= spec_conf_dir() + seq!['d', 'e', 'f', 'a', 'u', 'l', 't']);
    assert(local_file@ =~= spec_conf_dir() + seq!['l', 'o', 'c', 'a', 'l']);
    let mut files = Vec::new();
    files.push(ConfigFile { name: default_file, required: true });
    files.push(ConfigFile { name: mode_file, required: false });
    files.push(ConfigFile { name: local_file, required: false });
    files
}

/// `"PPS_"`, the prefix of the service's secrets in the AWS secrets manager.
pub open spec fn spec_secret_prefix() -> Seq<char> {
    seq!['P', 'P', 'S', '_']
}

/// The identifier of the AWS secret that holds the setting `name`.
pub fn secret_id(name: &str) -> (id: String)
    ensures
        id@ == spec_secret_prefix() + name@,
{
    let mut id = String::from_str("PPS_");
    proof {
        reveal_strlit("PPS_");
        assert(id@ =~= spec_secret_prefix());
    }
    id.append(name);
    id
}

/// The settings whose values come from the AWS secrets manager, in the order
/// they are fetched.
pub open spec fn spec_secret_names() -> Seq<Seq<char>> {
    seq![
        seq!['d', 'a', 't', 'a', 'b', 'a', 's', 'e', '_', 'u', 'r', 'l'],
        seq!['g', 'o', 'o', 'g', 'l', 'e', '_', 'a', 'p', 'i', '_', 'c', 'l', 'i', 'e', 'n', 't', '_', 'i', 'd'],
        seq!['g', 'o', 'o', 'g', 'l', 'e', '_', 'a', 'p', 'i', '_', 'c', 'l', 'i', 'e', 'n', 't', '_', 's', 'e', 'c', 'r', 'e', 't'],
        seq!['g', 'o', 'o', 'g', 'l', 'e', '_', 'm', 'a', 'p', 's', '_', 'a', 'p', 'i', '_', 'k', 'e', 'y'],
        seq!['f', 'a', 'c', 'e', 'b', 'o', 'o', 'k', '_', 'a', 'p', 'p', '_', 'i', 'd'],
        seq!['f', 'a', 'c', 'e', 'b', 'o', 'o', 'k', '_', 'a', 'p', 'p', '_', 's', 'e', 'c', 'r', 'e', 't'],
    ]
}

/// The names of the settings kept as AWS secrets.
pub fn secret_names() -> (names: Vec<&'static str>)
    ensures
        names@.len() == spec_secret_names().len(),
        forall|i: int| 0 <= i < names@.len() ==> #[trigger] names@[i]@ == spec_secret_names()[i],
{
    proof {
        reveal_strlit("database_url");
        reveal_strlit("google_api_client_id");
        reveal_strlit("google_api_client_secret");
        reveal_strlit("google_maps_api_key");
        reveal_strlit("facebook_app_id");
        reveal_strlit("facebook_app_secret");
    }
    let names = vec![
        "database_url",
        "google_api_client_id",
        "google_api_client_secret",
        "google_maps_api_key",
        "facebook_app_id",
        "facebook_app_secret",
    ];
    assert(names@[0]@ =~= spec_secret_names()[0]);
    assert(names@[1]@ =~= spec_secret_names()[1]);
    assert(names@[2]@ =~= spec_secret_names()[2]);
    assert(names@[3]@ =~= spec_secret_names()[3]);
    assert(names@[4]@ =~= spec_secret_names()[4]);
    assert(names@[5]@ =~= spec_secret_names()[5]);
    names
}

} // verus!
