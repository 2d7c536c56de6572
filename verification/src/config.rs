//! The settings of the agent.
//!
//! The settings come from the environment of the process. The caller reads the
//! variables; what they mean, and whether they can be used, is decided here.

use vstd::prelude::*;

use crate::errors::FwcError;
use crate::foreign::regex_match;
use crate::text::{
    chars_of, join, join_with, non_empty, number_of, parse_number, rows, same_chars, split,
    split_non_empty, string_of, texts, trim, trim_blanks,
};
use crate::utils::myregex::{
    absolute_path_list, alpha_num_2, ipv4, ipv4_list, is_alpha_num_2, is_ipv4, ABSOLUTE_PATH_LIST,
    IPV4_LIST,
};

verus! {

/// Where the key and the certificate of the agent are kept.
pub const ETC_DIR: &'static str = "./etc";

/// Where scratch files are kept.
pub const TMP_DIR: &'static str = "./tmp";

/// Where the caches of collected data are kept.
pub const DATA_DIR: &'static str = "./data";

/// Where the scripts of the plugins are kept.
pub const PLUGINS_DIR: &'static str = "./plugins";

/// The address that the agent listens at unless told otherwise: any.
pub const DEFAULT_BIND_IP: &'static str = "0.0.0.0";

/// Where the scripts that load the policy are looked for unless told
/// otherwise.
pub const DEFAULT_SCRIPT_PATHS: &'static str =
    "/etc/fwcloud/fwcloud.sh,/config/scripts/post-config.d/fwcloud.sh";

/// The status files that are sampled unless told otherwise.
pub const DEFAULT_STATUS_FILES: &'static str = "/etc/openvpn/openvpn-status.log";

/// What is said of an address to listen at that is no IPv4 address.
pub const BAD_BIND_IP: &'static str = "bind_ip: Bad IPv4 address";

/// What is said of the port 0.
pub const BAD_BIND_PORT: &'static str = "bind_port: Validation error: range";

/// What is said of no workers, and of more than 65535.
pub const BAD_WORKERS: &'static str = "workers: Validation error: range";

/// What is said of allowed addresses that are no list of IPv4 addresses.
pub const BAD_ALLOWED_IPS: &'static str = "allowed_ips_list: Bad IPv4 address list";

/// What is said of a key with other characters than letters, digits, hyphens
/// and underscores.
pub const BAD_API_KEY: &'static str = "api_key: Validation error: regex";

/// What is said of a key of fewer than 16 characters or more than 128.
pub const BAD_API_KEY_LENGTH: &'static str = "api_key: Validation error: length";

/// What is said of scripts that are no list of absolute paths.
pub const BAD_SCRIPT_PATHS: &'static str =
    "fwcloud_script_paths_list: Bad absolute path file names in FWCLOUD_SCRIPT_PATHS";

/// What is said of status files that are no list of absolute paths.
pub const BAD_STATUS_FILES: &'static str =
    "openvpn_status_files_list: Bad absolute path file names in OPENVPN_STATUS_FILES";

/// What is said of a sampling interval of no seconds.
pub const BAD_SAMPLING_INTERVAL: &'static str =
    "openvpn_status_sampling_interval: Validation error: range";

/// What is said of answers of no lines, and of more than 10000.
pub const BAD_REQUEST_MAX_LINES: &'static str =
    "openvpn_status_request_max_lines: Validation error: range";

/// What is said of a cache of no bytes.
pub const BAD_CACHE_MAX_SIZE: &'static str =
    "openvpn_status_cache_max_size: Validation error: range";

/// What a request works on. Each has one lock; the lock of a resource is held
/// for as long as one operation on it goes on, so that two operations on the
/// same resource never run at once, while those on different resources do.
#[derive(Clone, Copy, Debug, PartialEq, Eq, Hash)]
pub enum ResourceKind {
    OpenVPN,
    WireGuard,
    IPSec,
    FwcloudScript,
    Daemon,
    Plugins,
}

/// What the environment of the process holds for the agent: the value of each
/// variable that is set, and a random key for the case that none is set.
pub struct Environment {
    pub bind_ip: Option<String>,
    pub bind_port: Option<String>,
    pub workers: Option<String>,
    pub enable_ssl: Option<String>,
    pub allowed_ips: Option<String>,
    pub enable_api_key: Option<String>,
    pub api_key: Option<String>,
    pub fwcloud_script_paths: Option<String>,
    pub openvpn_status_files: Option<String>,
    pub openvpn_status_sampling_interval: Option<String>,
    pub openvpn_status_request_max_lines: Option<String>,
    pub openvpn_status_cache_max_size: Option<String>,
    /// The key that the agent takes where `api_key` is not set.
    pub random_api_key: String,
}

/// The settings that the rest of the agent works from.
pub struct Config {
    pub etc_dir: &'static str,
    pub tmp_dir: &'static str,
    pub data_dir: &'static str,
    pub plugins_dir: &'static str,
    pub enable_env_logger: bool,
    pub bind_ip: String,
    pub bind_port: u16,
    pub workers: usize,
    pub enable_tls: bool,
    pub allowed_ips_list: String,
    pub allowed_ips: Vec<String>,
    pub enable_api_key: bool,
    pub api_key: String,
    pub fwcloud_script_paths_list: String,
    pub fwcloud_script_paths: Vec<String>,
    pub openvpn_status_files_list: String,
    pub openvpn_status_files: Vec<String>,
    pub openvpn_status_sampling_interval: u64,
    pub openvpn_status_request_max_lines: usize,
    pub openvpn_status_cache_max_size: usize,
}

/// The value of a variable, or `default` where it is not set.
pub open spec fn text_or(value: Option<String>, default: Seq<char>) -> Seq<char> {
    match value {
        Some(text) => text@,
        None => default,
    }
}

/// The number up to `max` that a variable gives, or `default` where it is not
/// set or gives none.
pub open spec fn number_or(value: Option<String>, max: nat, default: nat) -> nat {
    match value {
        Some(text) => match number_of(text@, max) {
            Some(n) => n,
            None => default,
        },
        None => default,
    }
}

/// The switch that a variable gives, `true` or `false`, or `default` where it
/// is not set or gives neither.
pub open spec fn flag_or(value: Option<String>, default: bool) -> bool {
    match value {
        Some(text) => if text@ == "true"@ {
            true
        } else if text@ == "false"@ {
            false
        } else {
            default
        },
        None => default,
    }
}

/// What is said of a value that is not as it must be.
pub open spec fn complaint(ok: bool, text: Seq<char>) -> Seq<Seq<char>> {
    if ok {
        Seq::<Seq<char>>::empty()
    } else {
        seq![text]
    }
}

/// The items of a list: what stands between the separators, without blanks
/// around it, as far as anything stands there.
pub open spec fn items(list: Seq<char>, sep: char) -> Seq<Seq<char>> {
    non_empty(split(list, sep)).map_values(|item: Seq<char>| trim_blanks(item))
}

/// What is said of an environment: one line for every value that cannot be
/// used, in the order of the settings.
pub open spec fn complaints(env: Environment) -> Seq<Seq<char>> {
    let api_key = text_or(env.api_key, env.random_api_key@);
    complaint(is_ipv4(text_or(env.bind_ip, DEFAULT_BIND_IP@)), BAD_BIND_IP@) + complaint(
        number_or(env.bind_port, 65535, 33033) >= 1,
        BAD_BIND_PORT@,
    ) + complaint(
        1 <= number_or(env.workers, usize::MAX as nat, 5) <= 65535,
        BAD_WORKERS@,
    ) + complaint(
        regex_match(IPV4_LIST@, text_or(env.allowed_ips, Seq::<char>::empty())) == Some(true),
        BAD_ALLOWED_IPS@,
    ) + complaint(is_alpha_num_2(api_key), BAD_API_KEY@) + complaint(
        16 <= api_key.len() <= 128,
        BAD_API_KEY_LENGTH@,
    ) + complaint(
        regex_match(ABSOLUTE_PATH_LIST@, text_or(env.fwcloud_script_paths, DEFAULT_SCRIPT_PATHS@))
            == Some(true),
        BAD_SCRIPT_PATHS@,
    ) + complaint(
        regex_match(ABSOLUTE_PATH_LIST@, text_or(env.openvpn_status_files, DEFAULT_STATUS_FILES@))
            == Some(true),
        BAD_STATUS_FILES@,
    ) + complaint(
        number_or(env.openvpn_status_sampling_interval, u64::MAX as nat, 30) >= 1,
        BAD_SAMPLING_INTERVAL@,
    ) + complaint(
        1 <= number_or(env.openvpn_status_request_max_lines, usize::MAX as nat, 1000) <= 10_000,
        BAD_REQUEST_MAX_LINES@,
    ) + complaint(
        number_or(env.openvpn_status_cache_max_size, usize::MAX as nat, 10_485_760) >= 1,
        BAD_CACHE_MAX_SIZE@,
    )
}

/// Whether `cfg` holds the settings that the environment gives.
pub open spec fn settings_of(cfg: Config, env: Environment) -> bool {
    &&& cfg.etc_dir@ == ETC_DIR@
    &&& cfg.tmp_dir@ == TMP_DIR@
    &&& cfg.data_dir@ == DATA_DIR@
    &&& cfg.plugins_dir@ == PLUGINS_DIR@
    &&& cfg.enable_env_logger
    &&& cfg.bind_ip@ == text_or(env.bind_ip, DEFAULT_BIND_IP@)
    &&& cfg.bind_port == number_or(env.bind_port, 65535, 33033)
    &&& cfg.workers == if number_or(env.workers, usize::MAX as nat, 5) < 2 {
        2
    } else {
        number_or(env.workers, usize::MAX as nat, 5)
    }
    &&& cfg.enable_tls == flag_or(env.enable_ssl, true)
    &&& cfg.allowed_ips_list@ == text_or(env.allowed_ips, Seq::<char>::empty())
    &&& texts(cfg.allowed_ips@) == non_empty(split(cfg.allowed_ips_list@, ' '))
    &&& cfg.enable_api_key == flag_or(env.enable_api_key, true)
    &&& cfg.api_key@ == text_or(env.api_key, env.random_api_key@)
    &&& cfg.fwcloud_script_paths_list@ == text_or(env.fwcloud_script_paths, DEFAULT_SCRIPT_PATHS@)
    &&& texts(cfg.fwcloud_script_paths@) == items(cfg.fwcloud_script_paths_list@, ',')
    &&& cfg.openvpn_status_files_list@ == text_or(env.openvpn_status_files, DEFAULT_STATUS_FILES@)
    &&& texts(cfg.openvpn_status_files@) == items(cfg.openvpn_status_files_list@, ',')
    &&& cfg.openvpn_status_sampling_interval == number_or(
        env.openvpn_status_sampling_interval,
        u64::MAX as nat,
        30,
    )
    &&& cfg.openvpn_status_request_max_lines == number_or(
        env.openvpn_status_request_max_lines,
        usize::MAX as nat,
        1000,
    )
    &&& cfg.openvpn_status_cache_max_size == number_or(
        env.openvpn_status_cache_max_size,
        usize::MAX as nat,
        10_485_760,
    )
}

/// The value of a variable, or `default` where it is not set.
fn setting_text(value: &Option<String>, default: &str) -> (text: String)
    ensures
        text@ == text_or(*value, default@),
{
    match value {
        Some(text) => text.clone(),
        None => string_of(&chars_of(default)),
    }
}

/// The number up to `max` that a variable gives, or `default`.
fn setting_number(value: &Option<String>, max: u64, default: u64) -> (n: u64)
    requires
        default <= max,
    ensures
        n == number_or(*value, max as nat, default as nat),
        n <= max,
{
    match value {
        Some(text) => match parse_number(&chars_of(text.as_str()), max) {
            Some(n) => n,
            None => default,
        },
        None => default,
    }
}

/// The switch that a variable gives, or `default`.
fn setting_flag(value: &Option<String>, default: bool) -> (flag: bool)
    ensures
        flag == flag_or(*value, default),
{
    match value {
        Some(text) => {
            let text = chars_of(text.as_str());
            if same_chars(&text, &chars_of("true")) {
                true
            } else if same_chars(&text, &chars_of("false")) {
                false
            } else {
                default
            }
        },
        None => default,
    }
}

/// Puts down what is said of a value that is not as it must be.
fn note(list: &mut Vec<Vec<char>>, ok: bool, text: &str)
    ensures
        rows(final(list)@) == rows(old(list)@) + complaint(ok, text@),
{
    if !ok {
        let line = chars_of(text);
        list.push(line);
        assert(rows(list@) =~= rows(old(list)@) + seq![text@]);
    } else {
        assert(rows(list@) =~= rows(old(list)@) + Seq::<Seq<char>>::empty());
    }
}

/// The items of a list, without blanks around them if `trimmed` says so.
fn list_items(list: &str, sep: char, trimmed: bool) -> (out: Vec<String>)
    ensures
        trimmed ==> texts(out@) == items(list@, sep),
        !trimmed ==> texts(out@) == non_empty(split(list@, sep)),
{
    let parts = split_non_empty(&chars_of(list), sep);
    let mut out: Vec<String> = Vec::new();
    let mut i: usize = 0;
    while i < parts.len()
        invariant
            i <= parts.len(),
            rows(parts@) == non_empty(split(list@, sep)),
            trimmed ==> texts(out@) == rows(parts@).map_values(
                |item: Seq<char>| trim_blanks(item),
            ).take(i as int),
            !trimmed ==> texts(out@) == rows(parts@).take(i as int),
        decreases parts.len() - i,
    {
        let ghost before = texts(out@);
        assert(parts[i as int]@ == rows(parts@)[i as int]);
        let item = if trimmed {
            string_of(&trim(&parts[i]))
        } else {
            string_of(&parts[i])
        };
        out.push(item);
        assert(texts(out@) =~= before.push(item@));
        if trimmed {
            assert(texts(out@) =~= rows(parts@).map_values(
                |item: Seq<char>| trim_blanks(item),
            ).take(i + 1));
        } else {
            assert(texts(out@) =~= rows(parts@).take(i + 1));
        }
        i += 1;
    }
    if trimmed {
        assert(texts(out@) =~= items(list@, sep));
    } else {
        assert(texts(out@) =~= rows(parts@));
    }
    out
}

impl Config {
    /// The settings that the environment gives. A variable that is not set,
    /// and a number or a switch that cannot be read, takes its default. With
    /// a value that cannot be used there are no settings, and the failure
    /// says of each such value what is wrong with it. The agent never works
    /// with fewer than two workers: with one, streamed output would not
    /// arrive while the command runs.
    pub fn new(env: &Environment) -> (res: Result<Config, FwcError>)
        ensures
            complaints(*env).len() == 0 ==> (res matches Ok(cfg) && settings_of(cfg, *env)),
            complaints(*env).len() > 0 ==> (res matches Err(FwcError::Validation(text)) && text@
                == join(complaints(*env), seq!['\n'])),
    {
        let bind_ip = setting_text(&env.bind_ip, DEFAULT_BIND_IP);
        let bind_port = setting_number(&env.bind_port, 65535, 33033);
        let workers = setting_number(&env.workers, usize::MAX as u64, 5);
        let enable_tls = setting_flag(&env.enable_ssl, true);
        let allowed_ips_list = setting_text(&env.allowed_ips, "");
        let enable_api_key = setting_flag(&env.enable_api_key, true);
        let api_key = setting_text(&env.api_key, env.random_api_key.as_str());
        let fwcloud_script_paths_list = setting_text(
            &env.fwcloud_script_paths,
            DEFAULT_SCRIPT_PATHS,
        );
        let openvpn_status_files_list = setting_text(
            &env.openvpn_status_files,
            DEFAULT_STATUS_FILES,
        );
        let sampling_interval = setting_number(
            &env.openvpn_status_sampling_interval,
            u64::MAX,
            30,
        );
        let request_max_lines = setting_number(
            &env.openvpn_status_request_max_lines,
            usize::MAX as u64,
            1000,
        );
        let cache_max_size = setting_number(
            &env.openvpn_status_cache_max_size,
            usize::MAX as u64,
            10_485_760,
        );
        proof {
            reveal_strlit("");
            assert(""@ =~= Seq::<char>::empty());
        }

        let mut list: Vec<Vec<char>> = Vec::new();
        let key_len = api_key.as_str().unicode_len();
        note(&mut list, ipv4(bind_ip.as_str()), BAD_BIND_IP);
        note(&mut list, bind_port >= 1, BAD_BIND_PORT);
        note(&mut list, 1 <= workers && workers <= 65535, BAD_WORKERS);
        note(&mut list, ipv4_list(allowed_ips_list.as_str()) == Some(true), BAD_ALLOWED_IPS);
        note(&mut list, alpha_num_2(api_key.as_str()), BAD_API_KEY);
        note(&mut list, 16 <= key_len && key_len <= 128, BAD_API_KEY_LENGTH);
        note(
            &mut list,
            absolute_path_list(fwcloud_script_paths_list.as_str()) == Some(true),
            BAD_SCRIPT_PATHS,
        );
        note(
            &mut list,
            absolute_path_list(openvpn_status_files_list.as_str()) == Some(true),
            BAD_STATUS_FILES,
        );
        note(&mut list, sampling_interval >= 1, BAD_SAMPLING_INTERVAL);
        note(
            &mut list,
            1 <= request_max_lines && request_max_lines <= 10_000,
            BAD_REQUEST_MAX_LINES,
        );
        note(&mut list, cache_max_size >= 1, BAD_CACHE_MAX_SIZE);
        assert(rows(list@) =~= complaints(*env));
        if list.len() > 0 {
            let mut sep: Vec<char> = Vec::new();
            sep.push('\n');
            assert(sep@ =~= seq!['\n']);
            return Err(FwcError::Validation(string_of(&join_with(&list, &sep))));
        }
        let allowed_ips = list_items(allowed_ips_list.as_str(), ' ', false);
        let fwcloud_script_paths = list_items(fwcloud_script_paths_list.as_str(), ',', true);
        let openvpn_status_files = list_items(openvpn_status_files_list.as_str(), ',', true);
        Ok(
            Config {
                etc_dir: ETC_DIR,
                tmp_dir: TMP_DIR,
                data_dir: DATA_DIR,
                plugins_dir: PLUGINS_DIR,
                enable_env_logger: true,
                bind_ip,
                bind_port: bind_port as u16,
                workers: if workers < 2 {
                    2
                } else {
                    workers as usize
                },
                enable_tls,
                allowed_ips_list,
                allowed_ips,
                enable_api_key,
                api_key,
                fwcloud_script_paths_list,
                fwcloud_script_paths,
                openvpn_status_files_list,
                openvpn_status_files,
                openvpn_status_sampling_interval: sampling_interval,
                openvpn_status_request_max_lines: request_max_lines as usize,
                openvpn_status_cache_max_size: cache_max_size as usize,
            },
        )
    }

    /// The address that the agent listens at: the address and the port with a
    /// colon between them.
    pub fn bind_to(&self) -> (addr: String)
        ensures
            addr@ == self.bind_ip@ + seq![':'] + crate::text::decimal(self.bind_port as nat),
    {
        let mut addr = chars_of(self.bind_ip.as_str());
        addr.push(':');
        crate::text::push_chars(&mut addr, &crate::text::decimal_of(self.bind_port as u64));
        string_of(&addr)
    }
}

} // verus!
