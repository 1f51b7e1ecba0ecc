//! The configuration of the server: what a configuration file may say.

use crate::runtime::options;
use crate::runtime::options::validate_service_name;
use crate::scan;
use crate::scan::{is_blank, same_fold};
use crate::text;
use crate::text::{cat2, cat3, cat4, cat5, decimal_text, same};
use crate::validation;
use crate::validation::{contains_control, contains_line_break};
use crate::winpath;
use crate::winpath::{
    normalize_absolute_required, normalize_path_lexically, parse_path, path_eq_case_insensitive,
    path_starts_with_case_insensitive, PrefixKind,
};
use vstd::prelude::*;

verus! {

pub const CONFIG_VERSION: u32 = 1;

pub const DEFAULT_BIND: &'static str = "127.0.0.1:7331";

pub const SERVICE_DISPLAY_NAME: &'static str = "dbgflow MCP Server";

pub const SERVICE_DESCRIPTION: &'static str = "dbgflow Streamable HTTP MCP server";

/// The address of a machine.
#[derive(Debug, Clone, Copy, PartialEq, Eq, Structural)]
pub enum IpAddress {
    V4(u8, u8, u8, u8),
    V6(u128),
}

impl IpAddress {
    /// Whether the address is that of this machine for itself.
    pub open spec fn loopback(self) -> bool {
        match self {
            IpAddress::V4(a, _, _, _) => a == 127,
            IpAddress::V6(n) => n == 1,
        }
    }

    /// Whether the address is that of this machine for itself.
    pub fn is_loopback(&self) -> (r: bool)
        ensures
            r == self.loopback(),
    {
        match *self {
            IpAddress::V4(a, _, _, _) => a == 127,
            IpAddress::V6(n) => n == 1,
        }
    }
}

/// The address that the server listens on.
#[derive(Debug, Clone, Copy, PartialEq, Eq, Structural)]
pub struct BindAddress {
    pub ip: IpAddress,
    pub port: u16,
}

/// What is wrong with the address to listen on.
pub open spec fn bind_error(value: Seq<char>, parsed: Result<BindAddress, Seq<char>>) -> Option<
    Seq<char>,
> {
    match parsed {
        Err(e) => Some("invalid bind address "@ + value + ": "@ + e),
        Ok(bind) => if !bind.ip.loopback() {
            Some("bind address must be loopback"@)
        } else {
            None
        },
    }
}

/// Checks the address to listen on. The caller gives the address that the text stands for, or
/// why it stands for none.
pub fn parse_bind(value: &str, parsed: &Result<BindAddress, String>) -> (r: Result<
    BindAddress,
    String,
>)
    ensures
        match r {
            Ok(b) => bind_error(value@, address_view(*parsed)) is None && *parsed == Ok::<
                BindAddress,
                String,
            >(b),
            Err(e) => bind_error(value@, address_view(*parsed)) == Some(e@),
        },
{
    match parsed {
        Err(error) => Err(cat4("invalid bind address ", value, ": ", error.as_str())),
        Ok(bind) => if !bind.ip.is_loopback() {
            Err("bind address must be loopback".to_owned())
        } else {
            Ok(*bind)
        },
    }
}

/// The view of an address, or of why there is none.
pub open spec fn address_view(r: Result<BindAddress, String>) -> Result<BindAddress, Seq<char>> {
    match r {
        Ok(b) => Ok(b),
        Err(e) => Err(e@),
    }
}

/// The directories of the system that the environment names.
#[derive(Debug)]
pub struct SystemRoots {
    pub user_profile: Option<String>,
    pub local_app_data: Option<String>,
    pub app_data: Option<String>,
    pub program_data: Option<String>,
    pub program_files: Option<String>,
    pub program_files_x86: Option<String>,
}

/// The mathematical form of the directories of the system.
#[verifier::ext_equal]
pub struct RootsView {
    pub user_profile: Option<Seq<char>>,
    pub local_app_data: Option<Seq<char>>,
    pub app_data: Option<Seq<char>>,
    pub program_data: Option<Seq<char>>,
    pub program_files: Option<Seq<char>>,
    pub program_files_x86: Option<Seq<char>>,
}

impl View for SystemRoots {
    type V = RootsView;

    open spec fn view(&self) -> RootsView {
        RootsView {
            user_profile: text::view_opt(self.user_profile),
            local_app_data: text::view_opt(self.local_app_data),
            app_data: text::view_opt(self.app_data),
            program_data: text::view_opt(self.program_data),
            program_files: text::view_opt(self.program_files),
            program_files_x86: text::view_opt(self.program_files_x86),
        }
    }
}

/// Whether two paths are the same but for the case of ASCII letters.
pub open spec fn same_place(a: Seq<char>, b: Seq<char>) -> bool {
    scan::lower_all(a) == scan::lower_all(b)
}

/// What is wrong with an installation directory that is a directory of the system.
pub open spec fn root_error(path: Seq<char>, root: Option<Seq<char>>, label: Seq<char>) -> Option<
    Seq<char>,
> {
    match root {
        None => None,
        Some(root) => match winpath::normalized(root) {
            None => Some("path escapes its root: "@ + root),
            Some(root) => if same_place(path, root) {
                Some("service.install_root must not be "@ + label + ": "@ + path)
            } else {
                None
            },
        },
    }
}

/// The first error, if there is one.
pub open spec fn either(a: Option<Seq<char>>, b: Option<Seq<char>>) -> Option<Seq<char>> {
    match a {
        Some(e) => Some(e),
        None => b,
    }
}

/// What is wrong with an installation directory that lies at the top of the profile of the user.
pub open spec fn profile_error(path: Seq<char>, roots: RootsView) -> Option<Seq<char>> {
    match roots.user_profile {
        None => None,
        Some(profile) => match winpath::normalized(profile) {
            None => Some("path escapes its root: "@ + profile),
            Some(profile) => if winpath::under(path, profile) && !(roots.local_app_data matches Some(
                local,
            ) && winpath::under(path, local)) && winpath::parts(path).count() < winpath::parts(
                profile,
            ).count() + 2 {
                Some(
                    "service.install_root must be a dedicated child directory under the user profile: "@
                        + path,
                )
            } else {
                None
            },
        },
    }
}

/// What is wrong with an installation directory: it is removed as a whole when the service is, so
/// it must be one that nothing else is kept in.
pub open spec fn install_root_error(path: Seq<char>, roots: RootsView) -> Option<Seq<char>> {
    if winpath::parts(path).count() <= 2 {
        Some("service.install_root must not be a filesystem root: "@ + path)
    } else if !(winpath::parts(path).file_name() matches Some(name) && scan::lower_all(name)
        == scan::lower_all("dbgflow"@)) {
        Some("service.install_root must be a dedicated 'dbgflow' directory: "@ + path)
    } else {
        either(
            root_error(path, roots.user_profile, "the user profile root"@),
            either(
                root_error(path, roots.local_app_data, "LOCALAPPDATA"@),
                either(
                    root_error(path, roots.app_data, "APPDATA"@),
                    either(
                        root_error(path, roots.program_data, "ProgramData"@),
                        either(
                            root_error(path, roots.program_files, "ProgramFiles"@),
                            either(
                                root_error(path, roots.program_files_x86, "ProgramFiles(x86)"@),
                                if same_place(path, "C:\\Users"@) || same_place(
                                    path,
                                    "C:\\ProgramData"@,
                                ) {
                                    Some(
                                        "service.install_root must not be a high-level system directory: "@
                                            + path,
                                    )
                                } else {
                                    profile_error(path, roots)
                                },
                            ),
                        ),
                    ),
                ),
            ),
        )
    }
}

/// The view of the error of a check.
pub open spec fn error_of(r: Result<(), String>) -> Option<Seq<char>> {
    match r {
        Ok(_) => None,
        Err(e) => Some(e@),
    }
}

fn check_root(path: &str, root: &Option<String>, label: &str) -> (r: Result<(), String>)
    ensures
        error_of(r) == root_error(path@, text::view_opt(*root), label@),
{
    match root {
        None => Ok(()),
        Some(root) => match normalize_path_lexically(root.as_str()) {
            Err(error) => Err(error),
            Ok(root) => if path_eq_case_insensitive(path, root.as_str()) {
                Err(cat4("service.install_root must not be ", label, ": ", path))
            } else {
                Ok(())
            },
        },
    }
}

fn fewer_components(path: &str, profile: &str) -> (r: bool)
    ensures
        r == (winpath::parts(path@).count() < winpath::parts(profile@).count() + 2),
{
    let a = parse_path(path);
    let b = parse_path(profile);
    let x: u128 = a.names.len() as u128 + (if a.kind == PrefixKind::Relative {
        0u128
    } else {
        1u128
    }) + (if a.has_root() {
        1u128
    } else {
        0u128
    });
    let y: u128 = b.names.len() as u128 + (if b.kind == PrefixKind::Relative {
        0u128
    } else {
        1u128
    }) + (if b.has_root() {
        1u128
    } else {
        0u128
    });
    x < y + 2
}

fn check_profile(path: &str, roots: &SystemRoots) -> (r: Result<(), String>)
    ensures
        error_of(r) == profile_error(path@, roots@),
{
    let profile = match &roots.user_profile {
        None => {
            return Ok(());
        },
        Some(profile) => match normalize_path_lexically(profile.as_str()) {
            Err(error) => {
                return Err(error);
            },
            Ok(profile) => profile,
        },
    };
    let local = match &roots.local_app_data {
        None => false,
        Some(local) => path_starts_with_case_insensitive(path, local.as_str()),
    };
    if path_starts_with_case_insensitive(path, profile.as_str()) && !local && fewer_components(
        path,
        profile.as_str(),
    ) {
        return Err(
            cat2(
                "service.install_root must be a dedicated child directory under the user profile: ",
                path,
            ),
        );
    }
    Ok(())
}

/// Refuses an installation directory that something else may be kept in.
pub fn reject_dangerous_install_root(path: &str, roots: &SystemRoots) -> (r: Result<(), String>)
    ensures
        error_of(r) == install_root_error(path@, roots@),
{
    let parsed = parse_path(path);
    if !parsed.has_components(3) {
        return Err(cat2("service.install_root must not be a filesystem root: ", path));
    }
    let dedicated = match parsed.file_name() {
        Some(name) => same_fold(name.as_str(), "dbgflow"),
        None => false,
    };
    if !dedicated {
        return Err(
            cat2("service.install_root must be a dedicated 'dbgflow' directory: ", path),
        );
    }
    if let Err(error) = check_root(path, &roots.user_profile, "the user profile root") {
        return Err(error);
    }
    if let Err(error) = check_root(path, &roots.local_app_data, "LOCALAPPDATA") {
        return Err(error);
    }
    if let Err(error) = check_root(path, &roots.app_data, "APPDATA") {
        return Err(error);
    }
    if let Err(error) = check_root(path, &roots.program_data, "ProgramData") {
        return Err(error);
    }
    if let Err(error) = check_root(path, &roots.program_files, "ProgramFiles") {
        return Err(error);
    }
    if let Err(error) = check_root(path, &roots.program_files_x86, "ProgramFiles(x86)") {
        return Err(error);
    }
    if path_eq_case_insensitive(path, "C:\\Users") || path_eq_case_insensitive(
        path,
        "C:\\ProgramData",
    ) {
        return Err(
            cat2("service.install_root must not be a high-level system directory: ", path),
        );
    }
    check_profile(path, roots)
}

/// What is wrong with the path of symbols.
pub open spec fn symbol_path_error(value: Seq<char>, label: Seq<char>) -> Option<Seq<char>> {
    if scan::trim(value).len() == 0 {
        Some(label + " must not be empty"@)
    } else if validation::has_control(value) || validation::has_line_break(value) {
        Some(label + " contains unsupported control characters"@)
    } else {
        None
    }
}

/// Checks the path of symbols.
pub fn parse_symbol_path(value: &str, label: &str) -> (r: Result<String, String>)
    ensures
        match r {
            Ok(s) => symbol_path_error(value@, label@) is None && s@ == value@,
            Err(e) => symbol_path_error(value@, label@) == Some(e@),
        },
{
    if is_blank(value) {
        return Err(cat2(label, " must not be empty"));
    }
    if contains_control(value) || contains_line_break(value) {
        return Err(cat2(label, " contains unsupported control characters"));
    }
    Ok(value.to_owned())
}

/// What the file system says of a directory: whether it is one, and whether it holds the files
/// that it is wanted for.
#[derive(Debug, Clone, Copy, PartialEq, Eq, Structural)]
pub struct DirFacts {
    pub is_dir: bool,
    pub holds_files: bool,
}

/// The path of a directory that must be there and hold certain files.
pub open spec fn tool_dir(
    path: Seq<char>,
    label: Seq<char>,
    facts: DirFacts,
    files: Seq<char>,
) -> Result<Seq<char>, Seq<char>> {
    match winpath::absolute_path(path, label) {
        Err(e) => Err(e),
        Ok(p) => if !facts.is_dir {
            Err(label + " must point to an existing directory: "@ + p)
        } else if !facts.holds_files {
            Err(label + " must point to a directory containing "@ + files + ": "@ + p)
        } else {
            Ok(p)
        },
    }
}

/// The files that a directory of the debugger engine holds.
pub const DBGENG_FILES: &'static str = "dbgeng.dll";

/// The files of which a directory of system tools holds one.
pub const SYSINTERNALS_FILES: &'static str = "Procmon64.exe or Procmon.exe";

fn check_tool_dir(path: &str, label: &str, facts: DirFacts, files: &str) -> (r: Result<
    String,
    String,
>)
    ensures
        options::text_result(r) == tool_dir(path@, label@, facts, files@),
{
    match normalize_absolute_required(path, label) {
        Err(error) => Err(error),
        Ok(path) => if !facts.is_dir {
            Err(cat3(label, " must point to an existing directory: ", path.as_str()))
        } else if !facts.holds_files {
            Err(
                cat5(
                    label,
                    " must point to a directory containing ",
                    files,
                    ": ",
                    path.as_str(),
                ),
            )
        } else {
            Ok(path)
        },
    }
}

/// Checks a directory of the debugger engine.
pub fn parse_dbgeng_dir_path(path: &str, label: &str, facts: DirFacts) -> (r: Result<
    String,
    String,
>)
    ensures
        options::text_result(r) == tool_dir(path@, label@, facts, DBGENG_FILES@),
{
    check_tool_dir(path, label, facts, DBGENG_FILES)
}

/// Checks a directory of system tools.
pub fn parse_sysinternals_dir_path(path: &str, label: &str, facts: DirFacts) -> (r: Result<
    String,
    String,
>)
    ensures
        options::text_result(r) == tool_dir(path@, label@, facts, SYSINTERNALS_FILES@),
{
    check_tool_dir(path, label, facts, SYSINTERNALS_FILES)
}

/// What a configuration file says of proxies. The variables come in the order in which they are
/// checked.
#[derive(Debug)]
pub struct RawProxyConfig {
    pub mode: String,
    pub url: Option<String>,
    pub env: Vec<(String, String)>,
}

/// The mathematical form of what a configuration file says of proxies.
#[verifier::ext_equal]
pub struct RawProxyView {
    pub mode: Seq<char>,
    pub url: Option<Seq<char>>,
    pub env: Seq<(Seq<char>, Seq<char>)>,
}

/// The views of a list of variables.
pub open spec fn variables_view(v: Seq<(String, String)>) -> Seq<(Seq<char>, Seq<char>)> {
    v.map_values(|p: (String, String)| (p.0@, p.1@))
}

impl View for RawProxyConfig {
    type V = RawProxyView;

    open spec fn view(&self) -> RawProxyView {
        RawProxyView {
            mode: self.mode@,
            url: text::view_opt(self.url),
            env: variables_view(self.env@),
        }
    }
}

/// Where the proxies come from.
#[derive(Debug)]
pub enum ProxyChoice {
    /// Nothing is said of proxies.
    Unset,
    /// No proxy is used.
    Disabled,
    /// One proxy is used for all.
    Url(String),
    /// Variables name the proxies.
    Env(Vec<(String, String)>),
}

/// The mathematical form of where the proxies come from.
pub enum ProxyView {
    Unset,
    Disabled,
    Url(Seq<char>),
    Env(Seq<(Seq<char>, Seq<char>)>),
}

impl View for ProxyChoice {
    type V = ProxyView;

    open spec fn view(&self) -> ProxyView {
        match *self {
            ProxyChoice::Unset => ProxyView::Unset,
            ProxyChoice::Disabled => ProxyView::Disabled,
            ProxyChoice::Url(s) => ProxyView::Url(s@),
            ProxyChoice::Env(v) => ProxyView::Env(variables_view(v@)),
        }
    }
}

/// Whether a variable names a proxy.
pub open spec fn known_proxy_key(key: Seq<char>) -> bool {
    ||| key == "_NT_SYMBOL_PROXY"@
    ||| key == "HTTP_PROXY"@
    ||| key == "HTTPS_PROXY"@
    ||| key == "ALL_PROXY"@
    ||| key == "NO_PROXY"@
    ||| key == "http_proxy"@
    ||| key == "https_proxy"@
    ||| key == "all_proxy"@
    ||| key == "no_proxy"@
}

/// Whether a variable names a proxy.
pub fn is_known_proxy_key(key: &str) -> (r: bool)
    ensures
        r == known_proxy_key(key@),
{
    same(key, "_NT_SYMBOL_PROXY") || same(key, "HTTP_PROXY") || same(key, "HTTPS_PROXY") || same(
        key,
        "ALL_PROXY",
    ) || same(key, "NO_PROXY") || same(key, "http_proxy") || same(key, "https_proxy") || same(
        key,
        "all_proxy",
    ) || same(key, "no_proxy")
}

/// What is wrong with the first variable that is not in order.
pub open spec fn variables_error(env: Seq<(Seq<char>, Seq<char>)>) -> Option<Seq<char>>
    decreases env.len(),
{
    if env.len() == 0 {
        None
    } else if !known_proxy_key(env[0].0) {
        Some("proxy.env key is not supported: "@ + env[0].0)
    } else if env[0].1.len() == 0 {
        Some("proxy.env value must not be empty for key: "@ + env[0].0)
    } else {
        variables_error(env.skip(1))
    }
}

/// The proxies that a configuration file chooses.
pub open spec fn chosen_proxy(config: Option<RawProxyView>) -> Result<ProxyView, Seq<char>> {
    match config {
        None => Ok(ProxyView::Unset),
        Some(c) => if c.mode == "none"@ {
            Ok(ProxyView::Unset)
        } else if c.mode == "disabled"@ {
            Ok(ProxyView::Disabled)
        } else if c.mode == "url"@ {
            match c.url {
                None => Err("proxy.url is required when proxy.mode = \"url\""@),
                Some(url) => Ok(ProxyView::Url(url)),
            }
        } else if c.mode == "env"@ {
            match variables_error(c.env) {
                Some(e) => Err(e),
                None => Ok(ProxyView::Env(c.env)),
            }
        } else {
            Err("proxy.mode must be one of none, disabled, url, env; got "@ + c.mode)
        },
    }
}

/// The view of what a configuration file says of proxies, if it does.
pub open spec fn raw_proxy_opt(o: Option<RawProxyConfig>) -> Option<RawProxyView> {
    match o {
        Some(c) => Some(c@),
        None => None,
    }
}

/// The view of a choice, or of why there is none.
pub open spec fn proxy_result(r: Result<ProxyChoice, String>) -> Result<ProxyView, Seq<char>> {
    match r {
        Ok(p) => Ok(p@),
        Err(e) => Err(e@),
    }
}

fn check_variables(env: &[(String, String)]) -> (r: Result<(), String>)
    ensures
        error_of(r) == variables_error(variables_view(env@)),
{
    let ghost all = variables_view(env@);
    let mut i: usize = 0;
    assert(all.skip(0) =~= all);
    while i < env.len()
        invariant
            i <= env@.len(),
            all == variables_view(env@),
            variables_error(all) == variables_error(all.skip(i as int)),
        decreases env@.len() - i,
    {
        assert(all.skip(i as int)[0] == (env@[i as int].0@, env@[i as int].1@));
        assert(all.skip(i as int).skip(1) =~= all.skip(i as int + 1));
        if !is_known_proxy_key(env[i].0.as_str()) {
            return Err(cat2("proxy.env key is not supported: ", env[i].0.as_str()));
        }
        if env[i].1.as_str().is_empty() {
            return Err(cat2("proxy.env value must not be empty for key: ", env[i].0.as_str()));
        }
        i += 1;
    }
    Ok(())
}

/// The proxies that a configuration file chooses.
pub fn proxy_from_config(config: Option<RawProxyConfig>) -> (r: Result<ProxyChoice, String>)
    ensures
        proxy_result(r) == chosen_proxy(raw_proxy_opt(config)),
{
    let config = match config {
        None => {
            return Ok(ProxyChoice::Unset);
        },
        Some(config) => config,
    };
    if same(config.mode.as_str(), "none") {
        return Ok(ProxyChoice::Unset);
    }
    if same(config.mode.as_str(), "disabled") {
        return Ok(ProxyChoice::Disabled);
    }
    if same(config.mode.as_str(), "url") {
        return match config.url {
            None => Err("proxy.url is required when proxy.mode = \"url\"".to_owned()),
            Some(url) => Ok(ProxyChoice::Url(url)),
        };
    }
    if same(config.mode.as_str(), "env") {
        if let Err(error) = check_variables(config.env.as_slice()) {
            return Err(error);
        }
        return Ok(ProxyChoice::Env(config.env));
    }
    Err(
        cat2(
            "proxy.mode must be one of none, disabled, url, env; got ",
            config.mode.as_str(),
        ),
    )
}

/// What a configuration file says.
#[derive(Debug)]
pub struct RawRuntimeConfig {
    pub version: u32,
    pub service_name: String,
    pub display_name: String,
    pub install_root: String,
    pub bind: String,
    pub data_dir: String,
    pub dbgeng_dir: Option<String>,
    pub symbol_path: Option<String>,
    pub sysinternals_dir: Option<String>,
    pub proxy: Option<RawProxyConfig>,
}

/// The mathematical form of what a configuration file says.
#[verifier::ext_equal]
pub struct RawView {
    pub version: u32,
    pub service_name: Seq<char>,
    pub display_name: Seq<char>,
    pub install_root: Seq<char>,
    pub bind: Seq<char>,
    pub data_dir: Seq<char>,
    pub dbgeng_dir: Option<Seq<char>>,
    pub symbol_path: Option<Seq<char>>,
    pub sysinternals_dir: Option<Seq<char>>,
    pub proxy: Option<RawProxyView>,
}

impl View for RawRuntimeConfig {
    type V = RawView;

    open spec fn view(&self) -> RawView {
        RawView {
            version: self.version,
            service_name: self.service_name@,
            display_name: self.display_name@,
            install_root: self.install_root@,
            bind: self.bind@,
            data_dir: self.data_dir@,
            dbgeng_dir: text::view_opt(self.dbgeng_dir),
            symbol_path: text::view_opt(self.symbol_path),
            sysinternals_dir: text::view_opt(self.sysinternals_dir),
            proxy: raw_proxy_opt(self.proxy),
        }
    }
}

/// What the system says of what a configuration file names.
#[derive(Debug)]
pub struct ConfigFacts {
    /// The address to listen on, or why the text stands for none.
    pub bind: Result<BindAddress, String>,
    pub dbgeng_dir: DirFacts,
    pub sysinternals_dir: DirFacts,
    pub roots: SystemRoots,
}

/// The mathematical form of what the system says.
#[verifier::ext_equal]
pub struct FactsView {
    pub bind: Result<BindAddress, Seq<char>>,
    pub dbgeng_dir: DirFacts,
    pub sysinternals_dir: DirFacts,
    pub roots: RootsView,
}

impl View for ConfigFacts {
    type V = FactsView;

    open spec fn view(&self) -> FactsView {
        FactsView {
            bind: address_view(self.bind),
            dbgeng_dir: self.dbgeng_dir,
            sysinternals_dir: self.sysinternals_dir,
            roots: self.roots@,
        }
    }
}

/// How the service is called and where it is installed.
#[derive(Debug)]
pub struct ServiceSettings {
    pub name: String,
    pub display_name: String,
    pub install_root: String,
}

/// What the server works with.
#[derive(Debug)]
pub struct AppConfig {
    pub bind: BindAddress,
    pub data_dir: String,
    pub proxy: ProxyChoice,
    pub sysinternals_dir: Option<String>,
    pub dbgeng_dir: Option<String>,
    pub symbol_path: Option<String>,
}

/// A configuration that was checked.
#[derive(Debug)]
pub struct RuntimeConfig {
    pub config_path: String,
    pub service: ServiceSettings,
    pub app: AppConfig,
}

/// The mathematical form of a configuration that was checked.
#[verifier::ext_equal]
pub struct ConfigView {
    pub config_path: Seq<char>,
    pub service_name: Seq<char>,
    pub display_name: Seq<char>,
    pub install_root: Seq<char>,
    pub bind: BindAddress,
    pub data_dir: Seq<char>,
    pub proxy: ProxyView,
    pub sysinternals_dir: Option<Seq<char>>,
    pub dbgeng_dir: Option<Seq<char>>,
    pub symbol_path: Option<Seq<char>>,
}

impl View for RuntimeConfig {
    type V = ConfigView;

    open spec fn view(&self) -> ConfigView {
        ConfigView {
            config_path: self.config_path@,
            service_name: self.service.name@,
            display_name: self.service.display_name@,
            install_root: self.service.install_root@,
            bind: self.app.bind,
            data_dir: self.app.data_dir@,
            proxy: self.app.proxy@,
            sysinternals_dir: text::view_opt(self.app.sysinternals_dir),
            dbgeng_dir: text::view_opt(self.app.dbgeng_dir),
            symbol_path: text::view_opt(self.app.symbol_path),
        }
    }
}

/// The error of an outcome.
pub open spec fn fault<T>(r: Result<T, Seq<char>>) -> Option<Seq<char>> {
    match r {
        Ok(_) => None,
        Err(e) => Some(e),
    }
}

/// The error of an outcome that there may be.
pub open spec fn fault_opt<T>(o: Option<Result<T, Seq<char>>>) -> Option<Seq<char>> {
    match o {
        Some(r) => fault(r),
        None => None,
    }
}

/// The directory of the debugger engine that a configuration file names.
pub open spec fn dbgeng_of(raw: RawView, facts: FactsView) -> Option<Result<Seq<char>, Seq<char>>> {
    match raw.dbgeng_dir {
        Some(path) => Some(
            tool_dir(path, "debugger.dbgeng_dir"@, facts.dbgeng_dir, DBGENG_FILES@),
        ),
        None => None,
    }
}

/// The directory of system tools that a configuration file names.
pub open spec fn sysinternals_of(raw: RawView, facts: FactsView) -> Option<
    Result<Seq<char>, Seq<char>>,
> {
    match raw.sysinternals_dir {
        Some(path) => Some(
            tool_dir(
                path,
                "tools.sysinternals_dir"@,
                facts.sysinternals_dir,
                SYSINTERNALS_FILES@,
            ),
        ),
        None => None,
    }
}

/// The installation directory that a configuration file names.
pub open spec fn root_of(raw: RawView) -> Result<Seq<char>, Seq<char>> {
    winpath::absolute_path(raw.install_root, "service.install_root"@)
}

/// The data directory that a configuration file names.
pub open spec fn data_of(raw: RawView) -> Result<Seq<char>, Seq<char>> {
    winpath::absolute_path(raw.data_dir, "server.data_dir"@)
}

/// What is wrong with the part of a configuration file that is about the service.
pub open spec fn service_error(raw: RawView, facts: FactsView) -> Option<Seq<char>> {
    if raw.version != CONFIG_VERSION {
        Some(
            "unsupported config version "@ + text::decimal(raw.version as nat) + "; expected "@
                + text::decimal(CONFIG_VERSION as nat),
        )
    } else {
        either(
            options::service_name_error(raw.service_name),
            if scan::trim(raw.display_name).len() == 0 {
                Some("service.display_name must not be empty"@)
            } else {
                match root_of(raw) {
                    Err(e) => Some(e),
                    Ok(root) => install_root_error(root, facts.roots),
                }
            },
        )
    }
}

/// What is wrong with the places that a configuration file names.
pub open spec fn places_error(
    config_path: Seq<char>,
    raw: RawView,
    facts: FactsView,
) -> Option<Seq<char>> {
    either(
        fault(data_of(raw)),
        either(
            bind_error(raw.bind, facts.bind),
            if !(root_of(raw) matches Ok(root) && winpath::under(config_path, root)) {
                Some("config path must be under service.install_root: "@ + config_path)
            } else if !(root_of(raw) matches Ok(root) && data_of(raw) matches Ok(data)
                && winpath::under(data, root)) {
                Some("server.data_dir must be under service.install_root: "@ + data_of(raw)->Ok_0)
            } else {
                None
            },
        ),
    )
}

/// What is wrong with the part of a configuration file that is about tools.
pub open spec fn tools_error(raw: RawView, facts: FactsView) -> Option<Seq<char>> {
    either(
        fault_opt(dbgeng_of(raw, facts)),
        either(
            match raw.symbol_path {
                Some(s) => symbol_path_error(s, "debugger.symbol_path"@),
                None => None,
            },
            either(fault_opt(sysinternals_of(raw, facts)), fault(chosen_proxy(raw.proxy))),
        ),
    )
}

/// What is wrong with a configuration file.
pub open spec fn config_error(
    config_path: Seq<char>,
    raw: RawView,
    facts: FactsView,
) -> Option<Seq<char>> {
    either(
        service_error(raw, facts),
        either(places_error(config_path, raw, facts), tools_error(raw, facts)),
    )
}

/// The path of a tool, if it was named and is in order.
pub open spec fn found<T>(o: Option<Result<T, Seq<char>>>) -> Option<T> {
    match o {
        Some(Ok(p)) => Some(p),
        _ => None,
    }
}

/// The configuration that a configuration file without errors makes.
pub open spec fn configured(
    config_path: Seq<char>,
    raw: RawView,
    facts: FactsView,
) -> ConfigView {
    ConfigView {
        config_path,
        service_name: raw.service_name,
        display_name: raw.display_name,
        install_root: root_of(raw)->Ok_0,
        bind: facts.bind->Ok_0,
        data_dir: data_of(raw)->Ok_0,
        proxy: chosen_proxy(raw.proxy)->Ok_0,
        sysinternals_dir: found(sysinternals_of(raw, facts)),
        dbgeng_dir: found(dbgeng_of(raw, facts)),
        symbol_path: raw.symbol_path,
    }
}

fn check_service(raw: &RawRuntimeConfig, facts: &ConfigFacts) -> (r: Result<String, String>)
    ensures
        match r {
            Ok(root) => service_error(raw@, facts@) is None && root_of(raw@) == Ok::<_, Seq<char>>(
                root@,
            ),
            Err(e) => service_error(raw@, facts@) == Some(e@),
        },
{
    if raw.version != CONFIG_VERSION {
        return Err(
            cat4(
                "unsupported config version ",
                decimal_text(raw.version as u64).as_str(),
                "; expected ",
                decimal_text(CONFIG_VERSION as u64).as_str(),
            ),
        );
    }
    if let Err(error) = validate_service_name(raw.service_name.as_str()) {
        return Err(error);
    }
    if is_blank(raw.display_name.as_str()) {
        return Err("service.display_name must not be empty".to_owned());
    }
    let root = match normalize_absolute_required(
        raw.install_root.as_str(),
        "service.install_root",
    ) {
        Err(error) => {
            return Err(error);
        },
        Ok(root) => root,
    };
    match reject_dangerous_install_root(root.as_str(), &facts.roots) {
        Err(error) => Err(error),
        Ok(()) => Ok(root),
    }
}

fn check_places(
    config_path: &str,
    raw: &RawRuntimeConfig,
    facts: &ConfigFacts,
    root: &str,
) -> (r: Result<(String, BindAddress), String>)
    requires
        root_of(raw@) == Ok::<_, Seq<char>>(root@),
    ensures
        match r {
            Ok((data, bind)) => {
                &&& places_error(config_path@, raw@, facts@) is None
                &&& data_of(raw@) == Ok::<_, Seq<char>>(data@)
                &&& facts@.bind == Ok::<_, Seq<char>>(bind)
            },
            Err(e) => places_error(config_path@, raw@, facts@) == Some(e@),
        },
{
    let data_dir = match normalize_absolute_required(raw.data_dir.as_str(), "server.data_dir") {
        Err(error) => {
            return Err(error);
        },
        Ok(data_dir) => data_dir,
    };
    let bind = match parse_bind(raw.bind.as_str(), &facts.bind) {
        Err(error) => {
            return Err(error);
        },
        Ok(bind) => bind,
    };
    if !path_starts_with_case_insensitive(config_path, root) {
        return Err(cat2("config path must be under service.install_root: ", config_path));
    }
    if !path_starts_with_case_insensitive(data_dir.as_str(), root) {
        return Err(
            cat2("server.data_dir must be under service.install_root: ", data_dir.as_str()),
        );
    }
    Ok((data_dir, bind))
}

impl RuntimeConfig {
    /// Checks what a configuration file says. The caller gives what the system says of it.
    pub fn from_raw(config_path: String, raw: RawRuntimeConfig, facts: &ConfigFacts) -> (r: Result<
        RuntimeConfig,
        String,
    >)
        ensures
            match r {
                Ok(c) => config_error(config_path@, raw@, facts@) is None && c@ == configured(
                    config_path@,
                    raw@,
                    facts@,
                ),
                Err(e) => config_error(config_path@, raw@, facts@) == Some(e@),
            },
    {
        let install_root = match check_service(&raw, facts) {
            Err(error) => {
                return Err(error);
            },
            Ok(root) => root,
        };
        let (data_dir, bind) = match check_places(
            config_path.as_str(),
            &raw,
            facts,
            install_root.as_str(),
        ) {
            Err(error) => {
                return Err(error);
            },
            Ok(places) => places,
        };
        let dbgeng_dir = match &raw.dbgeng_dir {
            None => None,
            Some(path) => match parse_dbgeng_dir_path(
                path.as_str(),
                "debugger.dbgeng_dir",
                facts.dbgeng_dir,
            ) {
                Err(error) => {
                    return Err(error);
                },
                Ok(path) => Some(path),
            },
        };
        let symbol_path = match &raw.symbol_path {
            None => None,
            Some(value) => match parse_symbol_path(value.as_str(), "debugger.symbol_path") {
                Err(error) => {
                    return Err(error);
                },
                Ok(value) => Some(value),
            },
        };
        let sysinternals_dir = match &raw.sysinternals_dir {
            None => None,
            Some(path) => match parse_sysinternals_dir_path(
                path.as_str(),
                "tools.sysinternals_dir",
                facts.sysinternals_dir,
            ) {
                Err(error) => {
                    return Err(error);
                },
                Ok(path) => Some(path),
            },
        };
        let proxy = match proxy_from_config(raw.proxy) {
            Err(error) => {
                return Err(error);
            },
            Ok(proxy) => proxy,
        };
        Ok(
            RuntimeConfig {
                config_path,
                service: ServiceSettings {
                    name: raw.service_name,
                    display_name: raw.display_name,
                    install_root,
                },
                app: AppConfig {
                    bind,
                    data_dir,
                    proxy,
                    sysinternals_dir,
                    dbgeng_dir,
                    symbol_path,
                },
            },
        )
    }
}

/// A configuration that was accepted listens on this machine only, and keeps its file and its
/// data in an installation directory that is not one of the system.
pub proof fn accepted_configurations_are_local(
    config_path: Seq<char>,
    raw: RawView,
    facts: FactsView,
)
    requires
        config_error(config_path, raw, facts) is None,
    ensures
        configured(config_path, raw, facts).bind.ip.loopback(),
        winpath::under(config_path, configured(config_path, raw, facts).install_root),
        winpath::under(
            configured(config_path, raw, facts).data_dir,
            configured(config_path, raw, facts).install_root,
        ),
        install_root_error(configured(config_path, raw, facts).install_root, facts.roots) is None,
{
}

/// An installation directory that was accepted is called after the program, lies below the root
/// of a file system, and is none of the directories of the system.
pub proof fn accepted_roots_are_dedicated(path: Seq<char>, roots: RootsView)
    requires
        install_root_error(path, roots) is None,
    ensures
        winpath::parts(path).count() > 2,
        winpath::parts(path).file_name() matches Some(name) && scan::lower_all(name)
            == scan::lower_all("dbgflow"@),
        roots.user_profile matches Some(r) ==> (winpath::normalized(r) matches Some(n)
            && !same_place(path, n)),
        roots.program_data matches Some(r) ==> (winpath::normalized(r) matches Some(n)
            && !same_place(path, n)),
        roots.program_files matches Some(r) ==> (winpath::normalized(r) matches Some(n)
            && !same_place(path, n)),
{
}

/// What speaks against the removal of the installation directory.
pub open spec fn removal_error(
    config: ConfigView,
    installed_exe: Option<Seq<char>>,
    roots: RootsView,
) -> Option<Seq<char>> {
    match winpath::absolute_path(config.install_root, "service.install_root"@) {
        Err(e) => Some(e),
        Ok(root) => either(
            install_root_error(root, roots),
            if !winpath::under(config.config_path, root) {
                Some(
                    "refusing to remove install root because config is outside it: "@
                        + config.config_path,
                )
            } else if !winpath::under(config.data_dir, root) {
                Some(
                    "refusing to remove install root because data_dir is outside it: "@
                        + config.data_dir,
                )
            } else {
                match installed_exe {
                    None => None,
                    Some(exe) => match winpath::absolute_path(
                        exe,
                        "installed service executable"@,
                    ) {
                        Err(e) => Some(e),
                        Ok(exe) => if !winpath::under(exe, root) {
                            Some(
                                "refusing to remove install root because service executable is outside it: "@
                                    + exe,
                            )
                        } else {
                            None
                        },
                    },
                }
            },
        ),
    }
}

/// The view of an optional text.
pub open spec fn path_opt(o: Option<&str>) -> Option<Seq<char>> {
    match o {
        Some(s) => Some(s@),
        None => None,
    }
}

/// Checks that the installation directory can be removed, and gives it.
pub fn validate_install_root_removal(
    config: &RuntimeConfig,
    installed_exe: Option<&str>,
    roots: &SystemRoots,
) -> (r: Result<String, String>)
    ensures
        match r {
            Ok(root) => {
                &&& removal_error(config@, path_opt(installed_exe), roots@) is None
                &&& winpath::absolute_path(
                    config@.install_root,
                    "service.install_root"@,
                ) == Ok::<_, Seq<char>>(root@)
            },
            Err(e) => removal_error(config@, path_opt(installed_exe), roots@) == Some(e@),
        },
{
    let root = match normalize_absolute_required(
        config.service.install_root.as_str(),
        "service.install_root",
    ) {
        Err(error) => {
            return Err(error);
        },
        Ok(root) => root,
    };
    if let Err(error) = reject_dangerous_install_root(root.as_str(), roots) {
        return Err(error);
    }
    if !path_starts_with_case_insensitive(config.config_path.as_str(), root.as_str()) {
        return Err(
            cat2(
                "refusing to remove install root because config is outside it: ",
                config.config_path.as_str(),
            ),
        );
    }
    if !path_starts_with_case_insensitive(config.app.data_dir.as_str(), root.as_str()) {
        return Err(
            cat2(
                "refusing to remove install root because data_dir is outside it: ",
                config.app.data_dir.as_str(),
            ),
        );
    }
    if let Some(exe) = installed_exe {
        let exe = match normalize_absolute_required(exe, "installed service executable") {
            Err(error) => {
                return Err(error);
            },
            Ok(exe) => exe,
        };
        if !path_starts_with_case_insensitive(exe.as_str(), root.as_str()) {
            return Err(
                cat2(
                    "refusing to remove install root because service executable is outside it: ",
                    exe.as_str(),
                ),
            );
        }
    }
    Ok(root)
}

} // verus!
