//! Laws of what is said when options, configurations or services are wrong.

use crate::runtime::config;
use crate::runtime::config::{
    parse_symbol_path, proxy_from_config, reject_dangerous_install_root,
    validate_install_root_removal, ConfigFacts, RawProxyConfig, RawRuntimeConfig, RuntimeConfig,
    SystemRoots,
};
use crate::runtime::config::ProxyChoice;
use crate::runtime::options;
use crate::runtime::options::{
    help_text, parse_command_mode, parse_installed_service_command, parse_required_config_path,
    service_install_help_text, service_run_arguments, service_uninstall_help_text,
    validate_service_name, CommandMode, InstalledServiceCommand, ServiceUninstallConfig,
    UninstallOptions,
};
use crate::runtime::command_line::split_windows_command_line;
use crate::runtime::service::{read_installed_command, resolve_uninstall_plan, UninstallPlan};
use crate::scan;
use crate::text;
use crate::validation;
use crate::winpath;
use vstd::prelude::*;

verus! {

/// A command that is unknown or not complete is refused with what was said and with the help.
pub proof fn wrong_commands_are_refused_with_help(
    args: &[Option<String>],
    help: &'static str,
    r: Result<CommandMode, String>,
)
    requires
        call_ensures(help_text, (), help),
        call_ensures(parse_command_mode, (args,), r),
    ensures
        args@.len() == 0 ==> (r matches Err(e) && e@ == "missing command\n\n"@ + help@),
        args@.len() == 1 ==> (args@[0] matches Some(a) ==> (a@ == "service"@ ==> (r matches Err(e)
            && e@ == "missing service command\n\n"@ + help@))),
        args@.len() > 0 ==> (args@[0] matches Some(a) ==> (a@.len() == 0 ==> (r matches Err(e) && e@
            == "unknown command: "@ + a@ + "\n\n"@ + help@))),
        args@.len() > 1 ==> (args@[0] matches Some(a) ==> (args@[1] matches Some(b) ==> (a@
            == "service"@ && b@.len() == 0 ==> (r matches Err(e) && e@
            == "unknown service command: "@ + b@ + "\n\n"@ + help@)))),
        args@.len() > 1 && args@[1] is None ==> (args@[0] matches Some(a) ==> (a@ == "service"@ ==> (
        r matches Err(e) && e@ == "service command must be valid UTF-8"@))),
        args@.len() > 1 && args@[1] is None ==> (args@[0] matches Some(a) ==> (a@ == "worker"@ ==> (
        r matches Err(e) && e@ == "worker kind must be valid UTF-8"@))),
{
    reveal_strlit("http");
    reveal_strlit("service");
    reveal_strlit("worker");
    reveal_strlit("--help");
    reveal_strlit("-h");
    reveal_strlit("help");
    reveal_strlit("run");
    reveal_strlit("install");
    reveal_strlit("uninstall");
    assert("http"@.len() == 4 && "service"@.len() == 7 && "worker"@.len() == 6 && "--help"@.len()
        == 6 && "-h"@.len() == 2 && "help"@.len() == 4 && "run"@.len() == 3 && "install"@.len() == 7
        && "uninstall"@.len() == 9);
    assert("worker"@[0] == 'w');
    let v = options::arguments_view(args@);
    assert(v.len() == args@.len());
    if args@.len() > 0 {
        assert(v[0] == text::view_opt(args@[0]));
    }
    if args@.len() > 1 {
        assert(v[1] == text::view_opt(args@[1]));
    }
}

/// The help says how the server is used, and each command has its own.
pub proof fn helps_say_how_it_is_used(
    help: &'static str,
    install: &'static str,
    uninstall: &'static str,
)
    requires
        call_ensures(help_text, (), help),
        call_ensures(service_install_help_text, (), install),
        call_ensures(service_uninstall_help_text, (), uninstall),
    ensures
        help@
            == "Usage:\n  dbgflow-mcp http --config <path>                Run local HTTP MCP transport\n  dbgflow-mcp service run --config <path>         Run as a Windows service process\n  dbgflow-mcp service install --config <path>     Install and start the Windows service\n  dbgflow-mcp service uninstall [options]         Stop, uninstall, and remove install root\n  dbgflow-mcp worker session                      Run an internal session worker process"@,
        install@
            == "Usage:\n  dbgflow-mcp service install --config <path>\n\nOptions:\n  --config <path>                                  Required TOML config file"@,
        uninstall@
            == "Usage:\n  dbgflow-mcp service uninstall [options]\n\nOptions:\n  --service-name <name>                            Default: dbgflow-mcp\n  --config <path>                                  Fallback config path when the service is missing or has an unparsable command"@,
{
}

/// Arguments that are no text are refused.
pub proof fn arguments_have_to_be_texts(
    args: &[Option<String>],
    files: &[String],
    help: &str,
    r: Result<String, String>,
)
    requires
        call_ensures(parse_required_config_path, (args, files, help), r),
    ensures
        args@.len() > 0 && args@[0] is None ==> (r matches Err(e) && e@
            == "arguments must be valid UTF-8"@),
        args@.len() > 1 && args@[1] is None ==> (args@[0] matches Some(a) ==> (a@ == "--config"@ ==> (
        r matches Err(e) && e@ == "value for "@ + "--config"@ + " must be valid UTF-8"@))),
{
    let v = options::arguments_view(args@);
    reveal_strlit("--config");
    reveal_strlit("--config=");
    assert("--config"@.len() == 8 && "--config="@.len() == 9);
    if args@.len() > 0 {
        assert(v[0] == text::view_opt(args@[0]));
    }
    if args@.len() > 1 {
        assert(v[1] == text::view_opt(args@[1]));
        assert(v.skip(1)[0] == v[1]);
    }
}

/// The command of a service that is not what it should be is refused for the reason.
pub proof fn wrong_service_commands_are_refused_for_the_reason(
    line: &str,
    split: Result<Vec<String>, String>,
    r: Result<InstalledServiceCommand, String>,
    name: &str,
    read: Result<InstalledServiceCommand, String>,
)
    requires
        call_ensures(split_windows_command_line, (line,), split),
        call_ensures(parse_installed_service_command, (line,), r),
        call_ensures(read_installed_command, (name, line), read),
    ensures
        split matches Err(e) ==> e@ == "service command line has an unterminated quote"@,
        split is Err ==> (r matches Err(e) && e@
            == "service command line has an unterminated quote"@),
        split matches Ok(args) ==> {
            &&& args@.len() < 4 ==> (r matches Err(e) && e@ == "service command line is too short"@)
            &&& args@.len() >= 4 && (args@[1]@ != "service"@ || args@[2]@ != "run"@) ==> (
            r matches Err(e) && e@
                == "service command line is not 'service run --config <path>'"@)
            &&& args@.len() == 4 && args@[1]@ == "service"@ && args@[2]@ == "run"@ && args@[3]@
                == "--config"@ ==> (r matches Err(e) && e@
                == "service command line has --config without a value"@)
            &&& args@.len() == 4 && args@[1]@ == "service"@ && args@[2]@ == "run"@ && args@[3]@.len()
                == 0 ==> (r matches Err(e) && e@
                == "service command line does not include --config <path>"@)
        },
        r matches Ok(c) ==> (read matches Ok(d) && d.executable_path@ == c.executable_path@
            && d.config_path@ == c.config_path@),
        r matches Err(e) ==> (read matches Err(x) && x@ == "parse service '"@ + name@
            + "' command line '"@ + line@ + "': "@ + e@
            + "; pass --config <path> to uninstall with an explicit config"@),
{
    reveal_with_fuel(options::last_config, 3);
    reveal_strlit("--config");
    reveal_strlit("--config=");
    if let Ok(args) = split {
        let v = text::views(args@);
        assert(v.len() == args@.len());
        if args@.len() >= 4 {
            assert(v[1] == args@[1]@ && v[2] == args@[2]@ && v[3] == args@[3]@);
            assert(v.skip(3)[0] == v[3]);
            assert(v.skip(3).len() == v.len() - 3);
        }
        if args@.len() == 4 {
            assert(v.skip(3).skip(1).len() == 0);
        }
    }
}

/// A process that was not started as a service says what it expected.
pub proof fn wrong_starts_say_what_was_expected(
    args: &[Option<String>],
    r: Result<Vec<Option<String>>, String>,
)
    requires
        call_ensures(service_run_arguments, (args,), r),
    ensures
        args@.len() == 0 ==> (r matches Err(e) && e@ == "missing executable path"@),
        args@.len() == 1 ==> (r matches Err(e) && e@ == "missing top-level command"@),
        args@.len() > 1 && args@[1] is None ==> (r matches Err(e) && e@
            == "top-level command must be valid UTF-8"@),
        args@.len() > 1 ==> (args@[1] matches Some(a) ==> (a@ != "service"@ ==> (r matches Err(e)
            && e@ == "expected service command, got: "@ + a@))),
        args@.len() == 2 ==> (args@[1] matches Some(a) ==> (a@ == "service"@ ==> (r matches Err(e)
            && e@ == "missing service command"@))),
        args@.len() > 2 ==> (args@[1] matches Some(a) ==> (args@[2] matches Some(b) ==> (a@
            == "service"@ && b@ != "run"@ ==> (r matches Err(e) && e@
            == "expected service run, got service "@ + b@)))),
{
    let v = options::arguments_view(args@);
    assert(v.len() == args@.len());
    if args@.len() > 1 {
        assert(v[1] == text::view_opt(args@[1]));
    }
    if args@.len() > 2 {
        assert(v[2] == text::view_opt(args@[2]));
    }
}

/// A service that is named twice has to be named alike, and a wrong name is refused for the reason.
pub proof fn names_have_to_agree(
    o: UninstallOptions,
    configured: String,
    r: Result<ServiceUninstallConfig, String>,
    value: &str,
    i: int,
    checked: Result<(), String>,
)
    requires
        call_ensures(UninstallOptions::request, (o, Some(Ok(configured))), r),
        call_ensures(validate_service_name, (value,), checked),
    ensures
        o.service_name matches Some(n) ==> (n@ != configured@ ==> (r matches Err(e) && e@
            == "--service-name '"@ + n@ + "' does not match config service.name '"@ + configured@
            + "'"@)),
        0 <= i < value@.len() && value@[i] == '*' && scan::trim(value@).len() > 0 ==> (
        checked matches Err(e) && e@
            == "service name must not contain path separators, wildcards, or control characters"@),
{
    if 0 <= i < value@.len() && value@[i] == '*' {
        assert(options::bad_in_name(value@[i]));
    }
}

/// A configuration that does not lie where it should is refused for the reason.
pub proof fn misplaced_configurations_are_refused_for_the_reason(
    config_path: String,
    raw: RawRuntimeConfig,
    facts: ConfigFacts,
    root: Seq<char>,
    data: Seq<char>,
    r: Result<RuntimeConfig, String>,
)
    requires
        call_ensures(RuntimeConfig::from_raw, (config_path, raw, &facts), r),
        raw.version == 1,
        options::service_name_error(raw.service_name@) is None,
        scan::trim(raw.display_name@).len() > 0,
        winpath::absolute_path(raw.install_root@, "service.install_root"@) == Ok::<_, Seq<char>>(
            root,
        ),
        config::install_root_error(root, facts.roots@) is None,
        winpath::absolute_path(raw.data_dir@, "server.data_dir"@) == Ok::<_, Seq<char>>(data),
        facts.bind matches Ok(b) && b.ip.loopback(),
    ensures
        !winpath::under(config_path@, root) ==> (r matches Err(e) && e@
            == "config path must be under service.install_root: "@ + config_path@),
        winpath::under(config_path@, root) && !winpath::under(data, root) ==> (r matches Err(e)
            && e@ == "server.data_dir must be under service.install_root: "@ + data),
        winpath::under(config_path@, root) && winpath::under(data, root) && raw.dbgeng_dir is None
            && raw.symbol_path is None && raw.sysinternals_dir is None && raw.proxy is None ==> r
            is Ok,
        winpath::under(config_path@, root) && winpath::under(data, root) && raw.dbgeng_dir is None
            ==> (raw.symbol_path matches Some(s) ==> (scan::trim(s@).len() == 0 ==> (r matches Err(e)
            && e@ == "debugger.symbol_path"@ + " must not be empty"@))),
{
}

/// A directory that is not one of its own is refused for the reason.
pub proof fn dangerous_roots_are_refused_for_the_reason(
    path: &str,
    roots: SystemRoots,
    r: Result<(), String>,
)
    requires
        call_ensures(reject_dangerous_install_root, (path, &roots), r),
        winpath::parts(path@).count() > 2,
    ensures
        !(winpath::parts(path@).file_name() matches Some(n) && scan::lower_all(n)
            == scan::lower_all("dbgflow"@)) ==> (r matches Err(e) && e@
            == "service.install_root must be a dedicated 'dbgflow' directory: "@ + path@),
        named_dbgflow(path@) && is_root(path@, roots.user_profile) ==> (r matches Err(e) && e@
            == "service.install_root must not be "@ + "the user profile root"@ + ": "@ + path@),
        named_dbgflow(path@) && roots.user_profile is None && is_root(path@, roots.local_app_data)
            ==> (r matches Err(e) && e@ == "service.install_root must not be "@ + "LOCALAPPDATA"@
            + ": "@ + path@),
        named_dbgflow(path@) && roots.user_profile is None && roots.local_app_data is None
            && is_root(path@, roots.app_data) ==> (r matches Err(e) && e@
            == "service.install_root must not be "@ + "APPDATA"@ + ": "@ + path@),
        named_dbgflow(path@) && roots.user_profile is None && roots.local_app_data is None
            && roots.app_data is None && is_root(path@, roots.program_data) ==> (r matches Err(e)
            && e@ == "service.install_root must not be "@ + "ProgramData"@ + ": "@ + path@),
        named_dbgflow(path@) && roots.user_profile is None && roots.local_app_data is None
            && roots.app_data is None && roots.program_data is None && is_root(
            path@,
            roots.program_files,
        ) ==> (r matches Err(e) && e@ == "service.install_root must not be "@ + "ProgramFiles"@
            + ": "@ + path@),
        named_dbgflow(path@) && roots.user_profile is None && roots.local_app_data is None
            && roots.app_data is None && roots.program_data is None && roots.program_files is None
            && is_root(path@, roots.program_files_x86) ==> (r matches Err(e) && e@
            == "service.install_root must not be "@ + "ProgramFiles(x86)"@ + ": "@ + path@),
        named_dbgflow(path@) && no_roots(roots) && (scan::lower_all(path@) == scan::lower_all(
            "C:\\Users"@,
        ) || scan::lower_all(path@) == scan::lower_all("C:\\ProgramData"@)) ==> (r matches Err(e)
            && e@ == "service.install_root must not be a high-level system directory: "@ + path@),
        named_dbgflow(path@) && no_roots(roots) && scan::lower_all(path@) != scan::lower_all(
            "C:\\Users"@,
        ) && scan::lower_all(path@) != scan::lower_all("C:\\ProgramData"@) ==> r is Ok,
{
}

/// Whether the last name of a path is that of the server.
pub open spec fn named_dbgflow(path: Seq<char>) -> bool {
    winpath::parts(path).file_name() matches Some(n) && scan::lower_all(n) == scan::lower_all(
        "dbgflow"@,
    )
}

/// Whether a path is a directory of the system.
pub open spec fn is_root(path: Seq<char>, root: Option<String>) -> bool {
    root matches Some(p) && (winpath::normalized(p@) matches Some(n) && scan::lower_all(path)
        == scan::lower_all(n))
}

/// Whether nothing is known of the directories of the system.
pub open spec fn no_roots(roots: SystemRoots) -> bool {
    roots.user_profile is None && roots.local_app_data is None && roots.app_data is None
        && roots.program_data is None && roots.program_files is None && roots.program_files_x86
        is None
}

/// A directory whose parts lie elsewhere is not removed, for the reason.
pub proof fn refused_removals_say_why(
    c: RuntimeConfig,
    exe: &str,
    roots: SystemRoots,
    root: Seq<char>,
    place: Seq<char>,
    r: Result<String, String>,
)
    requires
        call_ensures(validate_install_root_removal, (&c, Some(exe), &roots), r),
        winpath::absolute_path(c.service.install_root@, "service.install_root"@) == Ok::<
            _,
            Seq<char>,
        >(root),
        config::install_root_error(root, roots@) is None,
        winpath::absolute_path(exe@, "installed service executable"@) == Ok::<_, Seq<char>>(place),
    ensures
        !winpath::under(c.config_path@, root) ==> (r matches Err(e) && e@
            == "refusing to remove install root because config is outside it: "@ + c.config_path@),
        winpath::under(c.config_path@, root) && !winpath::under(c.app.data_dir@, root) ==> (
        r matches Err(e) && e@ == "refusing to remove install root because data_dir is outside it: "@
            + c.app.data_dir@),
        winpath::under(c.config_path@, root) && winpath::under(c.app.data_dir@, root)
            && !winpath::under(place, root) ==> (r matches Err(e) && e@
            == "refusing to remove install root because service executable is outside it: "@ + place),
        winpath::under(c.config_path@, root) && winpath::under(c.app.data_dir@, root)
            && winpath::under(place, root) ==> (r matches Ok(p) && p@ == root),
{
}

/// A configuration that is not the one of the service is refused with both.
pub proof fn configurations_have_to_agree(
    name: &str,
    command: InstalledServiceCommand,
    named: RuntimeConfig,
    own: RuntimeConfig,
    roots: SystemRoots,
    r: Result<UninstallPlan, String>,
)
    requires
        call_ensures(
            resolve_uninstall_plan,
            (name, &Ok(Some(command)), &Some(Ok(named)), &Ok(own), &roots),
            r,
        ),
        scan::lower_all(named.config_path@) != scan::lower_all(own.config_path@),
    ensures
        r matches Err(e) && e@ == "--config "@ + named.config_path@
            + " does not match installed service config "@ + own.config_path@,
{
}

/// Variables that are unknown or empty are refused by name.
pub proof fn wrong_proxy_variables_are_refused(
    c: RawProxyConfig,
    r: Result<ProxyChoice, String>,
    value: &str,
    label: &str,
    symbols: Result<String, String>,
)
    requires
        c.mode@ == "env"@,
        c.env@.len() == 1,
        call_ensures(proxy_from_config, (Some(c),), r),
        call_ensures(parse_symbol_path, (value, label), symbols),
    ensures
        !config::known_proxy_key(c.env@[0].0@) ==> (r matches Err(e) && e@
            == "proxy.env key is not supported: "@ + c.env@[0].0@),
        config::known_proxy_key(c.env@[0].0@) && c.env@[0].1@.len() == 0 ==> (r matches Err(e) && e@
            == "proxy.env value must not be empty for key: "@ + c.env@[0].0@),
        scan::trim(value@).len() > 0 && validation::has_control(value@) ==> (symbols matches Err(e)
            && e@ == label@ + " contains unsupported control characters"@),
{
    reveal_strlit("none");
    reveal_strlit("disabled");
    reveal_strlit("url");
    reveal_strlit("env");
    assert("none"@.len() == 4 && "disabled"@.len() == 8 && "url"@.len() == 3 && "env"@.len() == 3);
    assert("url"@[0] == 'u' && "env"@[0] == 'e');
    let v = config::variables_view(c.env@);
    reveal_with_fuel(config::variables_error, 2);
    assert(v[0] == (c.env@[0].0@, c.env@[0].1@));
}

/// The server has its usual address, names and version.
pub proof fn defaults_are_known()
    ensures
        config::CONFIG_VERSION == 1,
        config::DEFAULT_BIND@ == "127.0.0.1:7331"@,
        config::SERVICE_DISPLAY_NAME@ == "dbgflow MCP Server"@,
        config::SERVICE_DESCRIPTION@ == "dbgflow Streamable HTTP MCP server"@,
        options::SERVICE_NAME@ == "dbgflow-mcp"@,
        crate::runtime::service::SERVICE_STOP_TIMEOUT_MS == 30000,
        crate::runtime::service::SERVICE_DELETE_TIMEOUT_MS == 60000,
        crate::runtime::service::HEALTH_TIMEOUT_MS == 60000,
{
}

} // verus!
