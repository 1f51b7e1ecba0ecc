//! Laws of the command line, the configuration and the service.

use crate::runtime::command_line;
use crate::runtime::command_line::{quote_windows_arg, split_windows_command_line};
use crate::runtime::config;
use crate::runtime::config::{
    is_known_proxy_key, parse_bind, parse_dbgeng_dir_path, parse_symbol_path,
    parse_sysinternals_dir_path, proxy_from_config, reject_dangerous_install_root,
    validate_install_root_removal, BindAddress, ConfigFacts, DirFacts, IpAddress, ProxyChoice,
    ProxyView, RawProxyConfig, RawRuntimeConfig, RuntimeConfig, SystemRoots,
};
use crate::runtime::options;
use crate::runtime::options::{
    normalize_absolute_existing_file, parse_command_mode, parse_installed_service_command,
    parse_required_config_path, parse_service_uninstall_options, service_run_arguments,
    validate_service_name, CommandMode, InstalledServiceCommand, ServiceUninstallConfig,
    UninstallOptions,
};
use crate::runtime::proxy;
use crate::runtime::proxy::ProxySource;
use crate::runtime::service;
use crate::runtime::service::{
    elevation_outcome, health_request, is_healthy, resolve_uninstall_plan, service_report,
    uninstall_plan_from_config, wait_step, ServiceInstallConfig, ServicePhase,
    ServiceProcessConfig, ServiceReport, UninstallPlan, WaitStep,
};
use crate::scan;
use crate::text;
use crate::validation;
use crate::winpath;
use vstd::prelude::*;

verus! {

/// The words of the command line lead to their command, and no others do.
pub proof fn words_lead_to_their_command(
    args: &[Option<String>],
    first: String,
    second: String,
    r: Result<CommandMode, String>,
)
    requires
        args@.len() > 0,
        args@[0] == Some(first),
        args@.len() > 1 ==> args@[1] == Some(second),
        call_ensures(parse_command_mode, (args,), r),
    ensures
        ({
            let two = args@.len() > 1;
            &&& r == Ok::<CommandMode, String>(CommandMode::Http) <==> first@ == "http"@
            &&& r == Ok::<CommandMode, String>(CommandMode::ServiceRun) <==> first@ == "service"@
                && two && second@ == "run"@
            &&& r == Ok::<CommandMode, String>(CommandMode::ServiceInstall) <==> first@
                == "service"@ && two && second@ == "install"@
            &&& r == Ok::<CommandMode, String>(CommandMode::ServiceUninstall) <==> first@
                == "service"@ && two && second@ == "uninstall"@
            &&& r == Ok::<CommandMode, String>(CommandMode::WorkerSession) <==> first@ == "worker"@
                && two && second@ == "session"@ && args@.len() == 2
            &&& r == Ok::<CommandMode, String>(CommandMode::Help) <==> first@ == "--help"@ || first@
                == "-h"@ || first@ == "help"@
            &&& first@ == "worker"@ && !two ==> (r matches Err(e) && e@ == "missing worker kind"@)
            &&& first@ == "worker"@ && two && second@ != "session"@ ==> (r matches Err(e) && e@
                == "unknown worker kind: "@ + second@)
            &&& first@ == "worker"@ && second@ == "session"@ && args@.len() > 2 ==> (r matches Err(e)
                && e@ == "worker session does not accept extra arguments"@)
        }),
{
    reveal_strlit("http");
    reveal_strlit("service");
    reveal_strlit("worker");
    reveal_strlit("--help");
    reveal_strlit("-h");
    reveal_strlit("help");
    assert("http"@.len() == 4 && "service"@.len() == 7 && "worker"@.len() == 6 && "--help"@.len() == 6 && "-h"@.len() == 2 && "help"@.len() == 4);
    assert("http"@[1] == 't' && "help"@[1] == 'e');
    assert("worker"@[0] == 'w' && "--help"@[0] == '-');
    reveal_strlit("run");
    reveal_strlit("install");
    reveal_strlit("uninstall");
    reveal_strlit("session");
    assert("run"@.len() == 3 && "install"@.len() == 7 && "uninstall"@.len() == 9 && "session"@.len() == 7);
    assert("install"@[0] == 'i' && "session"@[0] == 's');
    let v = options::arguments_view(args@);
    assert(v[0] == Some(first@));
    if args@.len() > 1 {
        assert(v[1] == Some(second@));
    }
}

/// A command line without words, or with words that are no text, is refused.
pub proof fn missing_words_are_refused(args: &[Option<String>], r: Result<CommandMode, String>)
    requires
        call_ensures(parse_command_mode, (args,), r),
    ensures
        args@.len() == 0 ==> r is Err,
        args@.len() > 0 && args@[0] is None ==> (r matches Err(e) && e@
            == "command must be valid UTF-8"@),
{
    if args@.len() > 0 {
        assert(options::arguments_view(args@)[0] == text::view_opt(args@[0]));
    }
}

/// A configuration is named by `--config` with the path behind it or joined to it, and it has to be
/// there.
pub proof fn configurations_are_named(
    path: &str,
    joined: bool,
    args: &[Option<String>],
    files: &[String],
    help: &str,
    r: Result<String, String>,
    found: Result<String, String>,
)
    requires
        joined ==> args@.len() == 1 && (args@[0] matches Some(a) && a@ == "--config="@ + path@),
        !joined ==> args@.len() == 2 && (args@[0] matches Some(a) && a@ == "--config"@) && (args@[1]
            matches Some(b) && b@ == path@),
        call_ensures(parse_required_config_path, (args, files, help), r),
        call_ensures(normalize_absolute_existing_file, (path, "--config", files), found),
    ensures
        r is Ok <==> found is Ok,
        r matches Ok(p) ==> (found matches Ok(f) && p@ == f@),
        r matches Err(e) ==> (found matches Err(f) && e@ == f@),
{
    reveal_with_fuel(options::named_config, 3);
    let v = options::arguments_view(args@);
    assert(v.len() == args@.len());
    assert(v[0] == text::view_opt(args@[0]));
    reveal_strlit("--config");
    reveal_strlit("--config=");
    if joined {
        let arg = "--config="@ + path@;
        assert(arg.take(9) =~= "--config="@);
        assert(arg.skip(9) =~= path@);
        assert(v.skip(1).len() == 0);
    } else {
        assert(v[1] == text::view_opt(args@[1]));
        assert(v.skip(1)[0] == v[1]);
        assert(v.skip(2).len() == 0);
    }
}

/// Of two configurations that are named the later one counts; without one the command is refused.
pub proof fn later_configurations_count(
    first: &str,
    second: &str,
    args: &[Option<String>],
    files: &[String],
    help: &str,
    r: Result<String, String>,
    found: Result<String, String>,
    other: Result<String, String>,
)
    requires
        args@.len() == 2,
        args@[0] matches Some(a) && a@ == "--config="@ + first@,
        args@[1] matches Some(b) && b@ == "--config="@ + second@,
        call_ensures(parse_required_config_path, (args, files, help), r),
        call_ensures(normalize_absolute_existing_file, (first, "--config", files), other),
        call_ensures(normalize_absolute_existing_file, (second, "--config", files), found),
    ensures
        other is Ok && found is Ok ==> (r matches Ok(p) && p@ == found->Ok_0@),
        other is Err || found is Err ==> r is Err,
{
    reveal_with_fuel(options::named_config, 3);
    let v = options::arguments_view(args@);
    assert(v[0] == text::view_opt(args@[0]));
    assert(v[1] == text::view_opt(args@[1]));
    assert(v.skip(1)[0] == v[1]);
    assert(v.skip(1).skip(1).len() == 0);
    reveal_strlit("--config=");
    assert(("--config="@ + first@).take(9) =~= "--config="@);
    assert(("--config="@ + first@).skip(9) =~= first@);
    assert(("--config="@ + second@).take(9) =~= "--config="@);
    assert(("--config="@ + second@).skip(9) =~= second@);
}

/// A command that needs a configuration says what it takes if none is named, and refuses what it
/// does not know.
pub proof fn other_options_are_refused(
    args: &[Option<String>],
    files: &[String],
    help: &str,
    r: Result<String, String>,
)
    requires
        call_ensures(parse_required_config_path, (args, files, help), r),
    ensures
        args@.len() == 0 ==> (r matches Err(e) && e@ == "missing required --config <path>\n\n"@
            + help@),
        args@.len() > 0 ==> (args@[0] matches Some(a) ==> {
            &&& a@ == "--help"@ || a@ == "-h"@ ==> (r matches Err(e) && e@ == help@)
            &&& a@ == "--config"@ && args@.len() == 1 ==> (r matches Err(e) && e@
                == "missing value for "@ + "--config"@)
            &&& a@.len() > 0 && a@[0] != '-' ==> (r matches Err(e) && e@ == "unknown option: "@ + a@
                + "\n\n"@ + help@)
        }),
{
    let v = options::arguments_view(args@);
    reveal_strlit("--config=");
    reveal_strlit("--config");
    reveal_strlit("--help");
    reveal_strlit("-h");
    if args@.len() > 0 {
        assert(v[0] == text::view_opt(args@[0]));
        if let Some(a) = args@[0] {
            if scan::starts(a@, "--config="@) {
                assert(a@.take(9)[0] == '-');
            }
            assert("--config"@[0] == '-' && "--help"@[0] == '-' && "-h"@[0] == '-');
            assert("--help"@.len() == 6 && "-h"@.len() == 2 && "--config"@.len() == 8);
        }
    }
}

/// A file is taken if its path is absolute and it is there.
pub proof fn files_have_to_be_there(
    path: &str,
    label: &str,
    files: &[String],
    r: Result<String, String>,
    absolute: Result<String, String>,
)
    requires
        call_ensures(normalize_absolute_existing_file, (path, label, files), r),
        call_ensures(winpath::normalize_absolute_required, (path, label), absolute),
    ensures
        r is Ok <==> (absolute matches Ok(p) && text::views(files@).contains(p@)),
        r matches Ok(p) ==> (absolute matches Ok(a) && p@ == a@),
        absolute matches Err(e) ==> (r matches Err(x) && x@ == e@),
        absolute matches Ok(p) ==> (r matches Err(e) ==> e@ == label@
            + " must point to an existing file: "@ + p@),
{
}

/// A service has a name that shows and that holds no separator, no wildcard and no control
/// character.
pub proof fn service_names_are_checked(value: &str, c: char, r: Result<(), String>)
    requires
        call_ensures(validate_service_name, (value,), r),
        value@.contains(c),
    ensures
        c == '/' || c == '\\' || c == '*' || c == '?' || c == '[' || c == ']' || (c as u32) < 32
            || c as u32 == 127 ==> r is Err,
        scan::trim(value@).len() == 0 ==> (r matches Err(e) && e@
            == "service name must not be empty"@),
        scan::trim(value@).len() > 0 && (forall|i: int|
            0 <= i < value@.len() ==> ((#[trigger] value@[i]) == '-' || value@[i] == '_'
                || value@[i] == ' ' || '0' <= value@[i] <= '9' || 'a' <= value@[i] <= 'z' || 'A'
                <= value@[i] <= 'Z')) ==> r is Ok,
{
    let i = choose|i: int| 0 <= i < value@.len() && value@[i] == c;
    assert(value@[i] == c);
}

/// What is to be removed is named by options: a service and a configuration, in either form.
pub proof fn removals_name_service_and_configuration(
    name: Seq<char>,
    path: &str,
    args: &[Option<String>],
    files: &[String],
    r: Result<UninstallOptions, String>,
    found: Result<String, String>,
)
    requires
        args@.len() == 4,
        args@[0] matches Some(a) && a@ == "--service-name"@,
        args@[1] matches Some(b) && b@ == name,
        args@[2] matches Some(c) && c@ == "--config"@,
        args@[3] matches Some(d) && d@ == path@,
        call_ensures(parse_service_uninstall_options, (args, files), r),
        call_ensures(normalize_absolute_existing_file, (path, "--config", files), found),
    ensures
        r is Ok ==> options::service_name_error(name) is None && found is Ok,
        options::service_name_error(name) is None && found is Ok ==> (r matches Ok(o)
            && text::view_opt(o.service_name) == Some(name) && text::view_opt(o.config_path) == Some(
            found->Ok_0@,
        )),
{
    reveal_with_fuel(options::uninstall_options, 4);
    let v = options::arguments_view(args@);
    assert(v[0] == text::view_opt(args@[0]));
    assert(v[1] == text::view_opt(args@[1]));
    assert(v[2] == text::view_opt(args@[2]));
    assert(v[3] == text::view_opt(args@[3]));
    assert(v.skip(1)[0] == v[1]);
    assert(v.skip(2)[0] == v[2]);
    assert(v.skip(2).skip(1)[0] == v[3]);
    assert(v.skip(2).skip(2).len() == 0);
    reveal_strlit("--config=");
    reveal_strlit("--config");
    reveal_strlit("--service-name=");
    reveal_strlit("--service-name");
    if scan::starts("--service-name"@, "--config="@) {
        assert("--service-name"@.take(9)[2] == 's');
        assert("--config="@[2] == 'c');
    }
    assert("--config"@.len() == 8 && "--service-name"@.len() == 14 && "--service-name="@.len()
        == 15 && "--config="@.len() == 9);
}

/// The same options may be joined to their values.
pub proof fn joined_removals_name_service_and_configuration(
    name: Seq<char>,
    path: &str,
    args: &[Option<String>],
    files: &[String],
    r: Result<UninstallOptions, String>,
    found: Result<String, String>,
)
    requires
        args@.len() == 2,
        args@[0] matches Some(a) && a@ == "--service-name="@ + name,
        args@[1] matches Some(c) && c@ == "--config="@ + path@,
        call_ensures(parse_service_uninstall_options, (args, files), r),
        call_ensures(normalize_absolute_existing_file, (path, "--config", files), found),
    ensures
        r is Ok ==> options::service_name_error(name) is None && found is Ok,
        options::service_name_error(name) is None && found is Ok ==> (r matches Ok(o)
            && text::view_opt(o.service_name) == Some(name) && text::view_opt(o.config_path) == Some(
            found->Ok_0@,
        )),
{
    reveal_with_fuel(options::uninstall_options, 4);
    let v = options::arguments_view(args@);
    assert(v[0] == text::view_opt(args@[0]));
    assert(v[1] == text::view_opt(args@[1]));
    assert(v.skip(1)[0] == v[1]);
    assert(v.skip(1).skip(1).len() == 0);
    reveal_strlit("--config=");
    reveal_strlit("--service-name=");
    let a = "--service-name="@ + name;
    let c = "--config="@ + path@;
    assert(a.take(15) =~= "--service-name="@);
    assert(a.skip(15) =~= name);
    assert(c.take(9) =~= "--config="@);
    assert(c.skip(9) =~= path@);
    if scan::starts(c, "--service-name="@) {
        assert(c.take(15)[2] == 's');
        assert(c[2] == 'c');
    }
}

/// Nothing named is nothing removed by name.
pub proof fn empty_removals_name_nothing(
    args: &[Option<String>],
    files: &[String],
    r: Result<UninstallOptions, String>,
)
    requires
        args@.len() == 0,
        call_ensures(parse_service_uninstall_options, (args, files), r),
    ensures
        r matches Ok(o) && o.service_name is None && o.config_path is None,
{
}

/// The service that is removed is the one that the configuration names, or the one that was asked
/// for, or the usual one; the two must not differ.
pub proof fn removals_find_their_service(
    options: UninstallOptions,
    configured: Option<Result<String, String>>,
    r: Result<ServiceUninstallConfig, String>,
)
    requires
        call_ensures(UninstallOptions::request, (options, configured), r),
    ensures
        configured is None && options.service_name is None ==> (r matches Ok(c) && c.service_name@
            == "dbgflow-mcp"@),
        configured is None ==> (options.service_name matches Some(n) ==> (r matches Ok(c)
            && c.service_name@ == n@)),
        configured matches Some(Err(e)) ==> (r matches Err(x) && x@ == e@),
        options.service_name is None ==> (configured matches Some(Ok(n)) ==> (r matches Ok(c)
            && c.service_name@ == n@)),
        options.service_name matches Some(n) ==> (configured matches Some(Ok(m)) ==> {
            &&& r is Ok <==> n@ == m@
            &&& r matches Ok(c) ==> c.service_name@ == n@
        }),
        r matches Ok(c) ==> text::view_opt(c.config_path) == text::view_opt(options.config_path),
{
}

/// What is run again to remove, install or run a service names its command and its options.
pub proof fn commands_are_written_out(
    removed: ServiceUninstallConfig,
    installed: ServiceInstallConfig,
    remove: Vec<String>,
    install: Vec<String>,
    run: Vec<String>,
    grant: Vec<String>,
    bin: String,
    exe: String,
)
    requires
        call_ensures(ServiceUninstallConfig::normalized_command_args, (&removed,), remove),
        call_ensures(ServiceInstallConfig::normalized_command_args, (&installed,), install),
        call_ensures(ServiceInstallConfig::service_launch_arguments, (&installed,), run),
        call_ensures(ServiceInstallConfig::acl_arguments, (&installed,), grant),
        call_ensures(ServiceInstallConfig::bin_dir, (&installed,), bin),
        call_ensures(ServiceInstallConfig::installed_exe, (&installed,), exe),
    ensures
        text::views(remove@).take(4) == seq![
            "service"@,
            "uninstall"@,
            "--service-name"@,
            removed.service_name@,
        ],
        removed.config_path is None ==> remove@.len() == 4,
        removed.config_path matches Some(p) ==> text::views(remove@).skip(4) == seq![
            "--config"@,
            p@,
        ],
        text::views(install@) == seq![
            "service"@,
            "install"@,
            "--config"@,
            installed.config_path@,
        ],
        text::views(run@) == seq!["service"@, "run"@, "--config"@, installed.config_path@],
        text::views(grant@) == seq![
            installed.service.install_root@,
            "/grant"@,
            "SYSTEM:(OI)(CI)F"@,
            "Administrators:(OI)(CI)F"@,
            "/T"@,
        ],
        bin@ == winpath::joined_path(installed.service.install_root@, "bin"@),
        exe@ == winpath::joined_path(bin@, "dbgflow-mcp.exe"@),
{
    assert(text::views(remove@).len() == remove@.len());
    assert(text::views(remove@).take(4) =~= seq![
        "service"@,
        "uninstall"@,
        "--service-name"@,
        removed.service_name@,
    ]);
    if let Some(p) = removed.config_path {
        assert(text::views(remove@).skip(4) =~= seq!["--config"@, p@]);
    }
}

/// An installed service is known by its command: the executable, the words of the command and the
/// configuration.
pub proof fn installed_commands_are_read(
    line: &str,
    split: Result<Vec<String>, String>,
    r: Result<InstalledServiceCommand, String>,
)
    requires
        call_ensures(split_windows_command_line, (line,), split),
        call_ensures(parse_installed_service_command, (line,), r),
    ensures
        split matches Err(e) ==> (r matches Err(x) && x@ == e@),
        split matches Ok(args) ==> {
            &&& args@.len() == 5 && args@[1]@ == "service"@ && args@[2]@ == "run"@ && args@[3]@
                == "--config"@ ==> (r matches Ok(c) && c.executable_path@ == args@[0]@
                && c.config_path@ == args@[4]@)
            &&& args@.len() < 4 ==> r is Err
            &&& args@.len() >= 3 && args@[1]@ != "service"@ ==> r is Err
            &&& args@.len() >= 3 && args@[2]@ != "run"@ ==> r is Err
            &&& args@.len() == 4 && args@[3]@ == "--config"@ ==> r is Err
            &&& r matches Ok(c) ==> c.executable_path@ == args@[0]@
        },
{
    reveal_with_fuel(options::last_config, 3);
    if let Ok(args) = split {
        let v = text::views(args@);
        assert(v.len() == args@.len());
        assert forall|i: int| 0 <= i < args@.len() implies #[trigger] v[i] == args@[i]@ by {}
        if args@.len() == 5 {
            assert(v.skip(3)[0] == v[3]);
            assert(v.skip(3)[1] == v[4]);
            assert(v.skip(3).skip(2).len() == 0);
        }
        if args@.len() == 4 {
            assert(v.skip(3)[0] == v[3]);
        }
        if args@.len() >= 3 {
            assert(v[1] == args@[1]@ && v[2] == args@[2]@);
        }
        if args@.len() >= 1 {
            assert(v[0] == args@[0]@);
        }
    }
}

/// The arguments of a service are those behind the executable and the words of the command.
pub proof fn run_arguments_follow_the_command(
    args: &[Option<String>],
    r: Result<Vec<Option<String>>, String>,
)
    requires
        call_ensures(service_run_arguments, (args,), r),
    ensures
        r is Ok <==> args@.len() >= 3 && (args@[1] matches Some(a) && a@ == "service"@) && (args@[2]
            matches Some(b) && b@ == "run"@),
        r matches Ok(v) ==> options::arguments_view(v@) == options::arguments_view(args@).skip(3),
{
    let v = options::arguments_view(args@);
    assert(v.len() == args@.len());
    if args@.len() > 1 {
        assert(v[1] == text::view_opt(args@[1]));
    }
    if args@.len() > 2 {
        assert(v[2] == text::view_opt(args@[2]));
    }
}

/// An argument without blanks and quotes is written as it is; any other stands between quotes.
pub proof fn arguments_are_quoted_if_needed(arg: &str, r: String)
    requires
        call_ensures(quote_windows_arg, (arg,), r),
    ensures
        arg@.len() > 0 && !arg@.contains(' ') && !arg@.contains('\t') && !arg@.contains('\n')
            && !arg@.contains('\r') && !arg@.contains('"') ==> r@ == arg@,
        arg@.len() == 0 ==> r@ == seq!['"', '"'],
        arg@.contains(' ') || arg@.contains('\t') || arg@.contains('\n') || arg@.contains('\r')
            || arg@.contains('"') ==> r@.len() >= arg@.len() + 2 && r@[0] == '"' && r@.last()
            == '"',
        arg@.contains(' ') && !arg@.contains('\\') && !arg@.contains('"') ==> r@ == seq!['"'] + arg@
            + seq!['"'],
{
    if arg@.len() > 0 && !arg@.contains(' ') && !arg@.contains('\t') && !arg@.contains('\n')
        && !arg@.contains('\r') && !arg@.contains('"') {
        assert(!command_line::is_quoted(arg@));
    }
    if arg@.contains(' ') || arg@.contains('\t') || arg@.contains('\n') || arg@.contains('\r')
        || arg@.contains('"') {
        let i = choose|i: int|
            0 <= i < arg@.len() && (arg@[i] == ' ' || arg@[i] == '\t' || arg@[i] == '\n' || arg@[i]
                == '\r' || arg@[i] == '"');
        assert(command_line::needs_quotes(arg@[i]));
        assert(command_line::is_quoted(arg@));
        quoted_text_grows(arg@);
    }
    if arg@.len() == 0 {
        assert(command_line::between_quotes(arg@) =~= Seq::<char>::empty());
        assert(r@ =~= seq!['"', '"']);
    }
    if arg@.contains(' ') && !arg@.contains('\\') && !arg@.contains('"') {
        plain_text_stays(arg@);
    }
}

proof fn quoted_text_grows(arg: Seq<char>)
    ensures
        command_line::between_quotes(arg).len() >= arg.len(),
    decreases arg.len(),
{
    command_line::slashes_count(arg);
    let n = command_line::slashes(arg);
    let rest = arg.skip(n as int);
    if rest.len() > 0 {
        quoted_text_grows(rest.skip(1));
    }
}

proof fn plain_text_stays(arg: Seq<char>)
    requires
        !arg.contains('\\'),
        !arg.contains('"'),
    ensures
        command_line::between_quotes(arg) == arg,
    decreases arg.len(),
{
    command_line::slashes_count(arg);
    if arg.len() == 0 {
        assert(command_line::between_quotes(arg) =~= arg);
    } else {
        assert(arg.contains(arg[0]));
        assert(command_line::slashes(arg) == 0);
        assert(arg.skip(0) =~= arg);
        let rest = arg.skip(1);
        assert forall|c: char| rest.contains(c) implies arg.contains(c) by {
            let i = choose|i: int| 0 <= i < rest.len() && rest[i] == c;
            assert(arg[i + 1] == c);
        }
        plain_text_stays(rest);
        assert(command_line::slashed(0).push(arg[0]) + rest =~= arg);
    }
}

/// Words between blanks are the arguments of a command line, and quotes keep blanks in them.
pub proof fn lines_are_split_at_blanks(
    line: &str,
    word: Seq<char>,
    quoted: bool,
    blank: char,
    rest: &str,
    r: Result<Vec<String>, String>,
    others: Result<Vec<String>, String>,
)
    requires
        word.len() > 0,
        !word.contains('"') && !word.contains('\\'),
        quoted || forall|i: int| 0 <= i < word.len() ==> !scan::is_white(#[trigger] word[i]),
        blank == ' ' || blank == '\t',
        line@ == (if quoted {
            seq!['"'] + word + seq!['"']
        } else {
            word
        }) + seq![blank] + rest@,
        call_ensures(split_windows_command_line, (line,), r),
        call_ensures(split_windows_command_line, (rest,), others),
    ensures
        others matches Ok(v) ==> (r matches Ok(w) && text::views(w@) == seq![word] + text::views(v@)),
        others is Err ==> r is Err,
{
    let s = line@;
    let tail = seq![blank] + rest@;
    if quoted {
        assert(s.skip(1) =~= word + (seq!['"'] + tail));
        assert(s[0] == '"');
        word_is_read(word, seq!['"'] + tail, Seq::empty(), true);
        assert((seq!['"'] + tail).skip(1) =~= tail);
        assert((seq!['"'] + tail)[0] == '"');
        assert(Seq::<char>::empty() + word =~= word);
        assert(command_line::arguments(s, Seq::empty(), false, false) == command_line::arguments(
            tail,
            word,
            false,
            true,
        ));
    } else {
        assert(s =~= word + tail);
        assert(word.contains(word[0]));
        assert(s[0] == word[0]);
        assert(s.skip(1) =~= word.skip(1) + tail);
        let left = word.skip(1);
        assert forall|i: int| 0 <= i < left.len() implies !scan::is_white(#[trigger] left[i]) by {
            assert(left[i] == word[i + 1]);
        }
        assert forall|c: char| left.contains(c) implies word.contains(c) by {
            let i = choose|i: int| 0 <= i < left.len() && left[i] == c;
            assert(word[i + 1] == c);
        }
        let first = Seq::<char>::empty().push(word[0]);
        word_is_read(left, tail, first, false);
        assert(first + left =~= word);
    }
    assert(tail[0] == blank);
    assert(tail.skip(1) =~= rest@);
}

proof fn word_is_read(word: Seq<char>, tail: Seq<char>, before: Seq<char>, quoted: bool)
    requires
        !word.contains('"') && !word.contains('\\'),
        quoted || forall|i: int| 0 <= i < word.len() ==> !scan::is_white(#[trigger] word[i]),
    ensures
        command_line::arguments(word + tail, before, quoted, true) == command_line::arguments(
            tail,
            before + word,
            quoted,
            true,
        ),
    decreases word.len(),
{
    let s = word + tail;
    if word.len() == 0 {
        assert(s =~= tail);
        assert(before + word =~= before);
    } else {
        assert(word.contains(word[0]));
        assert(s[0] == word[0]);
        let left = word.skip(1);
        assert(s.skip(1) =~= left + tail);
        assert forall|i: int| 0 <= i < left.len() && !quoted implies !scan::is_white(
            #[trigger] left[i],
        ) by {
            assert(left[i] == word[i + 1]);
        }
        assert forall|c: char| left.contains(c) implies word.contains(c) by {
            let i = choose|i: int| 0 <= i < left.len() && left[i] == c;
            assert(word[i + 1] == c);
        }
        word_is_read(left, tail, before.push(word[0]), quoted);
        assert(before.push(word[0]) + left =~= before + word);
    }
}

/// The server listens on this machine alone.
pub proof fn servers_listen_on_this_machine(
    value: &str,
    parsed: Result<BindAddress, String>,
    r: Result<BindAddress, String>,
)
    requires
        call_ensures(parse_bind, (value, &parsed), r),
    ensures
        parsed matches Err(e) ==> (r matches Err(x) && x@ == "invalid bind address "@ + value@
            + ": "@ + e@),
        parsed matches Ok(b) ==> {
            &&& r is Ok ==> r == parsed
            &&& b.ip matches IpAddress::V4(a, x, y, z) ==> (r is Ok <==> a == 127)
            &&& b.ip matches IpAddress::V6(n) ==> (r is Ok <==> n == 1)
            &&& r matches Err(e) ==> e@ == "bind address must be loopback"@
        },
{
}

/// Symbols are looked for where a text says that shows something and holds no control character.
pub proof fn symbol_paths_are_checked(value: &str, label: &str, c: char, r: Result<String, String>)
    requires
        call_ensures(parse_symbol_path, (value, label), r),
        value@.contains(c),
    ensures
        r matches Ok(s) ==> s@ == value@,
        c as u32 <= 31 || c as u32 == 127 ==> r is Err,
        scan::trim(value@).len() == 0 ==> (r matches Err(e) && e@ == label@ + " must not be empty"@),
        scan::trim(value@).len() > 0 && (forall|i: int|
            0 <= i < value@.len() ==> ' ' <= (#[trigger] value@[i]) <= '~') ==> r is Ok,
{
    let i = choose|i: int| 0 <= i < value@.len() && value@[i] == c;
    assert(value@[i] == c);
    if c as u32 <= 31 || c as u32 == 127 {
        assert(validation::is_control(value@[i]));
    }
}

/// A directory of tools has to be there and to hold what is needed.
pub proof fn tool_directories_are_checked(
    path: &str,
    label: &str,
    facts: DirFacts,
    absolute: Result<String, String>,
    debugger: Result<String, String>,
    tools: Result<String, String>,
)
    requires
        call_ensures(winpath::normalize_absolute_required, (path, label), absolute),
        call_ensures(parse_dbgeng_dir_path, (path, label, facts), debugger),
        call_ensures(parse_sysinternals_dir_path, (path, label, facts), tools),
    ensures
        debugger is Ok <==> absolute is Ok && facts.is_dir && facts.holds_files,
        tools is Ok <==> absolute is Ok && facts.is_dir && facts.holds_files,
        debugger matches Ok(p) ==> (absolute matches Ok(a) && p@ == a@),
        tools matches Ok(p) ==> (absolute matches Ok(a) && p@ == a@),
        !facts.is_dir ==> (absolute matches Ok(a) ==> (debugger matches Err(e) && e@ == label@
            + " must point to an existing directory: "@ + a@)),
        facts.is_dir && !facts.holds_files ==> (absolute matches Ok(a) ==> {
            &&& debugger matches Err(e) && e@ == label@ + " must point to a directory containing "@
                + "dbgeng.dll"@ + ": "@ + a@
            &&& tools matches Err(e) && e@ == label@ + " must point to a directory containing "@
                + "Procmon64.exe or Procmon.exe"@ + ": "@ + a@
        }),
{
}

/// Proxies are chosen by their mode: none, no proxy at all, one address, or variables.
pub proof fn proxies_are_chosen_by_mode(
    config: Option<RawProxyConfig>,
    r: Result<ProxyChoice, String>,
)
    requires
        call_ensures(proxy_from_config, (config,), r),
    ensures
        config is None ==> (r matches Ok(p) && p@ == ProxyView::Unset),
        config matches Some(c) ==> {
            &&& c.mode@ == "none"@ ==> (r matches Ok(p) && p@ == ProxyView::Unset)
            &&& c.mode@ == "disabled"@ ==> (r matches Ok(p) && p@ == ProxyView::Disabled)
            &&& c.mode@ == "url"@ && c.url is Some ==> (r matches Ok(p) && p@ == ProxyView::Url(
                c.url->Some_0@,
            ))
            &&& c.mode@ == "url"@ && c.url is None ==> (r matches Err(e) && e@
                == "proxy.url is required when proxy.mode = \"url\""@)
            &&& c.mode@ == "env"@ ==> (r matches Ok(p) ==> p@ == ProxyView::Env(
                config::variables_view(c.env@),
            ))
            &&& c.mode@ == "env"@ && c.env@.len() == 1 ==> (r is Ok <==> config::known_proxy_key(
                c.env@[0].0@,
            ) && c.env@[0].1@.len() > 0)
            &&& c.mode@ != "none"@ && c.mode@ != "disabled"@ && c.mode@ != "url"@ && c.mode@
                != "env"@ ==> (r matches Err(e) && e@
                == "proxy.mode must be one of none, disabled, url, env; got "@ + c.mode@)
        },
{
    reveal_strlit("none");
    reveal_strlit("disabled");
    reveal_strlit("url");
    reveal_strlit("env");
    assert("none"@.len() == 4 && "disabled"@.len() == 8 && "url"@.len() == 3 && "env"@.len() == 3);
    assert("url"@[0] == 'u' && "env"@[0] == 'e');
    if let Some(c) = config {
        let v = config::variables_view(c.env@);
        if c.env@.len() == 1 {
            reveal_with_fuel(config::variables_error, 2);
            assert(v[0] == (c.env@[0].0@, c.env@[0].1@));
            assert(v.skip(1).len() == 0);
        }
    }
}

/// The variables that name proxies are known in both sizes of letters.
pub proof fn proxy_variables_are_known(key: &str, r: bool)
    requires
        call_ensures(is_known_proxy_key, (key,), r),
    ensures
        r <==> (key@ == "_NT_SYMBOL_PROXY"@ || key@ == "HTTP_PROXY"@ || key@ == "HTTPS_PROXY"@
            || key@ == "ALL_PROXY"@ || key@ == "NO_PROXY"@ || key@ == "http_proxy"@ || key@
            == "https_proxy"@ || key@ == "all_proxy"@ || key@ == "no_proxy"@),
{
}

/// One address serves for all protocols, and the debugger gets its host without the protocol; the
/// hosts that need no proxy are not touched.
pub proof fn one_address_serves_all(choice: ProxyChoice, key: &str, url: Seq<char>, r: Option<
    String,
>)
    requires
        choice@ == ProxyView::Url(url),
        call_ensures(ProxyChoice::value_for, (&choice, key), r),
    ensures
        key@ == "HTTP_PROXY"@ || key@ == "HTTPS_PROXY"@ || key@ == "ALL_PROXY"@ || key@
            == "http_proxy"@ || key@ == "https_proxy"@ || key@ == "all_proxy"@ ==> text::view_opt(r)
            == Some(url),
        key@ == "_NT_SYMBOL_PROXY"@ ==> text::view_opt(r) == Some(proxy::authority(url)),
        key@ == "NO_PROXY"@ || key@ == "no_proxy"@ ==> r is None,
{
    reveal_strlit("_NT_SYMBOL_PROXY");
    reveal_strlit("HTTP_PROXY");
    reveal_strlit("HTTPS_PROXY");
    reveal_strlit("ALL_PROXY");
    reveal_strlit("NO_PROXY");
    reveal_strlit("http_proxy");
    reveal_strlit("https_proxy");
    reveal_strlit("all_proxy");
    reveal_strlit("no_proxy");
    assert("_NT_SYMBOL_PROXY"@.len() == 16 && "HTTP_PROXY"@.len() == 10 && "HTTPS_PROXY"@.len() == 11 && "ALL_PROXY"@.len() == 9 && "NO_PROXY"@.len() == 8 && "http_proxy"@.len() == 10 && "https_proxy"@.len() == 11 && "all_proxy"@.len() == 9 && "no_proxy"@.len() == 8);
    assert("HTTP_PROXY"@[0] == 'H' && "http_proxy"@[0] == 'h');
    assert("HTTPS_PROXY"@[0] == 'H' && "https_proxy"@[0] == 'h');
    assert("ALL_PROXY"@[0] == 'A' && "all_proxy"@[0] == 'a');
    assert("NO_PROXY"@[0] == 'N' && "no_proxy"@[0] == 'n');
}

/// Without a proxy no variable is set.
pub proof fn no_proxy_sets_nothing(choice: ProxyChoice, key: &str, r: Option<String>)
    requires
        choice@ == ProxyView::Unset || choice@ == ProxyView::Disabled,
        call_ensures(ProxyChoice::value_for, (&choice, key), r),
    ensures
        r is None,
{
}

/// The host of an address stands behind the protocol, if there is one, and in front of the path.
pub proof fn hosts_stand_in_front_of_the_path(host: Seq<char>, path: Seq<char>)
    requires
        !host.contains('/'),
        !host.contains(':'),
    ensures
        proxy::authority(host) == host,
        proxy::authority("http://"@ + host) == host,
        proxy::authority("https://"@ + host) == host,
        proxy::authority("http://"@ + host.push('/') + path) == host,
{
    reveal_strlit("://");
    reveal_strlit("http://");
    reveal_strlit("https://");
    assert("://"@ =~= seq![':', '/', '/']);
    no_mark(host);
    scan::position_facts(host, '/');
    let a = "http://"@ + host;
    mark_at(a, 4);
    assert(a.skip(7) =~= host);
    let b = "https://"@ + host;
    mark_at(b, 5);
    assert(b.skip(8) =~= host);
    let c = "http://"@ + host.push('/') + path;
    mark_at(c, 4);
    let d = host.push('/') + path;
    assert(c.skip(7) =~= d);
    assert(d[host.len() as int] == '/');
    assert forall|i: int| 0 <= i < host.len() implies d[i] != '/' by {
        assert(d[i] == host[i]);
        assert(host.contains(host[i]));
    }
    scan::position_is_first(d, '/', host.len() as int);
    assert(d.take(host.len() as int) =~= host);
}

proof fn no_mark(s: Seq<char>)
    requires
        !s.contains(':'),
    ensures
        scan::find(s, "://"@) is None,
    decreases s.len(),
{
    reveal_strlit("://");
    if scan::starts(s, "://"@) {
        assert(s.take(3)[0] == ':');
        assert(s.contains(s[0]));
    }
    if s.len() > 0 {
        let rest = s.drop_first();
        assert forall|c: char| rest.contains(c) implies s.contains(c) by {
            let i = choose|i: int| 0 <= i < rest.len() && rest[i] == c;
            assert(s[i + 1] == c);
        }
        no_mark(rest);
    }
}

proof fn mark_at(s: Seq<char>, n: nat)
    requires
        n + 3 <= s.len(),
        s[n as int] == ':' && s[n as int + 1] == '/' && s[n as int + 2] == '/',
        forall|i: int| 0 <= i < n ==> (#[trigger] s[i]) != ':',
    ensures
        scan::find(s, "://"@) == Some(n),
    decreases n,
{
    reveal_strlit("://");
    if n == 0 {
        assert(s.take(3) =~= "://"@);
    } else {
        if scan::starts(s, "://"@) {
            assert(s.take(3)[0] == ':');
            assert(s[0] == ':');
        }
        let rest = s.drop_first();
        assert forall|i: int| 0 <= i < n - 1 implies (#[trigger] rest[i]) != ':' by {
            assert(rest[i] == s[i + 1]);
        }
        mark_at(rest, (n - 1) as nat);
    }
}

/// Where a proxy comes from is said by its kind.
pub proof fn proxies_say_where_they_come_from(choice: ProxyChoice, r: ProxySource)
    requires
        call_ensures(ProxyChoice::source, (&choice,), r),
    ensures
        choice is Unset ==> r is Unset,
        choice is Disabled ==> r is Disabled,
        choice is Url ==> r is Cli,
        choice is Env ==> r is Environment,
{
}

/// A configuration that is accepted holds what its file says, with the paths written out.
pub proof fn configurations_hold_what_is_written(
    config_path: String,
    raw: RawRuntimeConfig,
    facts: ConfigFacts,
    r: Result<RuntimeConfig, String>,
)
    requires
        call_ensures(RuntimeConfig::from_raw, (config_path, raw, &facts), r),
    ensures
        r matches Ok(c) ==> {
            &&& raw.version == 1
            &&& c.config_path@ == config_path@
            &&& c.service.name@ == raw.service_name@
            &&& c.service.display_name@ == raw.display_name@
            &&& winpath::absolute_path(raw.install_root@, "service.install_root"@) == Ok::<
                Seq<char>,
                Seq<char>,
            >(c.service.install_root@)
            &&& winpath::absolute_path(raw.data_dir@, "server.data_dir"@) == Ok::<
                Seq<char>,
                Seq<char>,
            >(c.app.data_dir@)
            &&& facts.bind == Ok::<BindAddress, String>(c.app.bind)
            &&& text::view_opt(c.app.symbol_path) == text::view_opt(raw.symbol_path)
            &&& c.app.dbgeng_dir is Some <==> raw.dbgeng_dir is Some
            &&& c.app.sysinternals_dir is Some <==> raw.sysinternals_dir is Some
            &&& raw.dbgeng_dir matches Some(d) ==> winpath::absolute_path(
                d@,
                "debugger.dbgeng_dir"@,
            ) == Ok::<Seq<char>, Seq<char>>(c.app.dbgeng_dir->Some_0@)
            &&& raw.sysinternals_dir matches Some(d) ==> winpath::absolute_path(
                d@,
                "tools.sysinternals_dir"@,
            ) == Ok::<Seq<char>, Seq<char>>(c.app.sysinternals_dir->Some_0@)
            &&& raw.proxy is None ==> c.app.proxy@ == ProxyView::Unset
            &&& winpath::under(config_path@, c.service.install_root@)
            &&& winpath::under(c.app.data_dir@, c.service.install_root@)
        },
        raw.version != 1 ==> (r matches Err(e) && e@ == "unsupported config version "@
            + text::decimal(raw.version as nat) + "; expected "@ + text::decimal(1)),
        raw.version == 1 && options::service_name_error(raw.service_name@) is None && scan::trim(
            raw.display_name@,
        ).len() == 0 ==> (r matches Err(e) && e@ == "service.display_name must not be empty"@),
{
}

/// A service is installed in a directory of its own: none near the root of a drive, none with
/// another name, and none of the directories of the system.
pub proof fn roots_are_directories_of_their_own(
    path: &str,
    roots: SystemRoots,
    r: Result<(), String>,
)
    requires
        call_ensures(reject_dangerous_install_root, (path, &roots), r),
    ensures
        r is Ok ==> winpath::parts(path@).count() > 2,
        winpath::parts(path@).count() <= 2 ==> (r matches Err(e) && e@
            == "service.install_root must not be a filesystem root: "@ + path@),
        r is Ok ==> (winpath::parts(path@).file_name() matches Some(n) && scan::lower_all(n)
            == scan::lower_all("dbgflow"@)),
        r is Ok ==> !root_itself(path@, roots.user_profile) && !root_itself(
            path@,
            roots.local_app_data,
        ) && !root_itself(path@, roots.app_data) && !root_itself(path@, roots.program_data)
            && !root_itself(path@, roots.program_files) && !root_itself(
            path@,
            roots.program_files_x86,
        ),
        r is Ok ==> scan::lower_all(path@) != scan::lower_all("C:\\Users"@) && scan::lower_all(path@)
            != scan::lower_all("C:\\ProgramData"@),
{
}

/// Whether a path is one of the directories of the system itself.
pub open spec fn root_itself(path: Seq<char>, root: Option<String>) -> bool {
    root matches Some(p) && (winpath::normalized(p@) matches Some(n) && scan::lower_all(path)
        == scan::lower_all(n))
}

/// A directory is removed only if the configuration, the data and the executable all lie in it.
pub proof fn only_whole_installations_are_removed(
    c: RuntimeConfig,
    installed_exe: Option<&str>,
    roots: SystemRoots,
    r: Result<String, String>,
)
    requires
        call_ensures(validate_install_root_removal, (&c, installed_exe, &roots), r),
    ensures
        r matches Ok(root) ==> {
            &&& winpath::absolute_path(c.service.install_root@, "service.install_root"@) == Ok::<
                Seq<char>,
                Seq<char>,
            >(root@)
            &&& winpath::under(c.config_path@, root@)
            &&& winpath::under(c.app.data_dir@, root@)
            &&& installed_exe matches Some(exe) ==> (winpath::absolute_path(
                exe@,
                "installed service executable"@,
            ) matches Ok(e) && winpath::under(e, root@))
        },
{
}

/// The plan to remove a service names the service that was asked for and the directory of its
/// configuration.
pub proof fn plans_name_service_and_directory(
    service_name: &str,
    loaded: Result<RuntimeConfig, String>,
    installed_exe: Option<&str>,
    service_exists: bool,
    roots: SystemRoots,
    r: Result<UninstallPlan, String>,
)
    requires
        call_ensures(
            uninstall_plan_from_config,
            (service_name, &loaded, installed_exe, service_exists, &roots),
            r,
        ),
    ensures
        r matches Ok(p) ==> (loaded matches Ok(c) && {
            &&& p.service_name@ == service_name@
            &&& c.service.name@ == service_name@
            &&& p.service_exists == service_exists
            &&& winpath::absolute_path(c.service.install_root@, "service.install_root"@) == Ok::<
                Seq<char>,
                Seq<char>,
            >(p.install_root@)
            &&& winpath::under(c.config_path@, p.install_root@)
        }),
        loaded matches Err(e) ==> (r matches Err(x) && x@ == e@),
        loaded matches Ok(c) ==> (c.service.name@ != service_name@ ==> (r matches Err(e) && e@
            == "config service.name '"@ + c.service.name@ + "' does not match service '"@
            + service_name@ + "'"@)),
{
}

/// An installed service is removed by its own configuration, and a missing one only by a named one.
pub proof fn plans_follow_the_installed_service(
    service_name: &str,
    installed: Result<Option<InstalledServiceCommand>, String>,
    explicit: Option<Result<RuntimeConfig, String>>,
    of_service: Result<RuntimeConfig, String>,
    roots: SystemRoots,
    r: Result<UninstallPlan, String>,
)
    requires
        call_ensures(
            resolve_uninstall_plan,
            (service_name, &installed, &explicit, &of_service, &roots),
            r,
        ),
    ensures
        installed matches Ok(Some(command)) ==> {
            &&& r matches Ok(p) ==> p.service_exists && (of_service matches Ok(c) && c.service.name@
                == p.service_name@)
            &&& r is Ok ==> (explicit matches Some(e) ==> (e matches Ok(named) && of_service matches Ok(
                c,
            ) && scan::lower_all(named.config_path@) == scan::lower_all(c.config_path@)))
            &&& of_service is Err && explicit is None ==> r is Err
        },
        installed matches Ok(None) ==> {
            &&& explicit is None ==> (r matches Err(e) && e@ == "service '"@ + service_name@
                + "' is not installed and --config was not provided"@)
            &&& r matches Ok(p) ==> !p.service_exists && (explicit matches Some(Ok(c))
                && c.service.name@ == p.service_name@)
        },
        installed matches Err(e) ==> {
            &&& explicit is None ==> (r matches Err(x) && x@ == e@)
            &&& r matches Ok(p) ==> p.service_exists && explicit is Some
        },
        r matches Ok(p) ==> p.service_name@ == service_name@,
{
}

/// A command that was started with more rights succeeded if it left with zero.
pub proof fn elevated_commands_are_judged(exit_code: u32, r: Result<bool, String>)
    requires
        call_ensures(elevation_outcome, (exit_code,), r),
    ensures
        exit_code == 0 ==> r == Ok::<bool, String>(true),
        exit_code != 0 ==> (r matches Err(e) && e@ == "elevated command failed with exit code "@
            + text::decimal(exit_code as nat)),
{
}

/// What is waited for is looked at before the time that is left.
pub proof fn waits_end(happened: bool, waited_ms: u64, timeout_ms: u64, r: WaitStep)
    requires
        call_ensures(wait_step, (happened, waited_ms, timeout_ms), r),
    ensures
        r is Done <==> happened,
        r is TimedOut <==> !happened && waited_ms >= timeout_ms,
        r is Again <==> !happened && waited_ms < timeout_ms,
{
}

/// A service that runs can be stopped, one on its way is at its first checkpoint, and one that
/// stopped says whether it failed.
pub proof fn services_report_their_phase(phase: ServicePhase, failed: bool, r: ServiceReport)
    requires
        call_ensures(service_report, (phase, failed), r),
    ensures
        r.phase == phase,
        r.accepts_stop <==> phase is Running,
        phase is StartPending || phase is StopPending ==> r.checkpoint == 1 && r.exit_code == 0,
        phase is Running ==> r.checkpoint == 0 && r.exit_code == 0,
        phase is Stopped ==> r.checkpoint == 0 && (r.exit_code == 1 <==> failed) && (r.exit_code == 0
            <==> !failed),
{
}

/// A server is healthy if it answers the question for its health with success and says so.
pub proof fn healthy_servers_say_so(address: &str, question: String, response: &str, r: bool)
    requires
        call_ensures(health_request, (address,), question),
        call_ensures(is_healthy, (response,), r),
    ensures
        question@ == "GET /healthz HTTP/1.1\r\nHost: "@ + address@ + "\r\nConnection: close\r\n\r\n"@,
        r ==> (scan::find(response@, "\r\n\r\n"@) matches Some(i) && {
            &&& service::status_of(response@.take(i as int)) == Some(200nat)
            &&& scan::find(response@.skip(i as int + 4), "\"status\":\"ok\""@) is Some
        }),
{
}

/// The parts of a configuration go on to the process and to the installation.
pub proof fn configurations_are_handed_on(
    c: RuntimeConfig,
    process: ServiceProcessConfig,
    install: ServiceInstallConfig,
)
    requires
        call_ensures(RuntimeConfig::into_process, (c,), process),
        call_ensures(RuntimeConfig::into_install, (c,), install),
    ensures
        process.service_name@ == c.service.name@,
        process.app == c.app,
        install.config_path@ == c.config_path@,
        install.service == c.service,
        install.app == c.app,
{
}

} // verus!
