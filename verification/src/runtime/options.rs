//! Commands and options of the server.

use crate::runtime::command_line;
use crate::runtime::command_line::split_windows_command_line;
use crate::scan;
use crate::scan::{is_blank, part, starts_with};
use crate::text;
use crate::text::{cat2, cat3, cat4, cat5, chars_of, copy_opt, is_among, same};
use crate::validation;
use crate::validation::is_control_char;
use crate::winpath;
use crate::winpath::normalize_absolute_required;
use vstd::prelude::*;

verus! {

pub const SERVICE_NAME: &'static str = "dbgflow-mcp";

pub const HELP: &'static str = "Usage:\n  dbgflow-mcp http --config <path>                Run local HTTP MCP transport\n  dbgflow-mcp service run --config <path>         Run as a Windows service process\n  dbgflow-mcp service install --config <path>     Install and start the Windows service\n  dbgflow-mcp service uninstall [options]         Stop, uninstall, and remove install root\n  dbgflow-mcp worker session                      Run an internal session worker process";

pub const INSTALL_HELP: &'static str = "Usage:\n  dbgflow-mcp service install --config <path>\n\nOptions:\n  --config <path>                                  Required TOML config file";

pub const UNINSTALL_HELP: &'static str = "Usage:\n  dbgflow-mcp service uninstall [options]\n\nOptions:\n  --service-name <name>                            Default: dbgflow-mcp\n  --config <path>                                  Fallback config path when the service is missing or has an unparsable command";

/// How the server is used.
pub fn help_text() -> (r: &'static str)
    ensures
        r@ == HELP@,
{
    HELP
}

/// How the service is installed.
pub fn service_install_help_text() -> (r: &'static str)
    ensures
        r@ == INSTALL_HELP@,
{
    INSTALL_HELP
}

/// How the service is removed.
pub fn service_uninstall_help_text() -> (r: &'static str)
    ensures
        r@ == UNINSTALL_HELP@,
{
    UNINSTALL_HELP
}

/// The views of a list of arguments. An argument that is no text is none.
pub open spec fn arguments_view(args: Seq<Option<String>>) -> Seq<Option<Seq<char>>> {
    args.map_values(|a: Option<String>| text::view_opt(a))
}

/// What the server is told to do.
#[derive(Debug, Clone, Copy, PartialEq, Eq, Structural)]
pub enum CommandMode {
    Http,
    ServiceRun,
    ServiceInstall,
    ServiceUninstall,
    WorkerSession,
    Help,
}

/// The command that arguments give.
pub open spec fn command_mode(args: Seq<Option<Seq<char>>>) -> Result<CommandMode, Seq<char>> {
    if args.len() == 0 {
        Err("missing command\n\n"@ + HELP@)
    } else {
        match args[0] {
            None => Err("command must be valid UTF-8"@),
            Some(command) => if command == "worker"@ {
                if args.len() < 2 {
                    Err("missing worker kind"@)
                } else {
                    match args[1] {
                        None => Err("worker kind must be valid UTF-8"@),
                        Some(kind) => if kind != "session"@ {
                            Err("unknown worker kind: "@ + kind)
                        } else if args.len() > 2 {
                            Err("worker session does not accept extra arguments"@)
                        } else {
                            Ok(CommandMode::WorkerSession)
                        },
                    }
                }
            } else if command == "http"@ {
                Ok(CommandMode::Http)
            } else if command == "service"@ {
                if args.len() < 2 {
                    Err("missing service command\n\n"@ + HELP@)
                } else {
                    match args[1] {
                        None => Err("service command must be valid UTF-8"@),
                        Some(next) => if next == "run"@ {
                            Ok(CommandMode::ServiceRun)
                        } else if next == "install"@ {
                            Ok(CommandMode::ServiceInstall)
                        } else if next == "uninstall"@ {
                            Ok(CommandMode::ServiceUninstall)
                        } else {
                            Err("unknown service command: "@ + next + "\n\n"@ + HELP@)
                        },
                    }
                }
            } else if command == "--help"@ || command == "-h"@ || command == "help"@ {
                Ok(CommandMode::Help)
            } else {
                Err("unknown command: "@ + command + "\n\n"@ + HELP@)
            },
        }
    }
}

fn worker_mode(args: &[Option<String>]) -> (r: Result<CommandMode, String>)
    requires
        args@.len() > 0,
        args@[0] matches Some(c) && c@ == "worker"@,
    ensures
        match r {
            Ok(mode) => command_mode(arguments_view(args@)) == Ok::<_, Seq<char>>(mode),
            Err(e) => command_mode(arguments_view(args@)) == Err::<CommandMode, _>(e@),
        },
{
    assert(arguments_view(args@)[0] == text::view_opt(args@[0]));
    if args.len() < 2 {
        return Err("missing worker kind".to_owned());
    }
    assert(arguments_view(args@)[1] == text::view_opt(args@[1]));
    match &args[1] {
        None => Err("worker kind must be valid UTF-8".to_owned()),
        Some(kind) => if !same(kind.as_str(), "session") {
            Err(cat2("unknown worker kind: ", kind.as_str()))
        } else if args.len() > 2 {
            Err("worker session does not accept extra arguments".to_owned())
        } else {
            Ok(CommandMode::WorkerSession)
        },
    }
}

fn service_mode(args: &[Option<String>]) -> (r: Result<CommandMode, String>)
    requires
        args@.len() > 0,
        args@[0] matches Some(c) && c@ == "service"@,
        "service"@ != "worker"@,
        "service"@ != "http"@,
    ensures
        match r {
            Ok(mode) => command_mode(arguments_view(args@)) == Ok::<_, Seq<char>>(mode),
            Err(e) => command_mode(arguments_view(args@)) == Err::<CommandMode, _>(e@),
        },
{
    assert(arguments_view(args@)[0] == text::view_opt(args@[0]));
    if args.len() < 2 {
        return Err(cat2("missing service command\n\n", HELP));
    }
    assert(arguments_view(args@)[1] == text::view_opt(args@[1]));
    match &args[1] {
        None => Err("service command must be valid UTF-8".to_owned()),
        Some(next) => if same(next.as_str(), "run") {
            Ok(CommandMode::ServiceRun)
        } else if same(next.as_str(), "install") {
            Ok(CommandMode::ServiceInstall)
        } else if same(next.as_str(), "uninstall") {
            Ok(CommandMode::ServiceUninstall)
        } else {
            Err(cat4("unknown service command: ", next.as_str(), "\n\n", HELP))
        },
    }
}

/// Reads the command.
pub fn parse_command_mode(args: &[Option<String>]) -> (r: Result<CommandMode, String>)
    ensures
        match r {
            Ok(mode) => command_mode(arguments_view(args@)) == Ok::<_, Seq<char>>(mode),
            Err(e) => command_mode(arguments_view(args@)) == Err::<CommandMode, _>(e@),
        },
{
    if args.len() == 0 {
        return Err(cat2("missing command\n\n", HELP));
    }
    assert(arguments_view(args@)[0] == text::view_opt(args@[0]));
    let command = match &args[0] {
        None => {
            return Err("command must be valid UTF-8".to_owned());
        },
        Some(command) => command,
    };
    if same(command.as_str(), "worker") {
        return worker_mode(args);
    }
    if same(command.as_str(), "http") {
        return Ok(CommandMode::Http);
    }
    if same(command.as_str(), "service") {
        return service_mode(args);
    }
    if same(command.as_str(), "--help") || same(command.as_str(), "-h") || same(
        command.as_str(),
        "help",
    ) {
        return Ok(CommandMode::Help);
    }
    Err(cat4("unknown command: ", command.as_str(), "\n\n", HELP))
}

/// The path of a file that must be there: absolute, without detours, and among those that are.
pub open spec fn existing_file(path: Seq<char>, label: Seq<char>, files: Seq<Seq<char>>) -> Result<
    Seq<char>,
    Seq<char>,
> {
    match winpath::absolute_path(path, label) {
        Err(e) => Err(e),
        Ok(p) => if files.contains(p) {
            Ok(p)
        } else {
            Err(label + " must point to an existing file: "@ + p)
        },
    }
}

/// The view of a text or an error.
pub open spec fn text_result(r: Result<String, String>) -> Result<Seq<char>, Seq<char>> {
    match r {
        Ok(s) => Ok(s@),
        Err(e) => Err(e@),
    }
}

/// Checks the path of a file that must be there. The caller gives the files that are.
pub fn normalize_absolute_existing_file(path: &str, label: &str, files: &[String]) -> (r: Result<
    String,
    String,
>)
    ensures
        text_result(r) == existing_file(path@, label@, text::views(files@)),
{
    match normalize_absolute_required(path, label) {
        Err(error) => Err(error),
        Ok(path) => if is_among(path.as_str(), files) {
            Ok(path)
        } else {
            Err(cat3(label, " must point to an existing file: ", path.as_str()))
        },
    }
}

/// The value of an option that is written with an equals sign.
pub open spec fn value_of(arg: Seq<char>, option: Seq<char>) -> Option<Seq<char>> {
    if scan::starts(arg, option) {
        Some(arg.skip(option.len() as int))
    } else {
        None
    }
}

fn option_value(arg: &str, option: &str) -> (r: Option<String>)
    ensures
        text::view_opt(r) == value_of(arg@, option@),
{
    if starts_with(arg, option) {
        let chars = chars_of(arg);
        let size: usize = chars.len();
        let from: usize = chars_of(option).len();
        let value = part(&chars, from, size);
        assert(value@ =~= arg@.skip(option@.len() as int));
        Some(value)
    } else {
        None
    }
}

/// The value that follows an option.
pub open spec fn next_value(args: Seq<Option<Seq<char>>>, option: Seq<char>) -> Result<
    Seq<char>,
    Seq<char>,
> {
    if args.len() == 0 {
        Err("missing value for "@ + option)
    } else {
        match args[0] {
            None => Err("value for "@ + option + " must be valid UTF-8"@),
            Some(v) => Ok(v),
        }
    }
}

fn value_at(args: &[Option<String>], at: usize, option: &str) -> (r: Result<String, String>)
    requires
        at <= args@.len(),
    ensures
        text_result(r) == next_value(arguments_view(args@).skip(at as int), option@),
{
    if at >= args.len() {
        return Err(cat2("missing value for ", option));
    }
    assert(arguments_view(args@).skip(at as int)[0] == text::view_opt(args@[at as int]));
    match &args[at] {
        None => Err(cat3("value for ", option, " must be valid UTF-8")),
        Some(value) => Ok(value.clone()),
    }
}

/// The configuration file that options name; the last one counts.
pub open spec fn named_config(
    args: Seq<Option<Seq<char>>>,
    files: Seq<Seq<char>>,
    found: Option<Seq<char>>,
    help: Seq<char>,
) -> Result<Seq<char>, Seq<char>>
    decreases args.len(),
{
    if args.len() == 0 {
        match found {
            Some(p) => Ok(p),
            None => Err("missing required --config <path>\n\n"@ + help),
        }
    } else {
        match args[0] {
            None => Err("arguments must be valid UTF-8"@),
            Some(arg) => match value_of(arg, "--config="@) {
                Some(value) => match existing_file(value, "--config"@, files) {
                    Err(e) => Err(e),
                    Ok(p) => named_config(args.skip(1), files, Some(p), help),
                },
                None => if arg == "--config"@ {
                    match next_value(args.skip(1), "--config"@) {
                        Err(e) => Err(e),
                        Ok(value) => match existing_file(value, "--config"@, files) {
                            Err(e) => Err(e),
                            Ok(p) => named_config(args.skip(2), files, Some(p), help),
                        },
                    }
                } else if arg == "--help"@ || arg == "-h"@ {
                    Err(help)
                } else {
                    Err("unknown option: "@ + arg + "\n\n"@ + help)
                },
            },
        }
    }
}

/// Reads the configuration file that options name. The caller gives the files that are there.
pub fn parse_required_config_path(args: &[Option<String>], files: &[String], help: &str) -> (r:
    Result<String, String>)
    ensures
        text_result(r) == named_config(
            arguments_view(args@),
            text::views(files@),
            None,
            help@,
        ),
{
    let ghost all = arguments_view(args@);
    let mut found: Option<String> = None;
    let size: usize = args.len();
    let mut at: usize = 0;
    assert(all.skip(0) =~= all);
    while at < size
        invariant
            at <= size,
            size == args@.len(),
            all == arguments_view(args@),
            named_config(all, text::views(files@), None, help@) == named_config(
                all.skip(at as int),
                text::views(files@),
                text::view_opt(found),
                help@,
            ),
        decreases size - at,
    {
        assert(all.skip(at as int)[0] == text::view_opt(args@[at as int]));
        assert(all.skip(at as int).skip(1) =~= all.skip(at as int + 1));
        let arg = match &args[at] {
            None => {
                return Err("arguments must be valid UTF-8".to_owned());
            },
            Some(arg) => arg,
        };
        if let Some(value) = option_value(arg.as_str(), "--config=") {
            match normalize_absolute_existing_file(value.as_str(), "--config", files) {
                Err(error) => {
                    return Err(error);
                },
                Ok(path) => {
                    found = Some(path);
                },
            }
            at += 1;
            continue ;
        }
        if same(arg.as_str(), "--config") {
            let value = match value_at(args, at + 1, "--config") {
                Err(error) => {
                    return Err(error);
                },
                Ok(value) => value,
            };
            match normalize_absolute_existing_file(value.as_str(), "--config", files) {
                Err(error) => {
                    return Err(error);
                },
                Ok(path) => {
                    found = Some(path);
                },
            }
            assert(all.skip(at as int).skip(2) =~= all.skip(at as int + 2));
            at += 2;
            continue ;
        }
        if same(arg.as_str(), "--help") || same(arg.as_str(), "-h") {
            return Err(help.to_owned());
        }
        return Err(cat4("unknown option: ", arg.as_str(), "\n\n", help));
    }
    assert(all.skip(at as int).len() == 0);
    match found {
        Some(path) => Ok(path),
        None => Err(cat2("missing required --config <path>\n\n", help)),
    }
}

/// The path that an argument may name.
pub open spec fn path_in(arg: Option<Seq<char>>) -> Option<Seq<char>> {
    match arg {
        None => None,
        Some(arg) => {
            let value = match value_of(arg, "--config="@) {
                Some(v) => v,
                None => arg,
            };
            match winpath::absolute_path(value, "--config"@) {
                Ok(p) => Some(p),
                Err(_) => None,
            }
        },
    }
}

/// The paths that arguments may name.
pub open spec fn paths_in(args: Seq<Option<Seq<char>>>) -> Seq<Seq<char>>
    decreases args.len(),
{
    if args.len() == 0 {
        Seq::empty()
    } else {
        match path_in(args.last()) {
            Some(p) => paths_in(args.drop_last()).push(p),
            None => paths_in(args.drop_last()),
        }
    }
}

/// The paths that arguments may name, for the caller to look up.
pub fn paths_to_check(args: &[Option<String>]) -> (r: Vec<String>)
    ensures
        text::views(r@) == paths_in(arguments_view(args@)),
{
    let ghost all = arguments_view(args@);
    let mut r: Vec<String> = Vec::new();
    let mut i: usize = 0;
    assert(text::views(r@) =~= paths_in(all.take(0)));
    while i < args.len()
        invariant
            i <= args@.len(),
            all == arguments_view(args@),
            text::views(r@) == paths_in(all.take(i as int)),
        decreases args@.len() - i,
    {
        let ghost before = r@;
        assert(all.take(i as int + 1).drop_last() =~= all.take(i as int));
        assert(all.take(i as int + 1).last() == text::view_opt(args@[i as int]));
        if let Some(arg) = &args[i] {
            let value = match option_value(arg.as_str(), "--config=") {
                Some(value) => value,
                None => arg.clone(),
            };
            if let Ok(path) = normalize_absolute_required(value.as_str(), "--config") {
                r.push(path);
                assert(text::views(r@) =~= text::views(before).push(path@));
            }
        }
        i += 1;
    }
    assert(all.take(all.len() as int) =~= all);
    r
}

/// Whether a name can be that of a service.
pub open spec fn service_name_error(name: Seq<char>) -> Option<Seq<char>> {
    if scan::trim(name).len() == 0 {
        Some("service name must not be empty"@)
    } else if exists|i: int| 0 <= i < name.len() && bad_in_name(#[trigger] name[i]) {
        Some("service name must not contain path separators, wildcards, or control characters"@)
    } else {
        None
    }
}

/// Whether a character can not stand in the name of a service.
pub open spec fn bad_in_name(c: char) -> bool {
    c == '/' || c == '\\' || c == '*' || c == '?' || c == '[' || c == ']' || validation::is_control(
        c,
    )
}

/// Checks the name of a service.
pub fn validate_service_name(value: &str) -> (r: Result<(), String>)
    ensures
        match r {
            Ok(_) => service_name_error(value@) is None,
            Err(e) => service_name_error(value@) == Some(e@),
        },
{
    if is_blank(value) {
        return Err("service name must not be empty".to_owned());
    }
    let chars = chars_of(value);
    let mut i: usize = 0;
    while i < chars.len()
        invariant
            i <= chars@.len(),
            chars@ == value@,
            scan::trim(value@).len() > 0,
            forall|j: int| 0 <= j < i ==> !bad_in_name(#[trigger] value@[j]),
        decreases chars@.len() - i,
    {
        let c = chars[i];
        if c == '/' || c == '\\' || c == '*' || c == '?' || c == '[' || c == ']' || is_control_char(
            c,
        ) {
            assert(bad_in_name(value@[i as int]));
            return Err(
                "service name must not contain path separators, wildcards, or control characters".to_owned(),
            );
        }
        i += 1;
    }
    Ok(())
}

/// What options for the removal of the service say.
#[derive(Debug)]
pub struct UninstallOptions {
    pub service_name: Option<String>,
    pub config_path: Option<String>,
}

/// What options for the removal of the service say: the name and the configuration file.
pub open spec fn uninstall_options(
    args: Seq<Option<Seq<char>>>,
    files: Seq<Seq<char>>,
    name: Option<Seq<char>>,
    config: Option<Seq<char>>,
) -> Result<(Option<Seq<char>>, Option<Seq<char>>), Seq<char>>
    decreases args.len(),
{
    if args.len() == 0 {
        Ok((name, config))
    } else {
        match args[0] {
            None => Err("arguments must be valid UTF-8"@),
            Some(arg) => match value_of(arg, "--service-name="@) {
                Some(value) => match service_name_error(value) {
                    Some(e) => Err(e),
                    None => uninstall_options(args.skip(1), files, Some(value), config),
                },
                None => match value_of(arg, "--config="@) {
                    Some(value) => match existing_file(value, "--config"@, files) {
                        Err(e) => Err(e),
                        Ok(p) => uninstall_options(args.skip(1), files, name, Some(p)),
                    },
                    None => if arg == "--service-name"@ {
                        match next_value(args.skip(1), "--service-name"@) {
                            Err(e) => Err(e),
                            Ok(value) => match service_name_error(value) {
                                Some(e) => Err(e),
                                None => uninstall_options(
                                    args.skip(2),
                                    files,
                                    Some(value),
                                    config,
                                ),
                            },
                        }
                    } else if arg == "--config"@ {
                        match next_value(args.skip(1), "--config"@) {
                            Err(e) => Err(e),
                            Ok(value) => match existing_file(value, "--config"@, files) {
                                Err(e) => Err(e),
                                Ok(p) => uninstall_options(args.skip(2), files, name, Some(p)),
                            },
                        }
                    } else if arg == "--help"@ || arg == "-h"@ {
                        Err(UNINSTALL_HELP@)
                    } else {
                        Err("unknown option: "@ + arg + "\n\n"@ + UNINSTALL_HELP@)
                    },
                },
            },
        }
    }
}

/// Reads options for the removal of the service. The caller gives the files that are there.
pub fn parse_service_uninstall_options(args: &[Option<String>], files: &[String]) -> (r: Result<
    UninstallOptions,
    String,
>)
    ensures
        (match r {
            Ok(o) => Ok((text::view_opt(o.service_name), text::view_opt(o.config_path))),
            Err(e) => Err(e@),
        }) == uninstall_options(arguments_view(args@), text::views(files@), None, None),
{
    let ghost all = arguments_view(args@);
    let ghost known = text::views(files@);
    let mut service_name: Option<String> = None;
    let mut config_path: Option<String> = None;
    let size: usize = args.len();
    let mut at: usize = 0;
    assert(all.skip(0) =~= all);
    while at < size
        invariant
            at <= size,
            size == args@.len(),
            all == arguments_view(args@),
            known == text::views(files@),
            uninstall_options(all, known, None, None) == uninstall_options(
                all.skip(at as int),
                known,
                text::view_opt(service_name),
                text::view_opt(config_path),
            ),
        decreases size - at,
    {
        assert(all.skip(at as int)[0] == text::view_opt(args@[at as int]));
        assert(all.skip(at as int).skip(1) =~= all.skip(at as int + 1));
        assert(at + 1 < size ==> all.skip(at as int).skip(2) =~= all.skip(at as int + 2));
        let arg = match &args[at] {
            None => {
                return Err("arguments must be valid UTF-8".to_owned());
            },
            Some(arg) => arg,
        };
        if let Some(value) = option_value(arg.as_str(), "--service-name=") {
            match validate_service_name(value.as_str()) {
                Err(error) => {
                    return Err(error);
                },
                Ok(()) => {
                    service_name = Some(value);
                },
            }
            at += 1;
            continue ;
        }
        if let Some(value) = option_value(arg.as_str(), "--config=") {
            match normalize_absolute_existing_file(value.as_str(), "--config", files) {
                Err(error) => {
                    return Err(error);
                },
                Ok(path) => {
                    config_path = Some(path);
                },
            }
            at += 1;
            continue ;
        }
        if same(arg.as_str(), "--service-name") {
            let value = match value_at(args, at + 1, "--service-name") {
                Err(error) => {
                    return Err(error);
                },
                Ok(value) => value,
            };
            match validate_service_name(value.as_str()) {
                Err(error) => {
                    return Err(error);
                },
                Ok(()) => {
                    service_name = Some(value);
                },
            }
            at += 2;
            continue ;
        }
        if same(arg.as_str(), "--config") {
            let value = match value_at(args, at + 1, "--config") {
                Err(error) => {
                    return Err(error);
                },
                Ok(value) => value,
            };
            match normalize_absolute_existing_file(value.as_str(), "--config", files) {
                Err(error) => {
                    return Err(error);
                },
                Ok(path) => {
                    config_path = Some(path);
                },
            }
            at += 2;
            continue ;
        }
        if same(arg.as_str(), "--help") || same(arg.as_str(), "-h") {
            return Err(UNINSTALL_HELP.to_owned());
        }
        return Err(cat4("unknown option: ", arg.as_str(), "\n\n", UNINSTALL_HELP));
    }
    assert(all.skip(at as int).len() == 0);
    Ok(UninstallOptions { service_name, config_path })
}

/// A request to remove the service.
#[derive(Debug)]
pub struct ServiceUninstallConfig {
    pub service_name: String,
    pub config_path: Option<String>,
}

/// The name of the service that is removed, given the name that the configuration file has, if
/// one was named.
pub open spec fn uninstalled_name(
    name: Option<Seq<char>>,
    configured: Option<Result<Seq<char>, Seq<char>>>,
) -> Result<Seq<char>, Seq<char>> {
    match configured {
        Some(Err(e)) => Err(e),
        Some(Ok(c)) => match name {
            Some(n) => if c != n {
                Err(
                    "--service-name '"@ + n + "' does not match config service.name '"@ + c + "'"@,
                )
            } else {
                Ok(n)
            },
            None => Ok(c),
        },
        None => match name {
            Some(n) => Ok(n),
            None => Ok(SERVICE_NAME@),
        },
    }
}

/// The view of the name that a configuration file has, if one was named.
pub open spec fn configured_view(o: Option<Result<String, String>>) -> Option<
    Result<Seq<char>, Seq<char>>,
> {
    match o {
        Some(r) => Some(text_result(r)),
        None => None,
    }
}

impl UninstallOptions {
    /// The request that the options make. The caller gives the name that the configuration file
    /// has, if one was named.
    pub fn request(self, configured: Option<Result<String, String>>) -> (r: Result<
        ServiceUninstallConfig,
        String,
    >)
        ensures
            match r {
                Ok(c) => {
                    &&& uninstalled_name(
                        text::view_opt(self.service_name),
                        configured_view(configured),
                    ) matches Ok(n) && n == c.service_name@
                    &&& text::view_opt(c.config_path) == text::view_opt(self.config_path)
                },
                Err(e) => uninstalled_name(
                    text::view_opt(self.service_name),
                    configured_view(configured),
                ) matches Err(m) && m == e@,
            },
    {
        let service_name = match configured {
            Some(Err(error)) => {
                return Err(error);
            },
            Some(Ok(config_name)) => match self.service_name {
                Some(name) => {
                    if !same(config_name.as_str(), name.as_str()) {
                        return Err(
                            cat5(
                                "--service-name '",
                                name.as_str(),
                                "' does not match config service.name '",
                                config_name.as_str(),
                                "'",
                            ),
                        );
                    }
                    name
                },
                None => config_name,
            },
            None => match self.service_name {
                Some(name) => name,
                None => SERVICE_NAME.to_owned(),
            },
        };
        Ok(ServiceUninstallConfig { service_name, config_path: self.config_path })
    }
}

impl ServiceUninstallConfig {
    /// The arguments that make the same request.
    pub fn normalized_command_args(&self) -> (r: Vec<String>)
        ensures
            text::views(r@) == seq![
                "service"@,
                "uninstall"@,
                "--service-name"@,
                self.service_name@,
            ] + match self.config_path {
                Some(p) => seq!["--config"@, p@],
                None => Seq::empty(),
            },
    {
        let mut r: Vec<String> = vec![
            "service".to_owned(),
            "uninstall".to_owned(),
            "--service-name".to_owned(),
            self.service_name.clone(),
        ];
        if let Some(path) = &self.config_path {
            r.push("--config".to_owned());
            r.push(path.clone());
        }
        assert(text::views(r@) =~= seq![
            "service"@,
            "uninstall"@,
            "--service-name"@,
            self.service_name@,
        ] + match self.config_path {
            Some(p) => seq!["--config"@, p@],
            None => Seq::empty(),
        });
        r
    }
}

/// The command that a service was installed with.
#[derive(Debug)]
pub struct InstalledServiceCommand {
    pub executable_path: String,
    pub config_path: String,
}

/// The last configuration file that arguments name from some place on; an option without a value
/// is an error.
pub open spec fn last_config(args: Seq<Seq<char>>, found: Option<Seq<char>>) -> Result<
    Option<Seq<char>>,
    Seq<char>,
>
    decreases args.len(),
{
    if args.len() == 0 {
        Ok(found)
    } else if args[0] == "--config"@ {
        if args.len() < 2 {
            Err("service command line has --config without a value"@)
        } else {
            last_config(args.skip(2), Some(args[1]))
        }
    } else {
        match value_of(args[0], "--config="@) {
            Some(v) => last_config(args.skip(1), Some(v)),
            None => last_config(args.skip(1), found),
        }
    }
}

/// The executable and the configuration file in the command line of a service.
pub open spec fn installed_command(line: Seq<char>) -> Result<(Seq<char>, Seq<char>), Seq<char>> {
    match command_line::split(line) {
        None => Err("service command line has an unterminated quote"@),
        Some(args) => if args.len() < 4 {
            Err("service command line is too short"@)
        } else if args[1] != "service"@ || args[2] != "run"@ {
            Err("service command line is not 'service run --config <path>'"@)
        } else {
            match last_config(args.skip(3), None) {
                Err(e) => Err(e),
                Ok(None) => Err("service command line does not include --config <path>"@),
                Ok(Some(config)) => Ok((args[0], config)),
            }
        },
    }
}

/// Reads the command line of a service.
pub fn parse_installed_service_command(command_line: &str) -> (r: Result<
    InstalledServiceCommand,
    String,
>)
    ensures
        (match r {
            Ok(c) => Ok((c.executable_path@, c.config_path@)),
            Err(e) => Err(e@),
        }) == installed_command(command_line@),
{
    let args = match split_windows_command_line(command_line) {
        Ok(args) => args,
        Err(error) => {
            return Err(error);
        },
    };
    let ghost all = text::views(args@);
    let size: usize = args.len();
    if size < 4 {
        return Err("service command line is too short".to_owned());
    }
    assert(all[0] == args@[0]@ && all[1] == args@[1]@ && all[2] == args@[2]@);
    if !same(args[1].as_str(), "service") || !same(args[2].as_str(), "run") {
        return Err("service command line is not 'service run --config <path>'".to_owned());
    }
    let mut config_path: Option<String> = None;
    let mut index: usize = 3;
    while index < size
        invariant
            3 <= index <= size,
            size == args@.len(),
            all == text::views(args@),
            command_line::split(command_line@) == Some(all),
            all.len() >= 4,
            all[1] == "service"@,
            all[2] == "run"@,
            last_config(all.skip(3), None) == last_config(
                all.skip(index as int),
                text::view_opt(config_path),
            ),
        decreases size - index,
    {
        assert(all.skip(index as int)[0] == args@[index as int]@);
        assert(all.skip(index as int).skip(1) =~= all.skip(index as int + 1));
        if same(args[index].as_str(), "--config") {
            if index + 1 >= size {
                return Err("service command line has --config without a value".to_owned());
            }
            assert(all.skip(index as int)[1] == args@[index as int + 1]@);
            assert(all.skip(index as int).skip(2) =~= all.skip(index as int + 2));
            config_path = Some(args[index + 1].clone());
            index += 2;
            continue ;
        }
        if let Some(value) = option_value(args[index].as_str(), "--config=") {
            config_path = Some(value);
        }
        index += 1;
    }
    assert(all.skip(index as int).len() == 0);
    match config_path {
        Some(config_path) => Ok(
            InstalledServiceCommand { executable_path: args[0].clone(), config_path },
        ),
        None => Err("service command line does not include --config <path>".to_owned()),
    }
}

/// The command that a service is launched with is read back from its command line.
pub proof fn launch_commands_are_read(executable: Seq<char>, config: Seq<char>)
    requires
        command_line::is_readable(executable),
        command_line::is_readable(config),
    ensures
        installed_command(
            command_line::joined_line(
                seq![executable, "service"@, "run"@, "--config"@, config],
            ),
        ) == Ok::<_, Seq<char>>((executable, config)),
{
    let args = seq![executable, "service"@, "run"@, "--config"@, config];
    reveal_strlit("service");
    reveal_strlit("run");
    reveal_strlit("--config");
    assert forall|i: int| 0 <= i < args.len() implies command_line::is_readable(
        #[trigger] args[i],
    ) by {}
    command_line::joined_lines_are_split(args);
    let rest = args.skip(3);
    assert(rest[0] == "--config"@ && rest[1] == config);
    assert(last_config(rest.skip(2), Some(config)) == Ok::<_, Seq<char>>(Some(config)));
}

/// The arguments of the service process after its command.
pub open spec fn run_arguments(args: Seq<Option<Seq<char>>>) -> Result<
    Seq<Option<Seq<char>>>,
    Seq<char>,
> {
    if args.len() == 0 {
        Err("missing executable path"@)
    } else if args.len() == 1 {
        Err("missing top-level command"@)
    } else {
        match args[1] {
            None => Err("top-level command must be valid UTF-8"@),
            Some(command) => if command != "service"@ {
                Err("expected service command, got: "@ + command)
            } else if args.len() == 2 {
                Err("missing service command"@)
            } else {
                match args[2] {
                    None => Err("service command must be valid UTF-8"@),
                    Some(sub) => if sub != "run"@ {
                        Err("expected service run, got service "@ + sub)
                    } else {
                        Ok(args.skip(3))
                    },
                }
            },
        }
    }
}

/// The arguments of the service process after its command.
pub fn service_run_arguments(args: &[Option<String>]) -> (r: Result<Vec<Option<String>>, String>)
    ensures
        (match r {
            Ok(v) => Ok(arguments_view(v@)),
            Err(e) => Err(e@),
        }) == run_arguments(arguments_view(args@)),
{
    let ghost all = arguments_view(args@);
    let size: usize = args.len();
    if size == 0 {
        return Err("missing executable path".to_owned());
    }
    if size == 1 {
        return Err("missing top-level command".to_owned());
    }
    assert(all[1] == text::view_opt(args@[1]));
    match &args[1] {
        None => {
            return Err("top-level command must be valid UTF-8".to_owned());
        },
        Some(command) => {
            if !same(command.as_str(), "service") {
                return Err(cat2("expected service command, got: ", command.as_str()));
            }
        },
    }
    if size == 2 {
        return Err("missing service command".to_owned());
    }
    assert(all[2] == text::view_opt(args@[2]));
    match &args[2] {
        None => {
            return Err("service command must be valid UTF-8".to_owned());
        },
        Some(sub) => {
            if !same(sub.as_str(), "run") {
                return Err(cat2("expected service run, got service ", sub.as_str()));
            }
        },
    }
    let mut rest: Vec<Option<String>> = Vec::new();
    let mut i: usize = 3;
    while i < size
        invariant
            3 <= i <= size,
            size == args@.len(),
            all == arguments_view(args@),
            arguments_view(rest@) =~= all.subrange(3, i as int),
        decreases size - i,
    {
        let ghost before = rest@;
        rest.push(copy_opt(&args[i]));
        i += 1;
        assert(arguments_view(rest@) =~= arguments_view(before).push(all[i as int - 1]));
    }
    assert(arguments_view(rest@) =~= all.skip(3));
    Ok(rest)
}

/// Whether a path names a file in the form in which it is kept.
pub open spec fn kept_file(path: Seq<char>, files: Seq<Seq<char>>) -> bool {
    existing_file(path, "--config"@, files) == Ok::<Seq<char>, Seq<char>>(path)
}

/// The arguments with which an elevated process repeats the removal of a service make the same
/// request.
pub proof fn repeated_removals_are_the_same(
    name: Seq<char>,
    config: Option<Seq<char>>,
    files: Seq<Seq<char>>,
)
    requires
        service_name_error(name) is None,
        config matches Some(p) ==> kept_file(p, files),
    ensures
        ({
            let args = seq![Some("service"@), Some("uninstall"@)] + (seq![
                Some("--service-name"@),
                Some(name),
            ] + match config {
                Some(p) => seq![Some("--config"@), Some(p)],
                None => Seq::empty(),
            });
            &&& command_mode(args) == Ok::<CommandMode, Seq<char>>(CommandMode::ServiceUninstall)
            &&& uninstall_options(args.skip(2), files, None, None) == Ok::<
                (Option<Seq<char>>, Option<Seq<char>>),
                Seq<char>,
            >((Some(name), config))
        }),
{
    reveal_strlit("worker");
    reveal_strlit("http");
    reveal_strlit("service");
    reveal_strlit("run");
    reveal_strlit("install");
    reveal_strlit("uninstall");
    reveal_strlit("--service-name");
    reveal_strlit("--service-name=");
    reveal_strlit("--config");
    reveal_strlit("--config=");
    let tail: Seq<Option<Seq<char>>> = match config {
        Some(p) => seq![Some("--config"@), Some(p)],
        None => Seq::empty(),
    };
    let front: Seq<Option<Seq<char>>> = seq![Some("--service-name"@), Some(name)];
    let head: Seq<Option<Seq<char>>> = seq![Some("service"@), Some("uninstall"@)];
    let args = head + (front + tail);
    let rest = front + tail;
    assert(args.skip(2) =~= rest);
    assert("service"@[0] != "worker"@[0] && "service"@[0] != "http"@[0]);
    assert("uninstall"@[0] != "run"@[0] && "uninstall"@[0] != "install"@[0]);
    assert(value_of("--service-name"@, "--service-name="@) is None);
    assert("--service-name"@[2] != "--config="@[2]);
    assert(value_of("--service-name"@, "--config="@) is None) by {
        assert("--service-name"@.take(9)[2] == "--service-name"@[2]);
    }
    assert(rest.skip(1)[0] == Some(name));
    assert(rest.skip(2) =~= tail);
    assert(uninstall_options(rest, files, None, None) == uninstall_options(
        tail,
        files,
        Some(name),
        None,
    ));
    match config {
        Some(p) => {
            assert(value_of("--config"@, "--service-name="@) is None);
            assert(value_of("--config"@, "--config="@) is None);
            assert("--config"@ != "--service-name"@);
            assert(tail.skip(1)[0] == Some(p));
            assert(tail.skip(2).len() == 0);
            assert(uninstall_options(tail, files, Some(name), None) == uninstall_options(
                tail.skip(2),
                files,
                Some(name),
                Some(p),
            ));
        },
        None => {},
    }
}

} // verus!
