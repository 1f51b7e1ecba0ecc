//! Command lines, options, the configuration file and the service.

use dbgflow::runtime::command_line::{
    join_windows_command_line, quote_windows_arg, split_windows_command_line,
};
use dbgflow::runtime::config::{
    is_known_proxy_key, parse_bind, parse_dbgeng_dir_path, proxy_from_config,
    reject_dangerous_install_root, validate_install_root_removal, BindAddress, ConfigFacts,
    DirFacts, IpAddress, ProxyChoice, RawProxyConfig, RawRuntimeConfig, RuntimeConfig, SystemRoots,
};
use dbgflow::runtime::options::{
    help_text, normalize_absolute_existing_file, parse_command_mode,
    parse_installed_service_command, parse_required_config_path, parse_service_uninstall_options,
    paths_to_check, service_run_arguments, validate_service_name, CommandMode,
    InstalledServiceCommand, ServiceUninstallConfig,
};
use dbgflow::runtime::proxy::ProxySource;
use dbgflow::runtime::service::{
    elevation_outcome, health_request, is_healthy, resolve_uninstall_plan, service_report,
    wait_step, ServicePhase, WaitStep,
};

const ROOT: &str = r"C:\Users\dev\AppData\Local\dbgflow";
const CONFIG: &str = r"C:\Users\dev\AppData\Local\dbgflow\config.toml";

fn args(items: &[&str]) -> Vec<Option<String>> {
    items.iter().map(|item| Some(item.to_string())).collect()
}

fn texts(items: &[&str]) -> Vec<String> {
    items.iter().map(|item| item.to_string()).collect()
}

fn mode(items: &[&str]) -> Result<CommandMode, String> {
    parse_command_mode(&args(items))
}

fn no_roots() -> SystemRoots {
    SystemRoots {
        user_profile: Some(r"C:\Users\dev".to_string()),
        local_app_data: Some(r"C:\Users\dev\AppData\Local".to_string()),
        app_data: Some(r"C:\Users\dev\AppData\Roaming".to_string()),
        program_data: Some(r"C:\ProgramData".to_string()),
        program_files: Some(r"C:\Program Files".to_string()),
        program_files_x86: Some(r"C:\Program Files (x86)".to_string()),
    }
}

fn facts(ip: IpAddress) -> ConfigFacts {
    ConfigFacts {
        bind: Ok(BindAddress { ip, port: 7331 }),
        dbgeng_dir: DirFacts { is_dir: true, holds_files: true },
        sysinternals_dir: DirFacts { is_dir: true, holds_files: true },
        roots: no_roots(),
    }
}

fn minimal(root: &str) -> RawRuntimeConfig {
    RawRuntimeConfig {
        version: 1,
        service_name: "dbgflow-mcp".to_string(),
        display_name: "dbgflow MCP Server".to_string(),
        install_root: root.to_string(),
        bind: "127.0.0.1:7331".to_string(),
        data_dir: format!(r"{root}\var"),
        dbgeng_dir: None,
        symbol_path: None,
        sysinternals_dir: None,
        proxy: Some(RawProxyConfig { mode: "none".to_string(), url: None, env: Vec::new() }),
    }
}

fn load(raw: RawRuntimeConfig) -> Result<RuntimeConfig, String> {
    RuntimeConfig::from_raw(CONFIG.to_string(), raw, &facts(IpAddress::V4(127, 0, 0, 1)))
}

#[test]
fn parses_public_http_command() {
    assert_eq!(mode(&["http"]), Ok(CommandMode::Http));
}

#[test]
fn parses_internal_worker_session_command() {
    assert_eq!(mode(&["worker", "session"]), Ok(CommandMode::WorkerSession));
}

#[test]
fn parses_service_management_commands() {
    assert_eq!(mode(&["service", "run"]), Ok(CommandMode::ServiceRun));
    assert_eq!(mode(&["service", "install"]), Ok(CommandMode::ServiceInstall));
    assert_eq!(mode(&["service", "uninstall"]), Ok(CommandMode::ServiceUninstall));
}

#[test]
fn rejects_service_without_action_subcommand() {
    let error = mode(&["service"]).expect_err("reject missing service action");
    assert!(error.contains("missing service command"));
}

#[test]
fn rejects_legacy_service_runtime_without_run_subcommand() {
    let error = mode(&["service", "--data-dir", "C:\\dbgflow\\var"])
        .expect_err("reject legacy service runtime");
    assert!(error.contains("unknown service command"));
}

#[test]
fn rejects_legacy_hidden_worker_command() {
    let error = mode(&["__dbgflow-session-worker"]).expect_err("reject hidden command");
    assert!(error.contains("unknown command"));
}

#[test]
fn rejects_worker_session_extra_arguments() {
    let error = mode(&["worker", "session", "extra"]).expect_err("reject extra argument");
    assert!(error.contains("extra"));
}

#[test]
fn commands_that_are_no_text_are_refused() {
    assert!(parse_command_mode(&[None]).is_err());
    assert!(mode(&[]).expect_err("nothing").contains(help_text()));
    assert_eq!(mode(&["--help"]), Ok(CommandMode::Help));
}

#[test]
fn parses_runtime_config() {
    let mut raw = minimal(ROOT);
    raw.service_name = "dbgflow-dev".to_string();
    raw.display_name = "dbgflow Dev".to_string();
    raw.dbgeng_dir = Some(format!(r"{ROOT}\dbgeng"));
    raw.symbol_path = Some("srv*C:\\symbols*https://msdl.microsoft.com/download/symbols".to_string());
    raw.sysinternals_dir = Some(format!(r"{ROOT}\sysinternals"));
    raw.proxy = Some(RawProxyConfig {
        mode: "url".to_string(),
        url: Some("http://127.0.0.1:7897".to_string()),
        env: Vec::new(),
    });

    let config = load(raw).expect("load config");
    assert_eq!(config.service.name, "dbgflow-dev");
    assert_eq!(config.service.display_name, "dbgflow Dev");
    assert_eq!(config.app.bind.port, 7331);
    assert!(matches!(config.app.bind.ip, IpAddress::V4(127, 0, 0, 1)));
    assert_eq!(config.app.proxy.source(), ProxySource::Cli);
    assert_eq!(
        config.app.proxy.value_for("_NT_SYMBOL_PROXY").as_deref(),
        Some("127.0.0.1:7897")
    );
    assert!(matches!(config.app.proxy, ProxyChoice::Url(url) if url == "http://127.0.0.1:7897"));
    assert_eq!(
        config.app.symbol_path.as_deref(),
        Some("srv*C:\\symbols*https://msdl.microsoft.com/download/symbols")
    );
}

#[test]
fn parses_symbol_path_without_dbgeng_dir() {
    let mut raw = minimal(ROOT);
    raw.symbol_path =
        Some("cache*C:\\symbols;srv*https://msdl.microsoft.com/download/symbols".to_string());

    let config = load(raw).expect("load config");

    assert!(config.app.dbgeng_dir.is_none());
    assert_eq!(
        config.app.symbol_path.as_deref(),
        Some("cache*C:\\symbols;srv*https://msdl.microsoft.com/download/symbols")
    );
}

#[test]
fn rejects_symbol_path_control_characters() {
    let mut raw = minimal(ROOT);
    raw.symbol_path = Some("srv*C:\\symbols\r\n.shell dir".to_string());

    let error = load(raw).expect_err("reject symbol path");

    assert!(error.contains("debugger.symbol_path contains unsupported control characters"));
}

#[test]
fn rejects_config_outside_install_root() {
    let error = RuntimeConfig::from_raw(
        r"C:\other\dbgflow\config.toml".to_string(),
        minimal(ROOT),
        &facts(IpAddress::V4(127, 0, 0, 1)),
    )
    .expect_err("reject outside config");
    assert!(error.contains("config path must be under service.install_root"));
}

#[test]
fn rejects_install_root_that_is_not_dedicated_dbgflow_dir() {
    let root = r"C:\Users\dev\AppData\Local\not-dbgflow";
    let error = RuntimeConfig::from_raw(
        format!(r"{root}\config.toml"),
        minimal(root),
        &facts(IpAddress::V4(127, 0, 0, 1)),
    )
    .expect_err("reject dangerous root");
    assert!(error.contains("dedicated 'dbgflow' directory"));
}

#[test]
fn rejects_non_loopback_bind() {
    let mut raw = minimal(ROOT);
    raw.bind = "0.0.0.0:7331".to_string();
    let error =
        RuntimeConfig::from_raw(CONFIG.to_string(), raw, &facts(IpAddress::V4(0, 0, 0, 0)))
            .expect_err("reject non-loopback");
    assert!(error.contains("bind address must be loopback"));
}

#[test]
fn parses_http_options_from_config() {
    let path = parse_required_config_path(
        &args(&["--config", CONFIG]),
        &texts(&[CONFIG]),
        help_text(),
    )
    .expect("parse http options");
    assert_eq!(path, CONFIG);
    let app = load(minimal(ROOT)).expect("load config").into_process().app;

    assert_eq!(app.bind.port, 7331);
    assert!(matches!(app.bind.ip, IpAddress::V4(127, 0, 0, 1)));
    assert_eq!(app.proxy.source(), ProxySource::Unset);
}

#[test]
fn parses_service_install_options() {
    let config = load(minimal(ROOT)).expect("load config").into_install();

    assert_eq!(
        config.normalized_command_args(),
        texts(&["service", "install", "--config", CONFIG])
    );
    assert_eq!(
        config.service_launch_arguments(),
        texts(&["service", "run", "--config", CONFIG])
    );
    assert_eq!(config.installed_exe(), format!(r"{ROOT}\bin\dbgflow-mcp.exe"));
    assert_eq!(config.acl_arguments()[0], ROOT);
}

#[test]
fn parses_service_uninstall_by_name() {
    let config = parse_service_uninstall_options(&args(&["--service-name", "dbgflow-dev"]), &[])
        .expect("parse service uninstall")
        .request(None)
        .expect("named service");

    assert_eq!(config.service_name, "dbgflow-dev");
    assert!(config.config_path.is_none());
    assert_eq!(
        config.normalized_command_args(),
        texts(&["service", "uninstall", "--service-name", "dbgflow-dev"])
    );
}

#[test]
fn parses_service_uninstall_name_from_config() {
    let config = parse_service_uninstall_options(&args(&["--config", CONFIG]), &texts(&[CONFIG]))
        .expect("parse service uninstall")
        .request(Some(Ok("dbgflow-mcp".to_string())))
        .expect("configured service");

    assert_eq!(config.service_name, "dbgflow-mcp");
    assert_eq!(config.config_path.as_deref(), Some(CONFIG));
}

#[test]
fn removals_name_one_service() {
    assert!(parse_service_uninstall_options(&args(&["--service-name"]), &[]).is_err());
    assert!(parse_service_uninstall_options(&args(&["--other"]), &[]).is_err());
    assert_eq!(
        parse_service_uninstall_options(&args(&[]), &[])
            .and_then(|options| options.request(None))
            .expect("default service")
            .service_name,
        "dbgflow-mcp"
    );
    let other = parse_service_uninstall_options(
        &args(&["--service-name=a", "--config", CONFIG]),
        &texts(&[CONFIG]),
    )
    .expect("parse service uninstall");
    assert!(other.request(Some(Ok("b".to_string()))).is_err());
    assert!(validate_service_name("dbgflow-dev").is_ok());
    assert!(validate_service_name("  ").is_err());
    assert!(validate_service_name("a/b").is_err());
}

#[test]
fn parses_installed_service_command_line() {
    let parsed = parse_installed_service_command(
        r#""C:\Users\dstars\AppData\Local\dbgflow\bin\dbgflow-mcp.exe" service run --config "C:\Users\dstars\AppData\Local\dbgflow\config.toml""#,
    )
    .expect("parse service command line");

    assert_eq!(
        parsed.executable_path,
        r"C:\Users\dstars\AppData\Local\dbgflow\bin\dbgflow-mcp.exe"
    );
    assert_eq!(
        parsed.config_path,
        r"C:\Users\dstars\AppData\Local\dbgflow\config.toml"
    );
}

#[test]
fn service_launch_command_round_trips_through_parser() {
    let args = texts(&[
        r"C:\Users\dstars\AppData\Local\dbgflow\bin\dbgflow-mcp.exe",
        "service",
        "run",
        "--config",
        r"C:\Users\dstars\AppData\Local\dbgflow\config.toml",
    ]);
    let command = join_windows_command_line(&args);
    let parsed = parse_installed_service_command(&command).expect("parse service command");

    assert_eq!(
        parsed.executable_path,
        r"C:\Users\dstars\AppData\Local\dbgflow\bin\dbgflow-mcp.exe"
    );
    assert_eq!(
        parsed.config_path,
        r"C:\Users\dstars\AppData\Local\dbgflow\config.toml"
    );
}

#[test]
fn arguments_are_quoted_as_needed() {
    assert_eq!(quote_windows_arg(""), "\"\"");
    assert_eq!(quote_windows_arg("plain"), "plain");
    assert_eq!(quote_windows_arg("two words"), "\"two words\"");
    assert_eq!(quote_windows_arg(r"C:\a b\"), r#""C:\a b\\""#);
    assert_eq!(quote_windows_arg("say \"hi\""), r#""say \"hi\"""#);
    let all = texts(&["", "a b", r"C:\x y\", "q\"q", "tab\there"]);
    let line = join_windows_command_line(&all);
    assert_eq!(split_windows_command_line(&line), Ok(all));
    assert_eq!(
        split_windows_command_line("a \"b"),
        Err("service command line has an unterminated quote".to_string())
    );
}

#[test]
fn validate_removal_rejects_exe_outside_root() {
    let config = load(minimal(ROOT)).expect("load config");

    let error = validate_install_root_removal(
        &config,
        Some(r"C:\elsewhere\dbgflow\dbgflow-mcp.exe"),
        &no_roots(),
    )
    .expect_err("reject outside exe");

    assert!(error.contains("service executable is outside"));
    let inside = format!(r"{ROOT}\bin\dbgflow-mcp.exe");
    assert_eq!(
        validate_install_root_removal(&config, Some(&inside), &no_roots()).expect("inside"),
        ROOT
    );
}

#[test]
fn proxy_env_rejects_unknown_key() {
    let mut raw = minimal(ROOT);
    raw.proxy = Some(RawProxyConfig {
        mode: "env".to_string(),
        url: None,
        env: vec![("BAD_PROXY".to_string(), "http://127.0.0.1:7897".to_string())],
    });

    let error = load(raw).expect_err("reject proxy key");
    assert!(error.contains("proxy.env key is not supported"));
}

#[test]
fn proxies_are_chosen_by_mode() {
    assert!(matches!(proxy_from_config(None), Ok(ProxyChoice::Unset)));
    let named = RawProxyConfig {
        mode: "env".to_string(),
        url: None,
        env: vec![("http_proxy".to_string(), "http://127.0.0.1:7897".to_string())],
    };
    assert!(matches!(proxy_from_config(Some(named)), Ok(ProxyChoice::Env(env)) if env.len() == 1));
    let odd = RawProxyConfig { mode: "odd".to_string(), url: None, env: Vec::new() };
    assert!(proxy_from_config(Some(odd)).is_err());
    let no_url = RawProxyConfig { mode: "url".to_string(), url: None, env: Vec::new() };
    assert!(proxy_from_config(Some(no_url)).is_err());
    assert!(is_known_proxy_key("NO_PROXY"));
    assert!(!is_known_proxy_key("BAD_PROXY"));
}

#[test]
fn system_directories_are_no_install_roots() {
    assert!(reject_dangerous_install_root(ROOT, &no_roots()).is_ok());
    assert!(reject_dangerous_install_root(r"C:\", &no_roots()).is_err());
    let mut roots = no_roots();
    roots.user_profile = Some(r"C:\Users\DBGFLOW".to_string());
    assert!(reject_dangerous_install_root(r"C:\Users\dbgflow", &roots).is_err());
}

#[test]
fn addresses_must_be_local() {
    let local = Ok(BindAddress { ip: IpAddress::V6(1), port: 1 });
    assert!(parse_bind("[::1]:1", &local).is_ok());
    let other = Ok(BindAddress { ip: IpAddress::V6(2), port: 1 });
    assert!(parse_bind("[::2]:1", &other).is_err());
    let error = parse_bind("x", &Err("invalid socket address syntax".to_string()))
        .expect_err("no address");
    assert_eq!(error, "invalid bind address x: invalid socket address syntax");
    assert!(parse_dbgeng_dir_path(
        r"C:\dbgeng",
        "debugger.dbgeng_dir",
        DirFacts { is_dir: true, holds_files: false },
    )
    .is_err());
}

#[test]
fn named_files_must_exist() {
    let files = texts(&[CONFIG]);
    assert_eq!(
        normalize_absolute_existing_file(
            r"C:\Users\dev\AppData\Local\.\dbgflow\x\..\config.toml",
            "--config",
            &files,
        )
        .expect("normalized"),
        CONFIG
    );
    assert!(normalize_absolute_existing_file("config.toml", "--config", &files).is_err());
    assert!(normalize_absolute_existing_file(r"C:\other.toml", "--config", &files).is_err());
    assert_eq!(paths_to_check(&args(&["--config", CONFIG])), files);
}

#[test]
fn runs_know_the_command() {
    let rest = service_run_arguments(&args(&["dbgflow-mcp.exe", "service", "run", "--config", CONFIG]));
    assert_eq!(rest, Ok(args(&["--config", CONFIG])));
    assert!(service_run_arguments(&args(&["dbgflow-mcp.exe", "http"])).is_err());
}

#[test]
fn uninstall_plans_stay_in_the_installation() {
    let installed = InstalledServiceCommand {
        executable_path: format!(r"{ROOT}\bin\dbgflow-mcp.exe"),
        config_path: CONFIG.to_string(),
    };
    let plan = resolve_uninstall_plan(
        "dbgflow-mcp",
        &Ok(Some(installed)),
        &None,
        &load(minimal(ROOT)),
        &no_roots(),
    )
    .expect("plan");
    assert_eq!(plan.install_root, ROOT);
    assert!(plan.service_exists);

    let outside = InstalledServiceCommand {
        executable_path: r"C:\elsewhere\dbgflow-mcp.exe".to_string(),
        config_path: CONFIG.to_string(),
    };
    assert!(resolve_uninstall_plan(
        "dbgflow-mcp",
        &Ok(Some(outside)),
        &None,
        &load(minimal(ROOT)),
        &no_roots(),
    )
    .is_err());
}

#[test]
fn the_service_reports_its_state() {
    let running = service_report(ServicePhase::Running, false);
    assert!(running.accepts_stop);
    assert_eq!(running.checkpoint, 0);
    let starting = service_report(ServicePhase::StartPending, false);
    assert!(!starting.accepts_stop);
    assert_eq!(starting.checkpoint, 1);
    assert_eq!(service_report(ServicePhase::Stopped, true).exit_code, 1);
    assert_eq!(service_report(ServicePhase::Stopped, false).exit_code, 0);
    assert_eq!(wait_step(true, 9, 1), WaitStep::Done);
    assert_eq!(wait_step(false, 1, 1), WaitStep::TimedOut);
    assert_eq!(wait_step(false, 0, 1), WaitStep::Again);
    assert_eq!(elevation_outcome(0), Ok(true));
    assert_eq!(
        elevation_outcome(5),
        Err("elevated command failed with exit code 5".to_string())
    );
    assert!(is_healthy("HTTP/1.1 200 OK\r\nContent-Length: 15\r\n\r\n{\"status\":\"ok\"}"));
    assert!(!is_healthy("HTTP/1.1 500 Internal Server Error\r\n\r\n"));
    assert!(health_request("127.0.0.1:7331").contains("Host: 127.0.0.1:7331\r\n"));
}

#[test]
fn repeated_removals_are_the_same() {
    let files = texts(&[CONFIG]);
    for config in [None, Some(CONFIG.to_string())] {
        let request = ServiceUninstallConfig {
            service_name: "dbgflow-mcp".to_string(),
            config_path: config.clone(),
        };
        let repeated: Vec<Option<String>> =
            request.normalized_command_args().into_iter().map(Some).collect();
        assert_eq!(
            parse_command_mode(&repeated).expect("mode"),
            CommandMode::ServiceUninstall
        );
        let options = parse_service_uninstall_options(&repeated[2..], &files).expect("options");
        assert_eq!(options.service_name.as_deref(), Some("dbgflow-mcp"));
        assert_eq!(options.config_path, config);
    }
}

#[test]
fn proxy_env_derives_symbol_proxy_from_network_proxy() {
    let mut raw = minimal(ROOT);
    raw.proxy = Some(RawProxyConfig {
        mode: "env".to_string(),
        url: None,
        env: vec![("http_proxy".to_string(), "http://127.0.0.1:7897".to_string())],
    });

    let config = load(raw).expect("load config");

    assert_eq!(config.app.proxy.source(), ProxySource::Environment);
    assert_eq!(
        config.app.proxy.value_for("_NT_SYMBOL_PROXY").as_deref(),
        Some("127.0.0.1:7897")
    );
}

#[test]
fn named_proxies_are_kept() {
    let url = ProxyChoice::Url("http://proxy:8080/".to_string());
    assert_eq!(url.value_for("https_proxy").as_deref(), Some("http://proxy:8080/"));
    assert_eq!(url.value_for("_NT_SYMBOL_PROXY").as_deref(), Some("proxy:8080"));
    assert_eq!(url.value_for("NO_PROXY"), None);
    let env = ProxyChoice::Env(vec![
        ("_NT_SYMBOL_PROXY".to_string(), "symbols:80".to_string()),
        ("HTTP_PROXY".to_string(), "http://proxy:8080".to_string()),
    ]);
    assert_eq!(env.value_for("_NT_SYMBOL_PROXY").as_deref(), Some("symbols:80"));
    assert_eq!(env.value_for("HTTP_PROXY").as_deref(), Some("http://proxy:8080"));
    assert_eq!(env.value_for("http_proxy"), None);
    assert_eq!(ProxyChoice::Disabled.value_for("HTTP_PROXY"), None);
    assert_eq!(ProxyChoice::Disabled.source(), ProxySource::Disabled);
}
