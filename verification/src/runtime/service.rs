//! The server as a service of the system.

use crate::runtime::config;
use crate::runtime::config::{
    validate_install_root_removal, AppConfig, ConfigView, RootsView, RuntimeConfig,
    ServiceSettings, SystemRoots,
};
use crate::runtime::options;
use crate::runtime::options::{parse_installed_service_command, InstalledServiceCommand};
use crate::scan;
use crate::scan::{contains_text, find_from, lines_of, parse_text, part, words_of};
use crate::text;
use crate::text::{cat2, cat3, cat4, cat5, chars_of, decimal_text, same};
use crate::winpath;
use crate::winpath::{join, path_eq_case_insensitive};
use vstd::prelude::*;

verus! {

/// How long a service may take to stop, in milliseconds.
pub const SERVICE_STOP_TIMEOUT_MS: u64 = 30000;

/// How long the removal of a service may take, in milliseconds.
pub const SERVICE_DELETE_TIMEOUT_MS: u64 = 60000;

/// How long a new service may take to answer, in milliseconds.
pub const HEALTH_TIMEOUT_MS: u64 = 60000;

/// What the process of a service works with.
#[derive(Debug)]
pub struct ServiceProcessConfig {
    pub service_name: String,
    pub app: AppConfig,
}

/// What a service is installed with.
#[derive(Debug)]
pub struct ServiceInstallConfig {
    pub config_path: String,
    pub service: ServiceSettings,
    pub app: AppConfig,
}

impl RuntimeConfig {
    /// What the process of the service works with.
    pub fn into_process(self) -> (r: ServiceProcessConfig)
        ensures
            r.service_name == self.service.name,
            r.app == self.app,
    {
        ServiceProcessConfig { service_name: self.service.name, app: self.app }
    }

    /// What the service is installed with.
    pub fn into_install(self) -> (r: ServiceInstallConfig)
        ensures
            r.config_path == self.config_path,
            r.service == self.service,
            r.app == self.app,
    {
        ServiceInstallConfig { config_path: self.config_path, service: self.service, app: self.app }
    }
}

impl ServiceInstallConfig {
    /// The directory of the executable.
    pub fn bin_dir(&self) -> (r: String)
        ensures
            r@ == winpath::joined_path(self.service.install_root@, "bin"@),
    {
        join(self.service.install_root.as_str(), "bin")
    }

    /// The executable.
    pub fn installed_exe(&self) -> (r: String)
        ensures
            r@ == winpath::joined_path(
                winpath::joined_path(self.service.install_root@, "bin"@),
                "dbgflow-mcp.exe"@,
            ),
    {
        join(self.bin_dir().as_str(), "dbgflow-mcp.exe")
    }

    /// The arguments that make the same request.
    pub fn normalized_command_args(&self) -> (r: Vec<String>)
        ensures
            text::views(r@) == seq!["service"@, "install"@, "--config"@, self.config_path@],
    {
        let r: Vec<String> = vec![
            "service".to_owned(),
            "install".to_owned(),
            "--config".to_owned(),
            self.config_path.clone(),
        ];
        assert(text::views(r@) =~= seq!["service"@, "install"@, "--config"@, self.config_path@]);
        r
    }

    /// The arguments that the system starts the service with.
    pub fn service_launch_arguments(&self) -> (r: Vec<String>)
        ensures
            text::views(r@) == seq!["service"@, "run"@, "--config"@, self.config_path@],
    {
        let r: Vec<String> = vec![
            "service".to_owned(),
            "run".to_owned(),
            "--config".to_owned(),
            self.config_path.clone(),
        ];
        assert(text::views(r@) =~= seq!["service"@, "run"@, "--config"@, self.config_path@]);
        r
    }

    /// The arguments that give the system and the administrators access to the installation.
    pub fn acl_arguments(&self) -> (r: Vec<String>)
        ensures
            text::views(r@) == seq![
                self.service.install_root@,
                "/grant"@,
                "SYSTEM:(OI)(CI)F"@,
                "Administrators:(OI)(CI)F"@,
                "/T"@,
            ],
    {
        let r: Vec<String> = vec![
            self.service.install_root.clone(),
            "/grant".to_owned(),
            "SYSTEM:(OI)(CI)F".to_owned(),
            "Administrators:(OI)(CI)F".to_owned(),
            "/T".to_owned(),
        ];
        assert(text::views(r@) =~= seq![
            self.service.install_root@,
            "/grant"@,
            "SYSTEM:(OI)(CI)F"@,
            "Administrators:(OI)(CI)F"@,
            "/T"@,
        ]);
        r
    }
}

/// What the removal of a service comes to.
#[derive(Debug)]
pub struct UninstallPlan {
    pub service_name: String,
    pub install_root: String,
    pub service_exists: bool,
}

/// The mathematical form of what the removal of a service comes to.
#[verifier::ext_equal]
pub struct PlanView {
    pub service_name: Seq<char>,
    pub install_root: Seq<char>,
    pub service_exists: bool,
}

impl View for UninstallPlan {
    type V = PlanView;

    open spec fn view(&self) -> PlanView {
        PlanView {
            service_name: self.service_name@,
            install_root: self.install_root@,
            service_exists: self.service_exists,
        }
    }
}

/// The view of a configuration, or of why there is none.
pub open spec fn loaded_view(r: Result<RuntimeConfig, String>) -> Result<ConfigView, Seq<char>> {
    match r {
        Ok(c) => Ok(c@),
        Err(e) => Err(e@),
    }
}

/// What the removal comes to by a configuration.
pub open spec fn plan_by_config(
    service_name: Seq<char>,
    loaded: Result<ConfigView, Seq<char>>,
    installed_exe: Option<Seq<char>>,
    service_exists: bool,
    roots: RootsView,
) -> Result<PlanView, Seq<char>> {
    match loaded {
        Err(e) => Err(e),
        Ok(c) => if c.service_name != service_name {
            Err(
                "config service.name '"@ + c.service_name + "' does not match service '"@
                    + service_name + "'"@,
            )
        } else {
            match config::removal_error(c, installed_exe, roots) {
                Some(e) => Err(e),
                None => Ok(
                    PlanView {
                        service_name,
                        install_root: winpath::absolute_path(
                            c.install_root,
                            "service.install_root"@,
                        )->Ok_0,
                        service_exists,
                    },
                ),
            }
        },
    }
}

/// The view of a plan, or of why there is none.
pub open spec fn plan_result(r: Result<UninstallPlan, String>) -> Result<PlanView, Seq<char>> {
    match r {
        Ok(p) => Ok(p@),
        Err(e) => Err(e@),
    }
}

/// What the removal comes to by a configuration. The caller gives the configuration, or why there
/// is none.
pub fn uninstall_plan_from_config(
    service_name: &str,
    loaded: &Result<RuntimeConfig, String>,
    installed_exe: Option<&str>,
    service_exists: bool,
    roots: &SystemRoots,
) -> (r: Result<UninstallPlan, String>)
    ensures
        plan_result(r) == plan_by_config(
            service_name@,
            loaded_view(*loaded),
            config::path_opt(installed_exe),
            service_exists,
            roots@,
        ),
{
    let config = match loaded {
        Err(error) => {
            return Err(error.clone());
        },
        Ok(config) => config,
    };
    if !same(config.service.name.as_str(), service_name) {
        return Err(
            cat5(
                "config service.name '",
                config.service.name.as_str(),
                "' does not match service '",
                service_name,
                "'",
            ),
        );
    }
    match validate_install_root_removal(config, installed_exe, roots) {
        Err(error) => Err(error),
        Ok(install_root) => Ok(
            UninstallPlan { service_name: service_name.to_owned(), install_root, service_exists },
        ),
    }
}

/// The view of the command of an installed service, if there is one and it could be read.
pub open spec fn installed_view(r: Result<Option<InstalledServiceCommand>, String>) -> Result<
    Option<(Seq<char>, Seq<char>)>,
    Seq<char>,
> {
    match r {
        Ok(Some(c)) => Ok(Some((c.executable_path@, c.config_path@))),
        Ok(None) => Ok(None),
        Err(e) => Err(e@),
    }
}

/// What speaks against the removal by the command of the service if a configuration was named:
/// it must be the one that the service runs with.
pub open spec fn config_mismatch(
    explicit: Option<Result<ConfigView, Seq<char>>>,
    of_service: Result<ConfigView, Seq<char>>,
) -> Option<Seq<char>> {
    match explicit {
        None => None,
        Some(Err(e)) => Some(e),
        Some(Ok(named)) => match of_service {
            Err(e) => Some(e),
            Ok(installed) => if !config::same_place(named.config_path, installed.config_path) {
                Some(
                    "--config "@ + named.config_path
                        + " does not match installed service config "@ + installed.config_path,
                )
            } else {
                None
            },
        },
    }
}

/// What the removal of a service comes to: by the command of the service, or by the configuration
/// that was named if that command is missing or can not be read.
pub open spec fn uninstall_plan(
    service_name: Seq<char>,
    installed: Result<Option<(Seq<char>, Seq<char>)>, Seq<char>>,
    explicit: Option<Result<ConfigView, Seq<char>>>,
    of_service: Result<ConfigView, Seq<char>>,
    roots: RootsView,
) -> Result<PlanView, Seq<char>> {
    match installed {
        Ok(Some(command)) => match config_mismatch(explicit, of_service) {
            Some(e) => Err(e),
            None => plan_by_config(service_name, of_service, Some(command.0), true, roots),
        },
        Ok(None) => match explicit {
            None => Err(
                "service '"@ + service_name + "' is not installed and --config was not provided"@,
            ),
            Some(loaded) => plan_by_config(service_name, loaded, None, false, roots),
        },
        Err(e) => match explicit {
            None => Err(e),
            Some(loaded) => plan_by_config(service_name, loaded, None, true, roots),
        },
    }
}

/// The view of a configuration that was named, if one was.
pub open spec fn explicit_view(o: Option<Result<RuntimeConfig, String>>) -> Option<
    Result<ConfigView, Seq<char>>,
> {
    match o {
        Some(r) => Some(loaded_view(r)),
        None => None,
    }
}

fn check_same_config(
    explicit: &Option<Result<RuntimeConfig, String>>,
    of_service: &Result<RuntimeConfig, String>,
) -> (r: Result<(), String>)
    ensures
        config::error_of(r) == config_mismatch(explicit_view(*explicit), loaded_view(*of_service)),
{
    let named = match explicit {
        None => {
            return Ok(());
        },
        Some(Err(error)) => {
            return Err(error.clone());
        },
        Some(Ok(named)) => named,
    };
    let installed = match of_service {
        Err(error) => {
            return Err(error.clone());
        },
        Ok(installed) => installed,
    };
    if path_eq_case_insensitive(named.config_path.as_str(), installed.config_path.as_str()) {
        Ok(())
    } else {
        Err(
            cat4(
                "--config ",
                named.config_path.as_str(),
                " does not match installed service config ",
                installed.config_path.as_str(),
            ),
        )
    }
}

/// What the removal of a service comes to. The caller gives the command of the installed service,
/// the configuration that was named, if one was, and the configuration that the command names (of
/// which nothing is used if there is no command).
pub fn resolve_uninstall_plan(
    service_name: &str,
    installed: &Result<Option<InstalledServiceCommand>, String>,
    explicit: &Option<Result<RuntimeConfig, String>>,
    of_service: &Result<RuntimeConfig, String>,
    roots: &SystemRoots,
) -> (r: Result<UninstallPlan, String>)
    ensures
        plan_result(r) == uninstall_plan(
            service_name@,
            installed_view(*installed),
            explicit_view(*explicit),
            loaded_view(*of_service),
            roots@,
        ),
{
    match installed {
        Ok(Some(command)) => {
            if let Err(error) = check_same_config(explicit, of_service) {
                return Err(error);
            }
            uninstall_plan_from_config(
                service_name,
                of_service,
                Some(command.executable_path.as_str()),
                true,
                roots,
            )
        },
        Ok(None) => match explicit {
            None => Err(
                cat3(
                    "service '",
                    service_name,
                    "' is not installed and --config was not provided",
                ),
            ),
            Some(loaded) => uninstall_plan_from_config(service_name, loaded, None, false, roots),
        },
        Err(error) => match explicit {
            None => Err(error.clone()),
            Some(loaded) => uninstall_plan_from_config(service_name, loaded, None, true, roots),
        },
    }
}

/// Whatever a removal comes to, the directory that it removes is a dedicated one, and if the
/// service has a command, its executable lies in that directory.
pub proof fn removals_stay_in_the_installation(
    service_name: Seq<char>,
    installed: Result<Option<(Seq<char>, Seq<char>)>, Seq<char>>,
    explicit: Option<Result<ConfigView, Seq<char>>>,
    of_service: Result<ConfigView, Seq<char>>,
    roots: RootsView,
)
    ensures
        uninstall_plan(service_name, installed, explicit, of_service, roots) matches Ok(plan) ==> {
            &&& config::install_root_error(plan.install_root, roots) is None
            &&& plan.service_name == service_name
            &&& installed matches Ok(Some(command)) ==> (winpath::absolute_path(
                command.0,
                "installed service executable"@,
            ) matches Ok(exe) && winpath::under(exe, plan.install_root))
        },
{
}

/// The command of an installed service, or why it can not be read.
pub fn read_installed_command(service_name: &str, command_line: &str) -> (r: Result<
    InstalledServiceCommand,
    String,
>)
    ensures
        match r {
            Ok(c) => options::installed_command(command_line@) == Ok::<_, Seq<char>>(
                (c.executable_path@, c.config_path@),
            ),
            Err(e) => options::installed_command(command_line@) matches Err(m) && e@
                == "parse service '"@ + service_name@ + "' command line '"@ + command_line@ + "': "@
                + m + "; pass --config <path> to uninstall with an explicit config"@,
        },
{
    match parse_installed_service_command(command_line) {
        Ok(command) => Ok(command),
        Err(error) => {
            let head = cat5(
                "parse service '",
                service_name,
                "' command line '",
                command_line,
                "': ",
            );
            let message = cat3(
                head.as_str(),
                error.as_str(),
                "; pass --config <path> to uninstall with an explicit config",
            );
            Err(message)
        },
    }
}

/// What the end of a process that was started with more rights means: the work is done, or it
/// failed.
pub fn elevation_outcome(exit_code: u32) -> (r: Result<bool, String>)
    ensures
        match r {
            Ok(done) => done && exit_code == 0,
            Err(e) => exit_code != 0 && e@ == "elevated command failed with exit code "@
                + text::decimal(exit_code as nat),
        },
{
    if exit_code == 0 {
        Ok(true)
    } else {
        Err(
            cat2(
                "elevated command failed with exit code ",
                decimal_text(exit_code as u64).as_str(),
            ),
        )
    }
}

/// What to do while waiting for something.
#[derive(Debug, Clone, Copy, PartialEq, Eq, Structural)]
pub enum WaitStep {
    Done,
    TimedOut,
    Again,
}

/// What to do while waiting: what has happened counts even after the time is over.
pub fn wait_step(happened: bool, waited_ms: u64, timeout_ms: u64) -> (r: WaitStep)
    ensures
        r == (if happened {
            WaitStep::Done
        } else if waited_ms >= timeout_ms {
            WaitStep::TimedOut
        } else {
            WaitStep::Again
        }),
{
    if happened {
        WaitStep::Done
    } else if waited_ms >= timeout_ms {
        WaitStep::TimedOut
    } else {
        WaitStep::Again
    }
}

/// The state of a service as the system is told.
#[derive(Debug, Clone, Copy, PartialEq, Eq, Structural)]
pub enum ServicePhase {
    StartPending,
    Running,
    StopPending,
    Stopped,
}

/// What the system is told of a service.
#[derive(Debug, Clone, Copy, PartialEq, Eq, Structural)]
pub struct ServiceReport {
    pub phase: ServicePhase,
    pub accepts_stop: bool,
    pub checkpoint: u32,
    pub exit_code: u32,
}

/// What the system is told of a service: it can be stopped while it runs, and a failure shows in
/// the exit code at the end.
pub fn service_report(phase: ServicePhase, failed: bool) -> (r: ServiceReport)
    ensures
        r.phase == phase,
        r.accepts_stop == (phase == ServicePhase::Running),
        r.checkpoint == (if phase == ServicePhase::StartPending || phase
            == ServicePhase::StopPending {
            1u32
        } else {
            0u32
        }),
        r.exit_code == (if phase == ServicePhase::Stopped && failed {
            1u32
        } else {
            0u32
        }),
{
    let pending = phase == ServicePhase::StartPending || phase == ServicePhase::StopPending;
    ServiceReport {
        phase,
        accepts_stop: phase == ServicePhase::Running,
        checkpoint: if pending {
            1
        } else {
            0
        },
        exit_code: if phase == ServicePhase::Stopped && failed {
            1
        } else {
            0
        },
    }
}

/// The status code of the head of a response.
pub open spec fn status_of(head: Seq<char>) -> Option<nat> {
    let lines = scan::lines(head);
    if lines.len() == 0 {
        None
    } else {
        let words = scan::words(lines[0]);
        if words.len() < 2 {
            None
        } else {
            scan::parse_number(words[1], 10, 65535)
        }
    }
}

/// Whether a response says that the server is well.
pub open spec fn healthy(response: Seq<char>) -> bool {
    match scan::find(response, "\r\n\r\n"@) {
        None => false,
        Some(i) => status_of(response.take(i as int)) == Some(200nat) && scan::find(
            response.skip(i as int + 4),
            "\"status\":\"ok\""@,
        ) is Some,
    }
}

fn status_code(head: &str) -> (r: Option<u64>)
    ensures
        match r {
            Some(n) => status_of(head@) == Some(n as nat),
            None => status_of(head@) is None,
        },
{
    let lines = lines_of(head);
    if lines.len() == 0 {
        return None;
    }
    assert(text::views(lines@)[0] == lines@[0]@);
    let words = words_of(lines[0].as_str());
    if words.len() < 2 {
        return None;
    }
    assert(text::views(words@)[1] == words@[1]@);
    parse_text(words[1].as_str(), 10, 65535)
}

/// Whether a response says that the server is well.
pub fn is_healthy(response: &str) -> (r: bool)
    ensures
        r == healthy(response@),
{
    proof {
        reveal_strlit("\r\n\r\n");
    }
    let chars = chars_of(response);
    let size: usize = chars.len();
    let mark = chars_of("\r\n\r\n");
    let at: usize = match find_from(&chars, &mark, 0) {
        None => {
            assert(response@.skip(0) =~= response@);
            return false;
        },
        Some(at) => at,
    };
    assert(response@.skip(0) =~= response@);
    let head = part(&chars, 0, at);
    let body = part(&chars, at + 4, size);
    assert(head@ =~= response@.take(at as int));
    assert(body@ =~= response@.skip(at as int + 4));
    let status = status_code(head.as_str());
    let good = match status {
        Some(code) => code == 200,
        None => false,
    };
    good && contains_text(body.as_str(), "\"status\":\"ok\"")
}

/// The request that asks whether the server is well.
pub fn health_request(address: &str) -> (r: String)
    ensures
        r@ == "GET /healthz HTTP/1.1\r\nHost: "@ + address@ + "\r\nConnection: close\r\n\r\n"@,
{
    cat3("GET /healthz HTTP/1.1\r\nHost: ", address, "\r\nConnection: close\r\n\r\n")
}

} // verus!
