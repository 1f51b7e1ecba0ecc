//! Where the backend is installed, and how its supervisor runs.

use crate::error::{DbgFlowError, ErrorView};
use crate::scan;
use crate::scan::part;
use crate::text;
use crate::text::{cat2, cat3, cat4, chars_of};
use crate::winpath;
use crate::winpath::join;
use vstd::prelude::*;

verus! {

pub const DBGFLOW_IDA_DIR_ENV: &'static str = "DBGFLOW_IDA_DIR";

pub const DBGFLOW_IDA_PYTHON_ENV: &'static str = "DBGFLOW_IDA_PYTHON";

pub const DBGFLOW_IDA_PRO_MCP_SRC_ENV: &'static str = "DBGFLOW_IDA_PRO_MCP_SRC";

pub const IDA_INSTALL_ENV: &'static str = "IDADIR";

pub const DEFAULT_WINDOWS_IDA_DIR: &'static str = "C:\\Program Files\\IDA Professional 9.3";

pub const DEFAULT_MAX_WORKERS: u64 = 4;

/// What is configured of the backend.
#[derive(Debug)]
pub struct IdaRuntimeConfig {
    pub install_dir: Option<String>,
    pub python_executable: Option<String>,
    pub vendor_src_dir: Option<String>,
    pub max_workers: Option<u64>,
}

/// An installation of the backend.
#[derive(Debug)]
pub struct IdaInstall {
    pub install_dir: String,
    pub ida_dll: String,
    pub idalib_dll: String,
}

/// How the supervisor runs.
#[derive(Debug)]
pub struct IdaSupervisorRuntime {
    pub install: IdaInstall,
    pub python_executable: String,
    pub vendor_src_dir: String,
    pub max_workers: u64,
}

impl Default for IdaRuntimeConfig {
    fn default() -> (r: IdaRuntimeConfig)
        ensures
            r.install_dir is None,
            r.python_executable is None,
            r.vendor_src_dir is None,
            r.max_workers is None,
    {
        IdaRuntimeConfig {
            install_dir: None,
            python_executable: None,
            vendor_src_dir: None,
            max_workers: None,
        }
    }
}

/// The first choice that is there.
pub open spec fn chosen(
    configured: Option<Seq<char>>,
    environment: Option<Seq<char>>,
    default: Seq<char>,
) -> Seq<char> {
    match configured {
        Some(c) => c,
        None => match environment {
            Some(e) => e,
            None => default,
        },
    }
}

fn choose_text(configured: &Option<String>, environment: &Option<String>, default: &str) -> (r:
    String)
    ensures
        r@ == chosen(text::view_opt(*configured), text::view_opt(*environment), default@),
{
    match configured {
        Some(c) => c.clone(),
        None => match environment {
            Some(e) => e.clone(),
            None => default.to_owned(),
        },
    }
}

/// The directory that is taken for the installation, given the variable of the environment.
pub fn resolve_install_dir(config: &IdaRuntimeConfig, environment: &Option<String>) -> (r: String)
    ensures
        r@ == chosen(
            text::view_opt(config.install_dir),
            text::view_opt(*environment),
            DEFAULT_WINDOWS_IDA_DIR@,
        ),
{
    choose_text(&config.install_dir, environment, DEFAULT_WINDOWS_IDA_DIR)
}

/// The interpreter that runs the supervisor, given the variable of the environment.
pub fn resolve_python_executable(config: &IdaRuntimeConfig, environment: &Option<String>) -> (r:
    String)
    ensures
        r@ == chosen(
            text::view_opt(config.python_executable),
            text::view_opt(*environment),
            "python"@,
        ),
{
    choose_text(&config.python_executable, environment, "python")
}

/// How many workers the supervisor may start.
pub fn resolve_max_workers(config: &IdaRuntimeConfig) -> (r: u64)
    ensures
        r == match config.max_workers {
            Some(n) => n,
            None => DEFAULT_MAX_WORKERS,
        },
{
    match config.max_workers {
        Some(n) => n,
        None => DEFAULT_MAX_WORKERS,
    }
}

/// The path that programs other than the system itself understand: without the mark that
/// switches the interpretation of names off.
pub open spec fn plain_path(path: Seq<char>) -> Seq<char> {
    if scan::starts(path, "\\\\?\\UNC\\"@) {
        "\\\\"@ + path.skip(8)
    } else if scan::starts(path, "\\\\?\\"@) {
        path.skip(4)
    } else {
        path
    }
}

/// The path without the mark that switches the interpretation of names off.
pub fn normalize_ida_runtime_path(path: &str) -> (r: String)
    ensures
        r@ == plain_path(path@),
{
    proof {
        reveal_strlit("\\\\?\\UNC\\");
        reveal_strlit("\\\\?\\");
    }
    let chars = chars_of(path);
    let size: usize = chars.len();
    if scan::starts_with(path, "\\\\?\\UNC\\") {
        let rest = part(&chars, 8, size);
        assert(path@.skip(8) =~= rest@);
        return cat2("\\\\", rest.as_str());
    }
    if scan::starts_with(path, "\\\\?\\") {
        let rest = part(&chars, 4, size);
        assert(path@.skip(4) =~= rest@);
        return rest;
    }
    path.to_owned()
}

/// A plain path is left alone.
pub proof fn plain_paths_are_kept(path: Seq<char>)
    requires
        !scan::starts(path, "\\\\?\\"@),
    ensures
        plain_path(path) == path,
{
    reveal_strlit("\\\\?\\UNC\\");
    reveal_strlit("\\\\?\\");
    if scan::starts(path, "\\\\?\\UNC\\"@) {
        let mark = path.take(8);
        assert(mark =~= "\\\\?\\UNC\\"@);
        assert forall|i: int| 0 <= i < 4 implies #[trigger] path.take(4)[i] == "\\\\?\\"@[i] by {
            assert(path.take(8)[i] == path[i]);
        }
        assert(path.take(4) =~= "\\\\?\\"@);
    }
}

/// What the file system says of a directory: its canonical path, whether it is a directory,
/// and which of the files of an installation it holds.
#[derive(Debug)]
pub struct InstallFacts {
    pub canonical: String,
    pub is_dir: bool,
    pub has_ida_exe: bool,
    pub has_ida_dll: bool,
    pub has_idalib_dll: bool,
    pub has_ida_hlp: bool,
}

/// The first file that an installation lacks.
pub open spec fn missing_file(facts: InstallFacts) -> Option<Seq<char>> {
    if !facts.has_ida_exe {
        Some("ida.exe"@)
    } else if !facts.has_ida_dll {
        Some("ida.dll"@)
    } else if !facts.has_idalib_dll {
        Some("idalib.dll"@)
    } else if !facts.has_ida_hlp {
        Some("ida.hlp"@)
    } else {
        None
    }
}

fn first_missing(facts: &InstallFacts) -> (r: Option<&'static str>)
    ensures
        match r {
            Some(name) => missing_file(*facts) == Some(name@),
            None => missing_file(*facts) is None,
        },
{
    if !facts.has_ida_exe {
        Some("ida.exe")
    } else if !facts.has_ida_dll {
        Some("ida.dll")
    } else if !facts.has_idalib_dll {
        Some("idalib.dll")
    } else if !facts.has_ida_hlp {
        Some("ida.hlp")
    } else {
        None
    }
}

/// What is wrong with a directory as an installation.
pub open spec fn install_error(
    path: Seq<char>,
    absolute: Seq<char>,
    facts: Result<InstallFacts, String>,
) -> Option<Seq<char>> {
    if path.len() == 0 {
        Some("IDA install dir must not be empty"@)
    } else {
        match facts {
            Err(e) => Some("invalid IDA install dir "@ + absolute + ": "@ + e@),
            Ok(f) => if !f.is_dir {
                Some(
                    "invalid IDA install dir "@ + plain_path(f.canonical@)
                        + "; expected a directory"@,
                )
            } else {
                match missing_file(f) {
                    Some(name) => Some(
                        "invalid IDA install dir "@ + plain_path(f.canonical@) + "; missing "@
                            + name,
                    ),
                    None => None,
                }
            },
        }
    }
}

/// Checks that a directory is an installation. The caller gives the path as it was configured,
/// the absolute path that it stands for, and what the file system says of that, or the error.
pub fn validate_ida_install_dir(
    path: &str,
    absolute: &str,
    facts: Result<InstallFacts, String>,
) -> (r: Result<IdaInstall, DbgFlowError>)
    ensures
        match r {
            Ok(install) => {
                &&& install_error(path@, absolute@, facts) is None
                &&& facts matches Ok(f) && install.install_dir@ == plain_path(f.canonical@)
                &&& install.ida_dll@ == winpath::joined_path(install.install_dir@, "ida.dll"@)
                &&& install.idalib_dll@ == winpath::joined_path(
                    install.install_dir@,
                    "idalib.dll"@,
                )
            },
            Err(e) => install_error(path@, absolute@, facts) matches Some(m) && e@
                == ErrorView::Backend(m),
        },
{
    if path.is_empty() {
        return Err(DbgFlowError::Backend("IDA install dir must not be empty".to_owned()));
    }
    let facts = match facts {
        Ok(facts) => facts,
        Err(error) => {
            let message = cat4("invalid IDA install dir ", absolute, ": ", error.as_str());
            return Err(DbgFlowError::Backend(message));
        },
    };
    let install_dir = normalize_ida_runtime_path(facts.canonical.as_str());
    if !facts.is_dir {
        let message = cat3(
            "invalid IDA install dir ",
            install_dir.as_str(),
            "; expected a directory",
        );
        return Err(DbgFlowError::Backend(message));
    }
    match first_missing(&facts) {
        Some(name) => {
            let message = cat4(
                "invalid IDA install dir ",
                install_dir.as_str(),
                "; missing ",
                name,
            );
            return Err(DbgFlowError::Backend(message));
        },
        None => {},
    }
    let ida_dll = join(install_dir.as_str(), "ida.dll");
    let idalib_dll = join(install_dir.as_str(), "idalib.dll");
    Ok(IdaInstall { install_dir, ida_dll, idalib_dll })
}

/// A directory that may hold the sources of the supervisor, and whether it does.
#[derive(Debug)]
pub struct VendorCandidate {
    pub path: String,
    pub holds_supervisor: bool,
}

/// The first directory that holds the sources.
pub open spec fn first_holding(v: Seq<VendorCandidate>) -> Option<Seq<char>>
    decreases v.len(),
{
    if v.len() == 0 {
        None
    } else if v[0].holds_supervisor {
        Some(v[0].path@)
    } else {
        first_holding(v.drop_first())
    }
}

/// The directory of the sources, out of those that may hold them.
pub fn resolve_vendor_src_dir(candidates: &[VendorCandidate]) -> (r: Result<String, DbgFlowError>)
    ensures
        match r {
            Ok(dir) => first_holding(candidates@) == Some(dir@),
            Err(e) => first_holding(candidates@) is None && e@ == ErrorView::Backend(
                "ida-pro-mcp vendored src directory was not found; set DBGFLOW_IDA_PRO_MCP_SRC"@,
            ),
        },
{
    let mut i: usize = 0;
    assert(candidates@.skip(0) =~= candidates@);
    while i < candidates.len()
        invariant
            i <= candidates@.len(),
            first_holding(candidates@) == first_holding(candidates@.skip(i as int)),
        decreases candidates@.len() - i,
    {
        assert(candidates@.skip(i as int)[0] == candidates@[i as int]);
        if candidates[i].holds_supervisor {
            return Ok(candidates[i].path.clone());
        }
        assert(candidates@.skip(i as int).drop_first() =~= candidates@.skip(i as int + 1));
        i += 1;
    }
    Err(
        DbgFlowError::Backend(
            "ida-pro-mcp vendored src directory was not found; set DBGFLOW_IDA_PRO_MCP_SRC".to_owned(),
        ),
    )
}

/// The directory of the sources under a directory that they are delivered in.
pub fn vendor_src_dir(root: &str) -> (r: String)
    ensures
        r@ == winpath::joined_path(
            winpath::joined_path(winpath::joined_path(root@, "vendor"@), "ida-pro-mcp"@),
            "src"@,
        ),
{
    join(join(join(root, "vendor").as_str(), "ida-pro-mcp").as_str(), "src")
}

/// The file by which a directory is known to hold the sources.
pub fn supervisor_source_file(vendor_src_dir: &str) -> (r: String)
    ensures
        r@ == winpath::joined_path(
            winpath::joined_path(vendor_src_dir@, "ida_pro_mcp"@),
            "idalib_supervisor.py"@,
        ),
{
    join(join(vendor_src_dir, "ida_pro_mcp").as_str(), "idalib_supervisor.py")
}

} // verus!
