//! Checks of a request for a recording.

use crate::error::{DbgFlowError, ErrorView};
use crate::profile::target;
use crate::profile::target::ResolvedExecutable;
use crate::scan;
use crate::text::cat2;
use crate::ttd::options::{TtdRecordingOptions, TtdTarget};
use crate::validation;
use crate::winpath;
use vstd::prelude::*;

verus! {

/// What is wrong with a program to be monitored, before its file is looked up.
pub open spec fn monitor_error(program: Seq<char>) -> Option<Seq<char>> {
    if validation::has_line_break(program) {
        Some("TTD monitor program contains unsupported control characters"@)
    } else if scan::trim(program).len() == 0 {
        Some("TTD monitor program must not be empty"@)
    } else if validation::climbs(program) {
        Some("TTD monitor program must not contain path traversal"@)
    } else if (program.contains('/') || program.contains('\\')) && !winpath::parts(
        program,
    ).absolute() {
        Some("TTD monitor program must be a file name or an absolute path"@)
    } else {
        None
    }
}

/// What is wrong with a filter on command lines.
pub open spec fn filter_error(filter: Option<String>) -> Option<Seq<char>> {
    match filter {
        None => None,
        Some(f) => if validation::has_line_break(f@) {
            Some("TTD monitor cmd_line_filter contains unsupported control characters"@)
        } else if scan::trim(f@).len() == 0 {
            Some("TTD monitor cmd_line_filter must not be empty"@)
        } else {
            None
        },
    }
}

/// The checked target, or what is wrong with it. `resolved` says what the file system makes of
/// the program, where it is looked up.
pub open spec fn checked_target(
    t: TtdTarget,
    resolved: Result<ResolvedExecutable, String>,
) -> Result<TtdTarget, Seq<char>> {
    match t {
        TtdTarget::Launch { executable: _, args } => match resolved {
            Err(e) => Err("invalid TTD launch executable: "@ + e@),
            Ok(found) => if !found.is_file {
                Err("TTD launch executable is not a file: "@ + found.path@)
            } else if target::some_nul(args@) {
                Err("TTD launch arguments must not contain NUL bytes"@)
            } else {
                Ok(TtdTarget::Launch { executable: found.path, args })
            },
        },
        TtdTarget::Attach { pid } => if pid == 0 {
            Err("TTD attach pid must be greater than zero"@)
        } else {
            Ok(t)
        },
        TtdTarget::Monitor { program, cmd_line_filter } => match monitor_error(program@) {
            Some(e) => Err(e),
            None => if !winpath::parts(program@).absolute() {
                match filter_error(cmd_line_filter) {
                    Some(e) => Err(e),
                    None => Ok(t),
                }
            } else {
                match resolved {
                    Err(e) => Err("invalid TTD monitor program path: "@ + e@),
                    Ok(found) => if !found.is_file {
                        Err("TTD monitor program path is not a file: "@ + found.path@)
                    } else {
                        match filter_error(cmd_line_filter) {
                            Some(e) => Err(e),
                            None => Ok(TtdTarget::Monitor { program: found.path, cmd_line_filter }),
                        }
                    },
                }
            },
        },
    }
}

fn check_program(program: &str) -> (r: Result<(), DbgFlowError>)
    ensures
        match r {
            Ok(()) => monitor_error(program@) is None,
            Err(e) => monitor_error(program@) matches Some(m) && e@ == ErrorView::Backend(m),
        },
{
    if validation::contains_line_break(program) {
        return Err(
            DbgFlowError::backend("TTD monitor program contains unsupported control characters"),
        );
    }
    if scan::is_blank(program) {
        return Err(DbgFlowError::backend("TTD monitor program must not be empty"));
    }
    if validation::has_parent_component(program) {
        return Err(DbgFlowError::backend("TTD monitor program must not contain path traversal"));
    }
    if validation::path_text_has_separator(program) && !winpath::parse_path(
        program,
    ).is_absolute() {
        return Err(
            DbgFlowError::backend("TTD monitor program must be a file name or an absolute path"),
        );
    }
    Ok(())
}

fn check_filter(filter: &Option<String>) -> (r: Result<(), DbgFlowError>)
    ensures
        match r {
            Ok(()) => filter_error(*filter) is None,
            Err(e) => filter_error(*filter) matches Some(m) && e@ == ErrorView::Backend(m),
        },
{
    match filter {
        None => Ok(()),
        Some(filter) => {
            if validation::contains_line_break(filter.as_str()) {
                return Err(
                    DbgFlowError::backend(
                        "TTD monitor cmd_line_filter contains unsupported control characters",
                    ),
                );
            }
            if scan::is_blank(filter.as_str()) {
                return Err(DbgFlowError::backend("TTD monitor cmd_line_filter must not be empty"));
            }
            Ok(())
        },
    }
}

/// Checks a target whose program was looked up.
pub fn validate_ttd_target(
    target: TtdTarget,
    resolved: Result<ResolvedExecutable, String>,
) -> (r: Result<TtdTarget, DbgFlowError>)
    ensures
        match r {
            Ok(t) => checked_target(target, resolved) matches Ok(checked) && t == checked,
            Err(e) => checked_target(target, resolved) matches Err(m) && e@ == ErrorView::Backend(
                m,
            ),
        },
{
    match target {
        TtdTarget::Launch { executable: _, args } => {
            let found = match resolved {
                Ok(found) => found,
                Err(error) => {
                    return Err(
                        DbgFlowError::Backend(
                            cat2("invalid TTD launch executable: ", error.as_str()),
                        ),
                    );
                },
            };
            if !found.is_file {
                return Err(
                    DbgFlowError::Backend(
                        cat2("TTD launch executable is not a file: ", found.path.as_str()),
                    ),
                );
            }
            if target::any_nul(args.as_slice()) {
                return Err(
                    DbgFlowError::backend("TTD launch arguments must not contain NUL bytes"),
                );
            }
            Ok(TtdTarget::Launch { executable: found.path, args })
        },
        TtdTarget::Attach { pid } => if pid == 0 {
            Err(DbgFlowError::backend("TTD attach pid must be greater than zero"))
        } else {
            Ok(TtdTarget::Attach { pid })
        },
        TtdTarget::Monitor { program, cmd_line_filter } => {
            match check_program(program.as_str()) {
                Ok(()) => {},
                Err(error) => {
                    return Err(error);
                },
            }
            let absolute = winpath::parse_path(program.as_str()).is_absolute();
            let program = if absolute {
                match resolved {
                    Ok(found) => {
                        if !found.is_file {
                            return Err(
                                DbgFlowError::Backend(
                                    cat2(
                                        "TTD monitor program path is not a file: ",
                                        found.path.as_str(),
                                    ),
                                ),
                            );
                        }
                        found.path
                    },
                    Err(error) => {
                        return Err(
                            DbgFlowError::Backend(
                                cat2("invalid TTD monitor program path: ", error.as_str()),
                            ),
                        );
                    },
                }
            } else {
                program
            };
            match check_filter(&cmd_line_filter) {
                Ok(()) => Ok(TtdTarget::Monitor { program, cmd_line_filter }),
                Err(error) => Err(error),
            }
        },
    }
}

/// What is wrong with the name of a module.
pub open spec fn module_error(module: Seq<char>) -> Option<Seq<char>> {
    if validation::has_line_break(module) {
        Some("TTD module contains unsupported control characters"@)
    } else if scan::trim(module).len() == 0 {
        Some("TTD module must not be empty"@)
    } else {
        None
    }
}

/// What is wrong with the first name of a module with which something is.
pub open spec fn modules_error(modules: Seq<String>) -> Option<Seq<char>>
    decreases modules.len(),
{
    if modules.len() == 0 {
        None
    } else {
        match module_error(modules[0]@) {
            Some(e) => Some(e),
            None => modules_error(modules.drop_first()),
        }
    }
}

/// What is wrong with the options of a recording.
pub open spec fn options_error(o: TtdRecordingOptions, monitors: bool) -> Option<Seq<char>> {
    if o.max_file_mb == 0 {
        Some("TTD max_file_mb must be greater than zero"@)
    } else if o.ring && o.max_file_mb > 32768 {
        Some("TTD ring max_file_mb must be at most 32768"@)
    } else if !o.ring && o.max_file_mb > 1048576 {
        Some("TTD max_file_mb must be at most 1048576"@)
    } else if modules_error(o.modules@) is Some {
        modules_error(o.modules@)
    } else if !monitors && o.modules@.len() > 64 {
        Some("TTD modules list is too large"@)
    } else {
        None
    }
}

fn check_modules(modules: &[String]) -> (r: Result<(), DbgFlowError>)
    ensures
        match r {
            Ok(()) => modules_error(modules@) is None,
            Err(e) => modules_error(modules@) matches Some(m) && e@ == ErrorView::Backend(m),
        },
{
    let mut i: usize = 0;
    assert(modules@.skip(0) =~= modules@);
    while i < modules.len()
        invariant
            i <= modules@.len(),
            modules_error(modules@) == modules_error(modules@.skip(i as int)),
        decreases modules@.len() - i,
    {
        assert(modules@.skip(i as int)[0] == modules@[i as int]);
        assert(modules@.skip(i as int).drop_first() =~= modules@.skip(i + 1));
        if validation::contains_line_break(modules[i].as_str()) {
            return Err(
                DbgFlowError::backend("TTD module contains unsupported control characters"),
            );
        }
        if scan::is_blank(modules[i].as_str()) {
            return Err(DbgFlowError::backend("TTD module must not be empty"));
        }
        i += 1;
    }
    assert(modules@.skip(i as int).len() == 0);
    Ok(())
}

/// Checks the options of a recording.
pub fn validate_ttd_options(options: &TtdRecordingOptions, target: &TtdTarget) -> (r: Result<
    (),
    DbgFlowError,
>)
    ensures
        match r {
            Ok(()) => options_error(*options, target is Monitor) is None,
            Err(e) => options_error(*options, target is Monitor) matches Some(m) && e@
                == ErrorView::Backend(m),
        },
{
    if options.max_file_mb == 0 {
        return Err(DbgFlowError::backend("TTD max_file_mb must be greater than zero"));
    }
    if options.ring && options.max_file_mb > 32768 {
        return Err(DbgFlowError::backend("TTD ring max_file_mb must be at most 32768"));
    }
    if !options.ring && options.max_file_mb > 1048576 {
        return Err(DbgFlowError::backend("TTD max_file_mb must be at most 1048576"));
    }
    match check_modules(options.modules.as_slice()) {
        Ok(()) => {},
        Err(error) => {
            return Err(error);
        },
    }
    let monitors = match target {
        TtdTarget::Monitor { .. } => true,
        _ => false,
    };
    if !monitors && options.modules.len() > 64 {
        return Err(DbgFlowError::backend("TTD modules list is too large"));
    }
    Ok(())
}

} // verus!
