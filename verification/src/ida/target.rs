//! What is analysed.

use crate::error::{DbgFlowError, ErrorView};
use crate::json::{Json, JsonView};
use crate::profile::target::ResolvedExecutable;
use crate::scan;
use crate::text::{cat3, same};
use crate::winpath;
use vstd::prelude::*;

verus! {

/// What is analysed: a binary, or a database that was made of one.
#[derive(Debug)]
pub enum IdaTarget {
    Binary { path: String },
    Database { path: String },
}

/// The mathematical form of a target.
pub enum TargetView {
    Binary { path: Seq<char> },
    Database { path: Seq<char> },
}

impl View for IdaTarget {
    type V = TargetView;

    open spec fn view(&self) -> TargetView {
        match *self {
            IdaTarget::Binary { path } => TargetView::Binary { path: path@ },
            IdaTarget::Database { path } => TargetView::Database { path: path@ },
        }
    }
}

impl TargetView {
    /// The path of the target.
    pub open spec fn place(self) -> Seq<char> {
        match self {
            TargetView::Binary { path } => path,
            TargetView::Database { path } => path,
        }
    }

    /// Whether two targets are the same: of one kind, and at one place.
    pub open spec fn same_as(self, other: TargetView) -> bool {
        (self is Binary <==> other is Binary) && winpath::parts(self.place()).components()
            == winpath::parts(other.place()).components()
    }

    /// The target as a value.
    pub open spec fn value(self) -> JsonView {
        match self {
            TargetView::Binary { path } => JsonView::object().with_text(
                "kind"@,
                "binary"@,
            ).with_text("path"@, path),
            TargetView::Database { path } => JsonView::object().with_text(
                "kind"@,
                "database"@,
            ).with_text("path"@, path),
        }
    }
}

impl IdaTarget {
    /// The path of the target.
    pub fn path(&self) -> (r: &String)
        ensures
            r@ == self@.place(),
    {
        match self {
            IdaTarget::Binary { path } => path,
            IdaTarget::Database { path } => path,
        }
    }

    /// The target at another place.
    pub fn with_path(self, path: String) -> (r: IdaTarget)
        ensures
            r@.place() == path@,
            r@ is Binary <==> self@ is Binary,
    {
        match self {
            IdaTarget::Binary { path: _ } => IdaTarget::Binary { path },
            IdaTarget::Database { path: _ } => IdaTarget::Database { path },
        }
    }

    /// A copy of the target.
    pub fn duplicate(&self) -> (r: IdaTarget)
        ensures
            r@ == self@,
    {
        match self {
            IdaTarget::Binary { path } => IdaTarget::Binary { path: path.clone() },
            IdaTarget::Database { path } => IdaTarget::Database { path: path.clone() },
        }
    }

    /// Whether two targets are the same.
    pub fn is_same(&self, other: &IdaTarget) -> (r: bool)
        ensures
            r == self@.same_as(other@),
    {
        let kinds = match (self, other) {
            (IdaTarget::Binary { .. }, IdaTarget::Binary { .. }) => true,
            (IdaTarget::Database { .. }, IdaTarget::Database { .. }) => true,
            _ => false,
        };
        kinds && winpath::same_path(self.path().as_str(), other.path().as_str())
    }

    /// The target as a value.
    pub fn to_json(&self) -> (r: Json)
        ensures
            r@ == self@.value(),
    {
        match self {
            IdaTarget::Binary { path } => Json::object().with_text("kind", "binary").with_text(
                "path",
                path.as_str(),
            ),
            IdaTarget::Database { path } => Json::object().with_text(
                "kind",
                "database",
            ).with_text("path", path.as_str()),
        }
    }
}

/// Whether a path is that of a database.
pub open spec fn database_path(path: Seq<char>) -> bool {
    match winpath::extension(path) {
        Some(e) => scan::lower_all(e) == "idb"@ || scan::lower_all(e) == "i64"@,
        None => false,
    }
}

/// Whether a path is that of a database.
pub fn is_ida_database_path(path: &str) -> (r: bool)
    ensures
        r == database_path(path@),
{
    match winpath::extension_of(path) {
        Some(extension) => {
            let lower = scan::lower_text(extension.as_str());
            same(lower.as_str(), "idb") || same(lower.as_str(), "i64")
        },
        None => false,
    }
}

/// The place of a checked target, or what is wrong with it. `resolved` says what the file
/// system makes of its path.
pub open spec fn checked_target(
    target: TargetView,
    resolved: Result<ResolvedExecutable, String>,
) -> Result<Seq<char>, Seq<char>> {
    let raw = target.place();
    if raw.len() == 0 {
        Err("IDA target path must not be empty"@)
    } else if raw.contains('\0') {
        Err("IDA target path must not contain NUL bytes"@)
    } else {
        match resolved {
            Err(e) => Err("invalid IDA target path "@ + raw + ": "@ + e@),
            Ok(found) => if !found.is_file {
                Err("invalid IDA target path "@ + found.path@ + "; expected an existing file"@)
            } else if target is Database && !database_path(found.path@) {
                Err("invalid IDA database path "@ + found.path@ + "; expected .idb or .i64"@)
            } else {
                Ok(found.path@)
            },
        }
    }
}

/// Checks the text of the path of a target.
pub fn validate_path_text(path: &str) -> (r: Result<(), DbgFlowError>)
    ensures
        r is Ok <==> path@.len() > 0 && !path@.contains('\0'),
        r matches Err(e) ==> e@ == ErrorView::Backend(
            if path@.len() == 0 {
                "IDA target path must not be empty"@
            } else {
                "IDA target path must not contain NUL bytes"@
            },
        ),
{
    if path.is_empty() {
        return Err(DbgFlowError::backend("IDA target path must not be empty"));
    }
    if scan::contains_char(path, '\0') {
        return Err(DbgFlowError::backend("IDA target path must not contain NUL bytes"));
    }
    Ok(())
}

/// Checks a target whose path was looked up, and moves it to the place that was found.
pub fn validate_ida_target(
    target: IdaTarget,
    resolved: Result<ResolvedExecutable, String>,
) -> (r: Result<IdaTarget, DbgFlowError>)
    ensures
        match r {
            Ok(t) => (checked_target(target@, resolved) matches Ok(place) && t@.place() == place)
                && (t@ is Binary <==> target@ is Binary),
            Err(e) => checked_target(target@, resolved) matches Err(m) && e@ == ErrorView::Backend(
                m,
            ),
        },
{
    match validate_path_text(target.path().as_str()) {
        Ok(()) => {},
        Err(error) => {
            return Err(error);
        },
    }
    let found = match resolved {
        Ok(found) => found,
        Err(error) => {
            let mut message = cat3("invalid IDA target path ", target.path().as_str(), ": ");
            message.append(error.as_str());
            return Err(DbgFlowError::Backend(message));
        },
    };
    if !found.is_file {
        return Err(
            DbgFlowError::Backend(
                cat3(
                    "invalid IDA target path ",
                    found.path.as_str(),
                    "; expected an existing file",
                ),
            ),
        );
    }
    let database = match &target {
        IdaTarget::Database { .. } => true,
        _ => false,
    };
    if database && !is_ida_database_path(found.path.as_str()) {
        return Err(
            DbgFlowError::Backend(
                cat3("invalid IDA database path ", found.path.as_str(), "; expected .idb or .i64"),
            ),
        );
    }
    Ok(target.with_path(found.path))
}

} // verus!
