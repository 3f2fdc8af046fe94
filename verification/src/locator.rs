//! Resolution of on-disk test-data directories: an environment-variable
//! override is consulted first and, when absent or blank, a fallback
//! path under the package root is tried instead. Either candidate must
//! be an existing directory.
//!
//! Reading the environment and asking the filesystem whether a path is
//! a directory are the caller's business; the decision itself works on
//! the plain values those reads produce and is a pure, ordered
//! procedure: override, validate, fallback, validate, fail.

use vstd::prelude::*;

verus! {

/// The characters that remain of `s` once leading and trailing
/// whitespace is removed.
pub uninterp spec fn trim_of(s: Seq<char>) -> Seq<char>;

/// Relies on `str::trim`: it removes leading and trailing whitespace,
/// and its result depends on the characters alone.
#[verifier::external_body]
fn trim_str(s: &str) -> (r: String)
    ensures
        r@ == trim_of(s@),
{
    s.trim().to_owned()
}

/// Why directory resolution failed. Each variant carries the name of
/// the environment variable consulted and the path that was tried, so
/// a human can remediate.
#[derive(Debug, Clone, PartialEq, Eq)]
pub enum LocatorError {
    /// The variable named a path that is not an existing directory.
    /// The fallback is deliberately not tried in this case: a set but
    /// wrong override is surfaced, not papered over.
    ConfiguredPathNotFound { var_name: String, path: String },
    /// The variable was absent or blank, and the fallback path is not
    /// an existing directory either. Fetching the missing data (for
    /// instance by a submodule update) is the usual remedy.
    NoFallbackAvailable { var_name: String, path: String },
}

/// The override is active when the variable is set and its value is
/// non-blank after trimming.
pub open spec fn override_active(env_value: Option<String>) -> bool {
    match env_value {
        Some(v) => trim_of(v@).len() > 0,
        None => false,
    }
}

/// The candidate path an active override names: its trimmed value.
pub open spec fn override_path(env_value: Option<String>) -> Seq<char> {
    match env_value {
        Some(v) => trim_of(v@),
        None => Seq::<char>::empty(),
    }
}

/// The fallback candidate: the relative path joined under the package
/// root directory.
pub open spec fn fallback_path(manifest_dir: Seq<char>, fallback_rel: Seq<char>) -> Seq<char> {
    manifest_dir + "/"@ + fallback_rel
}

/// Whether resolution succeeds: the candidate that the layered decision
/// selects must be an existing directory.
pub open spec fn locator_succeeds(
    env_value: Option<String>,
    override_is_dir: bool,
    fallback_is_dir: bool,
) -> bool {
    if override_active(env_value) {
        override_is_dir
    } else {
        fallback_is_dir
    }
}

/// The directory the inputs resolve to, when resolution succeeds.
pub open spec fn resolved_path(
    env_value: Option<String>,
    manifest_dir: Seq<char>,
    fallback_rel: Seq<char>,
) -> Seq<char> {
    if override_active(env_value) {
        override_path(env_value)
    } else {
        fallback_path(manifest_dir, fallback_rel)
    }
}

/// Returns a directory path for finding test data, or says exactly why
/// none was found.
///
/// `env_value` is the value of the environment variable named
/// `var_name`, if it is set; `manifest_dir` is the package root;
/// `fallback_rel` is the fallback path relative to that root;
/// `override_is_dir` and `fallback_is_dir` say whether the trimmed
/// override value, respectively the joined fallback path, is an
/// existing directory.
///
/// A set, non-blank override decides alone: its trimmed value is
/// returned when it is a directory and `ConfiguredPathNotFound` is
/// returned when it is not, whatever the fallback would have said. An
/// absent or blank override falls through to the fallback, which is
/// returned when it is a directory; otherwise `NoFallbackAvailable`
/// names both what was consulted and what was tried.
pub fn resolve_dir(
    var_name: &str,
    env_value: Option<String>,
    manifest_dir: &str,
    fallback_rel: &str,
    override_is_dir: bool,
    fallback_is_dir: bool,
) -> (r: Result<String, LocatorError>)
    ensures
        r is Ok <==> locator_succeeds(env_value, override_is_dir, fallback_is_dir),
        r matches Ok(p) ==> p@ == resolved_path(env_value, manifest_dir@, fallback_rel@),
        override_active(env_value) && !override_is_dir ==> (r matches Err(e)
            && e matches LocatorError::ConfiguredPathNotFound { var_name: v, path: p }
            && v@ == var_name@ && p@ == override_path(env_value)),
        !override_active(env_value) && !fallback_is_dir ==> (r matches Err(e)
            && e matches LocatorError::NoFallbackAvailable { var_name: v, path: p }
            && v@ == var_name@ && p@ == fallback_path(manifest_dir@, fallback_rel@)),
{
    match &env_value {
        Some(v) => {
            let trimmed = trim_str(v.as_str());
            if !trimmed.as_str().is_empty() {
                if override_is_dir {
                    return Ok(trimmed);
                } else {
                    return Err(
                        LocatorError::ConfiguredPathNotFound {
                            var_name: String::from_str(var_name),
                            path: trimmed,
                        },
                    );
                }
            }
        },
        None => {},
    }
    let fb = String::from_str(manifest_dir).concat("/").concat(fallback_rel);
    if fallback_is_dir {
        Ok(fb)
    } else {
        Err(
            LocatorError::NoFallbackAvailable {
                var_name: String::from_str(var_name),
                path: fb,
            },
        )
    }
}

/// Decide, from the same plain inputs, whether `resolve_dir` will
/// succeed on them.
pub fn resolution_succeeds(
    env_value: &Option<String>,
    override_is_dir: bool,
    fallback_is_dir: bool,
) -> (r: bool)
    ensures
        r == locator_succeeds(*env_value, override_is_dir, fallback_is_dir),
{
    match env_value {
        Some(v) => {
            let trimmed = trim_str(v.as_str());
            if !trimmed.as_str().is_empty() {
                override_is_dir
            } else {
                fallback_is_dir
            }
        },
        None => fallback_is_dir,
    }
}

/// Returns the arrow test data directory, by default the submodule
/// at `../testing/data` under the package root, overridden by the
/// environment variable `ARROW_TEST_DATA`. The caller must already
/// know that resolution succeeds on these inputs.
pub fn arrow_test_data(
    env_value: Option<String>,
    manifest_dir: &str,
    override_is_dir: bool,
    fallback_is_dir: bool,
) -> (r: String)
    requires
        locator_succeeds(env_value, override_is_dir, fallback_is_dir),
    ensures
        r@ == resolved_path(env_value, manifest_dir@, "../testing/data"@),
{
    match resolve_dir(
        "ARROW_TEST_DATA",
        env_value,
        manifest_dir,
        "../testing/data",
        override_is_dir,
        fallback_is_dir,
    ) {
        Ok(pb) => pb,
        Err(_) => vstd::pervasive::unreached(),
    }
}

/// Like `arrow_test_data`, but decides for itself whether resolution
/// succeeds and reports failure with `None` instead of demanding the
/// caller already knows.
pub fn try_arrow_test_data(
    env_value: Option<String>,
    manifest_dir: &str,
    override_is_dir: bool,
    fallback_is_dir: bool,
) -> (r: Option<String>)
    ensures
        r is Some <==> locator_succeeds(env_value, override_is_dir, fallback_is_dir),
        r matches Some(p) ==> p@ == resolved_path(env_value, manifest_dir@, "../testing/data"@),
{
    if resolution_succeeds(&env_value, override_is_dir, fallback_is_dir) {
        Some(arrow_test_data(env_value, manifest_dir, override_is_dir, fallback_is_dir))
    } else {
        None
    }
}

/// Returns the parquet test data directory, by default the submodule
/// at `../parquet-testing/data` under the package root, overridden by
/// the environment variable `PARQUET_TEST_DATA`. The caller must
/// already know that resolution succeeds on these inputs.
pub fn parquet_test_data(
    env_value: Option<String>,
    manifest_dir: &str,
    override_is_dir: bool,
    fallback_is_dir: bool,
) -> (r: String)
    requires
        locator_succeeds(env_value, override_is_dir, fallback_is_dir),
    ensures
        r@ == resolved_path(env_value, manifest_dir@, "../parquet-testing/data"@),
{
    match resolve_dir(
        "PARQUET_TEST_DATA",
        env_value,
        manifest_dir,
        "../parquet-testing/data",
        override_is_dir,
        fallback_is_dir,
    ) {
        Ok(pb) => pb,
        Err(_) => vstd::pervasive::unreached(),
    }
}

/// Like `parquet_test_data`, but decides for itself whether resolution
/// succeeds and reports failure with `None` instead of demanding the
/// caller already knows.
pub fn try_parquet_test_data(
    env_value: Option<String>,
    manifest_dir: &str,
    override_is_dir: bool,
    fallback_is_dir: bool,
) -> (r: Option<String>)
    ensures
        r is Some <==> locator_succeeds(env_value, override_is_dir, fallback_is_dir),
        r matches Some(p) ==> p@ == resolved_path(
            env_value,
            manifest_dir@,
            "../parquet-testing/data"@,
        ),
{
    if resolution_succeeds(&env_value, override_is_dir, fallback_is_dir) {
        Some(parquet_test_data(env_value, manifest_dir, override_is_dir, fallback_is_dir))
    } else {
        None
    }
}

} // verus!
