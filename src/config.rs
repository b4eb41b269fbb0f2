//! Resolving the search configuration from the invocation arguments.
//!
//! The arguments are those of the invocation, the program's own name first.
//! Whether the search is case sensitive depends on one environment variable;
//! the resolver does not read the environment itself but takes the outcome of
//! that lookup as a value, so that it stays a function of its inputs.

use vstd::prelude::*;

verus! {

/// What to search for and where, and whether case matters.
pub struct Config {
    pub query: String,
    pub filename: String,
    pub is_sensitive: bool,
}

/// Why no configuration could be resolved.
#[derive(Clone, Copy, Debug, PartialEq, Eq, Structural)]
pub enum ConfigError {
    /// Fewer than the two required arguments (query and file name) follow the
    /// program's name.
    InsufficientArguments,
}

impl ConfigError {
    /// A message for the user.
    pub fn message(&self) -> (r: &'static str)
        ensures
            r@ == "not enough arguments"@,
    {
        "not enough arguments"
    }
}

/// The name of the environment variable whose presence makes the search case
/// sensitive; its value is never read.
pub const SENSITIVITY_VAR: &'static str = "IS_SENSITIVE";

/// The abstract value of a configuration: query, file name and sensitivity.
pub struct ConfigModel {
    pub query: Seq<char>,
    pub filename: Seq<char>,
    pub is_sensitive: bool,
}

impl View for Config {
    type V = ConfigModel;

    open spec fn view(&self) -> ConfigModel {
        ConfigModel { query: self.query@, filename: self.filename@, is_sensitive: self.is_sensitive }
    }
}

/// The character sequences of a sequence of strings.
pub open spec fn arg_views(args: Seq<String>) -> Seq<Seq<char>> {
    args.map_values(|a: String| a@)
}

/// The configuration that `args` resolve to when the sensitivity variable is
/// set (`var_set`) or not: none with fewer than three arguments; otherwise the
/// query and the file name are the arguments at 1 and 2, and any further
/// arguments are ignored.
pub open spec fn resolve(args: Seq<Seq<char>>, var_set: bool) -> Option<ConfigModel> {
    if args.len() < 3 {
        None
    } else {
        Some(ConfigModel { query: args[1], filename: args[2], is_sensitive: var_set })
    }
}

impl Config {
    /// Resolves a configuration from the invocation arguments `args` (the
    /// program's name, the query, the file name, then anything, which is
    /// ignored) and from the lookup of the sensitivity variable: the search is
    /// case sensitive exactly when the variable is set, whatever its value,
    /// the empty text included. Fails with `InsufficientArguments` when `args`
    /// has fewer than three elements.
    pub fn new(args: &[String], sensitivity_var: Option<String>) -> (r: Result<
        Config,
        ConfigError,
    >)
        ensures
            args@.len() < 3 <==> r is Err,
            r is Err ==> r->Err_0 == ConfigError::InsufficientArguments,
            r is Ok ==> {
                &&& r->Ok_0.query@ == args@[1]@
                &&& r->Ok_0.filename@ == args@[2]@
                &&& r->Ok_0.is_sensitive == sensitivity_var is Some
            },
            match r {
                Ok(c) => resolve(arg_views(args@), sensitivity_var is Some) == Some(c@),
                Err(_) => resolve(arg_views(args@), sensitivity_var is Some) is None,
            },
    {
        if args.len() < 3 {
            return Err(ConfigError::InsufficientArguments);
        }
        let query = args[1].clone();
        let filename = args[2].clone();
        let is_sensitive = sensitivity_var.is_some();
        Ok(Config { query, filename, is_sensitive })
    }
}

/// Arguments after the file name do not change what a list of arguments
/// resolves to.
pub proof fn lemma_trailing_args_ignored(
    args: Seq<Seq<char>>,
    extra: Seq<Seq<char>>,
    var_set: bool,
)
    requires
        args.len() >= 3,
    ensures
        resolve(args + extra, var_set) == resolve(args, var_set),
{
    assert((args + extra)[1] == args[1]);
    assert((args + extra)[2] == args[2]);
}

} // verus!
