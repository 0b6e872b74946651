//! The configuration of one run and its intake from the invocation's tokens.

use vstd::prelude::*;

use crate::error::ConfigError;

verus! {

/// How many tokens an invocation must hold at least: the program's name, the
/// query and the file path.
pub const REQUIRED_TOKENS: usize = 3;

/// The validated settings of one run: what to search for, and where.
///
/// A value exists only with both fields set, and nothing changes them
/// afterwards: they are read through [`Config::query`] and
/// [`Config::file_path`].
#[derive(Debug)]
pub struct Config {
    query: String,
    file_path: String,
}

/// The mathematical content of a [`Config`].
pub ghost struct ConfigView {
    /// The characters of the query.
    pub query: Seq<char>,
    /// The characters of the file path.
    pub file_path: Seq<char>,
}

impl View for Config {
    type V = ConfigView;

    closed spec fn view(&self) -> ConfigView {
        ConfigView { query: self.query@, file_path: self.file_path@ }
    }
}

/// What intake makes of a token list: the tokens at positions 1 and 2 as query
/// and file path where the list holds at least [`REQUIRED_TOKENS`] tokens, and
/// a rejection otherwise. Token 0, the program's name, and any token after
/// position 2 have no part in it.
pub open spec fn intake(tokens: Seq<Seq<char>>) -> Result<ConfigView, ConfigError> {
    if tokens.len() < REQUIRED_TOKENS {
        Err(ConfigError::InsufficientArguments)
    } else {
        Ok(ConfigView { query: tokens[1], file_path: tokens[2] })
    }
}

/// The mathematical content of an intake's result.
pub open spec fn outcome(res: Result<Config, ConfigError>) -> Result<ConfigView, ConfigError> {
    match res {
        Ok(config) => Ok(config@),
        Err(e) => Err(e),
    }
}

impl Config {
    /// Validates the tokens of an invocation and builds the configuration
    /// from them.
    ///
    /// With three tokens or more the call succeeds, and the configuration
    /// holds exact copies of the tokens at positions 1 and 2. With fewer it
    /// fails with [`ConfigError::InsufficientArguments`], the only rejection
    /// there is: empty tokens are taken as they are.
    pub fn build(args: &[String]) -> (res: Result<Config, ConfigError>)
        ensures
            outcome(res) == intake(args.deep_view()),
            args@.len() >= REQUIRED_TOKENS ==> (res matches Ok(config)
                && config@.query == args@[1]@
                && config@.file_path == args@[2]@),
            args@.len() < REQUIRED_TOKENS ==> (res matches Err(e)
                && e == ConfigError::InsufficientArguments),
    {
        if args.len() < REQUIRED_TOKENS {
            return Err(ConfigError::InsufficientArguments);
        }
        let query = args[1].clone();
        let file_path = args[2].clone();
        Ok(Config { query, file_path })
    }

    /// The text to search for.
    pub fn query(&self) -> (text: &str)
        ensures
            text@ == self@.query,
    {
        self.query.as_str()
    }

    /// The path of the file to search in.
    pub fn file_path(&self) -> (text: &str)
        ensures
            text@ == self@.file_path,
    {
        self.file_path.as_str()
    }
}

/// Intake is repeatable: two results of intake on the same tokens are either
/// two configurations that agree field by field, or the same rejection twice.
pub proof fn lemma_intake_repeatable(
    tokens: Seq<Seq<char>>,
    first: Result<Config, ConfigError>,
    second: Result<Config, ConfigError>,
)
    requires
        outcome(first) == intake(tokens),
        outcome(second) == intake(tokens),
    ensures
        outcome(first) == outcome(second),
        first matches Ok(a) ==> (second matches Ok(b)
            && a@.query == b@.query
            && a@.file_path == b@.file_path),
        first matches Err(e) ==> (second matches Err(f) && e == f),
{
}

/// The boundary of intake: every list of exactly three tokens is accepted,
/// with its last two tokens as query and file path, and every list of exactly
/// two tokens is rejected.
pub proof fn lemma_intake_boundary(tokens: Seq<Seq<char>>)
    ensures
        tokens.len() == 3 ==> (intake(tokens) matches Ok(view)
            && view.query == tokens[1]
            && view.file_path == tokens[2]),
        tokens.len() == 2 ==> (intake(tokens) matches Err(e)
            && e == ConfigError::InsufficientArguments),
{
}

} // verus!
