use vstd::prelude::*;

verus! {

/// Why configuration loading failed: the environment variable is absent
/// (`MissingEnv`), or present but rejected by the type's parser
/// (`WrongFormat`). Both are fatal before the loop starts.
#[derive(Debug, Clone, Copy, PartialEq, Eq)]
pub enum Error {
    MissingEnv(&'static str),
    WrongFormat(&'static str),
}

/// The configuration the program needs at startup.
#[derive(Debug, Clone)]
#[allow(non_snake_case)]
pub struct Config {
    pub MONGO_URI: String,
}

/// Turns the raw environment lookup of `name` into a required value: the
/// variable's text where it is set, `MissingEnv(name)` where it is not.
/// The caller performs the lookup and hands its result in.
pub fn get_env(name: &'static str, value: Option<String>) -> (r: Result<String, Error>)
    ensures
        (value matches Some(v) ==> (r matches Ok(s) && s == v)),
        (value is None ==> (r matches Err(e) && e matches Error::MissingEnv(n) && n@ == name@)),
{
    match value {
        Some(v) => Ok(v),
        None => Err(Error::MissingEnv(name)),
    }
}

impl Config {
    /// Builds the configuration from the raw environment lookup of
    /// `MONGO_URI`, a required non-empty string: the lookup's value
    /// verbatim where the variable is set and non-empty,
    /// `MissingEnv("MONGO_URI")` where it is unset — or set but empty,
    /// since an empty value does not supply the required string.
    pub fn load_from_env(mongo_uri: Option<String>) -> (r: Result<Config, Error>)
        ensures
            (mongo_uri matches Some(v) ==> (if v@.len() > 0 {
                r matches Ok(c) && c.MONGO_URI == v
            } else {
                r matches Err(e) && e matches Error::MissingEnv(n) && n@ == "MONGO_URI"@
            })),
            (mongo_uri is None ==> (r matches Err(e) && e matches Error::MissingEnv(n)
                && n@ == "MONGO_URI"@)),
    {
        match get_env("MONGO_URI", mongo_uri) {
            Ok(v) => {
                if v.as_str().is_empty() {
                    Err(Error::MissingEnv("MONGO_URI"))
                } else {
                    Ok(Config { MONGO_URI: v })
                }
            },
            Err(e) => Err(e),
        }
    }
}

/// The configuration entry point: exactly `Config::load_from_env` on the
/// raw lookup the caller hands in. An unset or empty `MONGO_URI` is
/// returned as an error, and the caller treats every error here as fatal
/// before the loop starts.
pub fn config(mongo_uri: Option<String>) -> (r: Result<Config, Error>)
    ensures
        (mongo_uri matches Some(v) ==> (if v@.len() > 0 {
            r matches Ok(c) && c.MONGO_URI == v
        } else {
            r matches Err(e) && e matches Error::MissingEnv(n) && n@ == "MONGO_URI"@
        })),
        (mongo_uri is None ==> (r matches Err(e) && e matches Error::MissingEnv(n)
            && n@ == "MONGO_URI"@)),
{
    Config::load_from_env(mongo_uri)
}

/// Relies on `str::parse` through the given `FromStr` implementation;
/// which strings that implementation accepts is its own decision, so
/// nothing is promised of the outcome.
#[verifier::external_body]
fn parse_env_value<T: core::str::FromStr>(value: &String) -> (parsed: Option<T>) {
    value.parse::<T>().ok()
}

/// Reads a typed value out of the raw environment lookup of `name`: an
/// absent variable is `MissingEnv(name)`; a set variable either parses, or
/// is `WrongFormat(name)` — which texts parse is the type's own parser's
/// decision, so the outcome of a set variable is stated over both cases.
pub fn get_env_parse<T: core::str::FromStr>(name: &'static str, value: Option<String>) -> (r:
    Result<T, Error>)
    ensures
        (value is None ==> (r matches Err(e) && e matches Error::MissingEnv(n) && n@ == name@)),
        (value is Some ==> (r is Ok || (r matches Err(e) && e matches Error::WrongFormat(n)
            && n@ == name@))),
{
    match get_env(name, value) {
        Ok(v) => match parse_env_value::<T>(&v) {
            Some(t) => Ok(t),
            None => Err(Error::WrongFormat(name)),
        },
        Err(e) => Err(e),
    }
}

} // verus!
