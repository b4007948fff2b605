//! Environment variables: the `.env` file is loaded, then the variable is read.
use vstd::prelude::*;
use crate::core_logic::errors::AppError;

verus! {

/// Calls `dotenvy::dotenv`, which loads the variables of the `.env` file
/// found from the working directory into the process environment. Its
/// outcome is ignored and nothing is stated of it.
#[verifier::external_body]
fn load_dotenv() {
    let _ = dotenvy::dotenv();
}

/// Calls `dotenvy::var`: the value of an environment variable, or the text
/// of the error. Nothing is stated of the outcome, which depends on the
/// environment of the process.
#[verifier::external_body]
fn env_var(key: &str) -> Result<String, String> {
    match dotenvy::var(key) {
        Ok(value) => Ok(value),
        Err(e) => Err(e.to_string()),
    }
}

/// The value of an environment variable, once the `.env` file is loaded; an
/// `Env` error carrying the lookup's error text when it is not set. Which of
/// the two comes back depends on the environment.
pub fn get_env(key: &str) -> (r: Result<String, AppError>)
    ensures
        r is Err ==> r->Err_0 is Env,
{
    load_dotenv();
    match env_var(key) {
        Ok(value) => Ok(value),
        Err(e) => Err(AppError::Env(e)),
    }
}

/// The value of a lookup, or the empty text when the lookup failed.
pub fn value_or_empty(lookup: Result<String, AppError>) -> (r: String)
    ensures
        match lookup {
            Ok(v) => r@ == v@,
            Err(_) => r@ == Seq::<char>::empty(),
        },
{
    match lookup {
        Ok(url) => url,
        Err(_) => String::new(),
    }
}

/// The report of a variable set in the environment, once it is read back.
pub fn env_set_report(key: &str, present: &str) -> (r: String)
    ensures
        r@ == "Environement variable successfully set. key: "@ + key@ + ", value:"@ + present@,
{
    String::from_str("Environement variable successfully set. key: ").concat(key).concat(", value:").concat(present)
}

/// The value of an environment variable, or the empty text when it is not set.
/// Which of the two comes back depends on the environment.
pub fn env_or_empty(key: &str) -> String {
    value_or_empty(get_env(key))
}

} // verus!
