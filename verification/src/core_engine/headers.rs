//! The authorization of the calls to the model's API: the key is read when a
//! call is made, never kept.
use vstd::prelude::*;
use crate::core_engine::errors::AppError;

verus! {

/// The API key from its lookup; an `EnvSecret` error (`Missing API key`) when
/// the lookup failed, whatever its reason.
pub fn api_key_from(lookup: Result<String, crate::core_logic::errors::AppError>) -> (r: Result<
    String,
    AppError,
>)
    ensures
        match lookup {
            Ok(k) => r matches Ok(x) && x@ == k@,
            Err(_) => r matches Err(AppError::EnvSecret(m)) && m@ == "Missing API key"@,
        },
{
    match lookup {
        Ok(value) => Ok(value),
        Err(_) => Err(AppError::EnvSecret(String::from_str("Missing API key"))),
    }
}

/// The API key, read from `CEREBRAS_API_KEY`; an `EnvSecret` error when it is not set.
pub fn cerebras_api_key() -> (r: Result<String, AppError>)
    ensures
        r is Err ==> (r matches Err(AppError::EnvSecret(m)) && m@ == "Missing API key"@),
{
    api_key_from(crate::core_logic::envs_manage::get_env("CEREBRAS_API_KEY"))
}

/// The value of the `Authorization` header: `Bearer <key>`.
pub fn bearer_value(api_key: &str) -> (r: String)
    ensures
        r@ == "Bearer "@ + api_key@,
{
    String::from_str("Bearer ").concat(api_key)
}

} // verus!
