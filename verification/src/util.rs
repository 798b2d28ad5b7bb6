//! Settings: what a looked-up and parsed setting comes to.
use vstd::prelude::*;

verus! {

/// Whether a setting that was looked up can be used: it is absent, or it
/// is there and was understood.
pub open spec fn usable<T>(looked_up: Option<Result<T, String>>) -> bool {
    !(looked_up matches Some(Err(_)))
}

/// The value of a setting that must be understood where it is given:
/// nothing where the setting is absent, its value where it is there.
pub fn get_env<T>(looked_up: Option<Result<T, String>>) -> (value: Option<T>)
    requires
        usable(looked_up),
    ensures
        value == match looked_up {
            Some(Ok(v)) => Some(v),
            _ => None,
        },
{
    match looked_up {
        Some(Ok(v)) => Some(v),
        _ => None,
    }
}

/// The value of a setting that has a default: the default where the
/// setting is absent or was not understood, its value otherwise.
pub fn get_env_or<T>(looked_up: Option<Result<T, String>>, default_value: T) -> (value: T)
    ensures
        value == match looked_up {
            Some(Ok(v)) => v,
            _ => default_value,
        },
{
    match looked_up {
        Some(Ok(v)) => v,
        _ => default_value,
    }
}

} // verus!
