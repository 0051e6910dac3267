//! The simulated provider call and the startup key check.

use crate::error::{SncfAPIError, SncfAPIErrorV};
use crate::strutil::str_eq;
use vstd::prelude::*;
use vstd::string::*;

verus! {

/// Selector of the simulated call's outcome.
pub enum Call {
    Success,
    Failure,
}

/// Calls the SNCF API simulation: succeeds on `Call::Success`, fails on
/// `Call::Failure` with an API error whose text reads `This call fails`.
pub fn call_me(arg1: Call) -> (r: Result<(), SncfAPIError>)
    ensures
        match arg1 {
            Call::Success => r is Ok,
            Call::Failure => (r matches Err(e) && e@ == SncfAPIErrorV::Api {
                status: 500,
                message: "This call fails"@,
            }),
        },
{
    match arg1 {
        Call::Success => Ok(()),
        Call::Failure => Err(
            SncfAPIError::ApiError { status: 500, message: String::from_str("This call fails") },
        ),
    }
}

/// Accepts exactly the expected API key; any other key is a startup
/// failure whose text reads `Wrong api key`.
pub fn api_check(api: String) -> (r: Result<(), String>)
    ensures
        api@ == "change_me"@ ==> r is Ok,
        api@ != "change_me"@ ==> (r matches Err(m) && m@ == "Wrong api key"@),
{
    if str_eq(api.as_str(), "change_me") {
        Ok(())
    } else {
        Err(String::from_str("Wrong api key"))
    }
}

} // verus!
