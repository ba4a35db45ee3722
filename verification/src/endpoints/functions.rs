//! Requests about functions.

use crate::models::function::{Function, FunctionParams, NewFunction, UpdateFunction};
use vstd::prelude::*;

verus! {

/// A stored function together with the parameters it declares, where they
/// could be read.
#[derive(Debug)]
pub struct FunctionWithParams {
    pub function: Function,
    pub params: Option<FunctionParams>,
}

/// A request to store a function of the user's own.
#[derive(Debug)]
pub struct CreateFunction {
    pub name: String,
    pub source: String,
}

/// A request to run a function once, on the given JSON texts, without any
/// trigger having fired.
#[derive(Debug)]
pub struct TestFunction {
    pub params: String,
    pub payload: String,
}

impl CreateFunction {
    /// The function that the request asks to store for a user: of the type
    /// `user`, with the request's name and source.
    pub fn into_new_function(self, user_id: u32) -> (function: NewFunction)
        ensures
            function.name == self.name,
            function.source == self.source,
            function.function_type@ == "user"@,
            function.user_id == user_id,
    {
        NewFunction {
            name: self.name,
            function_type: "user".to_owned(),
            source: self.source,
            user_id,
        }
    }
}

/// The edit that a request makes of the stored function `function_id`:
/// whatever id the request carried, the edit is of that function.
pub fn update_of_function(update: UpdateFunction, function_id: u32) -> (edit: UpdateFunction)
    ensures
        edit == (UpdateFunction { id: Some(function_id), ..update }),
{
    UpdateFunction { id: Some(function_id), name: update.name, source: update.source }
}

} // verus!
