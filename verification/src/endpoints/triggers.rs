//! Requests about triggers.

use crate::json::json_of_string_map;
use crate::models::trigger::{NewTrigger, TriggerFilter, TriggerParams};
use crate::utils::optional_text;
use vstd::prelude::*;
use vstd::std_specs::convert::FromSpecImpl;

verus! {

/// The query of a listing of triggers.
#[derive(Debug)]
pub struct GetTriggersQuery {
    pub function_id: Option<u32>,
}

/// A request to store a trigger.
#[derive(Debug)]
pub struct CreateTrigger {
    pub function_id: u32,
    /// The parameters for the function: texts by key.
    pub params: TriggerParams,
    pub event: String,
    pub name: String,
}

/// A request to edit a trigger: what is `None` stays as it is.
#[derive(Debug)]
pub struct UpdateTrigger {
    pub function_id: Option<u32>,
    /// The parameters for the function: texts by key.
    pub params: Option<TriggerParams>,
    pub event: Option<String>,
    pub name: Option<String>,
}

impl CreateTrigger {
    /// The trigger that the request asks to store for a user: with the
    /// request's event and name, no conditions, and the request's params
    /// written as a JSON object. `None` where the params cannot be written.
    pub fn into_new_trigger(self, user_id: u32) -> (trigger: Option<NewTrigger>)
        ensures
            match trigger {
                Some(new) => {
                    &&& new.event == self.event
                    &&& new.name == self.name
                    &&& new.filter.0@.len() == 0
                    &&& json_of_string_map(self.params@) == Some(new.params@)
                    &&& new.user_id == user_id
                    &&& new.function_id == self.function_id
                },
                None => json_of_string_map(self.params@) is None,
            },
    {
        match self.params.to_json() {
            None => None,
            Some(params) => Some(
                NewTrigger {
                    event: self.event,
                    name: self.name,
                    filter: TriggerFilter(Vec::new()),
                    params,
                    user_id,
                    function_id: self.function_id,
                },
            ),
        }
    }
}

/// The params of an edit as they are stored: the JSON object of the
/// request's params, and nothing where the request has none or they cannot
/// be written.
pub open spec fn stored_params(params: Option<TriggerParams>) -> Option<Seq<char>> {
    match params {
        Some(entries) => json_of_string_map(entries@),
        None => None,
    }
}

impl From<UpdateTrigger> for crate::models::trigger::UpdateTrigger {
    /// The edit that a request makes: of no trigger in particular yet, with
    /// the request's name, event and function, its params written as a JSON
    /// object, and the conditions left as they are.
    fn from(update: UpdateTrigger) -> (edit: crate::models::trigger::UpdateTrigger)
        ensures
            edit.id is None,
            edit.name == update.name,
            optional_text(edit.params) == stored_params(update.params),
            edit.event == update.event,
            edit.filter is None,
            edit.function_id == update.function_id,
    {
        let params = match &update.params {
            Some(entries) => entries.to_json(),
            None => None,
        };
        crate::models::trigger::UpdateTrigger {
            id: None,
            name: update.name,
            params,
            event: update.event,
            filter: None,
            function_id: update.function_id,
        }
    }
}

/// What the conversion makes is laid down by the `ensures` of `from`: the
/// JSON text it writes is new, so no spec function can hold it.
impl FromSpecImpl<UpdateTrigger> for crate::models::trigger::UpdateTrigger {
    open spec fn obeys_from_spec() -> bool {
        false
    }

    open spec fn from_spec(update: UpdateTrigger) -> crate::models::trigger::UpdateTrigger {
        arbitrary()
    }
}

} // verus!
