//! The log of what triggers did.

use crate::json::{
    json_of_string_list, json_string_list, read_string_list, texts_view, write_string_list,
};
use crate::models::Timestamp;
use vstd::prelude::*;
use vstd::std_specs::convert::FromSpecImpl;

verus! {

/// The lines that a function printed while it ran.
#[derive(Debug)]
pub struct Console(pub Vec<String>);

/// The lines that a stored console holds: those of the JSON array of
/// strings that is stored, and none where nothing is stored or what is
/// stored is no such array.
pub open spec fn console_lines(stored: Option<String>) -> Seq<Seq<char>> {
    match stored {
        Some(text) => match json_string_list(text@) {
            Some(lines) => lines,
            None => Seq::empty(),
        },
        None => Seq::empty(),
    }
}

impl From<Option<String>> for Console {
    /// The console that a stored text holds.
    fn from(stored: Option<String>) -> (console: Console)
        ensures
            texts_view(console.0@) == console_lines(stored),
    {
        let lines = match &stored {
            Some(text) => read_string_list(text.as_str()),
            None => None,
        };
        match lines {
            Some(lines) => Console(lines),
            None => {
                let console = Console(Vec::new());
                assert(texts_view(console.0@) =~= Seq::<Seq<char>>::empty());
                console
            },
        }
    }
}

/// What the conversion makes is laid down by the `ensures` of `from`: the
/// list it builds is new, so no spec function can hold it.
impl FromSpecImpl<Option<String>> for Console {
    open spec fn obeys_from_spec() -> bool {
        false
    }

    open spec fn from_spec(stored: Option<String>) -> Console {
        arbitrary()
    }
}

/// A stored log entry: what one run of a trigger came to.
#[derive(Debug)]
pub struct TriggerLog {
    pub id: u32,
    /// The function's result as JSON, or what its failure said.
    pub payload: String,
    pub console: Console,
    /// `completed` or `failed`.
    pub status: String,
    pub user_id: u32,
    pub trigger_id: u32,
    pub created_at: Timestamp,
    pub updated_at: Timestamp,
}

/// A log entry about to be stored.
#[derive(Debug)]
pub struct NewTriggerLog {
    /// The function's result as JSON, or what its failure said.
    pub payload: String,
    pub console: Vec<String>,
    /// `completed` or `failed`.
    pub status: String,
    pub user_id: u32,
    pub trigger_id: u32,
}

impl NewTriggerLog {
    /// The console as it is stored: a JSON array of its lines.
    pub fn console_json(&self) -> (text: Option<String>)
        ensures
            match text {
                Some(written) => json_of_string_list(texts_view(self.console@)) == Some(written@),
                None => json_of_string_list(texts_view(self.console@)) is None,
            },
    {
        write_string_list(&self.console)
    }
}

} // verus!
