//! User-written and built-in functions, and the parameters they declare.

use crate::entries::{
    distinct_keys, lemma_key_index_is_the_place, lemma_with_entry_keeps_keys_distinct, position,
    with_entry,
};
use crate::functions::lunchmoney::{self, spec_config, ConfigError, Lunchmoney};
use crate::ultrafinance::TransactionDestination;
use crate::utils::str_eq;
use vstd::prelude::*;
use vstd::string::*;

verus! {

/// A function that a trigger can run.
#[derive(Debug)]
pub struct Function {
    pub id: u32,
    pub name: String,
    /// `"built-in"` for a bundled script; anything else for code of the
    /// user's own.
    pub function_type: String,
    /// The code; for a built-in, the file name of the bundled script.
    pub source: String,
    pub user_id: u32,
    pub created_at: crate::models::Timestamp,
    pub updated_at: crate::models::Timestamp,
}

/// One parameter that a function declares: what to call it, and the name of
/// its type. A hint for whoever fills the parameters in; nothing checks it.
#[derive(Debug)]
pub struct FunctionParam {
    pub name: String,
    pub param_type: String,
}

/// A declared parameter as a mathematical value.
pub struct FunctionParamView {
    pub name: Seq<char>,
    pub param_type: Seq<char>,
}

impl View for FunctionParam {
    type V = FunctionParamView;

    open spec fn view(&self) -> FunctionParamView {
        FunctionParamView { name: self.name@, param_type: self.param_type@ }
    }
}

/// The views of a list of declared parameters, in the same order.
pub open spec fn params_view(entries: Seq<(String, FunctionParam)>) -> Seq<
    (Seq<char>, FunctionParamView),
> {
    entries.map_values(|entry: (String, FunctionParam)| (entry.0@, entry.1@))
}

/// The parameters that a function declares, each under its key, in the
/// order of declaration, no key twice.
#[derive(Debug)]
pub struct FunctionParams {
    entries: Vec<(String, FunctionParam)>,
}

impl View for FunctionParams {
    type V = Seq<(Seq<char>, FunctionParamView)>;

    closed spec fn view(&self) -> Seq<(Seq<char>, FunctionParamView)> {
        params_view(self.entries@)
    }
}

impl FunctionParams {
    /// No key occurs twice.
    #[verifier::type_invariant]
    spec fn keys_occur_once(&self) -> bool {
        distinct_keys(params_view(self.entries@))
    }

    /// No parameters.
    pub fn new() -> (params: FunctionParams)
        ensures
            params@ == Seq::<(Seq<char>, FunctionParamView)>::empty(),
    {
        let entries: Vec<(String, FunctionParam)> = Vec::new();
        assert(params_view(entries@) =~= Seq::<(Seq<char>, FunctionParamView)>::empty());
        FunctionParams { entries }
    }

    /// Declares a parameter under a key: in the place of the one that was
    /// declared under the key, or behind all parameters where the key is
    /// new.
    pub fn declare(&mut self, key: &str, name: &str, param_type: &str)
        ensures
            final(self)@ == with_entry(
                old(self)@,
                key@,
                FunctionParamView { name: name@, param_type: param_type@ },
            ),
            distinct_keys(final(self)@),
    {
        let ghost declared = FunctionParamView { name: name@, param_type: param_type@ };
        proof {
            use_type_invariant(&*self);
            lemma_with_entry_keeps_keys_distinct(self@, key@, declared);
        }
        let ghost before = params_view(self.entries@);
        let param = FunctionParam { name: name.to_owned(), param_type: param_type.to_owned() };
        match position(&self.entries, key) {
            Some(at) => {
                proof {
                    assert(before[at as int].0 == key@);
                    lemma_key_index_is_the_place(before, at as int);
                }
                let mut entries: Vec<(String, FunctionParam)> = Vec::new();
                std::mem::swap(&mut entries, &mut self.entries);
                entries.set(at, (key.to_owned(), param));
                assert(params_view(entries@) =~= with_entry(before, key@, declared));
                self.entries = entries;
            },
            None => {
                proof {
                    assert forall|j: int| 0 <= j < before.len() implies (#[trigger] before[j]).0
                        != key@ by {
                        assert(before[j].0 == self.entries@[j].0@);
                    }
                }
                let mut entries: Vec<(String, FunctionParam)> = Vec::new();
                std::mem::swap(&mut entries, &mut self.entries);
                entries.push((key.to_owned(), param));
                assert(params_view(entries@) =~= with_entry(before, key@, declared));
                self.entries = entries;
            },
        }
    }

    /// The parameters, each under its key, no key twice.
    pub fn entries(&self) -> (entries: &Vec<(String, FunctionParam)>)
        ensures
            params_view(entries@) == self@,
            distinct_keys(self@),
    {
        proof {
            use_type_invariant(self);
        }
        &self.entries
    }
}

/// A function about to be stored.
#[derive(Debug)]
pub struct NewFunction {
    pub name: String,
    pub function_type: String,
    pub source: String,
    pub user_id: u32,
}

/// An edit of a stored function: only its name and its source can change.
#[derive(Debug)]
pub struct UpdateFunction {
    pub id: Option<u32>,
    pub name: Option<String>,
    pub source: Option<String>,
}

/// Why a function has no Rust twin to fall back on.
#[derive(Debug)]
pub enum FunctionError {
    /// No destination goes by the function's type; the text is the type.
    NoDestination(String),
    /// The destination cannot be configured with what was given.
    Config(ConfigError),
}

/// What is said of a type that no destination goes by.
pub open spec fn no_destination_text(function_type: Seq<char>) -> Seq<char> {
    "No destination found for function type "@ + function_type
}

impl FunctionError {
    /// What the error says of itself.
    pub fn message(&self) -> (text: String)
        ensures
            text@ == match self {
                FunctionError::NoDestination(function_type) => no_destination_text(function_type@),
                FunctionError::Config(error) => match error {
                    ConfigError::NotAnObject => "expected a JSON object of strings"@,
                    ConfigError::NoApiKey => "missing field `apiKey`"@,
                    ConfigError::NoAccountId => "missing field `accountId`"@,
                    ConfigError::NoOpenaiApiKey => "missing field `openaiApiKey`"@,
                },
            },
    {
        match self {
            FunctionError::NoDestination(function_type) => {
                let mut text = "No destination found for function type ".to_owned();
                text.append(function_type.as_str());
                text
            },
            FunctionError::Config(error) => error.message().to_owned(),
        }
    }
}

/// The type of function that files transactions with Lunch Money.
pub open spec fn lunchmoney_type() -> Seq<char> {
    "lunchmoney"@
}

impl Function {
    /// The parameters that the destination of the function's type asks
    /// for. Only functions of the type `lunchmoney` have a destination.
    pub fn get_params(&self) -> (params: Result<FunctionParams, FunctionError>)
        ensures
            match params {
                Ok(declared) => self.function_type@ == lunchmoney_type() && declared@
                    == lunchmoney::spec_params(),
                Err(error) => self.function_type@ != lunchmoney_type() && error
                    == FunctionError::NoDestination(self.function_type),
            },
    {
        if str_eq(self.function_type.as_str(), "lunchmoney") {
            Ok(lunchmoney::get_params())
        } else {
            Err(FunctionError::NoDestination(self.function_type.clone()))
        }
    }

    /// The destination of the function's type, configured with a JSON
    /// text. Only functions of the type `lunchmoney` have a destination.
    pub fn get_destination(&self, config: &str) -> (destination: Result<
        TransactionDestination,
        FunctionError,
    >)
        ensures
            match destination {
                Ok(TransactionDestination::Lunchmoney(made)) => {
                    &&& self.function_type@ == lunchmoney_type()
                    &&& spec_config(config@) == Ok::<(Seq<char>, Seq<char>, Seq<char>), ConfigError>(
                        (made.config.api_key@, made.config.account_id@, made.config.openai_api_key@),
                    )
                },
                Err(FunctionError::Config(error)) => {
                    &&& self.function_type@ == lunchmoney_type()
                    &&& spec_config(config@) == Err::<(Seq<char>, Seq<char>, Seq<char>), ConfigError>(
                        error,
                    )
                },
                Err(FunctionError::NoDestination(function_type)) => {
                    &&& self.function_type@ != lunchmoney_type()
                    &&& function_type == self.function_type
                },
            },
    {
        if str_eq(self.function_type.as_str(), "lunchmoney") {
            match Lunchmoney::new(config) {
                Ok(made) => Ok(TransactionDestination::Lunchmoney(made)),
                Err(error) => Err(FunctionError::Config(error)),
            }
        } else {
            Err(FunctionError::NoDestination(self.function_type.clone()))
        }
    }
}

} // verus!
