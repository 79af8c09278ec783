//! A secret that an application receives as environment variables.
use vstd::prelude::*;
use std::collections::HashMap;

verus! {

/// A secret to be injected as an environment variable in the application.
#[derive(Clone, Default, Debug, PartialEq)]
pub struct ApplicationSecret {
    /// The secret's name.
    pub name: String,
    /// The environment variable names under which the secret's value is
    /// injected; one secret may be injected several times.
    pub injections: Vec<HashMap<String, String>>,
}

impl ApplicationSecret {
    /// A secret to be injected as an environment variable in the application.
    pub fn new(name: String, injections: Vec<HashMap<String, String>>) -> (res: ApplicationSecret)
        ensures
            res.name == name,
            res.injections == injections,
    {
        ApplicationSecret { name, injections }
    }
}

} // verus!
