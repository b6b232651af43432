//! A script with the path it was loaded from.

use vstd::prelude::*;

verus! {

/// A script as a mathematical value.
pub struct EsScriptView {
    pub path: Seq<char>,
    pub code: Seq<char>,
}

/// Source text together with its absolute path. For a module the path is its
/// identity and the base of its own relative imports.
#[derive(Debug)]
pub struct EsScript {
    absolute_path: String,
    script_code: String,
}

impl View for EsScript {
    type V = EsScriptView;

    closed spec fn view(&self) -> EsScriptView {
        EsScriptView { path: self.absolute_path@, code: self.script_code@ }
    }
}

impl EsScript {
    /// A script with the given path and source text.
    pub fn new(absolute_path: &str, script_code: &str) -> (s: Self)
        ensures
            s@.path == absolute_path@,
            s@.code == script_code@,
    {
        EsScript { absolute_path: absolute_path.to_owned(), script_code: script_code.to_owned() }
    }

    /// The absolute path.
    pub fn get_path(&self) -> (p: &str)
        ensures
            p@ == self@.path,
    {
        self.absolute_path.as_str()
    }

    /// The source text.
    pub fn get_code(&self) -> (c: &str)
        ensures
            c@ == self@.code,
    {
        self.script_code.as_str()
    }
}

} // verus!
