//! A text input field paired with its validity flag, as a screen keeps
//! and displays it.

use vstd::prelude::*;
use vstd::string::StringExecFns;

verus! {

pub struct FormValue {
    pub value: String,
    pub valid: bool,
}

impl FormValue {
    /// An empty field, not yet marked invalid.
    pub fn new() -> (r: FormValue)
        ensures
            r.value@ == Seq::<char>::empty(),
            r.valid,
    {
        FormValue { value: String::new(), valid: true }
    }

    /// A field holding `value`, not yet marked invalid.
    pub fn with_value(value: &str) -> (r: FormValue)
        ensures
            r.value@ == value@,
            r.valid,
    {
        FormValue { value: String::from_str(value), valid: true }
    }
}

impl Clone for FormValue {
    fn clone(&self) -> (r: Self)
        ensures
            r == *self,
    {
        FormValue { value: self.value.clone(), valid: self.valid }
    }
}

impl Default for FormValue {
    fn default() -> (r: Self)
        ensures
            r.value@ == Seq::<char>::empty(),
            r.valid,
    {
        FormValue::new()
    }
}

} // verus!
