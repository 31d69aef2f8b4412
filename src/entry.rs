use crate::error::TranslationError;
use vstd::prelude::*;
use vstd::string::*;

verus! {

/// Selects the entry function by name among the functions a program
/// defines: the index of the first one so named, or `UnknownEntryPoint`.
pub fn find_entry_point(functions: &Vec<String>, name: &str) -> (r: Result<usize, TranslationError>)
    ensures
        match r {
            Ok(i) => i < functions@.len() && functions@[i as int]@ == name@ && forall|k: int|
                0 <= k < i ==> (#[trigger] functions@[k])@ != name@,
            Err(e) => e == TranslationError::UnknownEntryPoint && forall|k: int|
                0 <= k < functions@.len() ==> (#[trigger] functions@[k])@ != name@,
        },
{
    let key = String::from_str(name);
    let mut i: usize = 0;
    while i < functions.len()
        invariant
            0 <= i <= functions@.len(),
            key@ == name@,
            forall|k: int| 0 <= k < i ==> (#[trigger] functions@[k])@ != name@,
        decreases functions@.len() - i,
    {
        if functions[i] == key {
            return Ok(i);
        }
        i = i + 1;
    }
    Err(TranslationError::UnknownEntryPoint)
}

} // verus!
