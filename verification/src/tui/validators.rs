//! Input validators for text fields.

use vstd::prelude::*;

verus! {

/// Accept any non-empty input, and reject an empty one with a message.
pub fn required_validator(input: &str) -> (r: Result<(), String>)
    ensures
        match r {
            Ok(_) => input@.len() != 0,
            Err(m) => input@.len() == 0 && m@ == "This field is required"@,
        },
{
    if input.is_empty() {
        Err("This field is required".to_owned())
    } else {
        Ok(())
    }
}

} // verus!
