//! What the server decides while it is being wired up.

use vstd::prelude::*;

verus! {

/// The label under which a request is traced: its request id where the header
/// carried a readable one, and `unknown` where it did not.
pub fn request_id_label<'a>(header: Option<&'a str>) -> (label: &'a str)
    ensures
        header matches Some(id) ==> label@ == id@,
        header is None ==> label@ == "unknown"@,
{
    match header {
        Some(id) => id,
        None => "unknown",
    }
}

} // verus!
