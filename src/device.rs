use vstd::prelude::*;

use crate::error::Error;

verus! {

/// The text of a failed reveal of `path` whose command printed `stderr`.
pub open spec fn reveal_failure_text(path: Seq<char>, stderr: Seq<char>) -> Seq<char> {
    "Cannot reveal path: "@ + path + ".\nError: "@ + stderr
}

/// Judges the file manager command that was to show `path`: it succeeded
/// where it printed nothing on its error stream.
pub fn reveal_outcome(path: &str, stderr: &str) -> (r: Result<(), Error>)
    ensures
        r is Ok <==> stderr@.len() == 0,
        r matches Err(Error::CommandExecutionFailure(d)) ==> d@ == reveal_failure_text(path@, stderr@),
        r matches Err(e) ==> e is CommandExecutionFailure,
{
    if stderr.is_empty() {
        Ok(())
    } else {
        Err(
            Error::CommandExecutionFailure(
                "Cannot reveal path: ".to_owned().concat(path).concat(".\nError: ").concat(stderr),
            ),
        )
    }
}

} // verus!
