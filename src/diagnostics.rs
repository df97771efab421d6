use vstd::prelude::*;
use vstd::string::*;

verus! {

/// One line of the activity log: `[<timestamp>] <message>`.
pub fn log_line(timestamp: &str, message: &str) -> (r: String)
    ensures
        r@ == "["@ + timestamp@ + "] "@ + message@,
{
    proof {
        reveal_strlit("[");
        reveal_strlit("] ");
    }
    String::from_str("[").concat(timestamp).concat("] ").concat(message)
}

} // verus!
