use vstd::prelude::*;
use vstd::string::StringExecFns;

verus! {

/// The text of the greeting addressed to `name`.
pub open spec fn greeting_text(name: Seq<char>) -> Seq<char> {
    "Hello, "@ + name + ", from wasm-game-of-life!"@
}

/// The greeting for `name`: `Hello, {name}, from wasm-game-of-life!`.
pub fn greeting(name: &str) -> (r: String)
    ensures
        r@ == greeting_text(name@),
{
    let mut res = String::from_str("Hello, ");
    res.append(name);
    res.append(", from wasm-game-of-life!");
    proof {
        reveal_strlit("Hello, ");
        reveal_strlit(", from wasm-game-of-life!");
    }
    res
}

} // verus!
