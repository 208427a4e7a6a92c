//! The one pure command of the shell: format a fixed-template greeting
//! around a caller-supplied name.

use vstd::prelude::*;

verus! {

/// The fixed greeting template applied to a name: a salutation prefix,
/// the name itself, and a fixed suffix.
pub open spec fn greeting_of(name: Seq<char>) -> Seq<char> {
    "Hello, "@ + name + "! You've been greeted from Rust!"@
}

/// `needle` occurs somewhere in `hay` as a contiguous run of characters.
pub open spec fn contains_seq(hay: Seq<char>, needle: Seq<char>) -> bool {
    exists|i: int|
        0 <= i && i + needle.len() <= hay.len() && #[trigger] hay.subrange(
            i,
            i + needle.len(),
        ) == needle
}

/// Format the greeting for `name`. Accepts every string, the empty one
/// included, and returns exactly the template applied to `name`.
pub fn greet(name: &str) -> (r: String)
    ensures
        r@ == greeting_of(name@),
{
    let mut s = String::from_str("Hello, ");
    s.append(name);
    s.append("! You've been greeted from Rust!");
    s
}

/// Law: every greeting contains the name it was built from as a
/// contiguous substring.
pub proof fn lemma_greeting_contains_name(name: Seq<char>)
    ensures
        contains_seq(greeting_of(name), name),
{
    reveal_strlit("Hello, ");
    reveal_strlit("! You've been greeted from Rust!");
    let hay = greeting_of(name);
    assert(hay.subrange(7, 7 + name.len() as int) =~= name);
}

/// Law: the greeting is a function of the name alone, so repeated calls of
/// `greet` on equal inputs return equal strings; `greet` touches no other
/// state, as its signature shows.
pub proof fn lemma_greeting_deterministic(a: Seq<char>, b: Seq<char>)
    requires
        a == b,
    ensures
        greeting_of(a) == greeting_of(b),
{
}

} // verus!
