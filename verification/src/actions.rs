//! What the example test service computes for each message: the reversed
//! text, the characters of a text, and a text wrapped between two others.
//! Its streams and tasks stay with the component that serves it.
use vstd::prelude::*;
use vstd::string::StrSliceExecFns;

verus! {

/// The characters of a text in reverse order.
pub fn reverse(input: &str) -> (r: String)
    ensures
        r@ == input@.reverse(),
{
    let n = input.unicode_len();
    let mut out = String::new();
    let mut i = n;
    while i > 0
        invariant
            i <= n,
            n == input@.len(),
            out@ == input@.subrange(i as int, n as int).reverse(),
        decreases i,
    {
        let c = input.substring_char(i - 1, i);
        out.append(c);
        proof {
            assert(input@.subrange(i - 1, n as int).reverse() =~= input@.subrange(
                i as int,
                n as int,
            ).reverse() + input@.subrange(i - 1, i as int));
        }
        i = i - 1;
    }
    proof {
        assert(input@.subrange(0, n as int) =~= input@);
    }
    out
}

/// Each character of a text, as a text of its own, in order.
pub fn chars(input: &str) -> (r: Vec<String>)
    ensures
        r@.len() == input@.len(),
        forall|i: int| 0 <= i < r@.len() ==> #[trigger] r@[i]@ == seq![input@[i]],
{
    let n = input.unicode_len();
    let mut out: Vec<String> = Vec::new();
    let mut i: usize = 0;
    while i < n
        invariant
            i <= n,
            n == input@.len(),
            out@.len() == i,
            forall|j: int| 0 <= j < i ==> #[trigger] out@[j]@ == seq![input@[j]],
        decreases n - i,
    {
        let c = input.substring_char(i, i + 1);
        proof {
            assert(c@ =~= seq![input@[i as int]]);
        }
        out.push(String::from_str(c));
        i = i + 1;
    }
    out
}

/// A message between a left and a right text.
pub fn wrap(left: &str, message: &str, right: &str) -> (r: String)
    ensures
        r@ == left@ + message@ + right@,
{
    let mut out = String::from_str(left);
    out.append(message);
    out.append(right);
    out
}

} // verus!
