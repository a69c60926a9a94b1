//! Random channel names.

use rand::Rng;
use vstd::prelude::*;
use vstd::string::*;

verus! {

/// Length of every generated channel name.
pub const CHANNEL_NAME_LEN: usize = 50;

/// Whether `b` is the ASCII code of a letter or a digit.
pub open spec fn is_alphanumeric_byte(b: u8) -> bool {
    ||| 0x30 <= b <= 0x39
    ||| 0x41 <= b <= 0x5a
    ||| 0x61 <= b <= 0x7a
}

/// Whether `c` is an ASCII letter or digit.
pub open spec fn is_alphanumeric(c: char) -> bool {
    ||| '0' <= c <= '9'
    ||| 'A' <= c <= 'Z'
    ||| 'a' <= c <= 'z'
}

/// Whether `name` is a well-formed generated name of `len` characters.
pub open spec fn valid_name(name: Seq<char>, len: nat) -> bool {
    &&& name.len() == len
    &&& forall|i: int| 0 <= i < name.len() ==> is_alphanumeric(#[trigger] name[i])
}

/// Draws one byte from `rand`'s `Alphanumeric` distribution using the
/// thread-local generator (`Rng::sample` on `thread_rng()`). The distribution
/// picks from the 62 ASCII letters and digits, so the contract claims only
/// that the byte is one of them; which one is left open. The generator seeds
/// itself from the operating system on first use in a thread and reseeds from
/// it after a fixed amount of output; it panics if either fails. Nothing a
/// caller passes bears on that.
#[verifier::external_body]
fn sample_alphanumeric() -> (b: u8)
    ensures
        is_alphanumeric_byte(b),
{
    rand::thread_rng().sample(rand::distributions::Alphanumeric)
}

/// Generates a random name of `len` alphanumeric characters.
pub fn generate_name(len: usize) -> (name: String)
    ensures
        valid_name(name@, len as nat),
{
    let mut name = String::new();
    let mut i: usize = 0;
    while i < len
        invariant
            i <= len,
            valid_name(name@, i as nat),
        decreases len - i,
    {
        let b = sample_alphanumeric();
        name.push(b as char);
        i += 1;
    }
    name
}

/// Checks that `name` is `len` characters long and purely alphanumeric.
pub fn is_valid_name(name: &str, len: usize) -> (ok: bool)
    ensures
        ok == valid_name(name@, len as nat),
{
    let n = name.unicode_len();
    if n != len {
        return false;
    }
    let mut i: usize = 0;
    while i < n
        invariant
            i <= n,
            n == name@.len(),
            forall|j: int| 0 <= j < i ==> is_alphanumeric(#[trigger] name@[j]),
        decreases n - i,
    {
        let c = name.get_char(i);
        let ok = ('0' <= c && c <= '9') || ('A' <= c && c <= 'Z') || ('a' <= c && c <= 'z');
        if !ok {
            return false;
        }
        i += 1;
    }
    true
}

} // verus!
