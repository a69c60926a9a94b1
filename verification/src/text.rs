//! Message payloads: the mention of an entity by its identifier.

use vstd::prelude::*;

verus! {

/// `String::push` appends one character to the end of the string.
pub assume_specification[ String::push ](s: &mut String, c: char)
    ensures
        final(s)@ == old(s)@.push(c),
;

/// The character that writes the digit `d`.
pub open spec fn digit_char(d: nat) -> char
    recommends
        d < 10,
{
    (0x30 + d) as char
}

/// Decimal notation of `n`, most significant digit first, without padding.
pub open spec fn decimal(n: nat) -> Seq<char>
    decreases n,
{
    if n < 10 {
        seq![digit_char(n)]
    } else {
        decimal(n / 10).push(digit_char(n % 10))
    }
}

/// Text of a message that mentions the entity `id`: `<@`, the identifier in
/// decimal, `>`.
pub open spec fn mention_text(id: nat) -> Seq<char> {
    seq!['<', '@'] + decimal(id) + seq!['>']
}

/// The digits of `low`, which holds them least significant first, in
/// reading order.
pub open spec fn reading_order(low: Seq<char>) -> Seq<char> {
    Seq::new(low.len(), |i: int| low[low.len() - 1 - i])
}

fn digit(d: u64) -> (c: char)
    requires
        d < 10,
    ensures
        c == digit_char(d as nat),
{
    (0x30u8 + (d as u8)) as char
}

/// Builds the payload of one message: a mention of `ping_id`.
pub fn mention(ping_id: u64) -> (content: String)
    ensures
        content@ == mention_text(ping_id as nat),
{
    let mut low: Vec<char> = Vec::new();
    let mut rest: u64 = ping_id;
    while rest >= 10
        invariant
            decimal(ping_id as nat) == decimal(rest as nat) + reading_order(low@),
        decreases rest,
    {
        let ghost before = low@;
        low.push(digit(rest % 10));
        proof {
            assert(reading_order(low@) =~= seq![digit_char((rest % 10) as nat)] + reading_order(
                before,
            ));
            assert(decimal(rest as nat) + reading_order(before) =~= decimal((rest / 10) as nat)
                + reading_order(low@));
        }
        rest = rest / 10;
    }
    let mut content = String::new();
    content.push('<');
    content.push('@');
    content.push(digit(rest));
    let mut k: usize = low.len();
    while k > 0
        invariant
            k <= low.len(),
            rest < 10,
            content@ == seq!['<', '@'] + decimal(rest as nat) + reading_order(low@).subrange(
                0,
                low.len() - k,
            ),
        decreases k,
    {
        k -= 1;
        content.push(low[k]);
    }
    assert(reading_order(low@).subrange(0, low.len() as int) =~= reading_order(low@));
    content.push('>');
    content
}

} // verus!
