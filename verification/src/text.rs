use vstd::prelude::*;

verus! {

/// How many bytes a text takes when it is stored: its length in UTF-8.
pub open spec fn byte_len(text: Seq<char>) -> nat {
    vstd::utf8::encode_utf8(text).len()
}

/// Whether an optional text, where there is one, takes at most `limit` bytes.
pub open spec fn fits_if_given(text: Option<String>, limit: usize) -> bool {
    text matches Some(given) ==> byte_len(given@) <= limit
}

/// Whether every text of a list takes at most `limit` bytes.
pub open spec fn each_fits(texts: Seq<String>, limit: usize) -> bool {
    forall|i: int| 0 <= i < texts.len() ==> byte_len((#[trigger] texts[i])@) <= limit
}

/// The new value where one is given, else the old one.
pub open spec fn given_or<T>(given: Option<T>, old: T) -> T {
    match given {
        Some(value) => value,
        None => old,
    }
}

/// One more, unless the counter is at its top already: roll-up counters stop
/// there rather than fail the operation that feeds them.
pub open spec fn counted_up(counter: u32) -> u32 {
    if counter == u32::MAX {
        counter
    } else {
        (counter + 1) as u32
    }
}

/// The sum, or the top of the range where the sum would pass it.
pub open spec fn topped_up(total: u64, amount: u64) -> u64 {
    if total + amount > u64::MAX {
        u64::MAX
    } else {
        (total + amount) as u64
    }
}

/// Replaces what a slot holds where a new value is given, and leaves it as it
/// is where none is.
pub fn set_if_given<T>(slot: &mut T, given: Option<T>)
    ensures
        *final(slot) == given_or(given, *old(slot)),
{
    if let Some(value) = given {
        *slot = value;
    }
}

/// The stored length of a text, in bytes.
pub fn text_len(text: &String) -> (len: usize)
    ensures
        len == byte_len(text@),
{
    text.as_str().as_bytes().len()
}

/// Whether a text takes at most `limit` bytes.
pub fn fits(text: &String, limit: usize) -> (ok: bool)
    ensures
        ok == (byte_len(text@) <= limit),
{
    text_len(text) <= limit
}

/// Whether an optional text, where there is one, takes at most `limit` bytes.
pub fn option_fits(text: &Option<String>, limit: usize) -> (ok: bool)
    ensures
        ok == fits_if_given(*text, limit),
{
    match text {
        Some(given) => fits(given, limit),
        None => true,
    }
}

/// Whether every text of a list takes at most `limit` bytes.
pub fn all_fit(texts: &Vec<String>, limit: usize) -> (ok: bool)
    ensures
        ok == each_fits(texts@, limit),
{
    let mut i: usize = 0;
    while i < texts.len()
        invariant
            i <= texts.len(),
            forall|j: int| 0 <= j < i ==> byte_len((#[trigger] texts@[j])@) <= limit,
        decreases texts.len() - i,
    {
        if !fits(&texts[i], limit) {
            return false;
        }
        i += 1;
    }
    true
}

/// Adds one to a roll-up counter, stopping at the top of its range.
pub fn count_up(counter: u32) -> (next: u32)
    ensures
        next == counted_up(counter),
{
    counter.saturating_add(1)
}

/// Adds an amount to a roll-up total, stopping at the top of its range.
pub fn top_up(total: u64, amount: u64) -> (next: u64)
    ensures
        next == topped_up(total, amount),
{
    total.saturating_add(amount)
}

} // verus!
