//! The high score file: one decimal number, surrounding white space allowed.

use vstd::prelude::*;
use crate::text::{decimal, lemma_decimal_reads_back, decimal_text, parse_u64, parse_u64_text, trim, trim_text};

verus! {

/// The high score that a file's text holds; text that is not a number reads
/// as no high score (0).
pub open spec fn stored_score(text: Seq<char>) -> u64 {
    match parse_u64_text(trim_text(text)) {
        Some(n) => n,
        None => 0,
    }
}

/// The high score that the text of the high score file holds.
pub fn parse_high_score(text: &str) -> (r: u64)
    ensures
        r == stored_score(text@),
{
    match parse_u64(trim(text)) {
        Some(n) => n,
        None => 0,
    }
}

/// The text written to the high score file.
pub fn high_score_text(score: u64) -> (r: String)
    ensures
        r@ == decimal_text(score as nat),
{
    decimal(score)
}

/// The better of a new score and the stored best, and whether the new score
/// beats the stored one (and is to be written).
pub fn better_score(score: u64, best: u64) -> (r: (u64, bool))
    ensures
        r.1 == (score > best),
        r.0 == if score > best {
            score
        } else {
            best
        },
{
    if score > best {
        (score, true)
    } else {
        (best, false)
    }
}

/// A written high score reads back as itself.
pub proof fn lemma_high_score_round_trip(n: u64)
    ensures
        stored_score(decimal_text(n as nat)) == n,
{
    lemma_decimal_reads_back(n);
}

} // verus!
