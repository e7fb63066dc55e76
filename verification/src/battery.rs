//! Battery charge state as the power-supply driver reports it: a short
//! ASCII word read from a status file. Reading the file is the caller's
//! business; this module decodes the word.

use vstd::prelude::*;
use vstd::string::StringSliceAdditionalSpecFns;

verus! {

/// The battery's charge state.
#[derive(Debug, Clone, Copy, PartialEq, Eq, Structural)]
pub enum Status {
    Discharging,
    Charging,
    Charged,
}

/// The decoding of a status word, with trailing ASCII whitespace already
/// trimmed: `Discharging` and `Charging` mean themselves, `Not charging`
/// and `Full` both mean charged, and any other word is unknown.
pub open spec fn spec_status_of_word(word: Seq<u8>) -> Option<Status> {
    if word == "Discharging".spec_bytes() {
        Some(Status::Discharging)
    } else if word == "Charging".spec_bytes() {
        Some(Status::Charging)
    } else if word == "Not charging".spec_bytes() || word == "Full".spec_bytes() {
        Some(Status::Charged)
    } else {
        None
    }
}

/// Whether a byte counts as trailing whitespace to be trimmed.
pub open spec fn spec_is_trailing_space(b: u8) -> bool {
    b == 0x20 || b == 0x09 || b == 0x0a || b == 0x0d
}

#[verifier::when_used_as_spec(spec_is_trailing_space)]
fn is_trailing_space(b: u8) -> (r: bool)
    ensures
        r == spec_is_trailing_space(b),
{
    b == 0x20 || b == 0x09 || b == 0x0a || b == 0x0d
}

/// The buffer with all trailing ASCII whitespace removed.
pub open spec fn spec_trimmed(buf: Seq<u8>) -> Seq<u8>
    decreases buf.len(),
{
    if buf.len() > 0 && spec_is_trailing_space(buf[buf.len() - 1]) {
        spec_trimmed(buf.drop_last())
    } else {
        buf
    }
}

impl Status {
    /// Decode the contents of the status file: trim trailing whitespace,
    /// then match the word.
    pub fn parse(buf: &[u8]) -> (r: Option<Status>)
        ensures
            r == spec_status_of_word(spec_trimmed(buf@)),
    {
        let mut end = buf.len();
        proof {
            assert(buf@.take(buf@.len() as int) =~= buf@);
        }
        while end > 0 && is_trailing_space(buf[end - 1])
            invariant
                end <= buf@.len(),
                spec_trimmed(buf@) == spec_trimmed(buf@.take(end as int)),
            decreases end,
        {
            proof {
                assert(buf@.take(end as int).drop_last() =~= buf@.take(end - 1));
            }
            end = end - 1;
        }
        let word = vstd::slice::slice_subrange(buf, 0, end);
        proof {
            assert(word@ =~= buf@.take(end as int));
            assert(spec_trimmed(buf@.take(end as int)) == buf@.take(end as int));
        }
        if word_is(word, "Discharging") {
            Some(Status::Discharging)
        } else if word_is(word, "Charging") {
            Some(Status::Charging)
        } else if word_is(word, "Not charging") || word_is(word, "Full") {
            Some(Status::Charged)
        } else {
            None
        }
    }
}

/// Whether the word's bytes are exactly the message's bytes.
fn word_is(word: &[u8], msg: &str) -> (r: bool)
    ensures
        r == (word@ == msg.spec_bytes()),
{
    let mb = msg.as_bytes();
    if word.len() != mb.len() {
        return false;
    }
    let n = word.len();
    for i in 0..n
        invariant
            n == word@.len(),
            n == mb@.len(),
            mb@ == msg.spec_bytes(),
            forall|j: int| 0 <= j < i ==> word@[j] == mb@[j],
    {
        if word[i] != mb[i] {
            return false;
        }
    }
    proof {
        assert(word@ =~= msg.spec_bytes());
    }
    true
}

} // verus!
