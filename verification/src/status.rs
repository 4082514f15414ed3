//! The status of a release.
use vstd::prelude::*;
use vstd::string::*;

use crate::token::{is_name, name_bytes};

verus! {

/// The publication state of a release: a closed vocabulary of three words.
#[derive(Debug, Clone, Copy, PartialEq, Eq, Structural)]
pub enum Status {
    Accepted,
    Draft,
    Deleted,
}

/// The status that `text` spells, if it spells one.
pub open spec fn status_of(text: Seq<u8>) -> Option<Status> {
    if text == name_bytes("Accepted") {
        Some(Status::Accepted)
    } else if text == name_bytes("Draft") {
        Some(Status::Draft)
    } else if text == name_bytes("Deleted") {
        Some(Status::Deleted)
    } else {
        None
    }
}

/// The three words, as ASCII bytes.
pub proof fn lemma_status_words()
    ensures
        name_bytes("Accepted") == seq![65u8, 99u8, 99u8, 101u8, 112u8, 116u8, 101u8, 100u8],
        name_bytes("Draft") == seq![68u8, 114u8, 97u8, 102u8, 116u8],
        name_bytes("Deleted") == seq![68u8, 101u8, 108u8, 101u8, 116u8, 101u8, 100u8],
{
    reveal_strlit("Accepted");
    reveal_strlit("Draft");
    reveal_strlit("Deleted");
    is_ascii_spec_bytes("Accepted");
    is_ascii_spec_bytes("Draft");
    is_ascii_spec_bytes("Deleted");
    assert(name_bytes("Accepted") =~= seq![
        65u8,
        99u8,
        99u8,
        101u8,
        112u8,
        116u8,
        101u8,
        100u8,
    ]);
    assert(name_bytes("Draft") =~= seq![68u8, 114u8, 97u8, 102u8, 116u8]);
    assert(name_bytes("Deleted") =~= seq![68u8, 101u8, 108u8, 101u8, 116u8, 101u8, 100u8]);
}

impl Status {
    /// The word that stands for the status, as bytes.
    pub open spec fn bytes(self) -> Seq<u8> {
        match self {
            Status::Accepted => name_bytes("Accepted"),
            Status::Draft => name_bytes("Draft"),
            Status::Deleted => name_bytes("Deleted"),
        }
    }

    /// The word that stands for the status.
    pub fn word(self) -> (word: &'static str)
        ensures
            name_bytes(word) == self.bytes(),
    {
        match self {
            Status::Accepted => "Accepted",
            Status::Draft => "Draft",
            Status::Deleted => "Deleted",
        }
    }

    /// Reads a status; `None` for any text but the three words.
    pub fn from_bytes(text: &Vec<u8>) -> (status: Option<Status>)
        ensures
            status == status_of(text@),
    {
        if is_name(text, "Accepted") {
            Some(Status::Accepted)
        } else if is_name(text, "Draft") {
            Some(Status::Draft)
        } else if is_name(text, "Deleted") {
            Some(Status::Deleted)
        } else {
            None
        }
    }
}

/// Reading the word of a status gives the status back.
pub proof fn lemma_status_round_trip(status: Status)
    ensures
        status_of(status.bytes()) == Some(status),
{
    lemma_status_words();
    assert(name_bytes("Accepted").len() == 8);
    assert(name_bytes("Draft").len() == 5);
    assert(name_bytes("Deleted").len() == 7);
}

} // verus!
