//! The outcomes of operations on the storage tree, and what follows from
//! them. The files themselves are read and written outside this library.

use vstd::prelude::*;

use crate::note::Note;

verus! {

/// Why an operation on the storage tree failed.
#[derive(Debug, Copy, Clone, PartialEq, Eq, Structural)]
pub enum StoreError {
    /// There is no file at the path.
    NotFound,
    /// A file already occupies the path that was to be written.
    AlreadyExists,
    /// The file does not hold the record of a note.
    Deserialize,
    /// The path cannot be represented.
    InvalidPath,
    /// Any other failure of reading or writing.
    Io,
}

/// Whether a save goes on to write the note after the attempt to remove
/// the file at its previous path: it does where that file was removed or
/// was not there, and stops on every other failure.
pub open spec fn spec_write_follows(removed: Result<(), StoreError>) -> bool {
    match removed {
        Ok(_) => true,
        Err(e) => e == StoreError::NotFound,
    }
}

/// Whether a save goes on to write the note after the attempt to remove
/// the file at its previous path.
pub fn write_follows(removed: &Result<(), StoreError>) -> (go: bool)
    ensures
        go == spec_write_follows(*removed),
{
    match removed {
        Ok(_) => true,
        Err(StoreError::NotFound) => true,
        Err(_) => false,
    }
}

/// The index of the first failure among the outcomes of loading the note
/// files of a scan, or their number where none failed.
pub open spec fn spec_first_failure(loaded: Seq<Result<Note, StoreError>>) -> int
    decreases loaded.len(),
{
    if loaded.len() == 0 {
        0
    } else if loaded[0] is Err {
        0
    } else {
        1 + spec_first_failure(loaded.drop_first())
    }
}

/// The first failure lies within the outcomes or just behind them, and
/// every outcome before it is a note.
pub proof fn lemma_first_failure(loaded: Seq<Result<Note, StoreError>>)
    ensures
        0 <= spec_first_failure(loaded) <= loaded.len(),
        forall|i: int| 0 <= i < spec_first_failure(loaded) ==> (#[trigger] loaded[i]) is Ok,
        spec_first_failure(loaded) < loaded.len() ==> loaded[spec_first_failure(loaded)] is Err,
    decreases loaded.len(),
{
    if loaded.len() > 0 && loaded[0] is Ok {
        let rest = loaded.drop_first();
        lemma_first_failure(rest);
        assert forall|i: int| 0 <= i < spec_first_failure(loaded) implies (#[trigger] loaded[
            i
        ]) is Ok by {
            if i > 0 {
                assert(rest[i - 1] is Ok);
            }
        }
    }
}

/// Gathers the notes of a scan. One file that could not be loaded fails
/// the whole scan, with the error of the first such file; otherwise the
/// notes come out in the order of the scan.
pub fn collect_notes(loaded: &Vec<Result<Note, StoreError>>) -> (scan: Result<
    Vec<Note>,
    StoreError,
>)
    ensures
        scan is Ok <==> spec_first_failure(loaded@) == loaded@.len(),
        scan matches Ok(notes) ==> notes@.len() == loaded@.len(),
        scan matches Ok(notes) ==> forall|i: int|
            0 <= i < loaded@.len() ==> loaded@[i] == Ok::<Note, StoreError>(#[trigger] notes@[i]),
        scan matches Err(e) ==> loaded@[spec_first_failure(loaded@)] == Err::<Note, StoreError>(e),
{
    proof {
        lemma_first_failure(loaded@);
    }
    let mut notes: Vec<Note> = Vec::new();
    let mut i: usize = 0;
    while i < loaded.len()
        invariant
            i <= loaded@.len(),
            i <= spec_first_failure(loaded@) <= loaded@.len(),
            forall|k: int| 0 <= k < spec_first_failure(loaded@) ==> (#[trigger] loaded@[k]) is Ok,
            spec_first_failure(loaded@) < loaded@.len() ==> loaded@[spec_first_failure(
                loaded@,
            )] is Err,
            notes@.len() == i,
            forall|k: int| 0 <= k < i ==> loaded@[k] == Ok::<Note, StoreError>(#[trigger] notes@[k]),
        decreases loaded@.len() - i,
    {
        match &loaded[i] {
            Ok(note) => {
                notes.push(note.clone());
            },
            Err(e) => {
                return Err(*e);
            },
        }
        i = i + 1;
    }
    Ok(notes)
}

} // verus!
