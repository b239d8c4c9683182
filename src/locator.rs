//! Finding the one cell of a role that carries a type hash.
use crate::error::Error;
use vstd::prelude::*;

verus! {

/// Whether a cell, given by its type hash (`None` for a cell without a type
/// script), carries `type_hash`.
pub open spec fn cell_matches(cell: Option<Vec<u8>>, type_hash: Seq<u8>) -> bool {
    match cell {
        Some(h) => h@ == type_hash,
        None => false,
    }
}

/// How many of the first `n` cells carry `type_hash`.
pub open spec fn count_matches(cells: Seq<Option<Vec<u8>>>, type_hash: Seq<u8>, n: int) -> nat
    decreases n,
{
    if n <= 0 {
        0
    } else {
        count_matches(cells, type_hash, n - 1) + if cell_matches(cells[n - 1], type_hash) {
            1nat
        } else {
            0nat
        }
    }
}

/// How many of `cells` carry `type_hash`.
pub open spec fn matches_in(cells: Seq<Option<Vec<u8>>>, type_hash: Seq<u8>) -> nat {
    count_matches(cells, type_hash, cells.len() as int)
}

/// Where the only cell that carries `type_hash` stands, or why there is no such
/// single cell.
pub open spec fn locate_spec(cells: Seq<Option<Vec<u8>>>, type_hash: Seq<u8>) -> Result<int, Error> {
    if matches_in(cells, type_hash) == 0 {
        Err(Error::CellAbsent)
    } else if matches_in(cells, type_hash) >= 2 {
        Err(Error::CellAmbiguous)
    } else {
        Ok(choose|k: int| 0 <= k < cells.len() && cell_matches(cells[k], type_hash))
    }
}

proof fn lemma_count_monotone(cells: Seq<Option<Vec<u8>>>, type_hash: Seq<u8>, i: int, j: int)
    requires
        0 <= i <= j,
    ensures
        count_matches(cells, type_hash, i) <= count_matches(cells, type_hash, j),
    decreases j - i,
{
    if j > i {
        lemma_count_monotone(cells, type_hash, i, j - 1);
    }
}

/// Two distinct matching cells make at least two matches.
proof fn lemma_two_matches(cells: Seq<Option<Vec<u8>>>, type_hash: Seq<u8>, i: int, j: int)
    requires
        0 <= i < j < cells.len(),
        cell_matches(cells[i], type_hash),
        cell_matches(cells[j], type_hash),
    ensures
        matches_in(cells, type_hash) >= 2,
{
    lemma_count_monotone(cells, type_hash, 0, i);
    lemma_count_monotone(cells, type_hash, i + 1, j);
    lemma_count_monotone(cells, type_hash, j + 1, cells.len() as int);
}

/// Where exactly one cell matches, it is the only index that matches.
pub proof fn lemma_single_match_unique(cells: Seq<Option<Vec<u8>>>, type_hash: Seq<u8>, i: int, j: int)
    requires
        matches_in(cells, type_hash) == 1,
        0 <= i < cells.len(),
        0 <= j < cells.len(),
        cell_matches(cells[i], type_hash),
        cell_matches(cells[j], type_hash),
    ensures
        i == j,
{
    if i < j {
        lemma_two_matches(cells, type_hash, i, j);
    } else if j < i {
        lemma_two_matches(cells, type_hash, j, i);
    }
}

/// Whether two byte strings are equal.
pub fn bytes_eq(a: &[u8], b: &[u8]) -> (r: bool)
    ensures
        r == (a@ == b@),
{
    if a.len() != b.len() {
        return false;
    }
    let mut i: usize = 0;
    while i < a.len()
        invariant
            a@.len() == b@.len(),
            i <= a@.len(),
            forall|k: int| 0 <= k < i ==> a@[k] == b@[k],
        decreases a@.len() - i,
    {
        if a[i] != b[i] {
            return false;
        }
        i = i + 1;
    }
    assert(a@ =~= b@);
    true
}

/// The index of the only cell that carries `type_hash`. Fails with
/// `CellAbsent` where none does and with `CellAmbiguous` where several do.
pub fn find_only_cell_by_type_id(cells: &Vec<Option<Vec<u8>>>, type_hash: &[u8]) -> (r: Result<
    usize,
    Error,
>)
    ensures
        r is Ok <==> matches_in(cells@, type_hash@) == 1,
        r == Err::<usize, Error>(Error::CellAbsent) <==> matches_in(cells@, type_hash@) == 0,
        r == Err::<usize, Error>(Error::CellAmbiguous) <==> matches_in(cells@, type_hash@) >= 2,
        r matches Ok(i) ==> i < cells@.len() && cell_matches(cells@[i as int], type_hash@),
        r matches Ok(i) ==> forall|k: int|
            0 <= k < cells@.len() && #[trigger] cell_matches(cells@[k], type_hash@) ==> k == i,
        match r {
            Ok(i) => locate_spec(cells@, type_hash@) == Ok::<int, Error>(i as int),
            Err(e) => locate_spec(cells@, type_hash@) == Err::<int, Error>(e),
        },
{
    let mut found: Option<usize> = None;
    let mut i: usize = 0;
    while i < cells.len()
        invariant
            i <= cells@.len(),
            count_matches(cells@, type_hash@, i as int) == if found is Some {
                1nat
            } else {
                0nat
            },
            found matches Some(j) ==> j < i && cell_matches(cells@[j as int], type_hash@),
        decreases cells@.len() - i,
    {
        let hit = match &cells[i] {
            Some(h) => bytes_eq(h.as_slice(), type_hash),
            None => false,
        };
        if hit {
            if found.is_some() {
                proof {
                    lemma_count_monotone(cells@, type_hash@, i as int + 1, cells@.len() as int);
                }
                return Err(Error::CellAmbiguous);
            }
            found = Some(i);
        }
        i = i + 1;
    }
    match found {
        Some(j) => {
            assert forall|k: int|
                0 <= k < cells@.len() && #[trigger] cell_matches(cells@[k], type_hash@) implies k
                == j by {
                lemma_single_match_unique(cells@, type_hash@, k, j as int);
            }
            assert(0 <= j < cells@.len() && cell_matches(cells@[j as int], type_hash@));
            Ok(j)
        },
        None => Err(Error::CellAbsent),
    }
}

} // verus!
