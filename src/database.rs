//! The rules by which the data access helper reads the store's answers.
use vstd::prelude::*;

use crate::error::Error;

verus! {

/// The row that a lookup by primary key found: the first of the rows that
/// the store returned, or not found when it returned none.
pub fn single_row<R>(values: Vec<R>) -> (r: Result<R, Error>)
    ensures
        values@.len() == 0 ==> r == Err::<R, Error>(Error::NotFound),
        values@.len() > 0 ==> r == Ok::<R, Error>(values@[0]),
{
    let mut values = values;
    if values.len() == 0 {
        Err(Error::NotFound)
    } else {
        Ok(values.remove(0))
    }
}

/// The outcome of a delete by primary key, from the number of rows that it
/// removed: not found when it removed none.
pub fn deletion_outcome(count: usize) -> (r: Result<(), Error>)
    ensures
        count == 0 ==> r == Err::<(), Error>(Error::NotFound),
        count > 0 ==> r == Ok::<(), Error>(()),
{
    if count == 0 {
        Err(Error::NotFound)
    } else {
        Ok(())
    }
}

} // verus!
