//! The exit status that a run of the tool ends with.

use vstd::prelude::*;
use crate::text::{borrowed_text, same_text};

verus! {

/// The exit status after reading a status: 0 where the live status is the
/// wanted one, 1 where it differs, 2 where it could not be read.
pub open spec fn comparison_status(wanted: Seq<char>, live: Option<Seq<char>>) -> int {
    match live {
        Some(text) => if text == wanted {
            0
        } else {
            1
        },
        None => 2,
    }
}

/// Computes the exit status after reading a status. `live` is the status
/// text that was read, or `None` where reading failed.
pub fn get_exit_code(wanted: &str, live: Option<&str>) -> (code: i32)
    ensures
        code == comparison_status(wanted@, borrowed_text(live)),
{
    match live {
        Some(text) => if same_text(text, wanted) {
            0
        } else {
            1
        },
        None => 2,
    }
}

/// Whether some account of a batch failed.
pub open spec fn some_failed(succeeded: Seq<bool>) -> bool {
    exists|i: int| 0 <= i < succeeded.len() && !succeeded[i]
}

/// Computes the exit status after setting a status for a batch of accounts:
/// `succeeded` holds, account by account, whether the status was set. Every
/// account is looked at; the status is 1 where any of them failed and 0
/// where none did.
pub fn set_exit_code(succeeded: &Vec<bool>) -> (code: i32)
    ensures
        code == if some_failed(succeeded@) {
            1int
        } else {
            0int
        },
{
    let mut error_occurred = false;
    let mut i: usize = 0;
    while i < succeeded.len()
        invariant
            i <= succeeded.len(),
            error_occurred == some_failed(succeeded@.take(i as int)),
        decreases succeeded.len() - i,
    {
        let ghost seen = succeeded@.take(i as int);
        let ghost grown = succeeded@.take(i + 1);
        proof {
            if some_failed(seen) {
                let k = choose|k: int| 0 <= k < seen.len() && !seen[k];
                assert(!grown[k]);
            }
            if some_failed(grown) {
                let k = choose|k: int| 0 <= k < grown.len() && !grown[k];
                if k < i {
                    assert(!seen[k]);
                }
            }
            if !succeeded[i as int] {
                assert(!grown[i as int]);
            }
        }
        if !succeeded[i] {
            error_occurred = true;
        }
        i += 1;
    }
    assert(succeeded@.take(i as int) =~= succeeded@);
    if error_occurred {
        1
    } else {
        0
    }
}

/// One failed account makes the batch fail, wherever it stands in it and
/// whatever became of the others.
pub proof fn law_one_failure_fails_the_batch(succeeded: Seq<bool>, failed: int)
    requires
        0 <= failed < succeeded.len(),
        !succeeded[failed],
    ensures
        some_failed(succeeded),
{
}

} // verus!
