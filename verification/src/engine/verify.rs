//! The minimal verification of an executed command.

use vstd::prelude::*;
use crate::text::{blank, is_blank_str};
use super::executor::ExecResult;

verus! {

/// A result passes where the command succeeded and printed something other
/// than white space.
pub fn check_minimal(res: &ExecResult) -> (r: bool)
    ensures
        r == (res.ok && !blank(res.stdout@)),
{
    res.ok && !is_blank_str(res.stdout.as_str())
}

} // verus!
