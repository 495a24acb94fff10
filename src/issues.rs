//! The issues API; it holds no calls yet.
use vstd::prelude::*;

use crate::Gitlab;

verus! {

/// A client for the issues API.
pub struct Issues<'a> {
    gitlab: &'a Gitlab,
}

/// An issue.
pub struct Issue {}

} // verus!
