//! The error that view creation reports.
use vstd::prelude::*;

verus! {

/// Failure of a native resource creation, with the status code the
/// native call returned.
#[derive(Debug)]
pub enum Error {
    Native(ash::vk::Result),
}

} // verus!
