//! Module handles.

use vstd::prelude::*;

use crate::Error;
use crate::last_error;

verus! {

/// Decodes the native module-handle lookup: a null handle means failure
/// with the platform error code.
pub fn get_module_handle(raw: usize, err_code: u32) -> (r: Result<usize, Error>)
    ensures
        raw == 0 ==> r == Result::<usize, Error>::Err(Error::Os(err_code)),
        raw != 0 ==> r == Result::<usize, Error>::Ok(raw),
{
    if raw == 0 {
        last_error(err_code)
    } else {
        Ok(raw)
    }
}

} // verus!
