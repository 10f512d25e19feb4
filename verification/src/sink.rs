//! The file sink's path arithmetic.
//!
//! The sink writes each materialized namespace at
//! `base directory / application id / canonical filename`. The directory
//! creation and the write itself are I/O and stay outside; the paths they
//! act on are computed here.

use vstd::prelude::*;
use vstd::string::StringExecFns;

verus! {

/// The application's own subdirectory under the output base directory.
pub fn app_dir_path(base: &str, app_id: &str) -> (r: String)
    ensures
        r@ == base@ + "/"@ + app_id@,
{
    let mut path = base.to_owned();
    path.append("/");
    path.append(app_id);
    path
}

/// The destination of one materialized file inside a directory.
pub fn target_path(dir: &str, filename: &str) -> (r: String)
    ensures
        r@ == dir@ + "/"@ + filename@,
{
    let mut path = dir.to_owned();
    path.append("/");
    path.append(filename);
    path
}

} // verus!
