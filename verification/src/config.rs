//! The part of a site's configuration that rendering reads.

use vstd::prelude::*;
use crate::value::Table;

verus! {

/// The configuration of a site. It is made once and only read afterwards.
#[derive(Clone, Debug)]
pub struct Config {
    /// The free-form settings of the site.
    pub extra: Table,
}

} // verus!
