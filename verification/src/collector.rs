use std::sync::Arc;

use vstd::prelude::*;

use crate::record::Records;

verus! {

/// A collector receives the records of each collection period that holds any.
pub trait Collector: Send {
    fn collect(&self, records: Arc<Records>);
}

} // verus!
