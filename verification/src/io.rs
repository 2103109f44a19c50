//! Settings that a group hands to the indexes built on it.

use vstd::prelude::*;

verus! {

/// Settings of the index of all transactions of a member.
#[derive(Clone, Debug, PartialEq, Eq)]
pub struct GroupHistoryConf {
    /// Name of the column family of the pages.
    pub cf_page_name: &'static str,
    /// Name of the column family of the number of transactions of a member.
    pub cf_num_txs_name: &'static str,
    /// Number of transactions on one page.
    pub page_size: usize,
}

/// Settings of the index of the unspent outputs of a member.
#[derive(Clone, Debug, PartialEq, Eq)]
pub struct GroupUtxoConf {
    /// Name of the column family of the unspent outputs.
    pub cf_name: &'static str,
}

} // verus!
