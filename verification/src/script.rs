//! The group of the scripts of a tx: a tx belongs to every script that it
//! spends from and to every script that it pays to.

use vstd::prelude::*;

use crate::group::{items_within, members_of, tx_members_spec, Group, GroupQuery, MemberItem};
use crate::io::{GroupHistoryConf, GroupUtxoConf};
use crate::tx::{Tx, TxInput, TxOutput};

verus! {

/// First byte of a script that carries data and locks nothing.
pub const OP_RETURN: u8 = 0x6a;

/// Groups txs by the bytecode of the scripts of their inputs and outputs.
/// A script is stored under its own bytes.
#[derive(Clone, Copy, Debug, Default)]
pub struct ScriptGroup;

/// Whether `script` carries data and locks nothing.
pub open spec fn is_opreturn(script: Seq<u8>) -> bool {
    script.len() > 0 && script[0] == OP_RETURN
}

/// The script that `input` spends from, where the spent output is known.
pub open spec fn spent_script<'a>(input: TxInput) -> Option<&'a Vec<u8>> {
    match input.coin {
        Some(coin) => Some(&coin.script),
        None => None,
    }
}

/// The script that `output` pays to, unless it only carries data.
pub open spec fn locking_script<'a>(output: TxOutput) -> Option<&'a Vec<u8>> {
    if is_opreturn(output.script@) {
        None
    } else {
        Some(&output.script)
    }
}

/// The scripts spent by `inputs`, place by place.
pub open spec fn spent_scripts<'a>(inputs: Seq<TxInput>) -> Seq<Option<&'a Vec<u8>>> {
    Seq::new(inputs.len(), |i: int| spent_script(inputs[i]))
}

/// The scripts paid to by `outputs`, place by place.
pub open spec fn locking_scripts<'a>(outputs: Seq<TxOutput>) -> Seq<Option<&'a Vec<u8>>> {
    Seq::new(outputs.len(), |i: int| locking_script(outputs[i]))
}

/// The items of the first `n` places of `found`: one for each place that
/// holds a member, in the order of the places.
pub open spec fn found_items<M>(found: Seq<Option<M>>, n: int) -> Seq<MemberItem<M>>
    decreases n,
{
    if n <= 0 {
        Seq::empty()
    } else {
        let before = found_items(found, n - 1);
        match found[n - 1] {
            Some(member) => before.push(MemberItem { idx: (n - 1) as usize, member }),
            None => before,
        }
    }
}

/// The items of the first `n` places point at places before the `n`-th, in
/// rising order, and each holds the member of its place.
pub proof fn lemma_found_items_sound<M>(found: Seq<Option<M>>, n: int)
    requires
        0 <= n <= found.len() <= usize::MAX,
    ensures
        found_items(found, n).len() <= n,
        items_within(found_items(found, n), n as nat),
        forall|j: int, k: int|
            0 <= j < k < found_items(found, n).len() ==> found_items(found, n)[j].idx
                < found_items(found, n)[k].idx,
        forall|k: int|
            0 <= k < found_items(found, n).len() ==> found[(#[trigger] found_items(
                found,
                n,
            )[k]).idx as int] == Some(found_items(found, n)[k].member),
    decreases n,
{
    if n > 0 {
        lemma_found_items_sound(found, n - 1);
    }
}

/// Every place before the `n`-th that holds a member has its item, however
/// many other places hold the same member.
pub proof fn lemma_found_items_complete<M>(found: Seq<Option<M>>, n: int, i: int)
    requires
        0 <= i < n <= found.len() <= usize::MAX,
        found[i] is Some,
    ensures
        exists|k: int|
            0 <= k < found_items(found, n).len() && #[trigger] found_items(found, n)[k]
                == (MemberItem { idx: i as usize, member: found[i]->0 }),
    decreases n,
{
    let items = found_items(found, n);
    if i == n - 1 {
        let k = items.len() - 1;
        assert(items[k] == MemberItem { idx: i as usize, member: found[i]->0 });
    } else {
        lemma_found_items_complete(found, n - 1, i);
        let before = found_items(found, n - 1);
        let k = choose|k: int|
            0 <= k < before.len() && #[trigger] before[k] == (MemberItem {
                idx: i as usize,
                member: found[i]->0,
            });
        assert(items[k] == before[k]);
    }
}

/// Two places that hold a member have an item each, the one of the earlier
/// place first, also where they hold the same member.
pub proof fn lemma_found_items_keep_both<M>(found: Seq<Option<M>>, i: int, j: int)
    requires
        0 <= i < j < found.len() <= usize::MAX,
        found[i] is Some,
        found[j] is Some,
    ensures
        exists|k: int, l: int|
            {
                &&& 0 <= k < l < found_items(found, found.len() as int).len()
                &&& #[trigger] found_items(found, found.len() as int)[k] == (MemberItem {
                    idx: i as usize,
                    member: found[i]->0,
                })
                &&& #[trigger] found_items(found, found.len() as int)[l] == (MemberItem {
                    idx: j as usize,
                    member: found[j]->0,
                })
            },
{
    let n = found.len() as int;
    let items = found_items(found, n);
    lemma_found_items_complete(found, n, i);
    lemma_found_items_complete(found, n, j);
    lemma_found_items_sound(found, n);
    let k = choose|k: int|
        0 <= k < items.len() && #[trigger] items[k] == (MemberItem {
            idx: i as usize,
            member: found[i]->0,
        });
    let l = choose|l: int|
        0 <= l < items.len() && #[trigger] items[l] == (MemberItem {
            idx: j as usize,
            member: found[j]->0,
        });
    assert(k < l) by {
        if l < k {
            assert(items[l].idx < items[k].idx);
        }
    }
}

impl Group for ScriptGroup {
    type Member<'a> = &'a Vec<u8>;

    type MemberSer<'a> = &'a Vec<u8>;

    /// No item for a coinbase, which spends nothing. Else one item for
    /// each input whose spent output is known, with the script of that output.
    open spec fn input_members_spec<'a>(&self, query: GroupQuery<'a>) -> Seq<
        MemberItem<&'a Vec<u8>>,
    > {
        if query.is_coinbase {
            Seq::empty()
        } else {
            found_items(spent_scripts(query.tx.inputs@), query.tx.inputs@.len() as int)
        }
    }

    /// One item for each output that does not only carry data, with the
    /// script of the output.
    open spec fn output_members_spec<'a>(&self, query: GroupQuery<'a>) -> Seq<
        MemberItem<&'a Vec<u8>>,
    > {
        found_items(locking_scripts(query.tx.outputs@), query.tx.outputs@.len() as int)
    }

    /// A script is stored under its own bytes.
    open spec fn ser_member_spec<'a>(member: &'a Vec<u8>) -> Seq<u8> {
        member@
    }

    open spec fn tx_history_conf_spec() -> GroupHistoryConf {
        GroupHistoryConf {
            cf_page_name: "script_history",
            cf_num_txs_name: "script_history_num_txs",
            page_size: 1000,
        }
    }

    open spec fn utxo_conf_spec() -> GroupUtxoConf {
        GroupUtxoConf { cf_name: "script_utxo" }
    }

    proof fn lemma_input_members_in_range<'a>(&self, query: GroupQuery<'a>) {
        assert(query.tx.inputs@.len() == query.tx.inputs.len());
        lemma_found_items_sound(spent_scripts(query.tx.inputs@), query.tx.inputs@.len() as int);
    }

    proof fn lemma_output_members_in_range<'a>(&self, query: GroupQuery<'a>) {
        assert(query.tx.outputs@.len() == query.tx.outputs.len());
        lemma_found_items_sound(locking_scripts(query.tx.outputs@), query.tx.outputs@.len() as int);
    }

    proof fn lemma_equal_members_ser_equal<'a>(a: &'a Vec<u8>, b: &'a Vec<u8>) {
        assert(a@ =~= b@);
    }

    fn input_members<'a>(&self, query: GroupQuery<'a>) -> (items: Vec<MemberItem<&'a Vec<u8>>>) {
        let mut items: Vec<MemberItem<&'a Vec<u8>>> = Vec::new();
        if query.is_coinbase {
            return items;
        }
        let tx: &'a Tx = query.tx;
        let mut idx: usize = 0;
        while idx < tx.inputs.len()
            invariant
                idx <= tx.inputs@.len(),
                items@ == found_items(spent_scripts(tx.inputs@), idx as int),
            decreases tx.inputs@.len() - idx,
        {
            match &tx.inputs[idx].coin {
                Some(coin) => {
                    items.push(MemberItem { idx, member: &coin.script });
                },
                None => {},
            }
            idx += 1;
        }
        items
    }

    fn output_members<'a>(&self, query: GroupQuery<'a>) -> (items: Vec<MemberItem<&'a Vec<u8>>>) {
        let mut items: Vec<MemberItem<&'a Vec<u8>>> = Vec::new();
        let tx: &'a Tx = query.tx;
        let mut idx: usize = 0;
        while idx < tx.outputs.len()
            invariant
                idx <= tx.outputs@.len(),
                items@ == found_items(locking_scripts(tx.outputs@), idx as int),
            decreases tx.outputs@.len() - idx,
        {
            let script: &'a Vec<u8> = &tx.outputs[idx].script;
            if !(script.len() > 0 && script[0] == OP_RETURN) {
                items.push(MemberItem { idx, member: script });
            }
            idx += 1;
        }
        items
    }

    fn ser_member<'a>(&self, member: &Self::Member<'a>) -> (ser: Self::MemberSer<'a>) {
        *member
    }

    fn tx_history_conf() -> (conf: GroupHistoryConf) {
        GroupHistoryConf {
            cf_page_name: "script_history",
            cf_num_txs_name: "script_history_num_txs",
            page_size: 1000,
        }
    }

    fn utxo_conf() -> (conf: GroupUtxoConf) {
        GroupUtxoConf { cf_name: "script_utxo" }
    }
}

/// A script that two outputs pay to is found at both: the outputs of a tx
/// are not merged where their scripts hold the same bytes.
pub proof fn lemma_shared_locking_script<'a>(
    group: &ScriptGroup,
    query: GroupQuery<'a>,
    i: int,
    j: int,
)
    requires
        0 <= i < j < query.tx.outputs@.len(),
        !is_opreturn(query.tx.outputs@[i].script@),
        query.tx.outputs@[i].script@ == query.tx.outputs@[j].script@,
    ensures
        exists|k: int, l: int|
            {
                &&& 0 <= k < l < group.output_members_spec(query).len()
                &&& #[trigger] group.output_members_spec(query)[k] == (MemberItem {
                    idx: i as usize,
                    member: &query.tx.outputs@[i].script,
                })
                &&& #[trigger] group.output_members_spec(query)[l] == (MemberItem {
                    idx: j as usize,
                    member: &query.tx.outputs@[j].script,
                })
                &&& group.output_members_spec(query)[k].member@
                    == group.output_members_spec(query)[l].member@
            },
{
    let found = locking_scripts(query.tx.outputs@);
    let items = group.output_members_spec(query);
    assert(query.tx.outputs@.len() == query.tx.outputs.len());
    lemma_found_items_keep_both(found, i, j);
    let (k, l) = choose|k: int, l: int|
        {
            &&& 0 <= k < l < items.len()
            &&& #[trigger] items[k] == (MemberItem { idx: i as usize, member: found[i]->0 })
            &&& #[trigger] items[l] == (MemberItem { idx: j as usize, member: found[j]->0 })
        };
    let paid_i = &query.tx.outputs@[i].script;
    let paid_j = &query.tx.outputs@[j].script;
    assert(items[k] == MemberItem { idx: i as usize, member: paid_i });
    assert(items[l] == MemberItem { idx: j as usize, member: paid_j });
}

/// A script that two inputs spend from is found at both, unless the tx is a
/// coinbase.
pub proof fn lemma_shared_spent_script<'a>(
    group: &ScriptGroup,
    query: GroupQuery<'a>,
    i: int,
    j: int,
)
    requires
        !query.is_coinbase,
        0 <= i < j < query.tx.inputs@.len(),
        query.tx.inputs@[i].coin is Some,
        query.tx.inputs@[j].coin is Some,
        query.tx.inputs@[i].coin->0.script@ == query.tx.inputs@[j].coin->0.script@,
    ensures
        exists|k: int, l: int|
            {
                &&& 0 <= k < l < group.input_members_spec(query).len()
                &&& #[trigger] group.input_members_spec(query)[k] == (MemberItem {
                    idx: i as usize,
                    member: &query.tx.inputs@[i].coin->0.script,
                })
                &&& #[trigger] group.input_members_spec(query)[l] == (MemberItem {
                    idx: j as usize,
                    member: &query.tx.inputs@[j].coin->0.script,
                })
                &&& group.input_members_spec(query)[k].member@
                    == group.input_members_spec(query)[l].member@
            },
{
    let found = spent_scripts(query.tx.inputs@);
    let items = group.input_members_spec(query);
    assert(query.tx.inputs@.len() == query.tx.inputs.len());
    lemma_found_items_keep_both(found, i, j);
    let (k, l) = choose|k: int, l: int|
        {
            &&& 0 <= k < l < items.len()
            &&& #[trigger] items[k] == (MemberItem { idx: i as usize, member: found[i]->0 })
            &&& #[trigger] items[l] == (MemberItem { idx: j as usize, member: found[j]->0 })
        };
    let spent_i = &query.tx.inputs@[i].coin->0.script;
    let spent_j = &query.tx.inputs@[j].coin->0.script;
    assert(items[k] == MemberItem { idx: i as usize, member: spent_i });
    assert(items[l] == MemberItem { idx: j as usize, member: spent_j });
}

/// A coinbase has no members in its inputs, whatever its inputs hold, and
/// the coinbase flag changes nothing about the outputs.
pub proof fn lemma_coinbase_spends_nothing<'a>(group: &ScriptGroup, tx: &'a Tx)
    ensures
        group.input_members_spec(GroupQuery { is_coinbase: true, tx }).len() == 0,
        group.output_members_spec(GroupQuery { is_coinbase: true, tx })
            == group.output_members_spec(GroupQuery { is_coinbase: false, tx }),
        tx_members_spec(group, GroupQuery { is_coinbase: true, tx }) == members_of(
            group.output_members_spec(GroupQuery { is_coinbase: false, tx }),
        ),
{
}

} // verus!
