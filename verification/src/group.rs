//! The contract of a group, and the members of a transaction under it.

use std::cmp::Ordering;
use vstd::prelude::*;
use vstd::std_specs::cmp::{OrdSpec, PartialEqSpec};

use crate::io::{GroupHistoryConf, GroupUtxoConf};
use crate::tx::Tx;

verus! {

/// What a group is asked: a transaction, and whether it is a coinbase.
#[derive(Clone, Copy, Debug)]
pub struct GroupQuery<'a> {
    /// Whether the tx is a coinbase tx.
    pub is_coinbase: bool,
    /// The transaction that should be grouped.
    pub tx: &'a Tx,
}

/// A member together with the place it was found at.
#[derive(Clone, Copy, Debug, Eq, PartialEq)]
pub struct MemberItem<M> {
    /// Index of the item in the list of inputs/outputs.
    pub idx: usize,
    /// Member of this item.
    pub member: M,
}

impl<M: Default> Default for MemberItem<M> {
    /// The default member, at the first place.
    fn default() -> (item: Self)
        ensures
            item.idx == 0,
            call_ensures(M::default, (), item.member),
    {
        MemberItem { idx: 0, member: M::default() }
    }
}

/// The members of `items`, in the same order, without their places.
pub open spec fn members_of<M>(items: Seq<MemberItem<M>>) -> Seq<M> {
    Seq::new(items.len(), |i: int| items[i].member)
}

/// Whether every item of `items` points into a list of `len` entries.
pub open spec fn items_within<M>(items: Seq<MemberItem<M>>, len: nat) -> bool {
    forall|k: int| 0 <= k < items.len() ==> (#[trigger] items[k]).idx < len
}

/// Groups txs and determines which members they are.
///
/// A member is one instance in a group and can be anything in a tx, e.g. the
/// input and output scripts, a token id or the signal of a contract.
pub trait Group {
    /// Member of a group, this is what txs will be grouped by.
    type Member<'a>: std::hash::Hash + Eq + Ord;

    /// Serialized member, this is what will be used as key in the DB.
    type MemberSer<'a>: View<V = Seq<u8>> + 'a;

    /// The items that the group finds in the inputs of the query's tx, in the
    /// order in which it yields them.
    spec fn input_members_spec<'a>(&self, query: GroupQuery<'a>) -> Seq<
        MemberItem<Self::Member<'a>>,
    >;

    /// The items that the group finds in the outputs of the query's tx, in the
    /// order in which it yields them.
    spec fn output_members_spec<'a>(&self, query: GroupQuery<'a>) -> Seq<
        MemberItem<Self::Member<'a>>,
    >;

    /// The bytes that a member is stored under. They depend on the member
    /// alone, not on the group's state nor on the tx it was found in.
    spec fn ser_member_spec<'a>(member: Self::Member<'a>) -> Seq<u8>;

    /// The settings of the history index for this group.
    spec fn tx_history_conf_spec() -> GroupHistoryConf;

    /// The settings of the UTXO index for this group.
    spec fn utxo_conf_spec() -> GroupUtxoConf;

    /// Every item found in the inputs points at an input of the tx.
    proof fn lemma_input_members_in_range<'a>(&self, query: GroupQuery<'a>)
        ensures
            items_within(self.input_members_spec(query), query.tx.inputs@.len()),
    ;

    /// Every item found in the outputs points at an output of the tx.
    proof fn lemma_output_members_in_range<'a>(&self, query: GroupQuery<'a>)
        ensures
            items_within(self.output_members_spec(query), query.tx.outputs@.len()),
    ;

    /// Members that compare equal are stored under the same bytes.
    proof fn lemma_equal_members_ser_equal<'a>(a: Self::Member<'a>, b: Self::Member<'a>)
        requires
            a.eq_spec(&b),
        ensures
            Self::ser_member_spec(a) == Self::ser_member_spec(b),
    ;

    /// Find the group's members in the given query's tx's inputs.
    fn input_members<'a>(&self, query: GroupQuery<'a>) -> (items: Vec<
        MemberItem<Self::Member<'a>>,
    >)
        ensures
            items@ == self.input_members_spec(query),
    ;

    /// Find the group's members in the given query's tx's outputs.
    fn output_members<'a>(&self, query: GroupQuery<'a>) -> (items: Vec<
        MemberItem<Self::Member<'a>>,
    >)
        ensures
            items@ == self.output_members_spec(query),
    ;

    /// Serialize the given member.
    fn ser_member<'a>(&self, member: &Self::Member<'a>) -> (ser: Self::MemberSer<'a>)
        ensures
            ser@ == Self::ser_member_spec(*member),
    ;

    /// The [`GroupHistoryConf`] for this group.
    fn tx_history_conf() -> (conf: GroupHistoryConf)
        ensures
            conf == Self::tx_history_conf_spec(),
    ;

    /// The [`GroupUtxoConf`] for this group.
    fn utxo_conf() -> (conf: GroupUtxoConf)
        ensures
            conf == Self::utxo_conf_spec(),
    ;
}

/// The members of a tx under a group: those found in the inputs, then those
/// found in the outputs, each in the order of the group and as often as it
/// was found.
pub open spec fn tx_members_spec<'a, G: Group>(group: &G, query: GroupQuery<'a>) -> Seq<
    G::Member<'a>,
> {
    members_of(group.input_members_spec(query)) + members_of(group.output_members_spec(query))
}

/// Whether a group finds the same items in a tx whether or not the query
/// calls it a coinbase.
pub open spec fn ignores_coinbase<G: Group>(group: &G) -> bool {
    forall|tx: &Tx|
        #![trigger group.input_members_spec(GroupQuery { is_coinbase: true, tx })]
        #![trigger group.output_members_spec(GroupQuery { is_coinbase: true, tx })]
        {
            &&& group.input_members_spec(GroupQuery { is_coinbase: true, tx })
                == group.input_members_spec(GroupQuery { is_coinbase: false, tx })
            &&& group.output_members_spec(GroupQuery { is_coinbase: true, tx })
                == group.output_members_spec(GroupQuery { is_coinbase: false, tx })
        }
}

/// Moves the members of `items` to the end of `members`, in their order.
fn push_members<M>(members: &mut Vec<M>, items: Vec<MemberItem<M>>)
    ensures
        final(members)@ == old(members)@ + members_of(items@),
{
    let ghost before = members@;
    let ghost all = items@;
    for item in it: items.into_iter()
        invariant
            it.seq() == all,
            members@ == before + members_of(all.take(it.index())),
    {
        members.push(item.member);
    }
}

/// Helper which returns the members of both inputs and outputs of the group
/// for the tx: those of the inputs first, then those of the outputs.
pub fn tx_members_for_group<'a, G: Group>(group: &G, query: GroupQuery<'a>) -> (members: Vec<
    G::Member<'a>,
>)
    ensures
        members@ == tx_members_spec(group, query),
{
    let mut members: Vec<G::Member<'a>> = Vec::new();
    push_members(&mut members, group.input_members(query));
    push_members(&mut members, group.output_members(query));
    members
}

/// Dropping the places merges nothing: there are as many members as there
/// were items, and each stands where its item stood, the items of the
/// outputs behind those of the inputs. A member found twice is there twice.
pub proof fn lemma_members_keep_every_item<M>(
    inputs: Seq<MemberItem<M>>,
    outputs: Seq<MemberItem<M>>,
)
    ensures
        (members_of(inputs) + members_of(outputs)).len() == inputs.len() + outputs.len(),
        forall|k: int|
            0 <= k < inputs.len() ==> (members_of(inputs) + members_of(outputs))[k]
                == (#[trigger] inputs[k]).member,
        forall|k: int|
            0 <= k < outputs.len() ==> (members_of(inputs) + members_of(outputs))[inputs.len() + k]
                == (#[trigger] outputs[k]).member,
{
}

/// Any two results of `ser_member` for the same member hold the same bytes,
/// whichever instances of the group produced them.
pub proof fn lemma_ser_member_deterministic<'a, G: Group>(
    group1: &G,
    group2: &G,
    member1: &G::Member<'a>,
    member2: &G::Member<'a>,
    ser1: G::MemberSer<'a>,
    ser2: G::MemberSer<'a>,
)
    requires
        *member1 == *member2,
        call_ensures(G::ser_member, (group1, member1), ser1),
        call_ensures(G::ser_member, (group2, member2), ser2),
    ensures
        ser1@ == ser2@,
{
}

/// Any two results of `ser_member` for members that compare equal hold the
/// same bytes, whichever instances of the group produced them.
pub proof fn lemma_ser_member_stable<'a, G: Group>(
    group1: &G,
    group2: &G,
    member1: &G::Member<'a>,
    member2: &G::Member<'a>,
    ser1: G::MemberSer<'a>,
    ser2: G::MemberSer<'a>,
)
    requires
        member1.eq_spec(member2),
        call_ensures(G::ser_member, (group1, member1), ser1),
        call_ensures(G::ser_member, (group2, member2), ser2),
    ensures
        ser1@ == ser2@,
{
    G::lemma_equal_members_ser_equal(*member1, *member2);
}

/// Where the order of the members is lawful, two members that it holds equal
/// are stored under the same bytes.
pub proof fn lemma_ser_member_respects_order<'a, G: Group>(a: G::Member<'a>, b: G::Member<'a>)
    requires
        vstd::laws_cmp::obeys_cmp::<G::Member<'a>>(),
        a.cmp_spec(&b) == Ordering::Equal,
    ensures
        G::ser_member_spec(a) == G::ser_member_spec(b),
{
    reveal(vstd::laws_cmp::obeys_cmp_ord);
    reveal(vstd::laws_cmp::obeys_cmp_partial_ord);
    G::lemma_equal_members_ser_equal(a, b);
}

/// A group that finds nothing in the inputs of a query, as a group may for a
/// coinbase, has the members of the outputs and no others.
pub proof fn lemma_members_without_inputs<'a, G: Group>(group: &G, query: GroupQuery<'a>)
    requires
        group.input_members_spec(query).len() == 0,
    ensures
        tx_members_spec(group, query) == members_of(group.output_members_spec(query)),
{
}

/// A group that ignores the coinbase flag has the same members for a tx
/// whatever the flag says.
pub proof fn lemma_members_ignore_coinbase<'a, G: Group>(group: &G, tx: &'a Tx)
    requires
        ignores_coinbase(group),
    ensures
        tx_members_spec(group, GroupQuery { is_coinbase: true, tx }) == tx_members_spec(
            group,
            GroupQuery { is_coinbase: false, tx },
        ),
{
}

} // verus!
