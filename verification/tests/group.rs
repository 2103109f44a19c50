use chronik_db::group::{tx_members_for_group, Group, GroupQuery, MemberItem};
use chronik_db::io::{GroupHistoryConf, GroupUtxoConf};
use chronik_db::script::{ScriptGroup, OP_RETURN};
use chronik_db::tx::{OutPoint, Tx, TxInput, TxOutput};

fn spending(byte: u8, spent_script: Option<&[u8]>) -> TxInput {
    TxInput {
        prev_out: OutPoint { txid: [byte; 32], out_idx: 0 },
        script: vec![0x01, byte],
        sequence: 0xffff_ffff,
        coin: spent_script.map(|script| TxOutput { value: 1000, script: script.to_vec() }),
    }
}

fn paying(value: i64, script: &[u8]) -> TxOutput {
    TxOutput { value, script: script.to_vec() }
}

fn make_tx(inputs: Vec<TxInput>, outputs: Vec<TxOutput>) -> Tx {
    Tx { version: 2, inputs, outputs, locktime: 0 }
}

fn item(idx: usize, member: &Vec<u8>) -> MemberItem<&Vec<u8>> {
    MemberItem { idx, member }
}

const S: [u8; 3] = [0x76, 0xa9, 0x14];
const T: [u8; 2] = [0xa9, 0x14];
const U: [u8; 1] = [0x51];

#[test]
fn test_two_outputs_share_a_script() {
    let s = S.to_vec();
    let t = T.to_vec();
    let u = U.to_vec();
    let tx = make_tx(
        vec![spending(1, Some(&T)), spending(2, Some(&U))],
        vec![paying(10, &S), paying(0, &[OP_RETURN, 0x04, 1, 2, 3, 4]), paying(30, &S)],
    );
    let query = GroupQuery { is_coinbase: false, tx: &tx };
    let group = ScriptGroup;

    assert_eq!(group.output_members(query), vec![item(0, &s), item(2, &s)]);
    assert_eq!(group.input_members(query), vec![item(0, &t), item(1, &u)]);
    assert_eq!(tx_members_for_group(&group, query), vec![&t, &u, &s, &s]);

    let items = group.output_members(query);
    let first = group.ser_member(&items[0].member);
    let second = group.ser_member(&items[1].member);
    assert_eq!(first, &vec![0x76, 0xa9, 0x14]);
    assert_eq!(first, second);
}

#[test]
fn test_members_are_inputs_then_outputs() {
    let tx = make_tx(
        vec![spending(1, Some(&S)), spending(2, None), spending(3, Some(&T))],
        vec![paying(1, &U), paying(2, &T)],
    );
    let group = ScriptGroup;
    for is_coinbase in [false, true] {
        let query = GroupQuery { is_coinbase, tx: &tx };
        let mut expected: Vec<&Vec<u8>> = Vec::new();
        for found in group.input_members(query) {
            expected.push(found.member);
        }
        for found in group.output_members(query) {
            expected.push(found.member);
        }
        assert_eq!(tx_members_for_group(&group, query), expected);
    }
    let query = GroupQuery { is_coinbase: false, tx: &tx };
    assert_eq!(
        tx_members_for_group(&group, query),
        vec![&S.to_vec(), &T.to_vec(), &U.to_vec(), &T.to_vec()],
    );
}

#[test]
fn test_input_without_known_coin_has_no_item() {
    let s = S.to_vec();
    let tx = make_tx(vec![spending(1, None), spending(2, Some(&S)), spending(3, None)], vec![]);
    let query = GroupQuery { is_coinbase: false, tx: &tx };
    assert_eq!(ScriptGroup.input_members(query), vec![item(1, &s)]);
    assert_eq!(ScriptGroup.output_members(query), vec![]);
    assert_eq!(tx_members_for_group(&ScriptGroup, query), vec![&s]);
}

#[test]
fn test_data_output_has_no_item() {
    let u = U.to_vec();
    let empty: Vec<u8> = vec![];
    let tx = make_tx(
        vec![],
        vec![
            paying(0, &[OP_RETURN]),
            paying(5, &U),
            paying(0, &[OP_RETURN, 0x01, 0x00]),
            paying(6, &[]),
        ],
    );
    let query = GroupQuery { is_coinbase: false, tx: &tx };
    assert_eq!(ScriptGroup.output_members(query), vec![item(1, &u), item(3, &empty)]);
    assert_eq!(ScriptGroup.input_members(query), vec![]);
}

#[test]
fn test_script_with_data_marker_inside_is_kept() {
    let script = vec![0x51, OP_RETURN];
    let tx = make_tx(vec![], vec![paying(5, &script)]);
    let query = GroupQuery { is_coinbase: false, tx: &tx };
    assert_eq!(ScriptGroup.output_members(query), vec![item(0, &script)]);
}

#[test]
fn test_two_inputs_share_a_script() {
    let s = S.to_vec();
    let t = T.to_vec();
    let tx = make_tx(
        vec![spending(1, Some(&S)), spending(2, Some(&T)), spending(3, Some(&S))],
        vec![paying(1, &S)],
    );
    let query = GroupQuery { is_coinbase: false, tx: &tx };
    assert_eq!(ScriptGroup.input_members(query), vec![item(0, &s), item(1, &t), item(2, &s)]);
    assert_eq!(tx_members_for_group(&ScriptGroup, query), vec![&s, &t, &s, &s]);
}

#[test]
fn test_coinbase_has_no_input_members() {
    let s = S.to_vec();
    let t = T.to_vec();
    let tx = make_tx(vec![spending(0, Some(&T))], vec![paying(50, &S)]);
    let coinbase = GroupQuery { is_coinbase: true, tx: &tx };
    let other = GroupQuery { is_coinbase: false, tx: &tx };
    assert_eq!(ScriptGroup.input_members(coinbase), vec![]);
    assert_eq!(ScriptGroup.input_members(other), vec![item(0, &t)]);
    assert_eq!(ScriptGroup.output_members(coinbase), vec![item(0, &s)]);
    assert_eq!(ScriptGroup.output_members(coinbase), ScriptGroup.output_members(other));
    assert_eq!(tx_members_for_group(&ScriptGroup, coinbase), vec![&s]);
    assert_eq!(tx_members_for_group(&ScriptGroup, other), vec![&t, &s]);
}

#[test]
fn test_empty_tx_has_no_members() {
    let tx = make_tx(vec![], vec![]);
    for is_coinbase in [false, true] {
        let query = GroupQuery { is_coinbase, tx: &tx };
        assert_eq!(ScriptGroup.input_members(query), vec![]);
        assert_eq!(ScriptGroup.output_members(query), vec![]);
        assert_eq!(tx_members_for_group(&ScriptGroup, query), Vec::<&Vec<u8>>::new());
    }
}

#[test]
fn test_item_places_are_within_the_tx() {
    let tx = make_tx(
        vec![spending(1, None), spending(2, Some(&S)), spending(3, Some(&T))],
        vec![paying(0, &[OP_RETURN]), paying(1, &U), paying(2, &T), paying(3, &S)],
    );
    let query = GroupQuery { is_coinbase: false, tx: &tx };
    for found in ScriptGroup.input_members(query) {
        assert!(found.idx < tx.inputs.len());
        assert_eq!(Some(found.member), tx.inputs[found.idx].coin.as_ref().map(|coin| &coin.script));
    }
    for found in ScriptGroup.output_members(query) {
        assert!(found.idx < tx.outputs.len());
        assert_eq!(found.member, &tx.outputs[found.idx].script);
    }
}

#[test]
fn test_ser_member_is_the_script() {
    let script = vec![0x76, 0xa9, 0x14, 0x00, 0x88, 0xac];
    assert_eq!(ScriptGroup.ser_member(&&script), &vec![0x76, 0xa9, 0x14, 0x00, 0x88, 0xac]);
    let empty: Vec<u8> = vec![];
    assert_eq!(ScriptGroup.ser_member(&&empty), &Vec::<u8>::new());
}

#[test]
fn test_ser_member_repeats() {
    let script = S.to_vec();
    let first = ScriptGroup.ser_member(&&script).clone();
    let second = ScriptGroup.ser_member(&&script).clone();
    assert_eq!(first, second);
}

#[test]
fn test_equal_members_have_equal_bytes() {
    let one = S.to_vec();
    let mut other = Vec::with_capacity(64);
    other.extend_from_slice(&S);
    let (a, b) = (&one, &other);
    assert!(a == b);
    assert_eq!(a.cmp(&b), std::cmp::Ordering::Equal);
    assert_eq!(ScriptGroup.ser_member(&a), ScriptGroup.ser_member(&b));
    let different = T.to_vec();
    assert_ne!(ScriptGroup.ser_member(&a), ScriptGroup.ser_member(&&different));
}

#[test]
fn test_script_group_confs() {
    assert_eq!(
        ScriptGroup::tx_history_conf(),
        GroupHistoryConf {
            cf_page_name: "script_history",
            cf_num_txs_name: "script_history_num_txs",
            page_size: 1000,
        },
    );
    assert_eq!(ScriptGroup::utxo_conf(), GroupUtxoConf { cf_name: "script_utxo" });
    assert_eq!(ScriptGroup::tx_history_conf(), ScriptGroup::tx_history_conf());
    assert_eq!(ScriptGroup::utxo_conf(), ScriptGroup::utxo_conf());
}

#[test]
fn test_member_item_default_and_eq() {
    let default_item: MemberItem<u32> = MemberItem::default();
    assert_eq!(default_item, MemberItem { idx: 0, member: 0 });
    let found = MemberItem { idx: 3, member: 7u32 };
    let copy = found;
    assert_eq!(found, copy);
    assert_ne!(found, MemberItem { idx: 4, member: 7 });
    assert_ne!(found, MemberItem { idx: 3, member: 8 });
    assert_eq!(format!("{:?}", found), "MemberItem { idx: 3, member: 7 }");
}

#[test]
fn test_query_is_a_copyable_view() {
    let tx = make_tx(vec![spending(1, Some(&S))], vec![paying(1, &T)]);
    let query = GroupQuery { is_coinbase: true, tx: &tx };
    let copy = query;
    assert!(query.is_coinbase);
    assert!(copy.is_coinbase);
    assert!(std::ptr::eq(query.tx, copy.tx));
    assert_eq!(copy.tx, &tx);
}
