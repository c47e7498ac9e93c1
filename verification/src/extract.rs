//! Schema-driven extraction: raw records in, one typed column per requested
//! field out. Blocks fields are read off each record's `header`; Transactions
//! and Logs fields are read off every element of the record's nested list. A
//! value that fails its coercion rule is skipped, never fatal.

use vstd::prelude::*;

use crate::config::Dataset;
use crate::fields::{
    create_field_data, spec_coerce_step, spec_empty_for, spec_rule_of, view_lists, view_strs,
    BlockFieldData, ColView, FieldData, FieldError, LogFieldData, Rule, TransactionsFieldData,
};
use crate::json::JsonValue;

verus! {

/// One extracted column's values.
#[derive(Debug)]
pub enum ColumnData {
    U64s(Vec<u64>),
    Strs(Vec<String>),
    Lists(Vec<Vec<String>>),
}

/// One extracted column: the field it answers for and its values.
#[derive(Debug)]
pub struct Column {
    pub name: String,
    pub data: ColumnData,
}

impl View for ColumnData {
    type V = ColView;

    open spec fn view(&self) -> ColView {
        match self {
            ColumnData::U64s(v) => ColView::U64s(v@),
            ColumnData::Strs(v) => ColView::Strs(view_strs(v@)),
            ColumnData::Lists(v) => ColView::Lists(view_lists(v@)),
        }
    }
}

impl View for Column {
    type V = (Seq<char>, ColView);

    open spec fn view(&self) -> (Seq<char>, ColView) {
        (self.name@, self.data@)
    }
}

/// One nested-list element offered to the buffer: its member `name`, if
/// present, takes a coercion step.
pub open spec fn spec_item_step(rule: Rule, name: Seq<char>, data: ColView, item: JsonValue) -> ColView {
    match item.spec_get(name) {
        Some(v) => spec_coerce_step(rule, data, v),
        None => data,
    }
}

/// A whole nested list folded into the buffer, first element first.
pub open spec fn spec_items_fold(
    rule: Rule,
    name: Seq<char>,
    data: ColView,
    items: Seq<JsonValue>,
) -> ColView
    decreases items.len(),
{
    if items.len() == 0 {
        data
    } else {
        spec_items_fold(rule, name, spec_item_step(rule, name, data, items[0]), items.skip(1))
    }
}

/// One record offered to the buffer. Blocks read the member `name` of the
/// record's `header`; Transactions and Logs fold the record's nested list. A
/// record without the expected shape contributes nothing.
pub open spec fn spec_record_step(
    rule: Rule,
    name: Seq<char>,
    dataset: Dataset,
    data: ColView,
    rec: JsonValue,
) -> ColView {
    match dataset {
        Dataset::Blocks => match rec.spec_get("header"@) {
            Some(h) => match h.spec_get(name) {
                Some(v) => spec_coerce_step(rule, data, v),
                None => data,
            },
            None => data,
        },
        Dataset::Transactions => match rec.spec_get("transactions"@) {
            Some(JsonValue::Arr(items)) => spec_items_fold(rule, name, data, items@),
            _ => data,
        },
        Dataset::Logs => match rec.spec_get("logs"@) {
            Some(JsonValue::Arr(items)) => spec_items_fold(rule, name, data, items@),
            _ => data,
        },
    }
}

/// A whole response's records folded into the buffer, in fetch order.
pub open spec fn spec_process_fold(
    rule: Rule,
    name: Seq<char>,
    dataset: Dataset,
    data: ColView,
    records: Seq<JsonValue>,
) -> ColView
    decreases records.len(),
{
    if records.len() == 0 {
        data
    } else {
        spec_process_fold(
            rule,
            name,
            dataset,
            spec_record_step(rule, name, dataset, data, records[0]),
            records.skip(1),
        )
    }
}

/// Folds every record into one field's buffer. A value that fails its rule is
/// skipped; the buffer's schema entry never changes.
#[verifier::loop_isolation(false)]
pub fn process_records(buffer: &mut FieldData, field: &str, dataset: Dataset, records: &Vec<JsonValue>)
    ensures
        final(buffer).dataset_spec() == old(buffer).dataset_spec(),
        final(buffer).field_name() == old(buffer).field_name(),
        final(buffer).rule() == old(buffer).rule(),
        final(buffer).data() == spec_process_fold(
            old(buffer).rule(),
            field@,
            dataset,
            old(buffer).data(),
            records@,
        ),
{
    let ghost rule = buffer.rule();
    let ghost data0 = buffer.data();
    let mut i: usize = 0;
    proof {
        assert(records@.skip(0) =~= records@);
    }
    while i < records.len()
        invariant
            0 <= i <= records@.len(),
            buffer.dataset_spec() == old(buffer).dataset_spec(),
            buffer.field_name() == old(buffer).field_name(),
            buffer.rule() == rule,
            spec_process_fold(rule, field@, dataset, buffer.data(), records@.skip(i as int))
                == spec_process_fold(rule, field@, dataset, data0, records@),
        decreases records@.len() - i,
    {
        let ghost d_rec = buffer.data();
        proof {
            assert(records@.skip(i as int)[0] == records@[i as int]);
            assert(records@.skip(i as int).skip(1) =~= records@.skip(i + 1));
        }
        match dataset {
            Dataset::Blocks => {
                match records[i].get("header") {
                    Some(header) => match header.get(field) {
                        Some(value) => {
                            let _ = buffer.add_value(value);
                        },
                        None => {},
                    },
                    None => {},
                }
            },
            Dataset::Transactions => {
                match records[i].get("transactions") {
                    Some(list) => {
                        process_list_items(buffer, field, list);
                        proof {
                            assert(buffer.data() == spec_record_step(
                                rule,
                                field@,
                                dataset,
                                d_rec,
                                records@[i as int],
                            ));
                        }
                    },
                    None => {},
                }
            },
            Dataset::Logs => {
                match records[i].get("logs") {
                    Some(list) => {
                        process_list_items(buffer, field, list);
                        proof {
                            assert(buffer.data() == spec_record_step(
                                rule,
                                field@,
                                dataset,
                                d_rec,
                                records@[i as int],
                            ));
                        }
                    },
                    None => {},
                }
            },
        }
        i = i + 1;
    }
    proof {
        assert(records@.skip(records@.len() as int) =~= Seq::<JsonValue>::empty());
    }
}

/// Folds one nested list into the buffer; anything but an array contributes
/// nothing.
#[verifier::loop_isolation(false)]
fn process_list_items(buffer: &mut FieldData, field: &str, list: &JsonValue)
    ensures
        final(buffer).dataset_spec() == old(buffer).dataset_spec(),
        final(buffer).field_name() == old(buffer).field_name(),
        final(buffer).rule() == old(buffer).rule(),
        final(buffer).data() == match *list {
            JsonValue::Arr(items) => spec_items_fold(
                old(buffer).rule(),
                field@,
                old(buffer).data(),
                items@,
            ),
            _ => old(buffer).data(),
        },
{
    let ghost rule = buffer.rule();
    let ghost data0 = buffer.data();
    match list.as_array() {
        Some(items) => {
            let mut j: usize = 0;
            proof {
                assert(items@.skip(0) =~= items@);
            }
            while j < items.len()
                invariant
                    0 <= j <= items@.len(),
                    buffer.dataset_spec() == old(buffer).dataset_spec(),
                    buffer.field_name() == old(buffer).field_name(),
                    buffer.rule() == rule,
                    spec_items_fold(rule, field@, buffer.data(), items@.skip(j as int))
                        == spec_items_fold(rule, field@, data0, items@),
                decreases items@.len() - j,
            {
                proof {
                    assert(items@.skip(j as int)[0] == items@[j as int]);
                    assert(items@.skip(j as int).skip(1) =~= items@.skip(j + 1));
                }
                match items[j].get(field) {
                    Some(value) => {
                        let _ = buffer.add_value(value);
                    },
                    None => {},
                }
                j = j + 1;
            }
            proof {
                assert(items@.skip(items@.len() as int) =~= Seq::<JsonValue>::empty());
            }
        },
        None => {},
    }
}

/// Topic lists that kept at least one topic, in order.
pub open spec fn spec_filtered_topics(l: Seq<Seq<Seq<char>>>) -> Seq<Seq<Seq<char>>>
    decreases l.len(),
{
    if l.len() == 0 {
        Seq::empty()
    } else {
        let rest = spec_filtered_topics(l.drop_last());
        if l.last().len() > 0 {
            rest.push(l.last())
        } else {
            rest
        }
    }
}

/// What one buffer contributes to the output: always its column, except that
/// a Logs buffer left empty is dropped, and a topics buffer first drops its
/// empty topic lists.
pub open spec fn spec_column_head(buf: FieldData, name: Seq<char>) -> Seq<(Seq<char>, ColView)> {
    if buf is LogsData {
        match buf.data() {
            ColView::U64s(s) => if s.len() == 0 {
                Seq::empty()
            } else {
                seq![(name, ColView::U64s(s))]
            },
            ColView::Strs(s) => if s.len() == 0 {
                Seq::empty()
            } else {
                seq![(name, ColView::Strs(s))]
            },
            ColView::Lists(l) => {
                let fl = spec_filtered_topics(l);
                if fl.len() == 0 {
                    Seq::empty()
                } else {
                    seq![(name, ColView::Lists(fl))]
                }
            },
        }
    } else {
        seq![(name, buf.data())]
    }
}

/// The output columns of a run of buffers, in field order.
pub open spec fn spec_columns_of(bufs: Seq<FieldData>, names: Seq<Seq<char>>) -> Seq<
    (Seq<char>, ColView),
>
    decreases bufs.len(),
{
    if bufs.len() == 0 {
        Seq::empty()
    } else {
        spec_column_head(bufs[0], names[0]) + spec_columns_of(bufs.skip(1), names.skip(1))
    }
}

fn block_column_data(d: BlockFieldData) -> (r: ColumnData)
    ensures
        r@ == FieldData::BlocksData(d).data(),
{
    match d {
        BlockFieldData::Hash(v) => ColumnData::Strs(v),
        BlockFieldData::Number(v) => ColumnData::U64s(v),
        BlockFieldData::ParentHash(v) => ColumnData::Strs(v),
        BlockFieldData::Timestamp(v) => ColumnData::U64s(v),
        BlockFieldData::Miner(v) => ColumnData::Strs(v),
        BlockFieldData::StateRoot(v) => ColumnData::Strs(v),
        BlockFieldData::TransactionsRoot(v) => ColumnData::Strs(v),
        BlockFieldData::ReceiptsRoot(v) => ColumnData::Strs(v),
        BlockFieldData::GasUsed(v) => ColumnData::U64s(v),
        BlockFieldData::ExtraData(v) => ColumnData::Strs(v),
        BlockFieldData::BaseFeePerGas(v) => ColumnData::U64s(v),
        BlockFieldData::LogsBloom(v) => ColumnData::Strs(v),
        BlockFieldData::TotalDifficulty(v) => ColumnData::U64s(v),
        BlockFieldData::Size(v) => ColumnData::U64s(v),
    }
}

fn transaction_column_data(d: TransactionsFieldData) -> (r: ColumnData)
    ensures
        r@ == FieldData::TransactionsData(d).data(),
{
    match d {
        TransactionsFieldData::Id(v) => ColumnData::Strs(v),
        TransactionsFieldData::TransactionIndex(v) => ColumnData::U64s(v),
        TransactionsFieldData::From(v) => ColumnData::Strs(v),
        TransactionsFieldData::To(v) => ColumnData::Strs(v),
        TransactionsFieldData::Hash(v) => ColumnData::Strs(v),
        TransactionsFieldData::Gas(v) => ColumnData::U64s(v),
        TransactionsFieldData::GasPrice(v) => ColumnData::U64s(v),
        TransactionsFieldData::MaxFeePerGas(v) => ColumnData::U64s(v),
        TransactionsFieldData::MaxPriorityFeePerGas(v) => ColumnData::U64s(v),
        TransactionsFieldData::Input(v) => ColumnData::Strs(v),
        TransactionsFieldData::Nonce(v) => ColumnData::U64s(v),
        TransactionsFieldData::Value(v) => ColumnData::Strs(v),
        TransactionsFieldData::V(v) => ColumnData::U64s(v),
        TransactionsFieldData::R(v) => ColumnData::Strs(v),
        TransactionsFieldData::S(v) => ColumnData::Strs(v),
        TransactionsFieldData::YParity(v) => ColumnData::U64s(v),
        TransactionsFieldData::ChainId(v) => ColumnData::U64s(v),
        TransactionsFieldData::GasUsed(v) => ColumnData::U64s(v),
        TransactionsFieldData::CumulativeGasUsed(v) => ColumnData::U64s(v),
        TransactionsFieldData::EffectiveGasPrice(v) => ColumnData::U64s(v),
        TransactionsFieldData::ContractAddress(v) => ColumnData::Strs(v),
        TransactionsFieldData::Type(v) => ColumnData::U64s(v),
        TransactionsFieldData::Status(v) => ColumnData::U64s(v),
        TransactionsFieldData::Sighash(v) => ColumnData::Strs(v),
    }
}

/// Keeps the topic lists with at least one topic, in order.
#[verifier::loop_isolation(false)]
fn filter_topics(v: Vec<Vec<String>>) -> (r: Vec<Vec<String>>)
    ensures
        view_lists(r@) == spec_filtered_topics(view_lists(v@)),
{
    let ghost l0 = view_lists(v@);
    let mut rest = v;
    let mut kept: Vec<Vec<String>> = Vec::new();
    let ghost mut j: int = 0;
    proof {
        assert(l0.take(0) =~= Seq::<Seq<Seq<char>>>::empty());
        assert(view_lists(kept@) =~= spec_filtered_topics(l0.take(0)));
    }
    while rest.len() > 0
        invariant
            0 <= j <= l0.len(),
            l0.len() == j + rest@.len(),
            view_lists(rest@) =~= l0.skip(j),
            view_lists(kept@) == spec_filtered_topics(l0.take(j)),
        decreases rest@.len(),
    {
        let ghost kept_pre = kept@;
        let ghost rest_pre = rest@;
        let t = rest.remove(0);
        let keep = t.len() > 0;
        if keep {
            kept.push(t);
        }
        proof {
            assert(rest@ =~= rest_pre.skip(1));
            assert(l0.take(j + 1).drop_last() =~= l0.take(j));
            assert(l0.take(j + 1).last() == l0[j]);
            assert(l0.skip(j)[0] == l0[j]);
            assert(l0[j] == view_strs(rest_pre[0]@));
            assert(view_strs(rest_pre[0]@).len() == rest_pre[0]@.len());
            assert(spec_filtered_topics(l0.take(j + 1)) == if l0[j].len() > 0 {
                spec_filtered_topics(l0.take(j)).push(l0[j])
            } else {
                spec_filtered_topics(l0.take(j))
            });
            if keep {
                assert(view_lists(kept@) =~= view_lists(kept_pre).push(view_strs(rest_pre[0]@)));
            }
            assert forall|k: int| 0 <= k < rest@.len() implies view_lists(rest@)[k] == l0.skip(
                j + 1,
            )[k] by {
                assert(rest@[k] == rest_pre[k + 1]);
                assert(view_lists(rest_pre)[k + 1] == view_strs(rest_pre[k + 1]@));
                assert(l0.skip(j)[k + 1] == l0[j + 1 + k]);
                assert(l0.skip(j + 1)[k] == l0[j + 1 + k]);
            }
            assert(view_lists(rest@) =~= l0.skip(j + 1));
            j = j + 1;
        }
    }
    proof {
        assert(l0.take(j) =~= l0);
    }
    kept
}

/// Builds the output columns: one per field in caller order, except that Logs
/// drops empty columns and empty topic lists.
#[verifier::loop_isolation(false)]
pub fn create_columns_from_field_data(field_map: Vec<FieldData>, fields: &Vec<String>) -> (r: Vec<
    Column,
>)
    requires
        field_map@.len() == fields@.len(),
    ensures
        r@.map_values(|c: Column| c@) == spec_columns_of(field_map@, view_strs(fields@)),
{
    let ghost bufs0 = field_map@;
    let ghost names = view_strs(fields@);
    let n = fields.len();
    let mut rest = field_map;
    let mut out: Vec<Column> = Vec::new();
    let mut i: usize = 0;
    proof {
        assert(out@.map_values(|c: Column| c@) =~= Seq::<(Seq<char>, ColView)>::empty());
        assert(rest@ =~= bufs0.skip(0));
        assert(names.skip(0) =~= names);
    }
    while rest.len() > 0
        invariant
            0 <= i <= n,
            n == fields@.len(),
            bufs0.len() == names.len(),
            bufs0.len() == fields@.len(),
            names == view_strs(fields@),
            rest@ == bufs0.skip(i as int),
            i + rest@.len() == bufs0.len(),
            spec_columns_of(bufs0, names) == out@.map_values(|c: Column| c@) + spec_columns_of(
                rest@,
                names.skip(i as int),
            ),
        decreases rest@.len(),
    {
        let ghost out_pre = out@;
        let ghost rest_pre = rest@;
        let fd = rest.remove(0);
        proof {
            assert(rest@ =~= rest_pre.skip(1));
            assert(rest_pre[0] == bufs0[i as int]);
            assert(names.skip(i as int)[0] == names[i as int]);
            assert(names[i as int] == fields@[i as int]@);
            assert(names.skip(i as int).skip(1) =~= names.skip(i + 1));
        }
        match fd {
            FieldData::BlocksData(d) => {
                let data = block_column_data(d);
                out.push(Column { name: fields[i].clone(), data });
                proof {
                    assert(out@.map_values(|c: Column| c@) =~= out_pre.map_values(|c: Column| c@)
                        + spec_column_head(bufs0[i as int], names[i as int]));
                }
            },
            FieldData::TransactionsData(d) => {
                let data = transaction_column_data(d);
                out.push(Column { name: fields[i].clone(), data });
                proof {
                    assert(out@.map_values(|c: Column| c@) =~= out_pre.map_values(|c: Column| c@)
                        + spec_column_head(bufs0[i as int], names[i as int]));
                }
            },
            FieldData::LogsData(d) => {
                match d {
                    LogFieldData::Id(v) => {
                        if v.len() > 0 {
                            out.push(Column { name: fields[i].clone(), data: ColumnData::Strs(v) });
                        }
                    },
                    LogFieldData::LogIndex(v) => {
                        if v.len() > 0 {
                            out.push(Column { name: fields[i].clone(), data: ColumnData::U64s(v) });
                        }
                    },
                    LogFieldData::TransactionIndex(v) => {
                        if v.len() > 0 {
                            out.push(Column { name: fields[i].clone(), data: ColumnData::U64s(v) });
                        }
                    },
                    LogFieldData::TransactionHash(v) => {
                        if v.len() > 0 {
                            out.push(Column { name: fields[i].clone(), data: ColumnData::Strs(v) });
                        }
                    },
                    LogFieldData::Address(v) => {
                        if v.len() > 0 {
                            out.push(Column { name: fields[i].clone(), data: ColumnData::Strs(v) });
                        }
                    },
                    LogFieldData::Data(v) => {
                        if v.len() > 0 {
                            out.push(Column { name: fields[i].clone(), data: ColumnData::Strs(v) });
                        }
                    },
                    LogFieldData::Topics(v) => {
                        let kept = filter_topics(v);
                        if kept.len() > 0 {
                            out.push(
                                Column { name: fields[i].clone(), data: ColumnData::Lists(kept) },
                            );
                        }
                    },
                }
                proof {
                    assert(out@.map_values(|c: Column| c@) =~= out_pre.map_values(|c: Column| c@)
                        + spec_column_head(bufs0[i as int], names[i as int]));
                }
            },
        }
        i = i + 1;
    }
    proof {
        assert(rest@ =~= Seq::<FieldData>::empty());
        assert(out@.map_values(|c: Column| c@) =~= out@.map_values(|c: Column| c@) + Seq::<(
            Seq<char>,
            ColView,
        )>::empty());
    }
    out
}

/// The finished contents of one field's column: every record folded into the
/// field's empty buffer under the field's own rule.
pub open spec fn spec_final_data(dataset: Dataset, name: Seq<char>, records: Seq<JsonValue>) -> ColView {
    let rule = spec_rule_of(dataset, name)->Some_0;
    spec_process_fold(rule, name, dataset, spec_empty_for(rule), records)
}

/// What one extracted field contributes to the output, keyed by the dataset:
/// Logs drops empty columns and empty topic lists.
pub open spec fn spec_extract_head(dataset: Dataset, name: Seq<char>, records: Seq<JsonValue>) -> Seq<
    (Seq<char>, ColView),
> {
    let d = spec_final_data(dataset, name, records);
    if dataset is Logs {
        match d {
            ColView::U64s(s) => if s.len() == 0 {
                Seq::empty()
            } else {
                seq![(name, d)]
            },
            ColView::Strs(s) => if s.len() == 0 {
                Seq::empty()
            } else {
                seq![(name, d)]
            },
            ColView::Lists(l) => {
                let fl = spec_filtered_topics(l);
                if fl.len() == 0 {
                    Seq::empty()
                } else {
                    seq![(name, ColView::Lists(fl))]
                }
            },
        }
    } else {
        seq![(name, d)]
    }
}

/// The whole extraction's output: one column per requested field, in caller
/// order, less what Logs drops.
pub open spec fn spec_extracted_columns(
    dataset: Dataset,
    names: Seq<Seq<char>>,
    records: Seq<JsonValue>,
) -> Seq<(Seq<char>, ColView)>
    decreases names.len(),
{
    if names.len() == 0 {
        Seq::empty()
    } else {
        spec_extract_head(dataset, names[0], records) + spec_extracted_columns(
            dataset,
            names.skip(1),
            records,
        )
    }
}

proof fn lemma_columns_agree(
    bufs: Seq<FieldData>,
    names: Seq<Seq<char>>,
    dataset: Dataset,
    records: Seq<JsonValue>,
)
    requires
        bufs.len() == names.len(),
        forall|i: int|
            0 <= i < bufs.len() ==> {
                &&& (#[trigger] bufs[i]).dataset_spec() == dataset
                &&& Some(bufs[i].rule()) == spec_rule_of(dataset, names[i])
                &&& bufs[i].data() == spec_final_data(dataset, names[i], records)
            },
    ensures
        spec_columns_of(bufs, names) == spec_extracted_columns(dataset, names, records),
    decreases bufs.len(),
{
    if bufs.len() > 0 {
        assert(forall|k: int| 0 <= k < bufs.skip(1).len() ==> #[trigger] bufs.skip(1)[k] == bufs[
            k + 1
        ]);
        assert(forall|k: int|
            0 <= k < names.skip(1).len() ==> #[trigger] names.skip(1)[k] == names[k + 1]);
        lemma_columns_agree(bufs.skip(1), names.skip(1), dataset, records);
        assert(spec_column_head(bufs[0], names[0]) == spec_extract_head(dataset, names[0], records));
    }
}

/// Extracts one typed column per requested field from `records`. A field name
/// outside the dataset's schema is rejected before any record is read; a
/// value that fails its field's rule is skipped.
#[verifier::loop_isolation(false)]
pub fn extract_columns(dataset: Dataset, fields: &Vec<String>, records: &Vec<JsonValue>) -> (r:
    Result<Vec<Column>, FieldError>)
    ensures
        r is Ok <==> (forall|i: int|
            0 <= i < fields@.len() ==> spec_rule_of(dataset, (#[trigger] fields@[i])@) is Some),
        r matches Ok(cols) ==> cols@.map_values(|c: Column| c@) == spec_extracted_columns(
            dataset,
            view_strs(fields@),
            records@,
        ),
        r matches Err(e) ==> e matches FieldError::FieldNotFound(f) && exists|i: int|
            0 <= i < fields@.len() && spec_rule_of(dataset, (#[trigger] fields@[i])@) is None && f@
                == fields@[i]@,
{
    let n = fields.len();
    let mut buffers: Vec<FieldData> = Vec::new();
    let mut i: usize = 0;
    while i < n
        invariant
            0 <= i <= n,
            n == fields@.len(),
            buffers@.len() == i,
            forall|j: int|
                0 <= j < i ==> crate::fields::spec_fresh_buffer(
                    #[trigger] buffers@[j],
                    dataset,
                    fields@[j]@,
                ),
        decreases n - i,
    {
        match create_field_data(fields[i].as_str(), dataset) {
            Ok(fd) => {
                buffers.push(fd);
            },
            Err(e) => {
                return Err(e);
            },
        }
        i = i + 1;
    }
    let ghost bufs_fresh = buffers@;
    let mut rest = buffers;
    let mut processed: Vec<FieldData> = Vec::new();
    let mut k: usize = 0;
    while rest.len() > 0
        invariant
            0 <= k <= n,
            n == fields@.len(),
            bufs_fresh.len() == n,
            rest@ == bufs_fresh.skip(k as int),
            k + rest@.len() == n,
            forall|j: int|
                0 <= j < n ==> crate::fields::spec_fresh_buffer(
                    #[trigger] bufs_fresh[j],
                    dataset,
                    fields@[j]@,
                ),
            processed@.len() == k,
            forall|j: int|
                0 <= j < k ==> {
                    &&& (#[trigger] processed@[j]).dataset_spec() == dataset
                    &&& Some(processed@[j].rule()) == spec_rule_of(dataset, fields@[j]@)
                    &&& processed@[j].data() == spec_final_data(dataset, fields@[j]@, records@)
                },
        decreases rest@.len(),
    {
        let ghost rest_pre = rest@;
        let mut fd = rest.remove(0);
        proof {
            assert(rest@ =~= rest_pre.skip(1));
            assert(rest_pre[0] == bufs_fresh[k as int]);
        }
        process_records(&mut fd, fields[k].as_str(), dataset, records);
        processed.push(fd);
        k = k + 1;
    }
    proof {
        assert(rest@ =~= Seq::<FieldData>::empty());
    }
    let ghost done = processed@;
    let cols = create_columns_from_field_data(processed, fields);
    proof {
        assert(forall|j: int|
            0 <= j < done.len() ==> #[trigger] view_strs(fields@)[j] == fields@[j]@);
        lemma_columns_agree(done, view_strs(fields@), dataset, records@);
        assert forall|j: int|
            0 <= j < fields@.len() implies spec_rule_of(dataset, (#[trigger] fields@[j])@)
            is Some by {
            assert(crate::fields::spec_fresh_buffer(bufs_fresh[j], dataset, fields@[j]@));
        }
    }
    Ok(cols)
}

} // verus!
