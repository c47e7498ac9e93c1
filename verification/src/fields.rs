//! Per-dataset field schema: one typed buffer per requested field, and the
//! coercion table that decides how a raw JSON value lands in it. The table is
//! deliberately asymmetric — some fields reject a wrong type, some substitute
//! a default — and is kept exactly as the archive's consumers expect it.

use vstd::prelude::*;

use crate::config::Dataset;
use crate::json::JsonValue;
use crate::utils::{hex_str_to_u64, hex_value, parses_as_hex_u64, str_eq, strip_hex_prefix};

verus! {

/// A typed column buffer, tagged by the dataset it belongs to.
#[derive(Debug)]
pub enum FieldData {
    BlocksData(BlockFieldData),
    TransactionsData(TransactionsFieldData),
    LogsData(LogFieldData),
}

#[derive(Debug)]
pub enum LogFieldData {
    Id(Vec<String>),
    LogIndex(Vec<u64>),
    TransactionIndex(Vec<u64>),
    TransactionHash(Vec<String>),
    Address(Vec<String>),
    Data(Vec<String>),
    Topics(Vec<Vec<String>>),
}

#[derive(Debug)]
pub enum BlockFieldData {
    Hash(Vec<String>),
    Number(Vec<u64>),
    ParentHash(Vec<String>),
    Timestamp(Vec<u64>),
    Miner(Vec<String>),
    StateRoot(Vec<String>),
    TransactionsRoot(Vec<String>),
    ReceiptsRoot(Vec<String>),
    GasUsed(Vec<u64>),
    ExtraData(Vec<String>),
    BaseFeePerGas(Vec<u64>),
    LogsBloom(Vec<String>),
    TotalDifficulty(Vec<u64>),
    Size(Vec<u64>),
}

#[derive(Debug)]
pub enum TransactionsFieldData {
    Id(Vec<String>),
    TransactionIndex(Vec<u64>),
    From(Vec<String>),
    To(Vec<String>),
    Hash(Vec<String>),
    Gas(Vec<u64>),
    GasPrice(Vec<u64>),
    MaxFeePerGas(Vec<u64>),
    MaxPriorityFeePerGas(Vec<u64>),
    Input(Vec<String>),
    Nonce(Vec<u64>),
    Value(Vec<String>),
    V(Vec<u64>),
    R(Vec<String>),
    S(Vec<String>),
    YParity(Vec<u64>),
    ChainId(Vec<u64>),
    GasUsed(Vec<u64>),
    CumulativeGasUsed(Vec<u64>),
    EffectiveGasPrice(Vec<u64>),
    ContractAddress(Vec<String>),
    Type(Vec<u64>),
    Status(Vec<u64>),
    Sighash(Vec<String>),
}

/// A buffer's contents, as a mathematical sequence of the right kind.
pub enum ColView {
    U64s(Seq<u64>),
    Strs(Seq<Seq<char>>),
    Lists(Seq<Seq<Seq<char>>>),
}

/// How a raw value is coerced into its column.
#[derive(PartialEq, Eq, Structural)]
pub enum Rule {
    /// The value must be a string.
    StrictStr,
    /// The value must be a number with an exact unsigned 64-bit reading.
    StrictU64,
    /// The value must be a base-16 string, `0x`-prefixed or not.
    HexU64,
    /// The value must be a number; it is truncated toward zero.
    FloatTrunc,
    /// Any value: a number's unsigned reading, or zero.
    LenientU64,
    /// Any value: the string itself, or the empty string.
    LenientStr,
    /// The value must be an array of strings.
    Topics,
}

/// A value that failed its field's coercion rule, or was handed to a buffer
/// of another dataset.
#[derive(Debug, Clone, Copy, PartialEq, Eq, Structural)]
pub enum CoercionError {
    ExpectedString,
    ExpectedU64,
    ExpectedNumber,
    ExpectedArray,
    ExpectedStringInArray,
    BadHex,
    WrongDataset,
}

/// An unknown field name, reported before any extraction starts.
#[derive(Debug, Clone)]
pub enum FieldError {
    FieldNotFound(String),
}

/// The views of a vector of strings.
pub open spec fn view_strs(v: Seq<String>) -> Seq<Seq<char>> {
    v.map_values(|s: String| s@)
}

/// The views of a vector of string lists.
pub open spec fn view_lists(v: Seq<Vec<String>>) -> Seq<Seq<Seq<char>>> {
    v.map_values(|t: Vec<String>| view_strs(t@))
}

impl LogFieldData {
    pub open spec fn field_name(&self) -> Seq<char> {
        match self {
            LogFieldData::Id(_) => "id"@,
            LogFieldData::LogIndex(_) => "logIndex"@,
            LogFieldData::TransactionIndex(_) => "transactionIndex"@,
            LogFieldData::TransactionHash(_) => "transactionHash"@,
            LogFieldData::Address(_) => "address"@,
            LogFieldData::Data(_) => "data"@,
            LogFieldData::Topics(_) => "topics"@,
        }
    }

    pub open spec fn rule(&self) -> Rule {
        match self {
            LogFieldData::Id(_) => Rule::StrictStr,
            LogFieldData::LogIndex(_) => Rule::StrictU64,
            LogFieldData::TransactionIndex(_) => Rule::StrictU64,
            LogFieldData::TransactionHash(_) => Rule::StrictStr,
            LogFieldData::Address(_) => Rule::StrictStr,
            LogFieldData::Data(_) => Rule::StrictStr,
            LogFieldData::Topics(_) => Rule::Topics,
        }
    }

    pub open spec fn data(&self) -> ColView {
        match self {
            LogFieldData::Id(v) => ColView::Strs(view_strs(v@)),
            LogFieldData::LogIndex(v) => ColView::U64s(v@),
            LogFieldData::TransactionIndex(v) => ColView::U64s(v@),
            LogFieldData::TransactionHash(v) => ColView::Strs(view_strs(v@)),
            LogFieldData::Address(v) => ColView::Strs(view_strs(v@)),
            LogFieldData::Data(v) => ColView::Strs(view_strs(v@)),
            LogFieldData::Topics(v) => ColView::Lists(view_lists(v@)),
        }
    }
}

impl BlockFieldData {
    pub open spec fn field_name(&self) -> Seq<char> {
        match self {
            BlockFieldData::Hash(_) => "hash"@,
            BlockFieldData::Number(_) => "number"@,
            BlockFieldData::ParentHash(_) => "parentHash"@,
            BlockFieldData::Timestamp(_) => "timestamp"@,
            BlockFieldData::Miner(_) => "miner"@,
            BlockFieldData::StateRoot(_) => "stateRoot"@,
            BlockFieldData::TransactionsRoot(_) => "transactionsRoot"@,
            BlockFieldData::ReceiptsRoot(_) => "receiptsRoot"@,
            BlockFieldData::GasUsed(_) => "gasUsed"@,
            BlockFieldData::ExtraData(_) => "extraData"@,
            BlockFieldData::BaseFeePerGas(_) => "baseFeePerGas"@,
            BlockFieldData::LogsBloom(_) => "logsBloom"@,
            BlockFieldData::TotalDifficulty(_) => "totalDifficulty"@,
            BlockFieldData::Size(_) => "size"@,
        }
    }

    pub open spec fn rule(&self) -> Rule {
        match self {
            BlockFieldData::Hash(_) => Rule::StrictStr,
            BlockFieldData::Number(_) => Rule::StrictU64,
            BlockFieldData::ParentHash(_) => Rule::StrictStr,
            BlockFieldData::Timestamp(_) => Rule::FloatTrunc,
            BlockFieldData::Miner(_) => Rule::StrictStr,
            BlockFieldData::StateRoot(_) => Rule::StrictStr,
            BlockFieldData::TransactionsRoot(_) => Rule::StrictStr,
            BlockFieldData::ReceiptsRoot(_) => Rule::StrictStr,
            BlockFieldData::GasUsed(_) => Rule::HexU64,
            BlockFieldData::ExtraData(_) => Rule::StrictStr,
            BlockFieldData::BaseFeePerGas(_) => Rule::LenientU64,
            BlockFieldData::LogsBloom(_) => Rule::StrictStr,
            BlockFieldData::TotalDifficulty(_) => Rule::StrictU64,
            BlockFieldData::Size(_) => Rule::StrictU64,
        }
    }

    pub open spec fn data(&self) -> ColView {
        match self {
            BlockFieldData::Hash(v) => ColView::Strs(view_strs(v@)),
            BlockFieldData::Number(v) => ColView::U64s(v@),
            BlockFieldData::ParentHash(v) => ColView::Strs(view_strs(v@)),
            BlockFieldData::Timestamp(v) => ColView::U64s(v@),
            BlockFieldData::Miner(v) => ColView::Strs(view_strs(v@)),
            BlockFieldData::StateRoot(v) => ColView::Strs(view_strs(v@)),
            BlockFieldData::TransactionsRoot(v) => ColView::Strs(view_strs(v@)),
            BlockFieldData::ReceiptsRoot(v) => ColView::Strs(view_strs(v@)),
            BlockFieldData::GasUsed(v) => ColView::U64s(v@),
            BlockFieldData::ExtraData(v) => ColView::Strs(view_strs(v@)),
            BlockFieldData::BaseFeePerGas(v) => ColView::U64s(v@),
            BlockFieldData::LogsBloom(v) => ColView::Strs(view_strs(v@)),
            BlockFieldData::TotalDifficulty(v) => ColView::U64s(v@),
            BlockFieldData::Size(v) => ColView::U64s(v@),
        }
    }
}

impl TransactionsFieldData {
    pub open spec fn field_name(&self) -> Seq<char> {
        match self {
            TransactionsFieldData::Id(_) => "id"@,
            TransactionsFieldData::TransactionIndex(_) => "transactionIndex"@,
            TransactionsFieldData::From(_) => "from"@,
            TransactionsFieldData::To(_) => "to"@,
            TransactionsFieldData::Hash(_) => "hash"@,
            TransactionsFieldData::Gas(_) => "gas"@,
            TransactionsFieldData::GasPrice(_) => "gasPrice"@,
            TransactionsFieldData::MaxFeePerGas(_) => "maxFeePerGas"@,
            TransactionsFieldData::MaxPriorityFeePerGas(_) => "maxPriorityFeePerGas"@,
            TransactionsFieldData::Input(_) => "input"@,
            TransactionsFieldData::Nonce(_) => "nonce"@,
            TransactionsFieldData::Value(_) => "value"@,
            TransactionsFieldData::V(_) => "v"@,
            TransactionsFieldData::R(_) => "r"@,
            TransactionsFieldData::S(_) => "s"@,
            TransactionsFieldData::YParity(_) => "yParity"@,
            TransactionsFieldData::ChainId(_) => "chainId"@,
            TransactionsFieldData::GasUsed(_) => "gasUsed"@,
            TransactionsFieldData::CumulativeGasUsed(_) => "cumulativeGasUsed"@,
            TransactionsFieldData::EffectiveGasPrice(_) => "effectiveGasPrice"@,
            TransactionsFieldData::ContractAddress(_) => "contractAddress"@,
            TransactionsFieldData::Type(_) => "type"@,
            TransactionsFieldData::Status(_) => "status"@,
            TransactionsFieldData::Sighash(_) => "sighash"@,
        }
    }

    pub open spec fn rule(&self) -> Rule {
        match self {
            TransactionsFieldData::Id(_) => Rule::StrictStr,
            TransactionsFieldData::TransactionIndex(_) => Rule::StrictU64,
            TransactionsFieldData::From(_) => Rule::StrictStr,
            TransactionsFieldData::To(_) => Rule::LenientStr,
            TransactionsFieldData::Hash(_) => Rule::StrictStr,
            TransactionsFieldData::Gas(_) => Rule::StrictU64,
            TransactionsFieldData::GasPrice(_) => Rule::StrictU64,
            TransactionsFieldData::MaxFeePerGas(_) => Rule::LenientU64,
            TransactionsFieldData::MaxPriorityFeePerGas(_) => Rule::LenientU64,
            TransactionsFieldData::Input(_) => Rule::StrictStr,
            TransactionsFieldData::Nonce(_) => Rule::StrictU64,
            TransactionsFieldData::Value(_) => Rule::LenientStr,
            TransactionsFieldData::V(_) => Rule::LenientU64,
            TransactionsFieldData::R(_) => Rule::StrictStr,
            TransactionsFieldData::S(_) => Rule::StrictStr,
            TransactionsFieldData::YParity(_) => Rule::StrictU64,
            TransactionsFieldData::ChainId(_) => Rule::StrictU64,
            TransactionsFieldData::GasUsed(_) => Rule::HexU64,
            TransactionsFieldData::CumulativeGasUsed(_) => Rule::StrictU64,
            TransactionsFieldData::EffectiveGasPrice(_) => Rule::StrictU64,
            TransactionsFieldData::ContractAddress(_) => Rule::StrictStr,
            TransactionsFieldData::Type(_) => Rule::StrictU64,
            TransactionsFieldData::Status(_) => Rule::StrictU64,
            TransactionsFieldData::Sighash(_) => Rule::StrictStr,
        }
    }

    pub open spec fn data(&self) -> ColView {
        match self {
            TransactionsFieldData::Id(v) => ColView::Strs(view_strs(v@)),
            TransactionsFieldData::TransactionIndex(v) => ColView::U64s(v@),
            TransactionsFieldData::From(v) => ColView::Strs(view_strs(v@)),
            TransactionsFieldData::To(v) => ColView::Strs(view_strs(v@)),
            TransactionsFieldData::Hash(v) => ColView::Strs(view_strs(v@)),
            TransactionsFieldData::Gas(v) => ColView::U64s(v@),
            TransactionsFieldData::GasPrice(v) => ColView::U64s(v@),
            TransactionsFieldData::MaxFeePerGas(v) => ColView::U64s(v@),
            TransactionsFieldData::MaxPriorityFeePerGas(v) => ColView::U64s(v@),
            TransactionsFieldData::Input(v) => ColView::Strs(view_strs(v@)),
            TransactionsFieldData::Nonce(v) => ColView::U64s(v@),
            TransactionsFieldData::Value(v) => ColView::Strs(view_strs(v@)),
            TransactionsFieldData::V(v) => ColView::U64s(v@),
            TransactionsFieldData::R(v) => ColView::Strs(view_strs(v@)),
            TransactionsFieldData::S(v) => ColView::Strs(view_strs(v@)),
            TransactionsFieldData::YParity(v) => ColView::U64s(v@),
            TransactionsFieldData::ChainId(v) => ColView::U64s(v@),
            TransactionsFieldData::GasUsed(v) => ColView::U64s(v@),
            TransactionsFieldData::CumulativeGasUsed(v) => ColView::U64s(v@),
            TransactionsFieldData::EffectiveGasPrice(v) => ColView::U64s(v@),
            TransactionsFieldData::ContractAddress(v) => ColView::Strs(view_strs(v@)),
            TransactionsFieldData::Type(v) => ColView::U64s(v@),
            TransactionsFieldData::Status(v) => ColView::U64s(v@),
            TransactionsFieldData::Sighash(v) => ColView::Strs(view_strs(v@)),
        }
    }
}

impl FieldData {
    pub open spec fn dataset_spec(&self) -> Dataset {
        match self {
            FieldData::BlocksData(_) => Dataset::Blocks,
            FieldData::TransactionsData(_) => Dataset::Transactions,
            FieldData::LogsData(_) => Dataset::Logs,
        }
    }

    pub open spec fn field_name(&self) -> Seq<char> {
        match self {
            FieldData::BlocksData(d) => d.field_name(),
            FieldData::TransactionsData(d) => d.field_name(),
            FieldData::LogsData(d) => d.field_name(),
        }
    }

    pub open spec fn rule(&self) -> Rule {
        match self {
            FieldData::BlocksData(d) => d.rule(),
            FieldData::TransactionsData(d) => d.rule(),
            FieldData::LogsData(d) => d.rule(),
        }
    }

    pub open spec fn data(&self) -> ColView {
        match self {
            FieldData::BlocksData(d) => d.data(),
            FieldData::TransactionsData(d) => d.data(),
            FieldData::LogsData(d) => d.data(),
        }
    }
}

/// The string payload of a string value.
pub open spec fn spec_str_payload(v: JsonValue) -> Seq<char> {
    match v {
        JsonValue::Str(s) => s@,
        _ => Seq::empty(),
    }
}

/// The unsigned reading of a number, or zero: the lenient numeric coercion.
pub open spec fn spec_lenient_u64(v: JsonValue) -> u64 {
    match v {
        JsonValue::Num(n) => match n.as_uint {
            Some(u) => u,
            None => 0,
        },
        _ => 0,
    }
}

/// The string payload, or the empty string: the lenient string coercion.
pub open spec fn spec_lenient_str(v: JsonValue) -> Seq<char> {
    match v {
        JsonValue::Str(s) => s@,
        _ => Seq::empty(),
    }
}

/// Every element of a topics array must be a string.
pub open spec fn spec_topics_ok(items: Seq<JsonValue>) -> bool {
    forall|i: int| 0 <= i < items.len() ==> (#[trigger] items[i]) is Str
}

pub open spec fn spec_topics_of(items: Seq<JsonValue>) -> Seq<Seq<char>> {
    items.map_values(|x: JsonValue| spec_str_payload(x))
}

/// Whether `v` satisfies `rule`: exactly the coercion table's strict side.
pub open spec fn spec_coerce_ok(rule: Rule, v: JsonValue) -> bool {
    match rule {
        Rule::StrictStr => v is Str,
        Rule::StrictU64 => v.spec_as_u64() is Some,
        Rule::HexU64 => v matches JsonValue::Str(s) && parses_as_hex_u64(strip_hex_prefix(s@)),
        Rule::FloatTrunc => v is Num,
        Rule::LenientU64 => true,
        Rule::LenientStr => true,
        Rule::Topics => v matches JsonValue::Arr(items) && spec_topics_ok(items@),
    }
}

/// The buffer after one value is offered to it: the coerced value is appended
/// when `v` satisfies `rule`, and the buffer is left alone otherwise.
pub open spec fn spec_coerce_step(rule: Rule, data: ColView, v: JsonValue) -> ColView {
    if !spec_coerce_ok(rule, v) {
        data
    } else {
        match (rule, data) {
            (Rule::StrictStr, ColView::Strs(s)) => ColView::Strs(s.push(spec_str_payload(v))),
            (Rule::StrictU64, ColView::U64s(d)) => ColView::U64s(
                d.push(v.spec_as_u64().unwrap()),
            ),
            (Rule::HexU64, ColView::U64s(d)) => ColView::U64s(
                d.push(hex_value(strip_hex_prefix(spec_str_payload(v))) as u64),
            ),
            (Rule::FloatTrunc, ColView::U64s(d)) => ColView::U64s(
                d.push(v.spec_as_trunc().unwrap()),
            ),
            (Rule::LenientU64, ColView::U64s(d)) => ColView::U64s(d.push(spec_lenient_u64(v))),
            (Rule::LenientStr, ColView::Strs(s)) => ColView::Strs(s.push(spec_lenient_str(v))),
            (Rule::Topics, ColView::Lists(l)) => match v {
                JsonValue::Arr(items) => ColView::Lists(l.push(spec_topics_of(items@))),
                _ => data,
            },
            (_, _) => data,
        }
    }
}

/// One value was folded into the buffer: the tags are unchanged, the contents
/// took one coercion step, and success is exactly the rule's verdict.
pub open spec fn spec_added(pre: FieldData, post: FieldData, v: JsonValue, ok: bool) -> bool {
    &&& post.dataset_spec() == pre.dataset_spec()
    &&& post.field_name() == pre.field_name()
    &&& post.rule() == pre.rule()
    &&& post.data() == spec_coerce_step(pre.rule(), pre.data(), v)
    &&& (ok <==> spec_coerce_ok(pre.rule(), v))
}

fn push_strict_str(vec: &mut Vec<String>, value: &JsonValue) -> (r: Result<(), CoercionError>)
    ensures
        r is Ok <==> (*value) is Str,
        value matches JsonValue::Str(s) ==> view_strs(final(vec)@) == view_strs(old(vec)@).push(s@),
        !((*value) is Str) ==> final(vec)@ == old(vec)@ && r == Err::<(), CoercionError>(
            CoercionError::ExpectedString,
        ),
{
    let ghost vpre = vec@;
    match value.as_str() {
        Some(s) => {
            vec.push(s.to_owned());
            proof {
                assert(view_strs(vec@) =~= view_strs(vpre).push(spec_str_payload(*value)));
            }
            Ok(())
        },
        None => Err(CoercionError::ExpectedString),
    }
}

fn push_strict_u64(vec: &mut Vec<u64>, value: &JsonValue) -> (r: Result<(), CoercionError>)
    ensures
        r is Ok <==> value.spec_as_u64() is Some,
        value.spec_as_u64() matches Some(n) ==> final(vec)@ == old(vec)@.push(n),
        value.spec_as_u64() is None ==> final(vec)@ == old(vec)@ && r == Err::<(), CoercionError>(
            CoercionError::ExpectedU64,
        ),
{
    match value.as_u64() {
        Some(n) => {
            vec.push(n);
            Ok(())
        },
        None => Err(CoercionError::ExpectedU64),
    }
}

fn push_hex_u64(vec: &mut Vec<u64>, value: &JsonValue) -> (r: Result<(), CoercionError>)
    ensures
        r is Ok <==> spec_coerce_ok(Rule::HexU64, *value),
        spec_coerce_ok(Rule::HexU64, *value) ==> final(vec)@ == old(vec)@.push(
            hex_value(strip_hex_prefix(spec_str_payload(*value))) as u64,
        ),
        !spec_coerce_ok(Rule::HexU64, *value) ==> final(vec)@ == old(vec)@,
{
    match value.as_str() {
        Some(s) => match hex_str_to_u64(s) {
            Ok(n) => {
                vec.push(n);
                Ok(())
            },
            Err(_) => Err(CoercionError::BadHex),
        },
        None => Err(CoercionError::ExpectedString),
    }
}

fn push_trunc_u64(vec: &mut Vec<u64>, value: &JsonValue) -> (r: Result<(), CoercionError>)
    ensures
        r is Ok <==> (*value) is Num,
        value.spec_as_trunc() matches Some(t) ==> final(vec)@ == old(vec)@.push(t),
        !((*value) is Num) ==> final(vec)@ == old(vec)@ && r == Err::<(), CoercionError>(
            CoercionError::ExpectedNumber,
        ),
{
    match value.as_trunc_u64() {
        Some(t) => {
            vec.push(t);
            Ok(())
        },
        None => Err(CoercionError::ExpectedNumber),
    }
}

fn push_lenient_u64(vec: &mut Vec<u64>, value: &JsonValue)
    ensures
        final(vec)@ == old(vec)@.push(spec_lenient_u64(*value)),
{
    let n = match value.as_u64() {
        Some(u) => u,
        None => 0,
    };
    vec.push(n);
}

fn push_lenient_str(vec: &mut Vec<String>, value: &JsonValue)
    ensures
        view_strs(final(vec)@) == view_strs(old(vec)@).push(spec_lenient_str(*value)),
{
    let ghost vpre = vec@;
    let s = match value.as_str() {
        Some(x) => x.to_owned(),
        None => String::new(),
    };
    vec.push(s);
    proof {
        assert(view_strs(vec@) =~= view_strs(vpre).push(spec_lenient_str(*value)));
    }
}

#[verifier::loop_isolation(false)]
fn push_topics(vec: &mut Vec<Vec<String>>, value: &JsonValue) -> (r: Result<(), CoercionError>)
    ensures
        r is Ok <==> spec_coerce_ok(Rule::Topics, *value),
        match *value {
            JsonValue::Arr(items) => spec_topics_ok(items@) ==> view_lists(final(vec)@)
                == view_lists(old(vec)@).push(spec_topics_of(items@)),
            _ => true,
        },
        !spec_coerce_ok(Rule::Topics, *value) ==> final(vec)@ == old(vec)@ && r is Err,
{
    let ghost vpre = vec@;
    match value.as_array() {
        Some(arr) => {
            let mut topics: Vec<String> = Vec::new();
            let mut i: usize = 0;
            while i < arr.len()
                invariant
                    0 <= i <= arr@.len(),
                    topics@.len() == i,
                    forall|j: int| 0 <= j < i ==> (#[trigger] arr@[j]) is Str,
                    forall|j: int|
                        0 <= j < i ==> (#[trigger] topics@[j])@ == spec_str_payload(arr@[j]),
                decreases arr@.len() - i,
            {
                match arr[i].as_str() {
                    Some(t) => {
                        topics.push(t.to_owned());
                    },
                    None => {
                        return Err(CoercionError::ExpectedStringInArray);
                    },
                }
                i = i + 1;
            }
            vec.push(topics);
            proof {
                assert(view_lists(vec@) =~~= view_lists(vpre).push(spec_topics_of(arr@)));
            }
            Ok(())
        },
        None => Err(CoercionError::ExpectedArray),
    }
}

impl FieldData {
    /// Offers one raw value to a Blocks buffer; buffers of other datasets
    /// reject it unchanged.
    pub fn add_blocks_value(&mut self, value: &JsonValue) -> (r: Result<(), CoercionError>)
        ensures
            (*old(self)) is BlocksData ==> spec_added(*old(self), *final(self), *value, r is Ok),
            !((*old(self)) is BlocksData) ==> *final(self) == *old(self) && r == Err::<
                (),
                CoercionError,
            >(CoercionError::WrongDataset),
    {
        match self {
            FieldData::BlocksData(data) => match data {
                BlockFieldData::Hash(vec) => push_strict_str(vec, value),
                BlockFieldData::Number(vec) => push_strict_u64(vec, value),
                BlockFieldData::ParentHash(vec) => push_strict_str(vec, value),
                BlockFieldData::Timestamp(vec) => push_trunc_u64(vec, value),
                BlockFieldData::Miner(vec) => push_strict_str(vec, value),
                BlockFieldData::StateRoot(vec) => push_strict_str(vec, value),
                BlockFieldData::TransactionsRoot(vec) => push_strict_str(vec, value),
                BlockFieldData::ReceiptsRoot(vec) => push_strict_str(vec, value),
                BlockFieldData::GasUsed(vec) => push_hex_u64(vec, value),
                BlockFieldData::ExtraData(vec) => push_strict_str(vec, value),
                BlockFieldData::BaseFeePerGas(vec) => {
                    push_lenient_u64(vec, value);
                    Ok(())
                },
                BlockFieldData::LogsBloom(vec) => push_strict_str(vec, value),
                BlockFieldData::TotalDifficulty(vec) => push_strict_u64(vec, value),
                BlockFieldData::Size(vec) => push_strict_u64(vec, value),
            },
            _ => Err(CoercionError::WrongDataset),
        }
    }

    /// Offers one raw value to a Transactions buffer; buffers of other
    /// datasets reject it unchanged.
    pub fn add_transactions_value(&mut self, value: &JsonValue) -> (r: Result<(), CoercionError>)
        ensures
            (*old(self)) is TransactionsData ==> spec_added(
                *old(self),
                *final(self),
                *value,
                r is Ok,
            ),
            !((*old(self)) is TransactionsData) ==> *final(self) == *old(self) && r == Err::<
                (),
                CoercionError,
            >(CoercionError::WrongDataset),
    {
        match self {
            FieldData::TransactionsData(data) => match data {
                TransactionsFieldData::Id(vec) => push_strict_str(vec, value),
                TransactionsFieldData::TransactionIndex(vec) => push_strict_u64(vec, value),
                TransactionsFieldData::From(vec) => push_strict_str(vec, value),
                TransactionsFieldData::To(vec) => {
                    push_lenient_str(vec, value);
                    Ok(())
                },
                TransactionsFieldData::Hash(vec) => push_strict_str(vec, value),
                TransactionsFieldData::Gas(vec) => push_strict_u64(vec, value),
                TransactionsFieldData::GasPrice(vec) => push_strict_u64(vec, value),
                TransactionsFieldData::MaxFeePerGas(vec) => {
                    push_lenient_u64(vec, value);
                    Ok(())
                },
                TransactionsFieldData::MaxPriorityFeePerGas(vec) => {
                    push_lenient_u64(vec, value);
                    Ok(())
                },
                TransactionsFieldData::Input(vec) => push_strict_str(vec, value),
                TransactionsFieldData::Nonce(vec) => push_strict_u64(vec, value),
                TransactionsFieldData::Value(vec) => {
                    push_lenient_str(vec, value);
                    Ok(())
                },
                TransactionsFieldData::V(vec) => {
                    push_lenient_u64(vec, value);
                    Ok(())
                },
                TransactionsFieldData::R(vec) => push_strict_str(vec, value),
                TransactionsFieldData::S(vec) => push_strict_str(vec, value),
                TransactionsFieldData::YParity(vec) => push_strict_u64(vec, value),
                TransactionsFieldData::ChainId(vec) => push_strict_u64(vec, value),
                TransactionsFieldData::GasUsed(vec) => push_hex_u64(vec, value),
                TransactionsFieldData::CumulativeGasUsed(vec) => push_strict_u64(vec, value),
                TransactionsFieldData::EffectiveGasPrice(vec) => push_strict_u64(vec, value),
                TransactionsFieldData::ContractAddress(vec) => push_strict_str(vec, value),
                TransactionsFieldData::Type(vec) => push_strict_u64(vec, value),
                TransactionsFieldData::Status(vec) => push_strict_u64(vec, value),
                TransactionsFieldData::Sighash(vec) => push_strict_str(vec, value),
            },
            _ => Err(CoercionError::WrongDataset),
        }
    }

    /// Offers one raw value to a Logs buffer; buffers of other datasets
    /// reject it unchanged.
    pub fn add_logs_value(&mut self, value: &JsonValue) -> (r: Result<(), CoercionError>)
        ensures
            (*old(self)) is LogsData ==> spec_added(*old(self), *final(self), *value, r is Ok),
            !((*old(self)) is LogsData) ==> *final(self) == *old(self) && r == Err::<
                (),
                CoercionError,
            >(CoercionError::WrongDataset),
    {
        match self {
            FieldData::LogsData(data) => match data {
                LogFieldData::Id(vec) => push_strict_str(vec, value),
                LogFieldData::LogIndex(vec) => push_strict_u64(vec, value),
                LogFieldData::TransactionIndex(vec) => push_strict_u64(vec, value),
                LogFieldData::TransactionHash(vec) => push_strict_str(vec, value),
                LogFieldData::Address(vec) => push_strict_str(vec, value),
                LogFieldData::Data(vec) => push_strict_str(vec, value),
                LogFieldData::Topics(vec) => push_topics(vec, value),
            },
            _ => Err(CoercionError::WrongDataset),
        }
    }

    /// Offers one raw value to this buffer, by its own dataset's rules.
    pub fn add_value(&mut self, value: &JsonValue) -> (r: Result<(), CoercionError>)
        ensures
            spec_added(*old(self), *final(self), *value, r is Ok),
    {
        match self {
            FieldData::BlocksData(_) => self.add_blocks_value(value),
            FieldData::TransactionsData(_) => self.add_transactions_value(value),
            FieldData::LogsData(_) => self.add_logs_value(value),
        }
    }
}

/// The coercion rule for a Blocks field name, or `None` for a name outside
/// the Blocks schema.
pub open spec fn spec_block_rule(name: Seq<char>) -> Option<Rule> {
    if name == "hash"@ {
        Some(Rule::StrictStr)
    } else if name == "number"@ {
        Some(Rule::StrictU64)
    } else if name == "parentHash"@ {
        Some(Rule::StrictStr)
    } else if name == "timestamp"@ {
        Some(Rule::FloatTrunc)
    } else if name == "miner"@ {
        Some(Rule::StrictStr)
    } else if name == "stateRoot"@ {
        Some(Rule::StrictStr)
    } else if name == "transactionsRoot"@ {
        Some(Rule::StrictStr)
    } else if name == "receiptsRoot"@ {
        Some(Rule::StrictStr)
    } else if name == "gasUsed"@ {
        Some(Rule::HexU64)
    } else if name == "extraData"@ {
        Some(Rule::StrictStr)
    } else if name == "baseFeePerGas"@ {
        Some(Rule::LenientU64)
    } else if name == "logsBloom"@ {
        Some(Rule::StrictStr)
    } else if name == "totalDifficulty"@ {
        Some(Rule::StrictU64)
    } else if name == "size"@ {
        Some(Rule::StrictU64)
    } else {
        None
    }
}

/// The coercion rule for a Transactions field name, or `None` for a name
/// outside the Transactions schema.
pub open spec fn spec_transaction_rule(name: Seq<char>) -> Option<Rule> {
    if name == "id"@ {
        Some(Rule::StrictStr)
    } else if name == "transactionIndex"@ {
        Some(Rule::StrictU64)
    } else if name == "from"@ {
        Some(Rule::StrictStr)
    } else if name == "to"@ {
        Some(Rule::LenientStr)
    } else if name == "hash"@ {
        Some(Rule::StrictStr)
    } else if name == "gas"@ {
        Some(Rule::StrictU64)
    } else if name == "gasPrice"@ {
        Some(Rule::StrictU64)
    } else if name == "maxFeePerGas"@ {
        Some(Rule::LenientU64)
    } else if name == "maxPriorityFeePerGas"@ {
        Some(Rule::LenientU64)
    } else if name == "input"@ {
        Some(Rule::StrictStr)
    } else if name == "nonce"@ {
        Some(Rule::StrictU64)
    } else if name == "value"@ {
        Some(Rule::LenientStr)
    } else if name == "v"@ {
        Some(Rule::LenientU64)
    } else if name == "r"@ {
        Some(Rule::StrictStr)
    } else if name == "s"@ {
        Some(Rule::StrictStr)
    } else if name == "yParity"@ {
        Some(Rule::StrictU64)
    } else if name == "chainId"@ {
        Some(Rule::StrictU64)
    } else if name == "gasUsed"@ {
        Some(Rule::HexU64)
    } else if name == "cumulativeGasUsed"@ {
        Some(Rule::StrictU64)
    } else if name == "effectiveGasPrice"@ {
        Some(Rule::StrictU64)
    } else if name == "contractAddress"@ {
        Some(Rule::StrictStr)
    } else if name == "type"@ {
        Some(Rule::StrictU64)
    } else if name == "status"@ {
        Some(Rule::StrictU64)
    } else if name == "sighash"@ {
        Some(Rule::StrictStr)
    } else {
        None
    }
}

/// The coercion rule for a Logs field name, or `None` for a name outside the
/// Logs schema.
pub open spec fn spec_log_rule(name: Seq<char>) -> Option<Rule> {
    if name == "id"@ {
        Some(Rule::StrictStr)
    } else if name == "logIndex"@ {
        Some(Rule::StrictU64)
    } else if name == "transactionIndex"@ {
        Some(Rule::StrictU64)
    } else if name == "transactionHash"@ {
        Some(Rule::StrictStr)
    } else if name == "address"@ {
        Some(Rule::StrictStr)
    } else if name == "data"@ {
        Some(Rule::StrictStr)
    } else if name == "topics"@ {
        Some(Rule::Topics)
    } else {
        None
    }
}

/// The coercion rule a dataset's schema gives to a field name.
pub open spec fn spec_rule_of(dataset: Dataset, name: Seq<char>) -> Option<Rule> {
    match dataset {
        Dataset::Blocks => spec_block_rule(name),
        Dataset::Transactions => spec_transaction_rule(name),
        Dataset::Logs => spec_log_rule(name),
    }
}

/// The empty buffer contents of the kind `rule` appends to.
pub open spec fn spec_empty_for(rule: Rule) -> ColView {
    match rule {
        Rule::StrictStr => ColView::Strs(Seq::empty()),
        Rule::LenientStr => ColView::Strs(Seq::empty()),
        Rule::StrictU64 => ColView::U64s(Seq::empty()),
        Rule::HexU64 => ColView::U64s(Seq::empty()),
        Rule::FloatTrunc => ColView::U64s(Seq::empty()),
        Rule::LenientU64 => ColView::U64s(Seq::empty()),
        Rule::Topics => ColView::Lists(Seq::empty()),
    }
}

/// A fresh buffer carries its schema entry: the dataset, the field name, the
/// name's rule, and no values yet.
pub open spec fn spec_fresh_buffer(fd: FieldData, dataset: Dataset, name: Seq<char>) -> bool {
    &&& fd.dataset_spec() == dataset
    &&& fd.field_name() == name
    &&& Some(fd.rule()) == spec_rule_of(dataset, name)
    &&& fd.data() == spec_empty_for(fd.rule())
}

broadcast proof fn lemma_map_values_of_empty<A, B>(s: Seq<A>, f: spec_fn(A) -> B)
    requires
        s.len() == 0,
    ensures
        #[trigger] s.map_values(f) == Seq::<B>::empty(),
{
    assert(s.map_values(f) =~= Seq::<B>::empty());
}

fn create_block_field_data(field: &str) -> (r: Result<FieldData, FieldError>)
    ensures
        r is Ok <==> spec_block_rule(field@) is Some,
        r matches Ok(fd) ==> spec_fresh_buffer(fd, Dataset::Blocks, field@),
        r matches Err(e) ==> e matches FieldError::FieldNotFound(f) && f@ == field@,
{
    broadcast use lemma_map_values_of_empty;

    if str_eq(field, "hash") {
        Ok(FieldData::BlocksData(BlockFieldData::Hash(Vec::new())))
    } else if str_eq(field, "number") {
        Ok(FieldData::BlocksData(BlockFieldData::Number(Vec::new())))
    } else if str_eq(field, "parentHash") {
        Ok(FieldData::BlocksData(BlockFieldData::ParentHash(Vec::new())))
    } else if str_eq(field, "timestamp") {
        Ok(FieldData::BlocksData(BlockFieldData::Timestamp(Vec::new())))
    } else if str_eq(field, "miner") {
        Ok(FieldData::BlocksData(BlockFieldData::Miner(Vec::new())))
    } else if str_eq(field, "stateRoot") {
        Ok(FieldData::BlocksData(BlockFieldData::StateRoot(Vec::new())))
    } else if str_eq(field, "transactionsRoot") {
        Ok(FieldData::BlocksData(BlockFieldData::TransactionsRoot(Vec::new())))
    } else if str_eq(field, "receiptsRoot") {
        Ok(FieldData::BlocksData(BlockFieldData::ReceiptsRoot(Vec::new())))
    } else if str_eq(field, "gasUsed") {
        Ok(FieldData::BlocksData(BlockFieldData::GasUsed(Vec::new())))
    } else if str_eq(field, "extraData") {
        Ok(FieldData::BlocksData(BlockFieldData::ExtraData(Vec::new())))
    } else if str_eq(field, "baseFeePerGas") {
        Ok(FieldData::BlocksData(BlockFieldData::BaseFeePerGas(Vec::new())))
    } else if str_eq(field, "logsBloom") {
        Ok(FieldData::BlocksData(BlockFieldData::LogsBloom(Vec::new())))
    } else if str_eq(field, "totalDifficulty") {
        Ok(FieldData::BlocksData(BlockFieldData::TotalDifficulty(Vec::new())))
    } else if str_eq(field, "size") {
        Ok(FieldData::BlocksData(BlockFieldData::Size(Vec::new())))
    } else {
        Err(FieldError::FieldNotFound(field.to_owned()))
    }
}

fn create_transaction_field_data(field: &str) -> (r: Result<FieldData, FieldError>)
    ensures
        r is Ok <==> spec_transaction_rule(field@) is Some,
        r matches Ok(fd) ==> spec_fresh_buffer(fd, Dataset::Transactions, field@),
        r matches Err(e) ==> e matches FieldError::FieldNotFound(f) && f@ == field@,
{
    broadcast use lemma_map_values_of_empty;

    if str_eq(field, "id") {
        Ok(FieldData::TransactionsData(TransactionsFieldData::Id(Vec::new())))
    } else if str_eq(field, "transactionIndex") {
        Ok(FieldData::TransactionsData(TransactionsFieldData::TransactionIndex(Vec::new())))
    } else if str_eq(field, "from") {
        Ok(FieldData::TransactionsData(TransactionsFieldData::From(Vec::new())))
    } else if str_eq(field, "to") {
        Ok(FieldData::TransactionsData(TransactionsFieldData::To(Vec::new())))
    } else if str_eq(field, "hash") {
        Ok(FieldData::TransactionsData(TransactionsFieldData::Hash(Vec::new())))
    } else if str_eq(field, "gas") {
        Ok(FieldData::TransactionsData(TransactionsFieldData::Gas(Vec::new())))
    } else if str_eq(field, "gasPrice") {
        Ok(FieldData::TransactionsData(TransactionsFieldData::GasPrice(Vec::new())))
    } else if str_eq(field, "maxFeePerGas") {
        Ok(FieldData::TransactionsData(TransactionsFieldData::MaxFeePerGas(Vec::new())))
    } else if str_eq(field, "maxPriorityFeePerGas") {
        Ok(FieldData::TransactionsData(TransactionsFieldData::MaxPriorityFeePerGas(Vec::new())))
    } else if str_eq(field, "input") {
        Ok(FieldData::TransactionsData(TransactionsFieldData::Input(Vec::new())))
    } else if str_eq(field, "nonce") {
        Ok(FieldData::TransactionsData(TransactionsFieldData::Nonce(Vec::new())))
    } else if str_eq(field, "value") {
        Ok(FieldData::TransactionsData(TransactionsFieldData::Value(Vec::new())))
    } else if str_eq(field, "v") {
        Ok(FieldData::TransactionsData(TransactionsFieldData::V(Vec::new())))
    } else if str_eq(field, "r") {
        Ok(FieldData::TransactionsData(TransactionsFieldData::R(Vec::new())))
    } else if str_eq(field, "s") {
        Ok(FieldData::TransactionsData(TransactionsFieldData::S(Vec::new())))
    } else if str_eq(field, "yParity") {
        Ok(FieldData::TransactionsData(TransactionsFieldData::YParity(Vec::new())))
    } else if str_eq(field, "chainId") {
        Ok(FieldData::TransactionsData(TransactionsFieldData::ChainId(Vec::new())))
    } else if str_eq(field, "gasUsed") {
        Ok(FieldData::TransactionsData(TransactionsFieldData::GasUsed(Vec::new())))
    } else if str_eq(field, "cumulativeGasUsed") {
        Ok(FieldData::TransactionsData(TransactionsFieldData::CumulativeGasUsed(Vec::new())))
    } else if str_eq(field, "effectiveGasPrice") {
        Ok(FieldData::TransactionsData(TransactionsFieldData::EffectiveGasPrice(Vec::new())))
    } else if str_eq(field, "contractAddress") {
        Ok(FieldData::TransactionsData(TransactionsFieldData::ContractAddress(Vec::new())))
    } else if str_eq(field, "type") {
        Ok(FieldData::TransactionsData(TransactionsFieldData::Type(Vec::new())))
    } else if str_eq(field, "status") {
        Ok(FieldData::TransactionsData(TransactionsFieldData::Status(Vec::new())))
    } else if str_eq(field, "sighash") {
        Ok(FieldData::TransactionsData(TransactionsFieldData::Sighash(Vec::new())))
    } else {
        Err(FieldError::FieldNotFound(field.to_owned()))
    }
}

fn create_log_field_data(field: &str) -> (r: Result<FieldData, FieldError>)
    ensures
        r is Ok <==> spec_log_rule(field@) is Some,
        r matches Ok(fd) ==> spec_fresh_buffer(fd, Dataset::Logs, field@),
        r matches Err(e) ==> e matches FieldError::FieldNotFound(f) && f@ == field@,
{
    broadcast use lemma_map_values_of_empty;

    if str_eq(field, "id") {
        Ok(FieldData::LogsData(LogFieldData::Id(Vec::new())))
    } else if str_eq(field, "logIndex") {
        Ok(FieldData::LogsData(LogFieldData::LogIndex(Vec::new())))
    } else if str_eq(field, "transactionIndex") {
        Ok(FieldData::LogsData(LogFieldData::TransactionIndex(Vec::new())))
    } else if str_eq(field, "transactionHash") {
        Ok(FieldData::LogsData(LogFieldData::TransactionHash(Vec::new())))
    } else if str_eq(field, "address") {
        Ok(FieldData::LogsData(LogFieldData::Address(Vec::new())))
    } else if str_eq(field, "data") {
        Ok(FieldData::LogsData(LogFieldData::Data(Vec::new())))
    } else if str_eq(field, "topics") {
        Ok(FieldData::LogsData(LogFieldData::Topics(Vec::new())))
    } else {
        Err(FieldError::FieldNotFound(field.to_owned()))
    }
}

/// Allocates the empty buffer for one requested field of `dataset`; a name
/// outside the dataset's schema is a field-not-found error, raised before any
/// record is read.
pub fn create_field_data(field: &str, dataset: Dataset) -> (r: Result<FieldData, FieldError>)
    ensures
        r is Ok <==> spec_rule_of(dataset, field@) is Some,
        r matches Ok(fd) ==> spec_fresh_buffer(fd, dataset, field@),
        r matches Err(e) ==> e matches FieldError::FieldNotFound(f) && f@ == field@,
{
    match dataset {
        Dataset::Blocks => create_block_field_data(field),
        Dataset::Transactions => create_transaction_field_data(field),
        Dataset::Logs => create_log_field_data(field),
    }
}

} // verus!
