//! Run configuration: dataset, block range, requested fields and option
//! filters, built from raw command-line values.

use vstd::prelude::*;

use crate::utils::{dec_value, parse_u64_dec, parses_as_dec_u64, str_eq};

verus! {

/// A half-open interval `[start, end)` of block numbers.
#[derive(Debug, PartialEq, Eq, Structural, Clone, Copy)]
pub struct Range {
    pub start: u64,
    pub end: u64,
}

/// The three record shapes the archive serves.
#[derive(Debug, PartialEq, Eq, Structural, Clone, Copy)]
pub enum Dataset {
    Blocks,
    Transactions,
    Logs,
}

/// Raw command-line values, before validation.
#[derive(Debug, Clone)]
pub struct Opts {
    pub dataset: Option<String>,
    pub range: Option<String>,
    pub fields: Option<Vec<String>>,
    pub options: Option<Vec<String>>,
}

/// A validated run configuration.
#[derive(Debug, Clone)]
pub struct Config {
    pub dataset: Dataset,
    pub range: Range,
    pub fields: Vec<String>,
    pub options: Vec<(String, Vec<String>)>,
}

/// Why a raw configuration was rejected.
#[derive(Debug, Clone)]
pub enum ConfigError {
    NoDataset,
    InvalidDataset,
    InvalidRange,
    InvalidField(String),
    InvalidOption,
}

pub open spec fn spec_dataset_name(dataset: Dataset) -> Seq<char> {
    match dataset {
        Dataset::Blocks => "blocks"@,
        Dataset::Transactions => "transactions"@,
        Dataset::Logs => "logs"@,
    }
}

pub open spec fn spec_chunk_size(dataset: Dataset) -> u64 {
    match dataset {
        Dataset::Blocks => 10000,
        Dataset::Transactions => 1000,
        Dataset::Logs => 5000,
    }
}

/// The dataset a raw name denotes, if any.
pub open spec fn spec_dataset_of(value: Seq<char>) -> Option<Dataset> {
    if value == "blocks"@ {
        Some(Dataset::Blocks)
    } else if value == "transactions"@ {
        Some(Dataset::Transactions)
    } else if value == "logs"@ {
        Some(Dataset::Logs)
    } else {
        None
    }
}

impl Dataset {
    /// The dataset's name, as the archive spells it.
    pub fn get_name(&self) -> (r: &str)
        ensures
            r@ == spec_dataset_name(*self),
    {
        match self {
            Dataset::Blocks => "blocks",
            Dataset::Transactions => "transactions",
            Dataset::Logs => "logs",
        }
    }

    /// How many blocks one planned sub-range of this dataset spans at most.
    pub fn get_chunk_size(&self) -> (r: u64)
        ensures
            r == spec_chunk_size(*self),
    {
        match self {
            Dataset::Blocks => 10000,
            Dataset::Transactions => 1000,
            Dataset::Logs => 5000,
        }
    }

    /// Maps a dataset name to its dataset; any other name is rejected.
    pub fn try_from(value: String) -> (r: Result<Self, ConfigError>)
        ensures
            r is Ok <==> spec_dataset_of(value@) is Some,
            r matches Ok(d) ==> spec_dataset_of(value@) == Some(d),
            r matches Err(e) ==> e is InvalidDataset,
    {
        if str_eq(value.as_str(), "blocks") {
            Ok(Dataset::Blocks)
        } else if str_eq(value.as_str(), "transactions") {
            Ok(Dataset::Transactions)
        } else if str_eq(value.as_str(), "logs") {
            Ok(Dataset::Logs)
        } else {
            Err(ConfigError::InvalidDataset)
        }
    }
}

/// Maps an optional dataset name to its dataset; a missing or unknown name is
/// rejected.
pub fn get_dataset(dataset: Option<String>) -> (r: Result<Dataset, ConfigError>)
    ensures
        r is Ok <==> (dataset matches Some(s) && spec_dataset_of(s@) is Some),
        r matches Ok(d) ==> (dataset matches Some(s) && spec_dataset_of(s@) == Some(d)),
        r matches Err(e) ==> match dataset {
            Some(s) => spec_dataset_of(s@) is None && e is InvalidDataset,
            None => e is NoDataset,
        },
{
    match dataset {
        Some(d) => Dataset::try_from(d),
        None => Err(ConfigError::NoDataset),
    }
}

/// The index of the first `:` in `s`, or `s.len()` if there is none.
pub open spec fn first_colon_idx(s: Seq<char>) -> int
    decreases s.len(),
{
    if s.len() == 0 {
        0
    } else if s[0] == ':' {
        0
    } else {
        1 + first_colon_idx(s.skip(1))
    }
}

proof fn lemma_first_colon_idx(s: Seq<char>, k: int)
    requires
        0 <= k <= s.len(),
        forall|j: int| 0 <= j < k ==> s[j] != ':',
        k < s.len() ==> s[k] == ':',
    ensures
        first_colon_idx(s) == k,
    decreases k,
{
    if s.len() == 0 {
    } else if k == 0 {
        if s.len() > 0 && s[0] != ':' {
            assert(s[k] == ':');
        }
    } else {
        lemma_first_colon_idx(s.skip(1), k - 1);
    }
}

/// Finds the first `:` in `s`, if any.
fn find_first_colon(s: &str) -> (r: Option<usize>)
    ensures
        match r {
            Some(k) => k == first_colon_idx(s@) && k < s@.len(),
            None => first_colon_idx(s@) == s@.len(),
        },
{
    let n = s.unicode_len();
    let mut i: usize = 0;
    while i < n
        invariant
            0 <= i <= n,
            n == s@.len(),
            forall|j: int| 0 <= j < i ==> s@[j] != ':',
        decreases n - i,
    {
        if s.get_char(i) == ':' {
            proof {
                lemma_first_colon_idx(s@, i as int);
            }
            return Some(i);
        }
        i = i + 1;
    }
    proof {
        lemma_first_colon_idx(s@, n as int);
    }
    None
}

/// The raw range split at its first `:`: both sides of the colon, or the
/// whole string when there is no colon, or the default bounds when the value
/// is absent or empty.
pub open spec fn spec_range_parts(range: Option<String>) -> Seq<Seq<char>> {
    match range {
        None => seq!["1"@, "18000000"@],
        Some(s) => if s@.len() == 0 {
            seq!["1"@, "18000000"@]
        } else {
            let k = first_colon_idx(s@);
            if k == s@.len() {
                seq![s@]
            } else {
                seq![s@.take(k), s@.skip(k + 1)]
            }
        },
    }
}

/// Splits the raw range value into its bound strings; a missing or empty
/// value yields the default bounds.
pub fn get_range(range: Option<String>) -> (r: Result<Vec<String>, ConfigError>)
    ensures
        r matches Ok(parts) && parts@.map_values(|p: String| p@) == spec_range_parts(range),
{
    let default_start = "1";
    let default_end = "18000000";
    match range {
        Some(s) => {
            if s.as_str().unicode_len() == 0 {
                let parts = vec![default_start.to_owned(), default_end.to_owned()];
                assert(parts@.map_values(|p: String| p@) =~= seq!["1"@, "18000000"@]);
                Ok(parts)
            } else {
                match find_first_colon(s.as_str()) {
                    Some(k) => {
                        let n = s.as_str().unicode_len();
                        let left = s.as_str().substring_char(0, k).to_owned();
                        let right = s.as_str().substring_char(k + 1, n).to_owned();
                        let parts = vec![left, right];
                        proof {
                            assert(s@.subrange(0, k as int) =~= s@.take(k as int));
                            assert(s@.subrange(k + 1, n as int) =~= s@.skip(k + 1));
                            assert(parts@.map_values(|p: String| p@) =~= seq![
                                s@.take(k as int),
                                s@.skip(k + 1),
                            ]);
                        }
                        Ok(parts)
                    },
                    None => {
                        let whole = s.as_str().to_owned();
                        let parts = vec![whole];
                        assert(parts@.map_values(|p: String| p@) =~= seq![s@]);
                        Ok(parts)
                    },
                }
            }
        },
        None => {
            let parts = vec![default_start.to_owned(), default_end.to_owned()];
            assert(parts@.map_values(|p: String| p@) =~= seq!["1"@, "18000000"@]);
            Ok(parts)
        },
    }
}

/// The range the bound strings denote: none at all means the default bounds,
/// a single part is malformed, and otherwise both parts must be decimal block
/// numbers.
pub open spec fn spec_range_of(parts: Seq<Seq<char>>) -> Option<Range> {
    if parts.len() == 0 {
        Some(Range { start: 1, end: 18000000 })
    } else if parts.len() == 1 {
        None
    } else if parses_as_dec_u64(parts[0]) && parses_as_dec_u64(parts[1]) {
        Some(Range { start: dec_value(parts[0]) as u64, end: dec_value(parts[1]) as u64 })
    } else {
        None
    }
}

impl Range {
    /// Parses the bound strings produced by [`get_range`]; parts beyond the
    /// first two are ignored.
    pub fn try_from(value: Vec<String>) -> (r: Result<Self, ConfigError>)
        ensures
            match r {
                Ok(rg) => spec_range_of(value@.map_values(|p: String| p@)) == Some(rg),
                Err(e) => spec_range_of(value@.map_values(|p: String| p@)) is None && e
                    is InvalidRange,
            },
    {
        if value.len() == 0 {
            return Ok(Range { start: 1, end: 18000000 });
        }
        if value.len() == 1 {
            return Err(ConfigError::InvalidRange);
        }
        let start = match parse_u64_dec(value[0].as_str()) {
            Ok(v) => v,
            Err(_) => {
                return Err(ConfigError::InvalidRange);
            },
        };
        let end = match parse_u64_dec(value[1].as_str()) {
            Ok(v) => v,
            Err(_) => {
                return Err(ConfigError::InvalidRange);
            },
        };
        Ok(Range { start, end })
    }
}

pub open spec fn is_valid_block_field(name: Seq<char>) -> bool {
    ||| name == "hash"@
    ||| name == "number"@
    ||| name == "parentHash"@
    ||| name == "timestamp"@
    ||| name == "miner"@
    ||| name == "stateRoot"@
    ||| name == "transactionsRoot"@
    ||| name == "receiptsRoot"@
    ||| name == "gasUsed"@
    ||| name == "extraData"@
    ||| name == "baseFeePerGas"@
    ||| name == "logsBloom"@
    ||| name == "totalDifficulty"@
    ||| name == "size"@
}

pub open spec fn is_valid_transaction_field(name: Seq<char>) -> bool {
    ||| name == "id"@
    ||| name == "transactionIndex"@
    ||| name == "from"@
    ||| name == "to"@
    ||| name == "hash"@
    ||| name == "gas"@
    ||| name == "gasPrice"@
    ||| name == "maxFeePerGas"@
    ||| name == "maxPriorityFeePerGas"@
    ||| name == "input"@
    ||| name == "nonce"@
    ||| name == "value"@
    ||| name == "v"@
    ||| name == "r"@
    ||| name == "s"@
    ||| name == "yParity"@
    ||| name == "chainId"@
    ||| name == "gasUsed"@
    ||| name == "cumulativeGasUsed"@
    ||| name == "effectiveGasPrice"@
    ||| name == "contractAddress"@
    ||| name == "type"@
    ||| name == "status"@
    ||| name == "sighash"@
    ||| name == "blockHash"@
    ||| name == "blockNumber"@
    ||| name == "timestamp"@
}

pub open spec fn is_valid_log_field(name: Seq<char>) -> bool {
    ||| name == "transactionHash"@
    ||| name == "logIndex"@
    ||| name == "transactionIndex"@
    ||| name == "address"@
    ||| name == "data"@
    ||| name == "topics"@
}

/// Whether `name` is on `dataset`'s field allowlist.
pub open spec fn spec_field_valid(dataset: Dataset, name: Seq<char>) -> bool {
    match dataset {
        Dataset::Blocks => is_valid_block_field(name),
        Dataset::Transactions => is_valid_transaction_field(name),
        Dataset::Logs => is_valid_log_field(name),
    }
}

fn is_block_field(f: &str) -> (r: bool)
    ensures
        r == is_valid_block_field(f@),
{
    str_eq(f, "hash") || str_eq(f, "number") || str_eq(f, "parentHash") || str_eq(f, "timestamp")
        || str_eq(f, "miner") || str_eq(f, "stateRoot") || str_eq(f, "transactionsRoot") || str_eq(
        f,
        "receiptsRoot",
    ) || str_eq(f, "gasUsed") || str_eq(f, "extraData") || str_eq(f, "baseFeePerGas") || str_eq(
        f,
        "logsBloom",
    ) || str_eq(f, "totalDifficulty") || str_eq(f, "size")
}

fn is_transaction_field(f: &str) -> (r: bool)
    ensures
        r == is_valid_transaction_field(f@),
{
    str_eq(f, "id") || str_eq(f, "transactionIndex") || str_eq(f, "from") || str_eq(f, "to")
        || str_eq(f, "hash") || str_eq(f, "gas") || str_eq(f, "gasPrice") || str_eq(
        f,
        "maxFeePerGas",
    ) || str_eq(f, "maxPriorityFeePerGas") || str_eq(f, "input") || str_eq(f, "nonce") || str_eq(
        f,
        "value",
    ) || str_eq(f, "v") || str_eq(f, "r") || str_eq(f, "s") || str_eq(f, "yParity") || str_eq(
        f,
        "chainId",
    ) || str_eq(f, "gasUsed") || str_eq(f, "cumulativeGasUsed") || str_eq(f, "effectiveGasPrice")
        || str_eq(f, "contractAddress") || str_eq(f, "type") || str_eq(f, "status") || str_eq(
        f,
        "sighash",
    ) || str_eq(f, "blockHash") || str_eq(f, "blockNumber") || str_eq(f, "timestamp")
}

fn is_log_field(f: &str) -> (r: bool)
    ensures
        r == is_valid_log_field(f@),
{
    str_eq(f, "transactionHash") || str_eq(f, "logIndex") || str_eq(f, "transactionIndex")
        || str_eq(f, "address") || str_eq(f, "data") || str_eq(f, "topics")
}

/// All names in `fields` are valid for `dataset`.
pub open spec fn spec_all_fields_valid(dataset: Dataset, fields: Seq<Seq<char>>) -> bool {
    forall|i: int| 0 <= i < fields.len() ==> spec_field_valid(dataset, #[trigger] fields[i])
}

fn verify_fields_for(fields: Vec<String>, dataset: Dataset) -> (r: Result<Vec<String>, ConfigError>)
    ensures
        r is Ok <==> spec_all_fields_valid(dataset, fields@.map_values(|s: String| s@)),
        r matches Ok(v) ==> v@ == fields@,
        r matches Err(e) ==> e matches ConfigError::InvalidField(f) && exists|i: int|
            0 <= i < fields@.len() && !spec_field_valid(dataset, fields@[i]@) && f@ == fields@[i]@,
{
    let ghost names = fields@.map_values(|s: String| s@);
    let mut i: usize = 0;
    while i < fields.len()
        invariant
            0 <= i <= fields@.len(),
            names == fields@.map_values(|s: String| s@),
            forall|j: int| 0 <= j < i ==> spec_field_valid(dataset, #[trigger] names[j]),
        decreases fields@.len() - i,
    {
        let ok = match dataset {
            Dataset::Blocks => is_block_field(fields[i].as_str()),
            Dataset::Transactions => is_transaction_field(fields[i].as_str()),
            Dataset::Logs => is_log_field(fields[i].as_str()),
        };
        if !ok {
            proof {
                assert(names[i as int] == fields@[i as int]@);
                assert(!spec_field_valid(dataset, names[i as int]));
            }
            return Err(ConfigError::InvalidField(fields[i].clone()));
        }
        i = i + 1;
    }
    Ok(fields)
}

/// Checks every name against the Transactions allowlist; the first unknown
/// name is rejected.
pub fn verify_transaction_fields(fields: Vec<String>) -> (r: Result<Vec<String>, ConfigError>)
    ensures
        r is Ok <==> spec_all_fields_valid(Dataset::Transactions, fields@.map_values(|s: String| s@)),
        r matches Ok(v) ==> v@ == fields@,
        r matches Err(e) ==> e is InvalidField,
{
    verify_fields_for(fields, Dataset::Transactions)
}

/// Checks every name against the Blocks allowlist; the first unknown name is
/// rejected.
pub fn verify_block_fields(fields: Vec<String>) -> (r: Result<Vec<String>, ConfigError>)
    ensures
        r is Ok <==> spec_all_fields_valid(Dataset::Blocks, fields@.map_values(|s: String| s@)),
        r matches Ok(v) ==> v@ == fields@,
        r matches Err(e) ==> e is InvalidField,
{
    verify_fields_for(fields, Dataset::Blocks)
}

/// Checks every name against the Logs allowlist; the first unknown name is
/// rejected.
pub fn verify_log_fields(fields: Vec<String>) -> (r: Result<Vec<String>, ConfigError>)
    ensures
        r is Ok <==> spec_all_fields_valid(Dataset::Logs, fields@.map_values(|s: String| s@)),
        r matches Ok(v) ==> v@ == fields@,
        r matches Err(e) ==> e is InvalidField,
{
    verify_fields_for(fields, Dataset::Logs)
}

/// The fields fetched when the caller names none.
pub open spec fn spec_default_fields(dataset: Dataset) -> Seq<Seq<char>> {
    match dataset {
        Dataset::Blocks => seq![
            "hash"@,
            "number"@,
            "timestamp"@,
            "miner"@,
            "gasUsed"@,
            "extraData"@,
            "baseFeePerGas"@,
        ],
        Dataset::Transactions => seq!["hash"@, "from"@, "to"@, "input"@, "value"@],
        Dataset::Logs => seq![
            "transactionHash"@,
            "logIndex"@,
            "transactionIndex"@,
            "address"@,
            "data"@,
            "topics"@,
        ],
    }
}

fn default_fields(dataset: Dataset) -> (r: Vec<String>)
    ensures
        r@.map_values(|s: String| s@) == spec_default_fields(dataset),
{
    match dataset {
        Dataset::Blocks => {
            let r = vec![
                "hash".to_owned(),
                "number".to_owned(),
                "timestamp".to_owned(),
                "miner".to_owned(),
                "gasUsed".to_owned(),
                "extraData".to_owned(),
                "baseFeePerGas".to_owned(),
            ];
            assert(r@.map_values(|s: String| s@) =~= spec_default_fields(dataset));
            r
        },
        Dataset::Transactions => {
            let r = vec![
                "hash".to_owned(),
                "from".to_owned(),
                "to".to_owned(),
                "input".to_owned(),
                "value".to_owned(),
            ];
            assert(r@.map_values(|s: String| s@) =~= spec_default_fields(dataset));
            r
        },
        Dataset::Logs => {
            let r = vec![
                "transactionHash".to_owned(),
                "logIndex".to_owned(),
                "transactionIndex".to_owned(),
                "address".to_owned(),
                "data".to_owned(),
                "topics".to_owned(),
            ];
            assert(r@.map_values(|s: String| s@) =~= spec_default_fields(dataset));
            r
        },
    }
}

/// The field list a raw `fields` value denotes for `dataset`: the given names
/// when there are any and all are on the allowlist, the default list when
/// none are given.
pub open spec fn spec_fields_of(fields: Option<Vec<String>>, dataset: Dataset) -> Option<
    Seq<Seq<char>>,
> {
    match fields {
        Some(fs) => if fs@.len() > 0 {
            if spec_all_fields_valid(dataset, fs@.map_values(|s: String| s@)) {
                Some(fs@.map_values(|s: String| s@))
            } else {
                None
            }
        } else {
            Some(spec_default_fields(dataset))
        },
        None => Some(spec_default_fields(dataset)),
    }
}

/// Validates the caller's field names for `dataset`, or falls back to the
/// dataset's default fields when none are given.
pub fn get_fields(fields: Option<Vec<String>>, dataset: Dataset) -> (r: Result<
    Vec<String>,
    ConfigError,
>)
    ensures
        r is Ok <==> spec_fields_of(fields, dataset) is Some,
        r matches Ok(v) ==> Some(v@.map_values(|s: String| s@)) == spec_fields_of(fields, dataset),
        r matches Err(e) ==> e is InvalidField,
{
    match fields {
        Some(fs) => {
            if fs.len() > 0 {
                verify_fields_for(fs, dataset)
            } else {
                Ok(default_fields(dataset))
            }
        },
        None => Ok(default_fields(dataset)),
    }
}

/// The option keys `dataset` accepts.
pub open spec fn spec_option_keys(dataset: Dataset) -> Seq<Seq<char>> {
    match dataset {
        Dataset::Blocks => seq![""@],
        Dataset::Transactions => seq!["from"@, "to"@, "sighash"@],
        Dataset::Logs => seq!["address"@, "topic0"@, "topic1"@, "topic2"@, "topic3"@],
    }
}

/// The option-key allowlist for `dataset`.
pub fn get_verified_options(dataset: Dataset) -> (r: Option<Vec<String>>)
    ensures
        r matches Some(v) && v@.map_values(|s: String| s@) == spec_option_keys(dataset),
{
    match dataset {
        Dataset::Blocks => {
            let v = vec!["".to_owned()];
            assert(v@.map_values(|s: String| s@) =~= spec_option_keys(dataset));
            Some(v)
        },
        Dataset::Transactions => {
            let v = vec!["from".to_owned(), "to".to_owned(), "sighash".to_owned()];
            assert(v@.map_values(|s: String| s@) =~= spec_option_keys(dataset));
            Some(v)
        },
        Dataset::Logs => {
            let v = vec![
                "address".to_owned(),
                "topic0".to_owned(),
                "topic1".to_owned(),
                "topic2".to_owned(),
                "topic3".to_owned(),
            ];
            assert(v@.map_values(|s: String| s@) =~= spec_option_keys(dataset));
            Some(v)
        },
    }
}

/// The option map as a mathematical sequence of key/values pairs.
pub open spec fn opts_view(m: Seq<(String, Vec<String>)>) -> Seq<(Seq<char>, Seq<Seq<char>>)> {
    m.map_values(|e: (String, Vec<String>)| (e.0@, e.1@.map_values(|s: String| s@)))
}

/// Replaces the values of the first entry with key `k`, or appends a new
/// entry when no entry has that key.
pub open spec fn spec_upsert(
    m: Seq<(Seq<char>, Seq<Seq<char>>)>,
    k: Seq<char>,
    v: Seq<char>,
) -> Seq<(Seq<char>, Seq<Seq<char>>)>
    decreases m.len(),
{
    if m.len() == 0 {
        seq![(k, seq![v])]
    } else if m[0].0 == k {
        seq![(k, seq![v])] + m.skip(1)
    } else {
        seq![m[0]] + spec_upsert(m.skip(1), k, v)
    }
}

proof fn lemma_upsert_at(m: Seq<(Seq<char>, Seq<Seq<char>>)>, k: Seq<char>, v: Seq<char>, i: int)
    requires
        0 <= i < m.len(),
        m[i].0 == k,
        forall|j: int| 0 <= j < i ==> m[j].0 != k,
    ensures
        spec_upsert(m, k, v) =~= m.update(i, (k, seq![v])),
    decreases i,
{
    if i == 0 {
        assert(spec_upsert(m, k, v) =~= m.update(0, (k, seq![v])));
    } else {
        assert(forall|j: int| 0 <= j < i - 1 ==> m.skip(1)[j] == m[j + 1]);
        lemma_upsert_at(m.skip(1), k, v, i - 1);
        assert(spec_upsert(m, k, v) =~= m.update(i, (k, seq![v])));
    }
}

proof fn lemma_upsert_absent(m: Seq<(Seq<char>, Seq<Seq<char>>)>, k: Seq<char>, v: Seq<char>)
    requires
        forall|j: int| 0 <= j < m.len() ==> m[j].0 != k,
    ensures
        spec_upsert(m, k, v) =~= m.push((k, seq![v])),
    decreases m.len(),
{
    if m.len() > 0 {
        assert(forall|j: int| 0 <= j < m.skip(1).len() ==> m.skip(1)[j] == m[j + 1]);
        lemma_upsert_absent(m.skip(1), k, v);
        assert(spec_upsert(m, k, v) =~= m.push((k, seq![v])));
    }
}

/// Stores `value` under `key`, replacing the values of an existing entry with
/// that key.
fn upsert_option(m: &mut Vec<(String, Vec<String>)>, key: String, value: String)
    ensures
        opts_view(final(m)@) == spec_upsert(opts_view(old(m)@), key@, value@),
{
    let ghost m0 = opts_view(old(m)@);
    let mut i: usize = 0;
    while i < m.len()
        invariant
            0 <= i <= m@.len(),
            m@ == old(m)@,
            m0 == opts_view(old(m)@),
            forall|j: int| 0 <= j < i ==> #[trigger] m0[j].0 != key@,
        decreases m@.len() - i,
    {
        proof {
            assert(m0[i as int].0 == m@[i as int].0@);
        }
        if str_eq(m[i].0.as_str(), key.as_str()) {
            m.remove(i);
            m.insert(i, (key, vec![value]));
            proof {
                lemma_upsert_at(m0, key@, value@, i as int);
                assert(opts_view(m@) =~~= m0.update(i as int, (key@, seq![value@])));
            }
            return ;
        }
        i = i + 1;
    }
    m.push((key, vec![value]));
    proof {
        lemma_upsert_absent(m0, key@, value@);
        assert(opts_view(m@) =~~= m0.push((key@, seq![value@])));
    }
}

/// Whether some element of `v` reads `s`.
pub(crate) fn vec_contains_str(v: &Vec<String>, s: &str) -> (r: bool)
    ensures
        r == v@.map_values(|x: String| x@).contains(s@),
{
    let ghost names = v@.map_values(|x: String| x@);
    let mut i: usize = 0;
    while i < v.len()
        invariant
            0 <= i <= v@.len(),
            names == v@.map_values(|x: String| x@),
            forall|j: int| 0 <= j < i ==> #[trigger] names[j] != s@,
        decreases v@.len() - i,
    {
        proof {
            assert(names[i as int] == v@[i as int]@);
        }
        if str_eq(v[i].as_str(), s) {
            return true;
        }
        i = i + 1;
    }
    proof {
        assert(forall|j: int| 0 <= j < names.len() ==> #[trigger] names[j] != s@);
    }
    false
}

/// Folds raw `key:value` option strings into the option map. Empty strings
/// are skipped; a string without a colon or with a key off the allowlist
/// rejects the whole list.
pub open spec fn spec_options_fold(
    m: Seq<(Seq<char>, Seq<Seq<char>>)>,
    os: Seq<Seq<char>>,
    allow: Seq<Seq<char>>,
) -> Option<Seq<(Seq<char>, Seq<Seq<char>>)>>
    decreases os.len(),
{
    if os.len() == 0 {
        Some(m)
    } else {
        let o = os[0];
        if o.len() == 0 {
            spec_options_fold(m, os.skip(1), allow)
        } else {
            let k = first_colon_idx(o);
            if k == o.len() {
                None
            } else if allow.contains(o.take(k)) {
                spec_options_fold(spec_upsert(m, o.take(k), o.skip(k + 1)), os.skip(1), allow)
            } else {
                None
            }
        }
    }
}

/// The option map a raw `options` value denotes for `dataset`: Blocks and an
/// absent or empty list take no options at all.
pub open spec fn spec_options_of(options: Option<Vec<String>>, dataset: Dataset) -> Option<
    Seq<(Seq<char>, Seq<Seq<char>>)>,
> {
    match options {
        None => Some(Seq::empty()),
        Some(os) => if dataset == Dataset::Blocks || os@.len() == 0 {
            Some(Seq::empty())
        } else {
            spec_options_fold(
                Seq::empty(),
                os@.map_values(|s: String| s@),
                spec_option_keys(dataset),
            )
        },
    }
}

/// Validates raw `key:value` option strings against `dataset`'s allowlist and
/// collects them into an option map; a later value for a key replaces an
/// earlier one.
#[verifier::loop_isolation(false)]
pub fn get_options(options: Option<Vec<String>>, dataset: Dataset) -> (r: Result<
    Vec<(String, Vec<String>)>,
    ConfigError,
>)
    ensures
        r is Ok <==> spec_options_of(options, dataset) is Some,
        r matches Ok(m) ==> Some(opts_view(m@)) == spec_options_of(options, dataset),
        r matches Err(e) ==> e is InvalidOption,
{
    match options {
        None => Ok(Vec::new()),
        Some(os) => {
            if matches!(dataset, Dataset::Blocks) || os.len() == 0 {
                return Ok(Vec::new());
            }
            let allow = match get_verified_options(dataset) {
                Some(a) => a,
                None => {
                    return Err(ConfigError::InvalidOption);
                },
            };
            let ghost allow_names = spec_option_keys(dataset);
            let ghost os_names = os@.map_values(|s: String| s@);
            let mut m: Vec<(String, Vec<String>)> = Vec::new();
            let mut i: usize = 0;
            proof {
                assert(opts_view(m@) =~= Seq::<(Seq<char>, Seq<Seq<char>>)>::empty());
                assert(os_names.skip(0) =~= os_names);
            }
            while i < os.len()
                invariant
                    0 <= i <= os@.len(),
                    os_names == os@.map_values(|s: String| s@),
                    allow@.map_values(|s: String| s@) == allow_names,
                    spec_options_fold(Seq::empty(), os_names, allow_names) == spec_options_fold(
                        opts_view(m@),
                        os_names.skip(i as int),
                        allow_names,
                    ),
                decreases os@.len() - i,
            {
                proof {
                    assert(os_names[i as int] == os@[i as int]@);
                    assert(os_names.skip(i as int)[0] == os_names[i as int]);
                    assert(os_names.skip(i as int).skip(1) =~= os_names.skip(i + 1));
                }
                let o = &os[i];
                let n = o.as_str().unicode_len();
                if n > 0 {
                    match find_first_colon(o.as_str()) {
                        None => {
                            proof {
                                assert(os_names.skip(i as int)[0] == o@);
                            }
                            return Err(ConfigError::InvalidOption);
                        },
                        Some(k) => {
                            let key = o.as_str().substring_char(0, k).to_owned();
                            let value = o.as_str().substring_char(k + 1, n).to_owned();
                            proof {
                                assert(o@.subrange(0, k as int) =~= o@.take(k as int));
                                assert(o@.subrange(k + 1, n as int) =~= o@.skip(k + 1));
                            }
                            if !vec_contains_str(&allow, key.as_str()) {
                                return Err(ConfigError::InvalidOption);
                            }
                            upsert_option(&mut m, key, value);
                        },
                    }
                }
                i = i + 1;
            }
            proof {
                assert(os_names.skip(os_names.len() as int) =~= Seq::<Seq<char>>::empty());
            }
            Ok(m)
        },
    }
}

impl Config {
    /// Validates raw command-line values into a configuration: the dataset
    /// name, then the range bounds, then the field names, then the option
    /// filters.
    pub fn try_from(opts: Opts) -> (r: Result<Config, ConfigError>)
        ensures
            match (match opts.dataset {
                Some(s) => spec_dataset_of(s@),
                None => None,
            }) {
                None => r matches Err(e) && (e is NoDataset <==> opts.dataset is None) && (e
                    is InvalidDataset <==> opts.dataset is Some),
                Some(d) => {
                    let rg = spec_range_of(spec_range_parts(opts.range));
                    let fs = spec_fields_of(opts.fields, d);
                    let om = spec_options_of(opts.options, d);
                    match r {
                        Ok(c) => {
                            &&& rg matches Some(rgv) && c.range == rgv
                            &&& fs matches Some(fsv) && c.fields@.map_values(|s: String| s@) == fsv
                            &&& om matches Some(omv) && opts_view(c.options@) == omv
                            &&& c.dataset == d
                        },
                        Err(e) => if rg is None {
                            e is InvalidRange
                        } else if fs is None {
                            e is InvalidField
                        } else {
                            om is None && e is InvalidOption
                        },
                    }
                },
            },
    {
        let dataset = match get_dataset(opts.dataset) {
            Ok(d) => d,
            Err(e) => {
                return Err(e);
            },
        };
        let parts = match get_range(opts.range) {
            Ok(p) => p,
            Err(e) => {
                return Err(e);
            },
        };
        let range = match Range::try_from(parts) {
            Ok(rg) => rg,
            Err(e) => {
                return Err(e);
            },
        };
        let fields = match get_fields(opts.fields, dataset) {
            Ok(f) => f,
            Err(e) => {
                return Err(e);
            },
        };
        let options = match get_options(opts.options, dataset) {
            Ok(o) => o,
            Err(e) => {
                return Err(e);
            },
        };
        Ok(Config { dataset, range, fields, options })
    }
}

} // verus!
