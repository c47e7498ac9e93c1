//! Schema summaries: the display type of a field, the dataset's display name,
//! and the fields a caller did not ask for. The printing itself lives with
//! the program around the library.

use vstd::prelude::*;

use crate::config::{vec_contains_str, Dataset};
use crate::utils::str_eq;

verus! {

/// The display type of a Blocks field name.
pub open spec fn spec_block_field_type(name: Seq<char>) -> Seq<char> {
    if name == "blockHash"@ {
        "string"@
    } else if name == "baseFeePerGas"@ {
        "number"@
    } else if name == "blockNumber"@ {
        "number"@
    } else if name == "miner"@ {
        "string"@
    } else if name == "parentHash"@ {
        "string"@
    } else if name == "timestamp"@ {
        "number"@
    } else if name == "transactions"@ {
        "array"@
    } else if name == "transactionsRoot"@ {
        "string"@
    } else if name == "uncles"@ {
        "array"@
    } else if name == "unclesHash"@ {
        "string"@
    } else if name == "gasUsed"@ {
        "number"@
    } else if name == "gasLimit"@ {
        "number"@
    } else if name == "difficulty"@ {
        "number"@
    } else if name == "totalDifficulty"@ {
        "number"@
    } else if name == "size"@ {
        "number"@
    } else if name == "extraData"@ {
        "string"@
    } else if name == "logsBloom"@ {
        "string"@
    } else if name == "receiptsRoot"@ {
        "string"@
    } else if name == "sha3Uncles"@ {
        "string"@
    } else if name == "stateRoot"@ {
        "string"@
    } else if name == "sealFields"@ {
        "array"@
    } else if name == "hash"@ {
        "string"@
    } else if name == "number"@ {
        "number"@
    } else {
        "unknown"@
    }
}

/// The display type of a Transactions field name.
pub open spec fn spec_transaction_field_type(name: Seq<char>) -> Seq<char> {
    if name == "blockHash"@ {
        "string"@
    } else if name == "blockNumber"@ {
        "number"@
    } else if name == "from"@ {
        "string"@
    } else if name == "gas"@ {
        "number"@
    } else if name == "gasPrice"@ {
        "number"@
    } else if name == "hash"@ {
        "string"@
    } else if name == "input"@ {
        "string"@
    } else if name == "nonce"@ {
        "number"@
    } else if name == "to"@ {
        "string"@
    } else if name == "transactionIndex"@ {
        "number"@
    } else if name == "value"@ {
        "number"@
    } else if name == "v"@ {
        "string"@
    } else if name == "r"@ {
        "string"@
    } else if name == "s"@ {
        "string"@
    } else {
        "unknown"@
    }
}

/// The display type of a Logs field name.
pub open spec fn spec_log_field_type(name: Seq<char>) -> Seq<char> {
    if name == "address"@ {
        "string"@
    } else if name == "blockHash"@ {
        "string"@
    } else if name == "blockNumber"@ {
        "number"@
    } else if name == "data"@ {
        "string"@
    } else if name == "logIndex"@ {
        "number"@
    } else if name == "removed"@ {
        "boolean"@
    } else if name == "topics"@ {
        "array"@
    } else if name == "transactionHash"@ {
        "string"@
    } else if name == "transactionIndex"@ {
        "number"@
    } else {
        "unknown"@
    }
}

pub open spec fn spec_field_type(dataset: Dataset, name: Seq<char>) -> Seq<char> {
    match dataset {
        Dataset::Blocks => spec_block_field_type(name),
        Dataset::Transactions => spec_transaction_field_type(name),
        Dataset::Logs => spec_log_field_type(name),
    }
}

/// The display type of one field of `dataset`; a name the table does not know
/// reads `unknown`.
pub fn get_field_type(dataset: Dataset, field: &String) -> (r: &str)
    ensures
        r@ == spec_field_type(dataset, field@),
{
    match dataset {
        Dataset::Blocks => {
            if str_eq(field.as_str(), "blockHash") {
                "string"
            } else if str_eq(field.as_str(), "baseFeePerGas") {
                "number"
            } else if str_eq(field.as_str(), "blockNumber") {
                "number"
            } else if str_eq(field.as_str(), "miner") {
                "string"
            } else if str_eq(field.as_str(), "parentHash") {
                "string"
            } else if str_eq(field.as_str(), "timestamp") {
                "number"
            } else if str_eq(field.as_str(), "transactions") {
                "array"
            } else if str_eq(field.as_str(), "transactionsRoot") {
                "string"
            } else if str_eq(field.as_str(), "uncles") {
                "array"
            } else if str_eq(field.as_str(), "unclesHash") {
                "string"
            } else if str_eq(field.as_str(), "gasUsed") {
                "number"
            } else if str_eq(field.as_str(), "gasLimit") {
                "number"
            } else if str_eq(field.as_str(), "difficulty") {
                "number"
            } else if str_eq(field.as_str(), "totalDifficulty") {
                "number"
            } else if str_eq(field.as_str(), "size") {
                "number"
            } else if str_eq(field.as_str(), "extraData") {
                "string"
            } else if str_eq(field.as_str(), "logsBloom") {
                "string"
            } else if str_eq(field.as_str(), "receiptsRoot") {
                "string"
            } else if str_eq(field.as_str(), "sha3Uncles") {
                "string"
            } else if str_eq(field.as_str(), "stateRoot") {
                "string"
            } else if str_eq(field.as_str(), "sealFields") {
                "array"
            } else if str_eq(field.as_str(), "hash") {
                "string"
            } else if str_eq(field.as_str(), "number") {
                "number"
            } else {
                "unknown"
            }
        },
        Dataset::Transactions => {
            if str_eq(field.as_str(), "blockHash") {
                "string"
            } else if str_eq(field.as_str(), "blockNumber") {
                "number"
            } else if str_eq(field.as_str(), "from") {
                "string"
            } else if str_eq(field.as_str(), "gas") {
                "number"
            } else if str_eq(field.as_str(), "gasPrice") {
                "number"
            } else if str_eq(field.as_str(), "hash") {
                "string"
            } else if str_eq(field.as_str(), "input") {
                "string"
            } else if str_eq(field.as_str(), "nonce") {
                "number"
            } else if str_eq(field.as_str(), "to") {
                "string"
            } else if str_eq(field.as_str(), "transactionIndex") {
                "number"
            } else if str_eq(field.as_str(), "value") {
                "number"
            } else if str_eq(field.as_str(), "v") {
                "string"
            } else if str_eq(field.as_str(), "r") {
                "string"
            } else if str_eq(field.as_str(), "s") {
                "string"
            } else {
                "unknown"
            }
        },
        Dataset::Logs => {
            if str_eq(field.as_str(), "address") {
                "string"
            } else if str_eq(field.as_str(), "blockHash") {
                "string"
            } else if str_eq(field.as_str(), "blockNumber") {
                "number"
            } else if str_eq(field.as_str(), "data") {
                "string"
            } else if str_eq(field.as_str(), "logIndex") {
                "number"
            } else if str_eq(field.as_str(), "removed") {
                "boolean"
            } else if str_eq(field.as_str(), "topics") {
                "array"
            } else if str_eq(field.as_str(), "transactionHash") {
                "string"
            } else if str_eq(field.as_str(), "transactionIndex") {
                "number"
            } else {
                "unknown"
            }
        },
    }
}

/// The dataset's display name.
pub fn get_dataset_string(dataset: Dataset) -> (r: String)
    ensures
        dataset is Blocks ==> r@ == "Blocks"@,
        dataset is Transactions ==> r@ == "Transactions"@,
        dataset is Logs ==> r@ == "Logs"@,
{
    match dataset {
        Dataset::Blocks => "Blocks".to_owned(),
        Dataset::Transactions => "Transactions".to_owned(),
        Dataset::Logs => "Logs".to_owned(),
    }
}

/// The field names a schema summary may offer for `dataset`.
pub open spec fn spec_available_fields(dataset: Dataset) -> Seq<Seq<char>> {
    match dataset {
        Dataset::Blocks => seq![
            "blockHash"@,
            "blockNumber"@,
            "miner"@,
            "parentHash"@,
            "timestamp"@,
            "transactions"@,
            "transactionsRoot"@,
            "uncles"@,
            "unclesHash"@,
            "gasUsed"@,
            "gasLimit"@,
            "difficulty"@,
            "totalDifficulty"@,
            "size"@,
            "extraData"@,
            "logsBloom"@,
            "receiptsRoot"@,
            "sha3Uncles"@,
            "stateRoot"@,
            "sealFields"@,
            "hash"@,
            "number"@,
        ],
        Dataset::Transactions => seq![
            "from"@,
            "hash"@,
            "input"@,
            "nonce"@,
            "to"@,
            "value"@,
            "v"@,
            "r"@,
            "s"@,
        ],
        Dataset::Logs => seq![
            "address"@,
            "blockHash"@,
            "blockNumber"@,
            "data"@,
            "logIndex"@,
            "topics"@,
            "transactionHash"@,
        ],
    }
}

fn available_fields(dataset: Dataset) -> (r: Vec<String>)
    ensures
        r@.map_values(|s: String| s@) == spec_available_fields(dataset),
{
    match dataset {
        Dataset::Blocks => {
            let r = vec![
                "blockHash".to_owned(),
                "blockNumber".to_owned(),
                "miner".to_owned(),
                "parentHash".to_owned(),
                "timestamp".to_owned(),
                "transactions".to_owned(),
                "transactionsRoot".to_owned(),
                "uncles".to_owned(),
                "unclesHash".to_owned(),
                "gasUsed".to_owned(),
                "gasLimit".to_owned(),
                "difficulty".to_owned(),
                "totalDifficulty".to_owned(),
                "size".to_owned(),
                "extraData".to_owned(),
                "logsBloom".to_owned(),
                "receiptsRoot".to_owned(),
                "sha3Uncles".to_owned(),
                "stateRoot".to_owned(),
                "sealFields".to_owned(),
                "hash".to_owned(),
                "number".to_owned(),
            ];
            assert(r@.map_values(|s: String| s@) =~= spec_available_fields(dataset));
            r
        },
        Dataset::Transactions => {
            let r = vec![
                "from".to_owned(),
                "hash".to_owned(),
                "input".to_owned(),
                "nonce".to_owned(),
                "to".to_owned(),
                "value".to_owned(),
                "v".to_owned(),
                "r".to_owned(),
                "s".to_owned(),
            ];
            assert(r@.map_values(|s: String| s@) =~= spec_available_fields(dataset));
            r
        },
        Dataset::Logs => {
            let r = vec![
                "address".to_owned(),
                "blockHash".to_owned(),
                "blockNumber".to_owned(),
                "data".to_owned(),
                "logIndex".to_owned(),
                "topics".to_owned(),
                "transactionHash".to_owned(),
            ];
            assert(r@.map_values(|s: String| s@) =~= spec_available_fields(dataset));
            r
        },
    }
}

/// The names of `avail` that are not in `requested`, in order.
pub open spec fn spec_other_fields(avail: Seq<Seq<char>>, requested: Seq<Seq<char>>) -> Seq<
    Seq<char>,
>
    decreases avail.len(),
{
    if avail.len() == 0 {
        Seq::empty()
    } else {
        let rest = spec_other_fields(avail.drop_last(), requested);
        if requested.contains(avail.last()) {
            rest
        } else {
            rest.push(avail.last())
        }
    }
}

/// The dataset's summarizable fields that the caller did not request.
#[verifier::loop_isolation(false)]
pub fn _get_other_available_fields(dataset: Dataset, fields: &Vec<String>) -> (r: Vec<String>)
    ensures
        r@.map_values(|s: String| s@) == spec_other_fields(
            spec_available_fields(dataset),
            fields@.map_values(|s: String| s@),
        ),
{
    let avail = available_fields(dataset);
    let ghost av = spec_available_fields(dataset);
    let ghost req = fields@.map_values(|s: String| s@);
    let mut out: Vec<String> = Vec::new();
    let mut i: usize = 0;
    proof {
        assert(av.take(0) =~= Seq::<Seq<char>>::empty());
        assert(out@.map_values(|s: String| s@) =~= spec_other_fields(av.take(0), req));
    }
    while i < avail.len()
        invariant
            0 <= i <= avail@.len(),
            avail@.map_values(|s: String| s@) == av,
            av.len() == avail@.len(),
            req == fields@.map_values(|s: String| s@),
            out@.map_values(|s: String| s@) == spec_other_fields(av.take(i as int), req),
        decreases avail@.len() - i,
    {
        let ghost out_pre = out@;
        proof {
            assert(av[i as int] == avail@[i as int]@);
            assert(av.take(i + 1).drop_last() =~= av.take(i as int));
            assert(av.take(i + 1).last() == av[i as int]);
        }
        if !vec_contains_str(fields, avail[i].as_str()) {
            out.push(avail[i].clone());
            proof {
                assert(out@.map_values(|s: String| s@) =~= out_pre.map_values(|s: String| s@).push(
                    av[i as int],
                ));
            }
        }
        i = i + 1;
    }
    proof {
        assert(av.take(avail@.len() as int) =~= av);
    }
    out
}

} // verus!
