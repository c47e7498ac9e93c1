use little_squid_cli::config::Dataset;
use little_squid_cli::extract::{extract_columns, Column, ColumnData};
use little_squid_cli::fields::{create_field_data, CoercionError, FieldData, FieldError};
use little_squid_cli::json::{JsonNumber, JsonValue};
use little_squid_cli::summaries::{_get_other_available_fields, get_dataset_string, get_field_type};
use little_squid_cli::utils::sizeof_val;

fn uint(n: u64) -> JsonValue {
    JsonValue::Num(JsonNumber {
        as_uint: Some(n),
        trunc: n,
    })
}

fn float_trunc(t: u64) -> JsonValue {
    JsonValue::Num(JsonNumber {
        as_uint: None,
        trunc: t,
    })
}

fn s(x: &str) -> JsonValue {
    JsonValue::Str(x.to_owned())
}

fn obj(entries: Vec<(&str, JsonValue)>) -> JsonValue {
    JsonValue::Obj(
        entries
            .into_iter()
            .map(|(k, v)| (k.to_owned(), v))
            .collect(),
    )
}

fn u64_column(cols: &[Column], name: &str) -> Vec<u64> {
    for c in cols {
        if c.name == name {
            match &c.data {
                ColumnData::U64s(v) => return v.clone(),
                _ => panic!("column {} holds the wrong kind", name),
            }
        }
    }
    panic!("column {} is missing", name);
}

fn str_column(cols: &[Column], name: &str) -> Vec<String> {
    for c in cols {
        if c.name == name {
            match &c.data {
                ColumnData::Strs(v) => return v.clone(),
                _ => panic!("column {} holds the wrong kind", name),
            }
        }
    }
    panic!("column {} is missing", name);
}

#[test]
fn unknown_field_fails_before_extraction() {
    let r = extract_columns(Dataset::Blocks, &vec!["nope".to_owned()], &vec![]);
    match r {
        Err(FieldError::FieldNotFound(f)) => assert_eq!(f, "nope"),
        Ok(_) => panic!("an unknown field must be rejected"),
    }
    assert!(matches!(
        create_field_data("gas", Dataset::Blocks),
        Err(FieldError::FieldNotFound(_))
    ));
    assert!(matches!(
        create_field_data("gas", Dataset::Transactions),
        Ok(FieldData::TransactionsData(_))
    ));
    // On the Transactions allowlist, but outside the extraction schema.
    assert!(matches!(
        create_field_data("blockHash", Dataset::Transactions),
        Err(FieldError::FieldNotFound(_))
    ));
}

#[test]
fn blocks_header_extraction() {
    let header = obj(vec![
        ("number", uint(100)),
        ("timestamp", float_trunc(1600000000)),
        ("gasUsed", s("0x5208")),
    ]);
    let record = obj(vec![("header", header)]);
    let fields = vec![
        "number".to_owned(),
        "timestamp".to_owned(),
        "gasUsed".to_owned(),
    ];
    let cols = extract_columns(Dataset::Blocks, &fields, &vec![record]).unwrap();
    assert_eq!(cols.len(), 3);
    assert_eq!(u64_column(&cols, "number"), vec![100]);
    assert_eq!(u64_column(&cols, "timestamp"), vec![1600000000]);
    assert_eq!(u64_column(&cols, "gasUsed"), vec![21000]);
}

#[test]
fn strict_values_are_skipped_on_mismatch() {
    // Two records: one good hash, one with a number where a string is owed.
    let r1 = obj(vec![("header", obj(vec![("hash", s("0xaa")), ("number", uint(1))]))]);
    let r2 = obj(vec![("header", obj(vec![("hash", uint(7)), ("number", uint(2))]))]);
    let fields = vec!["hash".to_owned(), "number".to_owned()];
    let cols = extract_columns(Dataset::Blocks, &fields, &vec![r1, r2]).unwrap();
    // The bad hash is dropped; the numbers both land.
    assert_eq!(str_column(&cols, "hash"), vec!["0xaa".to_owned()]);
    assert_eq!(u64_column(&cols, "number"), vec![1, 2]);
}

#[test]
fn bad_hex_is_skipped() {
    let r1 = obj(vec![("header", obj(vec![("gasUsed", s("zz"))]))]);
    let r2 = obj(vec![("header", obj(vec![("gasUsed", s("0x10"))]))]);
    let cols =
        extract_columns(Dataset::Blocks, &vec!["gasUsed".to_owned()], &vec![r1, r2]).unwrap();
    assert_eq!(u64_column(&cols, "gasUsed"), vec![16]);
}

#[test]
fn lenient_fields_substitute_defaults() {
    let header = obj(vec![("baseFeePerGas", s("not a number"))]);
    let record = obj(vec![("header", header)]);
    let cols = extract_columns(
        Dataset::Blocks,
        &vec!["baseFeePerGas".to_owned()],
        &vec![record],
    )
    .unwrap();
    assert_eq!(u64_column(&cols, "baseFeePerGas"), vec![0]);

    let tx = obj(vec![
        ("to", uint(5)),
        ("value", s("0x1")),
        ("maxFeePerGas", s("oops")),
        ("v", float_trunc(3)),
    ]);
    let record = obj(vec![("transactions", JsonValue::Arr(vec![tx]))]);
    let fields = vec![
        "to".to_owned(),
        "value".to_owned(),
        "maxFeePerGas".to_owned(),
        "v".to_owned(),
    ];
    let cols = extract_columns(Dataset::Transactions, &fields, &vec![record]).unwrap();
    assert_eq!(str_column(&cols, "to"), vec!["".to_owned()]);
    assert_eq!(str_column(&cols, "value"), vec!["0x1".to_owned()]);
    assert_eq!(u64_column(&cols, "maxFeePerGas"), vec![0]);
    // A number without an exact unsigned reading still defaults to zero.
    assert_eq!(u64_column(&cols, "v"), vec![0]);
}

#[test]
fn topics_reject_mixed_arrays_and_drop_empty_lists() {
    let log_good = obj(vec![(
        "topics",
        JsonValue::Arr(vec![s("0xt1"), s("0xt2")]),
    )]);
    let log_mixed = obj(vec![("topics", JsonValue::Arr(vec![s("0xt3"), uint(9)]))]);
    let log_empty = obj(vec![("topics", JsonValue::Arr(vec![]))]);
    let record = obj(vec![(
        "logs",
        JsonValue::Arr(vec![log_good, log_mixed, log_empty]),
    )]);
    let cols =
        extract_columns(Dataset::Logs, &vec!["topics".to_owned()], &vec![record]).unwrap();
    assert_eq!(cols.len(), 1);
    match &cols[0].data {
        ColumnData::Lists(v) => {
            // The mixed array is skipped whole; the empty list is filtered out.
            assert_eq!(v, &vec![vec!["0xt1".to_owned(), "0xt2".to_owned()]]);
        }
        _ => panic!("topics must be a list column"),
    }
}

#[test]
fn logs_empty_columns_are_dropped() {
    let log = obj(vec![("address", s("0xabc"))]);
    let record = obj(vec![("logs", JsonValue::Arr(vec![log]))]);
    let fields = vec!["address".to_owned(), "data".to_owned()];
    let cols = extract_columns(Dataset::Logs, &fields, &vec![record]).unwrap();
    // No record carried `data`, so only `address` comes out.
    assert_eq!(cols.len(), 1);
    assert_eq!(str_column(&cols, "address"), vec!["0xabc".to_owned()]);
}

#[test]
fn coercion_error_variants() {
    let mut hash = create_field_data("hash", Dataset::Blocks).unwrap();
    assert_eq!(hash.add_value(&uint(1)), Err(CoercionError::ExpectedString));
    assert_eq!(hash.add_value(&s("0xaa")), Ok(()));

    let mut number = create_field_data("number", Dataset::Blocks).unwrap();
    assert_eq!(number.add_value(&s("7")), Err(CoercionError::ExpectedU64));
    assert_eq!(
        number.add_value(&float_trunc(7)),
        Err(CoercionError::ExpectedU64)
    );

    let mut timestamp = create_field_data("timestamp", Dataset::Blocks).unwrap();
    assert_eq!(
        timestamp.add_value(&s("now")),
        Err(CoercionError::ExpectedNumber)
    );
    assert_eq!(timestamp.add_value(&float_trunc(9)), Ok(()));

    let mut gas_used = create_field_data("gasUsed", Dataset::Blocks).unwrap();
    assert_eq!(gas_used.add_value(&s("zz")), Err(CoercionError::BadHex));
    assert_eq!(gas_used.add_value(&uint(3)), Err(CoercionError::ExpectedString));

    let mut topics = create_field_data("topics", Dataset::Logs).unwrap();
    assert_eq!(topics.add_value(&s("t")), Err(CoercionError::ExpectedArray));
    assert_eq!(
        topics.add_value(&JsonValue::Arr(vec![s("a"), uint(1)])),
        Err(CoercionError::ExpectedStringInArray)
    );
    assert_eq!(topics.add_value(&JsonValue::Arr(vec![s("a")])), Ok(()));

    let mut wrong = create_field_data("hash", Dataset::Blocks).unwrap();
    assert_eq!(
        wrong.add_logs_value(&s("x")),
        Err(CoercionError::WrongDataset)
    );
    assert_eq!(
        wrong.add_transactions_value(&s("x")),
        Err(CoercionError::WrongDataset)
    );
}

#[test]
fn size_estimates() {
    assert_eq!(sizeof_val(&JsonValue::Null), 32);
    assert_eq!(sizeof_val(&uint(7)), 32);
    assert_eq!(sizeof_val(&s("ab")), 34);
    assert_eq!(sizeof_val(&JsonValue::Arr(vec![JsonValue::Null])), 64);
    // An object entry costs its fixed overhead plus key length plus value.
    assert_eq!(sizeof_val(&obj(vec![("k", JsonValue::Null)])), 32 + 48 + 1 + 32);
}

#[test]
fn field_types_and_dataset_strings() {
    assert_eq!(get_field_type(Dataset::Blocks, &"timestamp".to_owned()), "number");
    assert_eq!(get_field_type(Dataset::Blocks, &"miner".to_owned()), "string");
    assert_eq!(get_field_type(Dataset::Logs, &"topics".to_owned()), "array");
    assert_eq!(get_field_type(Dataset::Logs, &"removed".to_owned()), "boolean");
    assert_eq!(get_field_type(Dataset::Transactions, &"whatever".to_owned()), "unknown");
    assert_eq!(get_dataset_string(Dataset::Blocks), "Blocks");
    assert_eq!(get_dataset_string(Dataset::Logs), "Logs");
}

#[test]
fn other_available_fields_excludes_requested() {
    let others = _get_other_available_fields(
        Dataset::Transactions,
        &vec!["hash".to_owned(), "to".to_owned()],
    );
    assert_eq!(
        others,
        vec![
            "from".to_owned(),
            "input".to_owned(),
            "nonce".to_owned(),
            "value".to_owned(),
            "v".to_owned(),
            "r".to_owned(),
            "s".to_owned(),
        ]
    );
}
