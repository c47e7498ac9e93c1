use little_squid_cli::config::{
    get_dataset, get_fields, get_options, get_range, get_verified_options, Config, ConfigError,
    Dataset, Opts, Range,
};
use little_squid_cli::utils::{get_percentage, hex_str_to_u64, normalize_progess};

#[test]
fn test_blocks() {
    let opts: Config = Config::try_from(Opts {
        dataset: Some("blocks".to_owned()),
        range: Some("1:10".to_owned()),
        fields: Some(vec!["timestamp".to_owned()]),
        options: Some(vec!["".to_owned()]),
    })
    .unwrap();
    assert_eq!(opts.dataset, Dataset::Blocks);
    assert_eq!(opts.range, Range { start: 1, end: 10 });
    assert_eq!(opts.fields, vec!["timestamp".to_owned()]);
}

#[test]
fn test_block_fields() {
    let opts: Config = Config::try_from(Opts {
        dataset: Some("blocks".to_owned()),
        range: Some("1:10000".to_owned()),
        fields: Some(vec![
            "timestamp".to_owned(),
            "miner".to_owned(),
            "logsBloom".to_owned(),
        ]),
        options: Some(vec!["".to_owned()]),
    })
    .unwrap();
    assert_eq!(opts.dataset, Dataset::Blocks);
    assert_eq!(
        opts.range,
        Range {
            start: 1,
            end: 10000
        }
    );
    assert_eq!(
        opts.fields,
        vec![
            "timestamp".to_owned(),
            "miner".to_owned(),
            "logsBloom".to_owned()
        ]
    );
}

#[test]
fn test_transaction_fields() {
    let opts: Config = Config::try_from(Opts {
        dataset: Some("transactions".to_owned()),
        range: Some("1:10000".to_owned()),
        fields: Some(vec!["id".to_owned(), "from".to_owned(), "to".to_owned()]),
        options: Some(vec!["".to_owned()]),
    })
    .unwrap();
    println!("{:?}", opts);
    assert_eq!(opts.dataset, Dataset::Transactions);
    assert_eq!(
        opts.range,
        Range {
            start: 1,
            end: 10000
        }
    );
    assert_eq!(
        opts.fields,
        vec!["id".to_owned(), "from".to_owned(), "to".to_owned()]
    );
}

#[test]
fn dataset_names_and_chunk_sizes() {
    assert_eq!(Dataset::Blocks.get_name(), "blocks");
    assert_eq!(Dataset::Transactions.get_name(), "transactions");
    assert_eq!(Dataset::Logs.get_name(), "logs");
    assert_eq!(Dataset::Blocks.get_chunk_size(), 10000);
    assert_eq!(Dataset::Transactions.get_chunk_size(), 1000);
    assert_eq!(Dataset::Logs.get_chunk_size(), 5000);
}

#[test]
fn dataset_parsing() {
    assert_eq!(Dataset::try_from("logs".to_owned()).unwrap(), Dataset::Logs);
    assert!(matches!(
        Dataset::try_from("bogus".to_owned()),
        Err(ConfigError::InvalidDataset)
    ));
    assert!(matches!(get_dataset(None), Err(ConfigError::NoDataset)));
    assert_eq!(
        get_dataset(Some("transactions".to_owned())).unwrap(),
        Dataset::Transactions
    );
}

#[test]
fn range_parsing() {
    let parts = get_range(Some("100:200".to_owned())).unwrap();
    assert_eq!(parts, vec!["100".to_owned(), "200".to_owned()]);
    let range = Range::try_from(parts).unwrap();
    assert_eq!(range, Range { start: 100, end: 200 });

    let default_range = Range::try_from(get_range(None).unwrap()).unwrap();
    assert_eq!(
        default_range,
        Range {
            start: 1,
            end: 18000000
        }
    );

    let empty_range = Range::try_from(get_range(Some("".to_owned())).unwrap()).unwrap();
    assert_eq!(
        empty_range,
        Range {
            start: 1,
            end: 18000000
        }
    );

    assert!(matches!(
        Range::try_from(get_range(Some("abc:1".to_owned())).unwrap()),
        Err(ConfigError::InvalidRange)
    ));
    assert!(matches!(
        Range::try_from(get_range(Some("17".to_owned())).unwrap()),
        Err(ConfigError::InvalidRange)
    ));
}

#[test]
fn default_fields_when_none_are_given() {
    let fields = get_fields(None, Dataset::Blocks).unwrap();
    assert_eq!(
        fields,
        vec![
            "hash".to_owned(),
            "number".to_owned(),
            "timestamp".to_owned(),
            "miner".to_owned(),
            "gasUsed".to_owned(),
            "extraData".to_owned(),
            "baseFeePerGas".to_owned(),
        ]
    );
    let log_fields = get_fields(Some(vec![]), Dataset::Logs).unwrap();
    assert_eq!(log_fields.len(), 6);
}

#[test]
fn unknown_field_is_rejected() {
    let r = get_fields(
        Some(vec!["hash".to_owned(), "nope".to_owned()]),
        Dataset::Blocks,
    );
    match r {
        Err(ConfigError::InvalidField(f)) => assert_eq!(f, "nope"),
        other => panic!("expected an invalid-field error, got {:?}", other),
    }
}

#[test]
fn options_are_validated_and_collected() {
    let m = get_options(
        Some(vec!["from:alice".to_owned(), "to:bob".to_owned()]),
        Dataset::Transactions,
    )
    .unwrap();
    assert_eq!(
        m,
        vec![
            ("from".to_owned(), vec!["alice".to_owned()]),
            ("to".to_owned(), vec!["bob".to_owned()]),
        ]
    );

    let replaced = get_options(
        Some(vec!["from:x".to_owned(), "from:y".to_owned()]),
        Dataset::Transactions,
    )
    .unwrap();
    assert_eq!(replaced, vec![("from".to_owned(), vec!["y".to_owned()])]);

    assert!(matches!(
        get_options(Some(vec!["sender:x".to_owned()]), Dataset::Transactions),
        Err(ConfigError::InvalidOption)
    ));

    let blocks = get_options(Some(vec!["from:x".to_owned()]), Dataset::Blocks).unwrap();
    assert!(blocks.is_empty());

    let topics = get_options(Some(vec!["topic0:0xdd".to_owned()]), Dataset::Logs).unwrap();
    assert_eq!(topics, vec![("topic0".to_owned(), vec!["0xdd".to_owned()])]);

    assert_eq!(
        get_verified_options(Dataset::Transactions).unwrap(),
        vec!["from".to_owned(), "to".to_owned(), "sighash".to_owned()]
    );
}

#[test]
fn hex_parsing() {
    assert_eq!(hex_str_to_u64("0x2A").unwrap(), 42);
    assert_eq!(hex_str_to_u64("2A").unwrap(), 42);
    assert!(hex_str_to_u64("xyz").is_err());
    assert!(hex_str_to_u64("").is_err());
    assert!(hex_str_to_u64("0x").is_err());
    assert_eq!(hex_str_to_u64("0x5208").unwrap(), 21000);
    assert_eq!(hex_str_to_u64("ffffffffffffffff").unwrap(), u64::MAX);
    assert!(hex_str_to_u64("10000000000000000").is_err());
}

#[test]
fn percentages() {
    assert_eq!(get_percentage(50, 200), 25);
    assert_eq!(get_percentage(0, 100), 0);
    assert_eq!(normalize_progess(0, 100, 50), 50);
    assert_eq!(normalize_progess(100, 200, 150), 50);
}
