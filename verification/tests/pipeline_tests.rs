use little_squid_cli::config::{Dataset, Range};
use little_squid_cli::extract::{extract_columns, ColumnData};
use little_squid_cli::fetcher::{
    completion_deltas, compute_chunk_ranges, create_query_json, cursor_of_records, plan_batches,
    FetchSession, FetchStep, MAX_CHUNK_SIZE,
};
use little_squid_cli::json::{JsonNumber, JsonValue};
use little_squid_cli::progress::ProgressTracker;
use little_squid_cli::utils::sizeof_val;

fn uint(n: u64) -> JsonValue {
    JsonValue::Num(JsonNumber {
        as_uint: Some(n),
        trunc: n,
    })
}

fn s(x: &str) -> JsonValue {
    JsonValue::Str(x.to_owned())
}

fn obj(entries: Vec<(&str, JsonValue)>) -> JsonValue {
    JsonValue::Obj(
        entries
            .into_iter()
            .map(|(k, v)| (k.to_owned(), v))
            .collect(),
    )
}

fn record_with_number(n: u64) -> JsonValue {
    obj(vec![("header", obj(vec![("number", uint(n))]))])
}

fn log_record(number: u64, address: &str, topics: Vec<&str>) -> JsonValue {
    let log = obj(vec![
        ("address", s(address)),
        (
            "topics",
            JsonValue::Arr(topics.into_iter().map(s).collect()),
        ),
    ]);
    obj(vec![
        ("header", obj(vec![("number", uint(number))])),
        ("logs", JsonValue::Arr(vec![log])),
    ])
}

#[test]
fn planner_partitions_the_range() {
    let plan = compute_chunk_ranges(&Range { start: 1, end: 25 }, 10);
    assert_eq!(
        plan,
        vec![
            Range { start: 1, end: 11 },
            Range { start: 11, end: 21 },
            Range { start: 21, end: 25 },
        ]
    );
    // Contiguous, covering, each at most the chunk size, only the last short.
    for w in plan.windows(2) {
        assert_eq!(w[0].end, w[1].start);
        assert_eq!(w[0].end - w[0].start, 10);
    }
    assert_eq!(plan.first().unwrap().start, 1);
    assert_eq!(plan.last().unwrap().end, 25);
    for r in &plan {
        assert!(r.end - r.start <= 10 && r.start < r.end);
    }

    let empty = compute_chunk_ranges(&Range { start: 9, end: 9 }, 10);
    assert!(empty.is_empty());

    let exact = compute_chunk_ranges(&Range { start: 0, end: 20 }, 10);
    assert_eq!(exact.len(), 2);
    assert_eq!(exact[1], Range { start: 10, end: 20 });
}

#[test]
fn batcher_splits_at_the_size_threshold() {
    let big = "a".repeat(6 * 1024 * 1024);
    let r1 = JsonValue::Str(big.clone());
    let r2 = JsonValue::Str(big);
    assert!(sizeof_val(&r1) < MAX_CHUNK_SIZE);
    let batches = plan_batches(vec![r1, r2]);
    // Adding the second record would reach the threshold, so it opens a new
    // batch; contents stay in fetch order.
    assert_eq!(batches.len(), 2);
    assert_eq!(batches[0].len(), 1);
    assert_eq!(batches[1].len(), 1);

    let small = plan_batches(vec![record_with_number(1), record_with_number(2)]);
    assert_eq!(small.len(), 1);
    assert_eq!(small[0].len(), 2);

    assert!(plan_batches(vec![]).is_empty());
}

#[test]
fn cursor_comes_from_the_last_record() {
    assert_eq!(cursor_of_records(&vec![]), None);
    let recs = vec![record_with_number(5), record_with_number(42)];
    assert_eq!(cursor_of_records(&recs), Some(42));
    let bad = vec![obj(vec![("header", obj(vec![("number", s("42"))]))])];
    assert_eq!(cursor_of_records(&bad), None);
    let headerless = vec![obj(vec![("x", uint(1))])];
    assert_eq!(cursor_of_records(&headerless), None);
}

#[test]
fn retry_backoff_sequence() {
    let sub = Range { start: 1, end: 100 };
    let mut sess = FetchSession::new(&sub);
    assert!(sess.should_continue());
    // Two consecutive failures: observed backoffs 100 ms then 200 ms.
    assert_eq!(sess.on_response(None), FetchStep::Backoff(100));
    assert!(sess.should_continue());
    assert_eq!(sess.on_response(None), FetchStep::Backoff(200));
    assert!(sess.should_continue());
    // A success resets the attempt counter and the backoff.
    let step = sess.on_response(Some(vec![record_with_number(50)]));
    assert_eq!(step, FetchStep::Advanced);
    assert_eq!(sess.attempt, 0);
    assert_eq!(sess.backoff_ms, 100);
    assert_eq!(sess.cursor, 50);
    assert_eq!(sess.records.len(), 1);
    assert!(sess.should_continue());
}

#[test]
fn abandonment_after_three_failures() {
    let sub = Range { start: 1, end: 100 };
    let mut sess = FetchSession::new(&sub);
    // One successful chunk first, so there is partial data to keep.
    assert_eq!(
        sess.on_response(Some(vec![record_with_number(40)])),
        FetchStep::Advanced
    );
    // Three consecutive failures abandon the rest of the sub-range.
    assert_eq!(sess.on_response(None), FetchStep::Backoff(100));
    assert_eq!(sess.on_response(None), FetchStep::Backoff(200));
    assert_eq!(sess.on_response(None), FetchStep::Backoff(400));
    assert!(!sess.should_continue());
    assert!(sess.is_abandoned());
    assert_eq!(sess.records.len(), 1);
    // The progress channel still gets the full planned length.
    assert_eq!(completion_deltas(&sub, 5000), vec![99]);
    assert_eq!(completion_deltas(&sub, 100), vec![99, 0]);
}

#[test]
fn malformed_records_count_as_a_failure() {
    let sub = Range { start: 1, end: 100 };
    let mut sess = FetchSession::new(&sub);
    let headerless = vec![obj(vec![("x", uint(1))])];
    assert_eq!(sess.on_response(Some(headerless)), FetchStep::Backoff(100));
    assert_eq!(sess.attempt, 1);
    assert_eq!(sess.records.len(), 0);
    assert_eq!(sess.on_response(Some(vec![])), FetchStep::Backoff(200));
    assert_eq!(sess.attempt, 2);
}

#[test]
fn logs_end_to_end() {
    // Logs over [1, 5000), fetched as two simulated sub-range chunks, each
    // well under the batch threshold.
    let total = Range { start: 1, end: 5000 };
    let plan = compute_chunk_ranges(&total, 2500);
    assert_eq!(
        plan,
        vec![
            Range { start: 1, end: 2501 },
            Range {
                start: 2501,
                end: 5000
            },
        ]
    );

    let fields = vec!["address".to_owned(), "topics".to_owned()];
    let mut deltas: Vec<u64> = Vec::new();
    let mut batches_per_subrange: Vec<usize> = Vec::new();

    for sub in &plan {
        let mut sess = FetchSession::new(sub);
        while sess.should_continue() {
            // The simulated archive answers each sub-range with one chunk
            // whose last record closes the sub-range.
            let recs = vec![
                log_record(sub.start, "0xaaa", vec!["0xt0"]),
                log_record(sub.end, "0xbbb", vec![]),
            ];
            match sess.on_response(Some(recs)) {
                FetchStep::Advanced => {}
                FetchStep::Backoff(_) => panic!("the simulated archive never fails"),
            }
        }
        let records = std::mem::take(&mut sess.records);
        let batches = plan_batches(records);
        batches_per_subrange.push(batches.len());
        for batch in batches {
            let cols = extract_columns(Dataset::Logs, &fields, &batch).unwrap();
            assert_eq!(cols.len(), 2);
            match &cols[1].data {
                ColumnData::Lists(v) => assert_eq!(v, &vec![vec!["0xt0".to_owned()]]),
                _ => panic!("topics must be a list column"),
            }
        }
        for d in completion_deltas(sub, total.end) {
            deltas.push(d);
        }
    }

    // Exactly one flushed batch per sub-range.
    assert_eq!(batches_per_subrange, vec![1, 1]);
    // Two positive deltas summing to 4999, then the terminal zero.
    assert_eq!(deltas, vec![2500, 2499, 0]);
}

#[test]
fn query_shapes() {
    let fields = vec!["hash".to_owned(), "number".to_owned()];
    let q = create_query_json(Dataset::Blocks, 17, 0, &fields, &vec![]);
    match q {
        JsonValue::Obj(top) => {
            assert_eq!(top.len(), 3);
            assert_eq!(top[0].0, "fields");
            assert_eq!(top[1].0, "fromBlock");
            assert!(matches!(&top[1].1, JsonValue::Num(n) if n.as_uint == Some(17)));
            assert_eq!(top[2].0, "includeAllBlocks");
            assert!(matches!(top[2].1, JsonValue::Bool(true)));
            match &top[0].1 {
                JsonValue::Obj(fs) => {
                    assert_eq!(fs.len(), 1);
                    assert_eq!(fs[0].0, "block");
                    match &fs[0].1 {
                        JsonValue::Obj(m) => {
                            assert_eq!(m.len(), 2);
                            assert_eq!(m[0].0, "hash");
                            assert!(matches!(m[0].1, JsonValue::Bool(true)));
                            assert_eq!(m[1].0, "number");
                        }
                        _ => panic!("the field map must be an object"),
                    }
                }
                _ => panic!("fields must be an object"),
            }
        }
        _ => panic!("a query must be an object"),
    }

    let options = vec![("from".to_owned(), vec!["0xabc".to_owned()])];
    let q = create_query_json(Dataset::Transactions, 5, 900, &vec!["to".to_owned()], &options);
    match q {
        JsonValue::Obj(top) => {
            assert_eq!(top.len(), 5);
            assert_eq!(top[0].0, "transactions");
            match &top[0].1 {
                JsonValue::Arr(filters) => {
                    assert_eq!(filters.len(), 1);
                    match &filters[0] {
                        JsonValue::Obj(f) => {
                            assert_eq!(f.len(), 1);
                            assert_eq!(f[0].0, "from");
                            match &f[0].1 {
                                JsonValue::Arr(vals) => {
                                    assert!(matches!(&vals[0], JsonValue::Str(v) if v == "0xabc"));
                                }
                                _ => panic!("an option's values must be an array"),
                            }
                        }
                        _ => panic!("the filter must be an object"),
                    }
                }
                _ => panic!("transactions must carry a filter array"),
            }
            assert_eq!(top[3].0, "toBlock");
            assert!(matches!(&top[3].1, JsonValue::Num(n) if n.as_uint == Some(900)));
        }
        _ => panic!("a query must be an object"),
    }

    let q = create_query_json(Dataset::Logs, 1, 0, &vec!["topics".to_owned()], &vec![]);
    match q {
        JsonValue::Obj(top) => {
            assert_eq!(top.len(), 4);
            assert_eq!(top[0].0, "logs");
            assert_eq!(top[1].0, "fields");
            assert_eq!(top[2].0, "fromBlock");
            assert_eq!(top[3].0, "includeAllBlocks");
        }
        _ => panic!("a query must be an object"),
    }
}

#[test]
fn progress_tracker_reports_percentages() {
    let mut t = ProgressTracker::new(200);
    assert_eq!(t.advance(50), 25);
    assert_eq!(t.advance(50), 50);
    assert_eq!(t.advance(100), 100);
    assert_eq!(t.current, 200);
}
