//! The fetch pipeline's verifiable core: sub-range planning, the per-sub-range
//! retry session, size-bounded batching, query building, and the progress
//! deltas a finished sub-range owes the stats stream.

use vstd::prelude::*;

use crate::config::{Dataset, Range};
use crate::json::{JsonNumber, JsonValue};
use crate::utils::{sizeof_val, spec_sat_add, spec_size};

verus! {

/// The planner's output: consecutive sub-ranges of length `chunk`, the last
/// one truncated at `end`.
pub open spec fn spec_chunk_ranges(start: u64, end: u64, chunk: u64) -> Seq<Range>
    decreases end - start,
    when chunk > 0
{
    if start >= end {
        Seq::empty()
    } else {
        let next: u64 = if end - start > chunk {
            (start + chunk) as u64
        } else {
            end
        };
        seq![Range { start, end: next }] + spec_chunk_ranges(next, end, chunk)
    }
}

/// Divides `total_range` into sub-ranges of at most `chunk_size` blocks.
#[verifier::loop_isolation(false)]
pub fn compute_chunk_ranges(total_range: &Range, chunk_size: u64) -> (r: Vec<Range>)
    requires
        chunk_size > 0,
    ensures
        r@ == spec_chunk_ranges(total_range.start, total_range.end, chunk_size),
{
    let end = total_range.end;
    let mut cur = total_range.start;
    let mut r: Vec<Range> = Vec::new();
    proof {
        assert(r@ + spec_chunk_ranges(cur, end, chunk_size) =~= spec_chunk_ranges(
            total_range.start,
            end,
            chunk_size,
        ));
    }
    while cur < end
        invariant
            r@ + spec_chunk_ranges(cur, end, chunk_size) == spec_chunk_ranges(
                total_range.start,
                end,
                chunk_size,
            ),
        decreases end - cur,
    {
        let next: u64 = if end - cur > chunk_size {
            cur + chunk_size
        } else {
            end
        };
        let ghost r_old = r@;
        r.push(Range { start: cur, end: next });
        proof {
            assert(r@ =~= r_old + seq![Range { start: cur, end: next }]);
            assert(r@ + spec_chunk_ranges(next, end, chunk_size) =~= r_old + (seq![
                Range { start: cur, end: next },
            ] + spec_chunk_ranges(next, end, chunk_size)));
        }
        cur = next;
    }
    proof {
        assert(spec_chunk_ranges(cur, end, chunk_size) =~= Seq::<Range>::empty());
        assert(r@ =~= r@ + Seq::<Range>::empty());
    }
    r
}

/// The planner partitions `[start, end)` exactly: the sub-ranges are
/// non-empty and contiguous, the first starts at `start`, the last ends at
/// `end`, none is longer than `chunk`, and all but the last are exactly
/// `chunk` long.
pub proof fn lemma_chunk_ranges_partition(start: u64, end: u64, chunk: u64)
    requires
        chunk > 0,
        start < end,
    ensures
        ({
            let rs = spec_chunk_ranges(start, end, chunk);
            &&& rs.len() > 0
            &&& rs[0].start == start
            &&& rs[rs.len() - 1].end == end
            &&& forall|i: int| 0 <= i < rs.len() ==> (#[trigger] rs[i]).start < rs[i].end
            &&& forall|i: int|
                0 <= i < rs.len() - 1 ==> (#[trigger] rs[i]).end == rs[i + 1].start
            &&& forall|i: int|
                0 <= i < rs.len() ==> (#[trigger] rs[i]).end - rs[i].start <= chunk
            &&& forall|i: int|
                0 <= i < rs.len() - 1 ==> (#[trigger] rs[i]).end - rs[i].start == chunk
        }),
    decreases end - start,
{
    let rs = spec_chunk_ranges(start, end, chunk);
    let next: u64 = if end - start > chunk {
        (start + chunk) as u64
    } else {
        end
    };
    if next < end {
        lemma_chunk_ranges_partition(next, end, chunk);
        let tail = spec_chunk_ranges(next, end, chunk);
        assert(forall|i: int| 0 <= i < tail.len() ==> rs[i + 1] == tail[i]);
    } else {
        assert(spec_chunk_ranges(next, end, chunk) =~= Seq::<Range>::empty());
        assert(rs.len() == 1);
    }
}

/// The progress deltas owed to the stats stream when the sub-range `sub` of a
/// run ending at `total_end` completes: the planned length, and a terminal
/// zero when this sub-range closes the run.
pub fn completion_deltas(sub: &Range, total_end: u64) -> (r: Vec<u64>)
    requires
        sub.start <= sub.end,
    ensures
        r@ == if sub.end == total_end {
            seq![(sub.end - sub.start) as u64, 0u64]
        } else {
            seq![(sub.end - sub.start) as u64]
        },
{
    let planned = sub.end - sub.start;
    if sub.end == total_end {
        let r = vec![planned, 0u64];
        assert(r@ =~= seq![planned, 0u64]);
        r
    } else {
        let r = vec![planned];
        assert(r@ =~= seq![planned]);
        r
    }
}

/// A pending batch is flushed once adding the next record would bring the
/// running size estimate to this many bytes.
pub const MAX_CHUNK_SIZE: usize = 10 * 1024 * 1024;

/// The batches planned over `records`, given a pending batch `cur` whose
/// running size estimate is `cur_size`: a record that would push the running
/// size to the threshold flushes the pending batch first and starts the next
/// one; any non-empty remainder is flushed at the end.
pub open spec fn spec_batches(records: Seq<JsonValue>, cur: Seq<JsonValue>, cur_size: int) -> Seq<
    Seq<JsonValue>,
>
    decreases records.len(),
{
    if records.len() == 0 {
        if cur.len() > 0 {
            seq![cur]
        } else {
            Seq::empty()
        }
    } else {
        let sz = spec_size(records[0]);
        if spec_sat_add(cur_size, sz) >= MAX_CHUNK_SIZE {
            seq![cur] + spec_batches(records.skip(1), seq![records[0]], sz)
        } else {
            spec_batches(records.skip(1), cur.push(records[0]), spec_sat_add(cur_size, sz))
        }
    }
}

/// Batching only regroups: the flushed batches, concatenated, are exactly the
/// pending batch followed by the remaining records, in fetch order.
pub proof fn lemma_batches_flatten(records: Seq<JsonValue>, cur: Seq<JsonValue>, cur_size: int)
    ensures
        spec_batches(records, cur, cur_size).flatten() == cur + records,
    decreases records.len(),
{
    if records.len() == 0 {
        if cur.len() > 0 {
            seq![cur].lemma_flatten_one_element();
            assert(seq![cur].first() == cur);
            assert(cur + records =~= cur);
        } else {
            assert(spec_batches(records, cur, cur_size).flatten() =~= Seq::<JsonValue>::empty());
            assert(cur + records =~= Seq::<JsonValue>::empty());
        }
    } else {
        let sz = spec_size(records[0]);
        if spec_sat_add(cur_size, sz) >= MAX_CHUNK_SIZE {
            let tail = spec_batches(records.skip(1), seq![records[0]], sz);
            lemma_batches_flatten(records.skip(1), seq![records[0]], sz);
            assert((seq![cur] + tail).first() == cur);
            assert((seq![cur] + tail).drop_first() =~= tail);
            assert((seq![cur] + tail).flatten() == cur + tail.flatten());
            assert(cur + (seq![records[0]] + records.skip(1)) =~= cur + records);
        } else {
            lemma_batches_flatten(records.skip(1), cur.push(records[0]), spec_sat_add(cur_size, sz));
            assert(cur.push(records[0]) + records.skip(1) =~= cur + records);
        }
    }
}

/// Groups one sub-range's records into size-bounded batches, keeping fetch
/// order.
#[verifier::loop_isolation(false)]
pub fn plan_batches(records: Vec<JsonValue>) -> (r: Vec<Vec<JsonValue>>)
    ensures
        r@.map_values(|b: Vec<JsonValue>| b@) == spec_batches(records@, Seq::empty(), 0),
{
    let ghost records0 = records@;
    let mut rest = records;
    let mut out: Vec<Vec<JsonValue>> = Vec::new();
    let mut cur: Vec<JsonValue> = Vec::new();
    let mut current_size: usize = 0;
    proof {
        assert(out@.map_values(|b: Vec<JsonValue>| b@) =~= Seq::<Seq<JsonValue>>::empty());
        assert(cur@ =~= Seq::<JsonValue>::empty());
    }
    while rest.len() > 0
        invariant
            spec_batches(records0, Seq::empty(), 0) == out@.map_values(|b: Vec<JsonValue>| b@)
                + spec_batches(rest@, cur@, current_size as int),
        decreases rest@.len(),
    {
        let ghost rest_old = rest@;
        let ghost cur_old = cur@;
        let ghost out_old = out@;
        let rec = rest.remove(0);
        proof {
            assert(rest@ =~= rest_old.skip(1));
        }
        let sz = sizeof_val(&rec);
        if crate::utils::sat_add(current_size, sz) >= MAX_CHUNK_SIZE {
            let full = cur;
            out.push(full);
            cur = Vec::new();
            cur.push(rec);
            current_size = sz;
            proof {
                assert(out@.map_values(|b: Vec<JsonValue>| b@) =~= out_old.map_values(
                    |b: Vec<JsonValue>| b@,
                ).push(cur_old));
                assert(cur@ =~= seq![rest_old[0]]);
                assert(out_old.map_values(|b: Vec<JsonValue>| b@) + (seq![cur_old] + spec_batches(
                    rest@,
                    cur@,
                    sz as int,
                )) =~= out@.map_values(|b: Vec<JsonValue>| b@) + spec_batches(
                    rest@,
                    cur@,
                    sz as int,
                ));
            }
        } else {
            cur.push(rec);
            current_size = current_size + sz;
            proof {
                assert(cur@ =~= cur_old.push(rest_old[0]));
            }
        }
    }
    proof {
        assert(rest@ =~= Seq::<JsonValue>::empty());
    }
    if cur.len() > 0 {
        out.push(cur);
        proof {
            assert(out@.map_values(|b: Vec<JsonValue>| b@) =~= spec_batches(
                records0,
                Seq::empty(),
                0,
            ));
        }
    } else {
        proof {
            assert(out@.map_values(|b: Vec<JsonValue>| b@) =~= spec_batches(
                records0,
                Seq::empty(),
                0,
            ));
        }
    }
    out
}

/// The cursor a successful response advances to: the `header.number` of the
/// last record, when it is there and is an unsigned 64-bit number.
pub open spec fn spec_cursor_of(recs: Seq<JsonValue>) -> Option<u64> {
    if recs.len() == 0 {
        None
    } else {
        match recs.last().spec_get("header"@) {
            Some(h) => match h.spec_get("number"@) {
                Some(n) => n.spec_as_u64(),
                None => None,
            },
            None => None,
        }
    }
}

/// Reads the next cursor out of a response's records; `None` marks the
/// response as malformed, which the session treats as a failure.
pub fn cursor_of_records(recs: &Vec<JsonValue>) -> (r: Option<u64>)
    ensures
        r == spec_cursor_of(recs@),
{
    if recs.len() == 0 {
        return None;
    }
    let last = &recs[recs.len() - 1];
    proof {
        assert(recs@.last() == recs@[recs@.len() - 1]);
    }
    match last.get("header") {
        Some(h) => match h.get("number") {
            Some(n) => n.as_u64(),
            None => None,
        },
        None => None,
    }
}

/// What the driving loop must do after a response is folded in: go straight
/// on, or sleep this many milliseconds before the retry.
#[derive(Debug, Clone, Copy, PartialEq, Eq, Structural)]
pub enum FetchStep {
    Advanced,
    Backoff(u64),
}

/// The backoff before retry number `attempt`: 100 ms, doubled per consecutive
/// failure.
pub open spec fn spec_backoff(attempt: u64) -> u64 {
    if attempt == 0 {
        100
    } else if attempt == 1 {
        200
    } else if attempt == 2 {
        400
    } else {
        800
    }
}

/// One sub-range's fetch session: a cursor walking `[start, end)`, a count of
/// consecutive failures, the next backoff, and the records accumulated so
/// far.
#[derive(Debug)]
pub struct FetchSession {
    pub start: u64,
    pub end: u64,
    pub cursor: u64,
    pub attempt: u64,
    pub backoff_ms: u64,
    pub records: Vec<JsonValue>,
}

impl FetchSession {
    /// The session's invariant: at most three consecutive failures, and the
    /// backoff always doubled per failure from 100 ms.
    pub open spec fn wf(&self) -> bool {
        &&& self.start <= self.end
        &&& self.attempt <= 3
        &&& self.backoff_ms == spec_backoff(self.attempt)
    }

    /// The session still has work: the cursor has not reached the sub-range's
    /// end and fewer than three consecutive failures happened.
    pub open spec fn spec_active(&self) -> bool {
        self.cursor < self.end && self.attempt < 3
    }

    /// The session stopped early: three consecutive failures with blocks
    /// still missing.
    pub open spec fn spec_abandoned(&self) -> bool {
        self.attempt >= 3 && self.cursor < self.end
    }

    /// A fresh session over `subrange`.
    pub fn new(subrange: &Range) -> (s: Self)
        requires
            subrange.start <= subrange.end,
        ensures
            s.wf(),
            s.start == subrange.start,
            s.end == subrange.end,
            s.cursor == subrange.start,
            s.attempt == 0,
            s.backoff_ms == 100,
            s.records@ == Seq::<JsonValue>::empty(),
    {
        FetchSession {
            start: subrange.start,
            end: subrange.end,
            cursor: subrange.start,
            attempt: 0,
            backoff_ms: 100,
            records: Vec::new(),
        }
    }

    pub fn should_continue(&self) -> (r: bool)
        ensures
            r == self.spec_active(),
    {
        self.cursor < self.end && self.attempt < 3
    }

    pub fn is_abandoned(&self) -> (r: bool)
        ensures
            r == self.spec_abandoned(),
    {
        self.attempt >= 3 && self.cursor < self.end
    }

    /// A failed try leaves everything fetched so far in place, counts the
    /// attempt, and doubles the backoff after telling the caller to sleep the
    /// old one.
    pub open spec fn spec_retried(pre: Self, post: Self, step: FetchStep) -> bool {
        &&& step == FetchStep::Backoff(pre.backoff_ms)
        &&& post.attempt == pre.attempt + 1
        &&& post.backoff_ms == 2 * pre.backoff_ms
        &&& post.cursor == pre.cursor
        &&& post.records@ == pre.records@
    }

    /// Folds one try's outcome into the session. `None` stands for a failed
    /// request or an unparseable body; a response whose records carry no
    /// cursor counts as a failure too. A success appends the records, moves
    /// the cursor to the response's last block number, and resets the attempt
    /// counter and the backoff.
    pub fn on_response(&mut self, response: Option<Vec<JsonValue>>) -> (step: FetchStep)
        requires
            old(self).wf(),
            old(self).spec_active(),
        ensures
            final(self).wf(),
            final(self).start == old(self).start,
            final(self).end == old(self).end,
            match response {
                Some(recs) => match spec_cursor_of(recs@) {
                    Some(next) => {
                        &&& step == FetchStep::Advanced
                        &&& final(self).cursor == next
                        &&& final(self).attempt == 0
                        &&& final(self).backoff_ms == 100
                        &&& final(self).records@ == old(self).records@ + recs@
                    },
                    None => Self::spec_retried(*old(self), *final(self), step),
                },
                None => Self::spec_retried(*old(self), *final(self), step),
            },
    {
        match response {
            Some(recs) => match cursor_of_records(&recs) {
                Some(next) => {
                    let mut recs = recs;
                    self.records.append(&mut recs);
                    self.cursor = next;
                    self.attempt = 0;
                    self.backoff_ms = 100;
                    FetchStep::Advanced
                },
                None => {
                    let sleep = self.backoff_ms;
                    self.attempt = self.attempt + 1;
                    self.backoff_ms = 2 * sleep;
                    FetchStep::Backoff(sleep)
                },
            },
            None => {
                let sleep = self.backoff_ms;
                self.attempt = self.attempt + 1;
                self.backoff_ms = 2 * sleep;
                FetchStep::Backoff(sleep)
            },
        }
    }
}

/// The JSON number carrying the block number `n`.
pub open spec fn spec_uint(n: u64) -> JsonValue {
    JsonValue::Num(JsonNumber { as_uint: Some(n), trunc: n })
}

/// A field-selection map: one `true` entry per requested field, in order.
pub open spec fn spec_is_field_map(m: JsonValue, fields: Seq<String>) -> bool {
    m matches JsonValue::Obj(entries) && entries@.len() == fields.len() && (forall|i: int|
        0 <= i < fields.len() ==> (#[trigger] entries@[i]).0@ == fields[i]@ && entries@[i].1
            == JsonValue::Bool(true))
}

/// An array holding exactly the strings of `vals`, in order.
pub open spec fn spec_is_str_arr(v: JsonValue, vals: Seq<String>) -> bool {
    v matches JsonValue::Arr(items) && items@.len() == vals.len() && (forall|i: int|
        0 <= i < vals.len() ==> ((#[trigger] items@[i]) matches JsonValue::Str(s) && s@
            == vals[i]@))
}

/// The option filters as one object: each key mapped to its value strings.
pub open spec fn spec_is_options_filter(v: JsonValue, options: Seq<(String, Vec<String>)>) -> bool {
    v matches JsonValue::Obj(entries) && entries@.len() == options.len() && (forall|i: int|
        0 <= i < options.len() ==> (#[trigger] entries@[i]).0@ == options[i].0@ && spec_is_str_arr(
            entries@[i].1,
            options[i].1@,
        ))
}

pub open spec fn spec_is_empty_obj(v: JsonValue) -> bool {
    v matches JsonValue::Obj(entries) && entries@.len() == 0
}

/// The exact shape of the shard query for one try: field selection under the
/// dataset's key, the cursor as `fromBlock`, `includeAllBlocks`, and — for
/// Transactions and Logs — the option filters, with Transactions alone also
/// bounding `toBlock`.
pub open spec fn spec_is_query(
    q: JsonValue,
    dataset: Dataset,
    start_block: u64,
    end_block: u64,
    fields: Seq<String>,
    options: Seq<(String, Vec<String>)>,
) -> bool {
    match dataset {
        Dataset::Blocks => q matches JsonValue::Obj(top) && top@.len() == 3 && top@[0].0@
            == "fields"@ && (top@[0].1 matches JsonValue::Obj(fs) && fs@.len() == 1 && fs@[0].0@
            == "block"@ && spec_is_field_map(fs@[0].1, fields)) && top@[1].0@ == "fromBlock"@
            && top@[1].1 == spec_uint(start_block) && top@[2].0@ == "includeAllBlocks"@ && top@[2].1
            == JsonValue::Bool(true),
        Dataset::Transactions => q matches JsonValue::Obj(top) && top@.len() == 5 && top@[0].0@
            == "transactions"@ && (top@[0].1 matches JsonValue::Arr(items) && items@.len() == 1
            && spec_is_options_filter(items@[0], options)) && top@[1].0@ == "fields"@ && (top@[1].1
            matches JsonValue::Obj(fs) && fs@.len() == 2 && fs@[0].0@ == "block"@
            && spec_is_empty_obj(fs@[0].1) && fs@[1].0@ == "transaction"@ && spec_is_field_map(
            fs@[1].1,
            fields,
        )) && top@[2].0@ == "fromBlock"@ && top@[2].1 == spec_uint(start_block) && top@[3].0@
            == "toBlock"@ && top@[3].1 == spec_uint(end_block) && top@[4].0@ == "includeAllBlocks"@
            && top@[4].1 == JsonValue::Bool(true),
        Dataset::Logs => q matches JsonValue::Obj(top) && top@.len() == 4 && top@[0].0@ == "logs"@
            && (top@[0].1 matches JsonValue::Arr(items) && items@.len() == 1
            && spec_is_options_filter(items@[0], options)) && top@[1].0@ == "fields"@ && (top@[1].1
            matches JsonValue::Obj(fs) && fs@.len() == 3 && fs@[0].0@ == "block"@
            && spec_is_empty_obj(fs@[0].1) && fs@[1].0@ == "transaction"@ && spec_is_empty_obj(
            fs@[1].1,
        ) && fs@[2].0@ == "log"@ && spec_is_field_map(fs@[2].1, fields)) && top@[2].0@
            == "fromBlock"@ && top@[2].1 == spec_uint(start_block) && top@[3].0@
            == "includeAllBlocks"@ && top@[3].1 == JsonValue::Bool(true),
    }
}

#[verifier::loop_isolation(false)]
fn build_field_map(fields: &Vec<String>) -> (r: JsonValue)
    ensures
        spec_is_field_map(r, fields@),
{
    let mut entries: Vec<(String, JsonValue)> = Vec::new();
    let mut i: usize = 0;
    while i < fields.len()
        invariant
            0 <= i <= fields@.len(),
            entries@.len() == i,
            forall|j: int|
                0 <= j < i ==> (#[trigger] entries@[j]).0@ == fields@[j]@ && entries@[j].1
                    == JsonValue::Bool(true),
        decreases fields@.len() - i,
    {
        entries.push((fields[i].clone(), JsonValue::Bool(true)));
        i = i + 1;
    }
    JsonValue::Obj(entries)
}

#[verifier::loop_isolation(false)]
fn build_str_arr(vals: &Vec<String>) -> (r: JsonValue)
    ensures
        spec_is_str_arr(r, vals@),
{
    let mut items: Vec<JsonValue> = Vec::new();
    let mut i: usize = 0;
    while i < vals.len()
        invariant
            0 <= i <= vals@.len(),
            items@.len() == i,
            forall|j: int|
                0 <= j < i ==> ((#[trigger] items@[j]) matches JsonValue::Str(s) && s@
                    == vals@[j]@),
        decreases vals@.len() - i,
    {
        items.push(JsonValue::Str(vals[i].clone()));
        i = i + 1;
    }
    JsonValue::Arr(items)
}

#[verifier::loop_isolation(false)]
fn build_options_filter(options: &Vec<(String, Vec<String>)>) -> (r: JsonValue)
    ensures
        spec_is_options_filter(r, options@),
{
    let mut entries: Vec<(String, JsonValue)> = Vec::new();
    let mut i: usize = 0;
    while i < options.len()
        invariant
            0 <= i <= options@.len(),
            entries@.len() == i,
            forall|j: int|
                0 <= j < i ==> (#[trigger] entries@[j]).0@ == options@[j].0@ && spec_is_str_arr(
                    entries@[j].1,
                    options@[j].1@,
                ),
        decreases options@.len() - i,
    {
        let arr = build_str_arr(&options[i].1);
        entries.push((options[i].0.clone(), arr));
        i = i + 1;
    }
    JsonValue::Obj(entries)
}

/// Builds the shard query for one try at `start_block`, exactly in the shape
/// [`spec_is_query`] gives.
pub fn create_query_json(
    dataset: Dataset,
    start_block: u64,
    end_block: u64,
    fields: &Vec<String>,
    options: &Vec<(String, Vec<String>)>,
) -> (r: JsonValue)
    ensures
        spec_is_query(r, dataset, start_block, end_block, fields@, options@),
{
    let field_map = build_field_map(fields);
    let from_block = JsonValue::Num(JsonNumber { as_uint: Some(start_block), trunc: start_block });
    match dataset {
        Dataset::Blocks => {
            let mut fs: Vec<(String, JsonValue)> = Vec::new();
            fs.push(("block".to_owned(), field_map));
            let mut top: Vec<(String, JsonValue)> = Vec::new();
            top.push(("fields".to_owned(), JsonValue::Obj(fs)));
            top.push(("fromBlock".to_owned(), from_block));
            top.push(("includeAllBlocks".to_owned(), JsonValue::Bool(true)));
            JsonValue::Obj(top)
        },
        Dataset::Transactions => {
            let filter = build_options_filter(options);
            let mut filters: Vec<JsonValue> = Vec::new();
            filters.push(filter);
            let mut fs: Vec<(String, JsonValue)> = Vec::new();
            fs.push(("block".to_owned(), JsonValue::Obj(Vec::new())));
            fs.push(("transaction".to_owned(), field_map));
            let to_block = JsonValue::Num(
                JsonNumber { as_uint: Some(end_block), trunc: end_block },
            );
            let mut top: Vec<(String, JsonValue)> = Vec::new();
            top.push(("transactions".to_owned(), JsonValue::Arr(filters)));
            top.push(("fields".to_owned(), JsonValue::Obj(fs)));
            top.push(("fromBlock".to_owned(), from_block));
            top.push(("toBlock".to_owned(), to_block));
            top.push(("includeAllBlocks".to_owned(), JsonValue::Bool(true)));
            JsonValue::Obj(top)
        },
        Dataset::Logs => {
            let filter = build_options_filter(options);
            let mut filters: Vec<JsonValue> = Vec::new();
            filters.push(filter);
            let mut fs: Vec<(String, JsonValue)> = Vec::new();
            fs.push(("block".to_owned(), JsonValue::Obj(Vec::new())));
            fs.push(("transaction".to_owned(), JsonValue::Obj(Vec::new())));
            fs.push(("log".to_owned(), field_map));
            let mut top: Vec<(String, JsonValue)> = Vec::new();
            top.push(("logs".to_owned(), JsonValue::Arr(filters)));
            top.push(("fields".to_owned(), JsonValue::Obj(fs)));
            top.push(("fromBlock".to_owned(), from_block));
            top.push(("includeAllBlocks".to_owned(), JsonValue::Bool(true)));
            JsonValue::Obj(top)
        },
    }
}

} // verus!
