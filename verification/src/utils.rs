//! Small helpers: progress percentages, hex and decimal parsing, record
//! size estimation, and character-wise string equality.

use vstd::prelude::*;

use crate::json::JsonValue;

verus! {

/// Progress of `current_block` through `[start_block, end_block)`, as a
/// percentage rounded down.
pub fn normalize_progess(start_block: u64, end_block: u64, current_block: u64) -> (r: u64)
    requires
        start_block < end_block,
        start_block <= current_block,
        (current_block - start_block) * 100 <= u64::MAX,
    ensures
        r == (current_block - start_block) * 100 / (end_block - start_block) as int,
{
    let total_blocks = end_block - start_block;
    let current_progress = current_block - start_block;
    let normalized_progress = (current_progress * 100) / total_blocks;
    normalized_progress
}

/// `current_num_blocks` out of `total_num_blocks`, as a percentage rounded
/// down.
pub fn get_percentage(current_num_blocks: u64, total_num_blocks: u64) -> (r: u64)
    requires
        total_num_blocks > 0,
        current_num_blocks * 100 <= u64::MAX,
    ensures
        r == current_num_blocks * 100 / total_num_blocks as int,
{
    let percentage = (current_num_blocks * 100) / total_num_blocks;
    percentage
}

/// Error for a string that does not denote a `u64` in the expected base.
#[derive(Clone, Copy, Debug, PartialEq, Eq, Structural)]
pub struct NumberParseError;

pub open spec fn is_hex_digit(c: char) -> bool {
    ||| '0' as int <= c as int <= '9' as int
    ||| 'a' as int <= c as int <= 'f' as int
    ||| 'A' as int <= c as int <= 'F' as int
}

pub open spec fn hex_digit_value(c: char) -> nat {
    if '0' as int <= c as int <= '9' as int {
        (c as int - '0' as int) as nat
    } else if 'a' as int <= c as int <= 'f' as int {
        (c as int - 'a' as int + 10) as nat
    } else if 'A' as int <= c as int <= 'F' as int {
        (c as int - 'A' as int + 10) as nat
    } else {
        0
    }
}

/// The value of a sequence of hex digits, most significant first.
pub open spec fn hex_value(s: Seq<char>) -> nat
    decreases s.len(),
{
    if s.len() == 0 {
        0
    } else {
        hex_value(s.drop_last()) * 16 + hex_digit_value(s.last())
    }
}

/// The input after removing one leading `0x`, if present.
pub open spec fn strip_hex_prefix(s: Seq<char>) -> Seq<char> {
    if s.len() >= 2 && s[0] == '0' && s[1] == 'x' {
        s.skip(2)
    } else {
        s
    }
}

/// A stripped hex string parses iff it is a non-empty run of hex digits whose
/// value fits in a `u64`.
pub open spec fn parses_as_hex_u64(t: Seq<char>) -> bool {
    &&& t.len() > 0
    &&& forall|i: int| 0 <= i < t.len() ==> is_hex_digit(#[trigger] t[i])
    &&& hex_value(t) <= u64::MAX
}

/// Growing a digit run by one digit multiplies its value by 16, so a prefix
/// that is already too large for a `u64` never becomes small again.
proof fn lemma_hex_value_prefix_bound(t: Seq<char>, i: int)
    requires
        0 <= i <= t.len(),
    ensures
        hex_value(t.take(i)) <= hex_value(t),
    decreases t.len() - i,
{
    if i < t.len() {
        lemma_hex_value_prefix_bound(t, i + 1);
        assert(t.take(i + 1).drop_last() =~= t.take(i));
        assert(hex_value(t.take(i + 1)) == hex_value(t.take(i)) * 16 + hex_digit_value(
            t.take(i + 1).last(),
        ));
    } else {
        assert(t.take(i) =~= t);
    }
}

/// Parses a base-16 unsigned 64-bit integer, after removing one optional `0x`
/// prefix. Fails on an empty digit run, a non-hex character, or overflow.
pub fn hex_str_to_u64(hex_str: &str) -> (r: Result<u64, NumberParseError>)
    ensures
        r matches Ok(v) <==> parses_as_hex_u64(strip_hex_prefix(hex_str@)),
        r matches Ok(v) ==> v == hex_value(strip_hex_prefix(hex_str@)),
{
    let ghost s = hex_str@;
    let n = hex_str.unicode_len();
    let start: usize = if n >= 2 && hex_str.get_char(0) == '0' && hex_str.get_char(1) == 'x' {
        2
    } else {
        0
    };
    let ghost t = strip_hex_prefix(s);
    proof {
        assert(t =~= s.skip(start as int));
    }
    if n == start {
        return Err(NumberParseError);
    }
    let mut acc: u64 = 0;
    let mut i: usize = start;
    while i < n
        invariant
            s == hex_str@,
            start <= i <= n,
            n == s.len(),
            t == s.skip(start as int),
            t == strip_hex_prefix(s),
            forall|j: int| start <= j < i ==> is_hex_digit(#[trigger] s[j]),
            acc == hex_value(t.take(i - start)),
        decreases n - i,
    {
        let c = hex_str.get_char(i);
        let u = c as u32;
        let d: u64 = if 48 <= u && u <= 57 {
            (u - 48) as u64
        } else if 97 <= u && u <= 102 {
            (u - 97 + 10) as u64
        } else if 65 <= u && u <= 70 {
            (u - 65 + 10) as u64
        } else {
            proof {
                assert(t[i - start] == s[i as int]);
                assert(!is_hex_digit(t[i - start]));
            }
            return Err(NumberParseError);
        };
        let shifted = match acc.checked_mul(16) {
            Some(x) => x,
            None => {
                proof {
                    assert(t.take(i + 1 - start).drop_last() =~= t.take(i - start));
                    assert(hex_value(t.take(i + 1 - start)) > u64::MAX);
                    lemma_hex_value_prefix_bound(t, i + 1 - start);
                }
                return Err(NumberParseError);
            },
        };
        let next = match shifted.checked_add(d) {
            Some(x) => x,
            None => {
                proof {
                    assert(t.take(i + 1 - start).drop_last() =~= t.take(i - start));
                    assert(hex_value(t.take(i + 1 - start)) > u64::MAX);
                    lemma_hex_value_prefix_bound(t, i + 1 - start);
                }
                return Err(NumberParseError);
            },
        };
        proof {
            assert(t.take(i + 1 - start).drop_last() =~= t.take(i - start));
        }
        acc = next;
        i = i + 1;
    }
    proof {
        assert(t.take(n - start) =~= t);
    }
    Ok(acc)
}

pub open spec fn is_dec_digit(c: char) -> bool {
    '0' as int <= c as int <= '9' as int
}

pub open spec fn dec_digit_value(c: char) -> nat {
    if '0' as int <= c as int <= '9' as int {
        (c as int - '0' as int) as nat
    } else {
        0
    }
}

/// The value of a sequence of decimal digits, most significant first.
pub open spec fn dec_value(s: Seq<char>) -> nat
    decreases s.len(),
{
    if s.len() == 0 {
        0
    } else {
        dec_value(s.drop_last()) * 10 + dec_digit_value(s.last())
    }
}

/// A string parses as a decimal `u64` iff it is a non-empty run of decimal
/// digits whose value fits in a `u64`.
pub open spec fn parses_as_dec_u64(s: Seq<char>) -> bool {
    &&& s.len() > 0
    &&& forall|i: int| 0 <= i < s.len() ==> is_dec_digit(#[trigger] s[i])
    &&& dec_value(s) <= u64::MAX
}

proof fn lemma_dec_value_prefix_bound(t: Seq<char>, i: int)
    requires
        0 <= i <= t.len(),
    ensures
        dec_value(t.take(i)) <= dec_value(t),
    decreases t.len() - i,
{
    if i < t.len() {
        lemma_dec_value_prefix_bound(t, i + 1);
        assert(t.take(i + 1).drop_last() =~= t.take(i));
        assert(dec_value(t.take(i + 1)) == dec_value(t.take(i)) * 10 + dec_digit_value(
            t.take(i + 1).last(),
        ));
    } else {
        assert(t.take(i) =~= t);
    }
}

/// Parses a base-10 unsigned 64-bit integer. Fails on an empty string, a
/// non-digit character, or overflow.
pub fn parse_u64_dec(s: &str) -> (r: Result<u64, NumberParseError>)
    ensures
        r matches Ok(v) <==> parses_as_dec_u64(s@),
        r matches Ok(v) ==> v == dec_value(s@),
{
    let n = s.unicode_len();
    if n == 0 {
        return Err(NumberParseError);
    }
    let mut acc: u64 = 0;
    let mut i: usize = 0;
    while i < n
        invariant
            0 <= i <= n,
            n == s@.len(),
            forall|j: int| 0 <= j < i ==> is_dec_digit(#[trigger] s@[j]),
            acc == dec_value(s@.take(i as int)),
        decreases n - i,
    {
        let c = s.get_char(i);
        let u = c as u32;
        let d: u64 = if 48 <= u && u <= 57 {
            (u - 48) as u64
        } else {
            return Err(NumberParseError);
        };
        let shifted = match acc.checked_mul(10) {
            Some(x) => x,
            None => {
                proof {
                    assert(s@.take(i + 1).drop_last() =~= s@.take(i as int));
                    lemma_dec_value_prefix_bound(s@, i + 1);
                }
                return Err(NumberParseError);
            },
        };
        let next = match shifted.checked_add(d) {
            Some(x) => x,
            None => {
                proof {
                    assert(s@.take(i + 1).drop_last() =~= s@.take(i as int));
                    lemma_dec_value_prefix_bound(s@, i + 1);
                }
                return Err(NumberParseError);
            },
        };
        proof {
            assert(s@.take(i + 1).drop_last() =~= s@.take(i as int));
        }
        acc = next;
        i = i + 1;
    }
    proof {
        assert(s@.take(n as int) =~= s@);
    }
    Ok(acc)
}

/// The fixed cost charged for any JSON value.
pub const VALUE_BASE_COST: usize = 32;

/// The fixed cost charged for each object entry on top of its key and value.
pub const ENTRY_OVERHEAD_COST: usize = 48;

/// `a + b`, stopping at the largest `usize`.
pub open spec fn spec_sat_add(a: int, b: int) -> int {
    if a + b > usize::MAX {
        usize::MAX as int
    } else {
        a + b
    }
}

pub(crate) fn sat_add(a: usize, b: usize) -> (r: usize)
    ensures
        r == spec_sat_add(a as int, b as int),
{
    if a > usize::MAX - b {
        usize::MAX
    } else {
        a + b
    }
}

/// The estimated in-memory size of a JSON value: a fixed cost per value,
/// strings by their length, containers summed recursively with a fixed
/// overhead per object entry; sums saturate at the largest `usize`.
pub open spec fn spec_size(v: JsonValue) -> int
    decreases v,
{
    match v {
        JsonValue::Null => VALUE_BASE_COST as int,
        JsonValue::Bool(_) => VALUE_BASE_COST as int,
        JsonValue::Num(_) => VALUE_BASE_COST as int,
        JsonValue::Str(s) => spec_sat_add(VALUE_BASE_COST as int, s@.len() as int),
        JsonValue::Arr(a) => spec_sat_add(VALUE_BASE_COST as int, spec_size_arr(a@)),
        JsonValue::Obj(o) => spec_sat_add(VALUE_BASE_COST as int, spec_size_obj(o@)),
    }
}

/// The summed size of an array's elements.
pub open spec fn spec_size_arr(a: Seq<JsonValue>) -> int
    decreases a,
{
    if a.len() == 0 {
        0
    } else {
        spec_sat_add(spec_size_arr(a.drop_last()), spec_size(a.last()))
    }
}

/// The summed size of an object's entries: overhead plus key length plus the
/// value's size, for each entry.
pub open spec fn spec_size_obj(o: Seq<(String, JsonValue)>) -> int
    decreases o,
{
    if o.len() == 0 {
        0
    } else {
        spec_sat_add(
            spec_size_obj(o.drop_last()),
            spec_sat_add(
                spec_sat_add(ENTRY_OVERHEAD_COST as int, o.last().0@.len() as int),
                spec_size(o.last().1),
            ),
        )
    }
}

/// Estimates the in-memory size of one JSON value, for batching.
#[verifier::loop_isolation(false)]
pub fn sizeof_val(v: &JsonValue) -> (r: usize)
    ensures
        r == spec_size(*v),
    decreases *v,
{
    match v {
        JsonValue::Null => VALUE_BASE_COST,
        JsonValue::Bool(_) => VALUE_BASE_COST,
        JsonValue::Num(_) => VALUE_BASE_COST,
        JsonValue::Str(s) => sat_add(VALUE_BASE_COST, s.as_str().unicode_len()),
        JsonValue::Arr(a) => {
            let mut acc: usize = 0;
            let mut i: usize = 0;
            proof {
                assert(a@.take(0) =~= Seq::<JsonValue>::empty());
            }
            while i < a.len()
                invariant
                    0 <= i <= a@.len(),
                    acc == spec_size_arr(a@.take(i as int)),
                decreases a@.len() - i,
            {
                let sz = sizeof_val(&a[i]);
                proof {
                    assert(a@.take(i + 1).drop_last() =~= a@.take(i as int));
                    assert(a@.take(i + 1).last() == a@[i as int]);
                }
                acc = sat_add(acc, sz);
                i = i + 1;
            }
            proof {
                assert(a@.take(a@.len() as int) =~= a@);
            }
            sat_add(VALUE_BASE_COST, acc)
        },
        JsonValue::Obj(o) => {
            let mut acc: usize = 0;
            let mut i: usize = 0;
            proof {
                assert(o@.take(0) =~= Seq::<(String, JsonValue)>::empty());
            }
            while i < o.len()
                invariant
                    0 <= i <= o@.len(),
                    acc == spec_size_obj(o@.take(i as int)),
                decreases o@.len() - i,
            {
                let key_len = o[i].0.as_str().unicode_len();
                let val_size = sizeof_val(&o[i].1);
                let entry = sat_add(sat_add(ENTRY_OVERHEAD_COST, key_len), val_size);
                proof {
                    assert(o@.take(i + 1).drop_last() =~= o@.take(i as int));
                    assert(o@.take(i + 1).last() == o@[i as int]);
                }
                acc = sat_add(acc, entry);
                i = i + 1;
            }
            proof {
                assert(o@.take(o@.len() as int) =~= o@);
            }
            sat_add(VALUE_BASE_COST, acc)
        },
    }
}

/// Character-for-character equality of two string slices.
pub fn str_eq(a: &str, b: &str) -> (r: bool)
    ensures
        r == (a@ == b@),
{
    let na = a.unicode_len();
    let nb = b.unicode_len();
    if na != nb {
        return false;
    }
    let mut i: usize = 0;
    while i < na
        invariant
            0 <= i <= na,
            na == a@.len(),
            nb == b@.len(),
            na == nb,
            forall|j: int| 0 <= j < i ==> a@[j] == b@[j],
        decreases na - i,
    {
        if a.get_char(i) != b.get_char(i) {
            return false;
        }
        i = i + 1;
    }
    proof {
        assert(a@ =~= b@);
    }
    true
}

} // verus!
