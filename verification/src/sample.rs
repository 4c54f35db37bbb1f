//! The grammar of sample file extensions.
//!
//! An extension is `vlog`, or a sample type followed by a sample period:
//! `v30` holds one-byte volume samples binned every 30 seconds. Type and
//! period together fix the length of a day's file.

use vstd::prelude::*;
use crate::text::{chars_of, ends_with, same_chars, starts_with};

verus! {

/// Seconds in a day.
pub const DAY_SECONDS: u64 = 86400;

/// The sample types: each token with the bytes that one sample takes. No
/// token stands before a longer one.
pub open spec fn sample_types() -> Seq<(Seq<char>, nat)> {
    seq![
        ("vmc"@, 1nat),
        ("vs"@, 1nat),
        ("vm"@, 1nat),
        ("vl"@, 1nat),
        ("pr"@, 2nat),
        ("pt"@, 1nat),
        ("v"@, 1nat),
        ("o"@, 2nat),
        ("c"@, 2nat),
        ("s"@, 1nat),
    ]
}

/// The sample periods: each token with the seconds it stands for. No token
/// stands before a longer one.
pub open spec fn sample_periods() -> Seq<(Seq<char>, nat)> {
    seq![
        ("86400"@, 86400nat),
        ("43200"@, 43200nat),
        ("28800"@, 28800nat),
        ("14400"@, 14400nat),
        ("7200"@, 7200nat),
        ("3600"@, 3600nat),
        ("1800"@, 1800nat),
        ("1200"@, 1200nat),
        ("900"@, 900nat),
        ("600"@, 600nat),
        ("300"@, 300nat),
        ("240"@, 240nat),
        ("120"@, 120nat),
        ("90"@, 90nat),
        ("60"@, 60nat),
        ("30"@, 30nat),
        ("20"@, 20nat),
        ("15"@, 15nat),
        ("10"@, 10nat),
        ("6"@, 6nat),
        ("5"@, 5nat),
    ]
}

/// The samples that a day holds at one sample every `seconds` seconds.
pub open spec fn samples_per_day(seconds: nat) -> nat {
    86400nat / seconds
}

/// The first entry of `table` whose token begins `ext`.
pub open spec fn first_prefix(table: Seq<(Seq<char>, nat)>, ext: Seq<char>) -> Option<
    (Seq<char>, nat),
>
    decreases table.len(),
{
    if table.len() == 0 {
        None
    } else if table[0].0.is_prefix_of(ext) {
        Some(table[0])
    } else {
        first_prefix(table.drop_first(), ext)
    }
}

/// The first entry of `table` whose token ends `ext`.
pub open spec fn first_suffix(table: Seq<(Seq<char>, nat)>, ext: Seq<char>) -> Option<
    (Seq<char>, nat),
>
    decreases table.len(),
{
    if table.len() == 0 {
        None
    } else if table[0].0.is_suffix_of(ext) {
        Some(table[0])
    } else {
        first_suffix(table.drop_first(), ext)
    }
}

/// The sample type that `ext` begins with, longest token first: the token
/// and its bytes per sample.
pub open spec fn type_of(ext: Seq<char>) -> Option<(Seq<char>, nat)> {
    first_prefix(sample_types(), ext)
}

/// The sample period that `ext` ends with, longest token first: the token
/// and its samples per day.
pub open spec fn period_of(ext: Seq<char>) -> Option<(Seq<char>, nat)> {
    match first_suffix(sample_periods(), ext) {
        Some(e) => Some((e.0, samples_per_day(e.1))),
        None => None,
    }
}

/// The length in bytes of a day's file with extension `ext`, where `ext` is
/// a sample type directly followed by a sample period.
pub open spec fn expected_len(ext: Seq<char>) -> Option<nat> {
    match (type_of(ext), period_of(ext)) {
        (Some(t), Some(p)) => if t.0.len() + p.0.len() == ext.len() {
            Some(t.1 * p.1)
        } else {
            None
        },
        _ => None,
    }
}

/// Whether `ext` is a sample file extension.
pub open spec fn valid_ext(ext: Seq<char>) -> bool {
    ext == "vlog"@ || expected_len(ext) is Some
}

/// Whether a file with extension `ext` may be `len` bytes long.
pub open spec fn valid_sample_len(ext: Seq<char>, len: nat) -> bool {
    ext == "vlog"@ || expected_len(ext) == Some(len)
}

/// Whether no token of `table` stands before a longer one, and none
/// occurs twice.
pub open spec fn longest_first(table: Seq<(Seq<char>, nat)>) -> bool {
    forall|m: int, n: int|
        0 <= m < n < table.len() ==> (#[trigger] table[m]).0.len() >= (#[trigger] table[n]).0.len()
            && table[m].0 != table[n].0
}

/// Whether `s` is not empty and holds no ASCII digit.
pub open spec fn is_word(s: Seq<char>) -> bool {
    s.len() > 0 && forall|k: int| 0 <= k < s.len() ==> !crate::date::is_digit(#[trigger] s[k])
}

/// Whether `s` is not empty and holds ASCII digits only.
pub open spec fn is_number(s: Seq<char>) -> bool {
    s.len() > 0 && crate::date::all_digits(s)
}

/// The table of sample types lists words, longest first.
pub proof fn lemma_sample_types()
    ensures
        sample_types().len() == 10,
        longest_first(sample_types()),
        forall|m: int| 0 <= m < sample_types().len() ==> is_word(#[trigger] sample_types()[m].0),
{
    reveal_strlit("vmc");
    reveal_strlit("vs");
    reveal_strlit("vm");
    reveal_strlit("vl");
    reveal_strlit("pr");
    reveal_strlit("pt");
    reveal_strlit("v");
    reveal_strlit("o");
    reveal_strlit("c");
    reveal_strlit("s");
    // Tokens of one length differ in their last letter.
    assert("vs"@.last() == 's' && "vm"@.last() == 'm' && "vl"@.last() == 'l');
    assert("pr"@.last() == 'r' && "pt"@.last() == 't');
    assert("v"@.last() == 'v' && "o"@.last() == 'o' && "c"@.last() == 'c' && "s"@.last() == 's');
}

/// The table of sample periods lists numbers, longest first.
pub proof fn lemma_sample_periods()
    ensures
        sample_periods().len() == 21,
        longest_first(sample_periods()),
        forall|m: int|
            0 <= m < sample_periods().len() ==> is_number(#[trigger] sample_periods()[m].0),
{
    reveal_strlit("86400");
    reveal_strlit("43200");
    reveal_strlit("28800");
    reveal_strlit("14400");
    reveal_strlit("7200");
    reveal_strlit("3600");
    reveal_strlit("1800");
    reveal_strlit("1200");
    reveal_strlit("900");
    reveal_strlit("600");
    reveal_strlit("300");
    reveal_strlit("240");
    reveal_strlit("120");
    reveal_strlit("90");
    reveal_strlit("60");
    reveal_strlit("30");
    reveal_strlit("20");
    reveal_strlit("15");
    reveal_strlit("10");
    reveal_strlit("6");
    reveal_strlit("5");
    // Tokens of one length differ in their first or second digit.
    assert("86400"@[0] == '8' && "43200"@[0] == '4' && "28800"@[0] == '2' && "14400"@[0] == '1');
    assert("7200"@[0] == '7' && "3600"@[0] == '3' && "1800"@[1] == '8' && "1200"@[1] == '2');
    assert("900"@[0] == '9' && "600"@[0] == '6' && "300"@[0] == '3' && "240"@[0] == '2'
        && "120"@[0] == '1');
    assert("90"@[0] == '9' && "60"@[0] == '6' && "30"@[0] == '3' && "20"@[0] == '2' && "15"@[1]
        == '5' && "10"@[1] == '0');
    assert("6"@[0] == '6' && "5"@[0] == '5');
}

/// The entry at `k` is the first whose token begins `ext`, if no earlier
/// token does.
proof fn lemma_first_prefix_at(table: Seq<(Seq<char>, nat)>, ext: Seq<char>, k: int)
    requires
        0 <= k < table.len(),
        table[k].0.is_prefix_of(ext),
        forall|m: int| 0 <= m < k ==> !(#[trigger] table[m]).0.is_prefix_of(ext),
    ensures
        first_prefix(table, ext) == Some(table[k]),
    decreases k,
{
    if k > 0 {
        let rest = table.drop_first();
        assert(!table[0].0.is_prefix_of(ext));
        assert forall|m: int| 0 <= m < k - 1 implies !(#[trigger] rest[m]).0.is_prefix_of(ext) by {
            assert(rest[m] == table[m + 1]);
        }
        lemma_first_prefix_at(rest, ext, k - 1);
    }
}

/// The entry at `k` is the first whose token ends `ext`, if no earlier
/// token does.
proof fn lemma_first_suffix_at(table: Seq<(Seq<char>, nat)>, ext: Seq<char>, k: int)
    requires
        0 <= k < table.len(),
        table[k].0.is_suffix_of(ext),
        forall|m: int| 0 <= m < k ==> !(#[trigger] table[m]).0.is_suffix_of(ext),
    ensures
        first_suffix(table, ext) == Some(table[k]),
    decreases k,
{
    if k > 0 {
        let rest = table.drop_first();
        assert(!table[0].0.is_suffix_of(ext));
        assert forall|m: int| 0 <= m < k - 1 implies !(#[trigger] rest[m]).0.is_suffix_of(ext) by {
            assert(rest[m] == table[m + 1]);
        }
        lemma_first_suffix_at(rest, ext, k - 1);
    }
}

/// Something is found where a token of the table begins `ext`.
proof fn lemma_first_prefix_some(table: Seq<(Seq<char>, nat)>, ext: Seq<char>, k: int)
    requires
        0 <= k < table.len(),
        table[k].0.is_prefix_of(ext),
    ensures
        first_prefix(table, ext) is Some,
    decreases table.len(),
{
    if k > 0 && !table[0].0.is_prefix_of(ext) {
        lemma_first_prefix_some(table.drop_first(), ext, k - 1);
    }
}

/// Something is found where a token of the table ends `ext`.
proof fn lemma_first_suffix_some(table: Seq<(Seq<char>, nat)>, ext: Seq<char>, k: int)
    requires
        0 <= k < table.len(),
        table[k].0.is_suffix_of(ext),
    ensures
        first_suffix(table, ext) is Some,
    decreases table.len(),
{
    if k > 0 && !table[0].0.is_suffix_of(ext) {
        lemma_first_suffix_some(table.drop_first(), ext, k - 1);
    }
}

/// What `first_prefix` finds is an entry of the table whose token begins
/// `ext`.
proof fn lemma_first_prefix_found(table: Seq<(Seq<char>, nat)>, ext: Seq<char>) -> (k: int)
    requires
        first_prefix(table, ext) is Some,
    ensures
        0 <= k < table.len(),
        first_prefix(table, ext) == Some(table[k]),
        table[k].0.is_prefix_of(ext),
        forall|m: int| 0 <= m < k ==> !(#[trigger] table[m]).0.is_prefix_of(ext),
    decreases table.len(),
{
    if table[0].0.is_prefix_of(ext) {
        0
    } else {
        let rest = table.drop_first();
        let k = lemma_first_prefix_found(rest, ext);
        assert forall|m: int| 0 <= m < k + 1 implies !(#[trigger] table[m]).0.is_prefix_of(ext) by {
            if m > 0 {
                assert(table[m] == rest[m - 1]);
            }
        }
        k + 1
    }
}

/// What `first_suffix` finds is an entry of the table whose token ends
/// `ext`.
proof fn lemma_first_suffix_found(table: Seq<(Seq<char>, nat)>, ext: Seq<char>) -> (k: int)
    requires
        first_suffix(table, ext) is Some,
    ensures
        0 <= k < table.len(),
        first_suffix(table, ext) == Some(table[k]),
        table[k].0.is_suffix_of(ext),
        forall|m: int| 0 <= m < k ==> !(#[trigger] table[m]).0.is_suffix_of(ext),
    decreases table.len(),
{
    if table[0].0.is_suffix_of(ext) {
        0
    } else {
        let rest = table.drop_first();
        let k = lemma_first_suffix_found(rest, ext);
        assert forall|m: int| 0 <= m < k + 1 implies !(#[trigger] table[m]).0.is_suffix_of(ext) by {
            if m > 0 {
                assert(table[m] == rest[m - 1]);
            }
        }
        k + 1
    }
}

/// The sample type of an extension is the longest type token that begins
/// it, and its sample period the longest period token that ends it.
pub proof fn law_longest_token_wins(ext: Seq<char>, i: int, j: int)
    requires
        0 <= i < sample_types().len(),
        0 <= j < sample_periods().len(),
    ensures
        sample_types()[i].0.is_prefix_of(ext) ==> (type_of(ext) matches Some(t) && t.0.is_prefix_of(
            ext,
        ) && t.0.len() >= sample_types()[i].0.len()),
        sample_periods()[j].0.is_suffix_of(ext) ==> (period_of(ext) matches Some(p)
            && p.0.is_suffix_of(ext) && p.0.len() >= sample_periods()[j].0.len()),
{
    lemma_sample_types();
    lemma_sample_periods();
    let types = sample_types();
    let periods = sample_periods();
    if types[i].0.is_prefix_of(ext) {
        lemma_first_prefix_some(types, ext, i);
        let k = lemma_first_prefix_found(types, ext);
        assert(k <= i);
        assert(types[k].0.len() >= types[i].0.len());
    }
    if periods[j].0.is_suffix_of(ext) {
        lemma_first_suffix_some(periods, ext, j);
        let k = lemma_first_suffix_found(periods, ext);
        assert(k <= j);
        assert(periods[k].0.len() >= periods[j].0.len());
    }
}

/// A sample type directly followed by a sample period is a sample file
/// extension other than `vlog`. It is read back as that type and that
/// period, and the one length that its files may have is the type's bytes
/// per sample times the period's samples per day.
pub proof fn law_type_then_period(i: int, j: int)
    requires
        0 <= i < sample_types().len(),
        0 <= j < sample_periods().len(),
    ensures
        ({
            let t = sample_types()[i];
            let p = sample_periods()[j];
            let ext = t.0 + p.0;
            &&& ext != "vlog"@
            &&& valid_ext(ext)
            &&& type_of(ext) == Some(t)
            &&& period_of(ext) == Some((p.0, samples_per_day(p.1)))
            &&& forall|len: nat|
                valid_sample_len(ext, len) <==> len == t.1 * samples_per_day(p.1)
        }),
{
    lemma_sample_types();
    lemma_sample_periods();
    let types = sample_types();
    let periods = sample_periods();
    let t = types[i];
    let p = periods[j];
    let ext = t.0 + p.0;
    assert(is_word(t.0));
    assert(is_number(p.0));
    assert(ext.subrange(0, t.0.len() as int) == t.0);
    assert(ext.subrange(ext.len() - p.0.len(), ext.len() as int) == p.0);
    assert forall|m: int| 0 <= m < i implies !(#[trigger] types[m]).0.is_prefix_of(ext) by {
        let q = types[m].0;
        if q.is_prefix_of(ext) {
            assert(is_word(q));
            assert(q.len() >= t.0.len());
            if q.len() > t.0.len() {
                assert(q[t.0.len() as int] == ext.subrange(0, q.len() as int)[t.0.len() as int]);
                assert(ext[t.0.len() as int] == p.0[0]);
                assert(crate::date::is_digit(p.0[0]));
            } else {
                assert(q == t.0);
            }
        }
    }
    lemma_first_prefix_at(types, ext, i);
    assert forall|m: int| 0 <= m < j implies !(#[trigger] periods[m]).0.is_suffix_of(ext) by {
        let q = periods[m].0;
        if q.is_suffix_of(ext) {
            assert(is_number(q));
            assert(q.len() >= p.0.len());
            if q.len() > p.0.len() {
                let k = q.len() - p.0.len() - 1;
                assert(q[k] == ext.subrange(ext.len() - q.len(), ext.len() as int)[k]);
                assert(ext[t.0.len() - 1] == t.0[t.0.len() - 1]);
                assert(crate::date::is_digit(q[k]));
            } else {
                assert(q == p.0);
            }
        }
    }
    lemma_first_suffix_at(periods, ext, j);
    reveal_strlit("vlog");
    assert(ext[ext.len() - 1] == p.0[p.0.len() - 1]);
    assert("vlog"@[3] == 'g');
}

/// A sample file extension other than `vlog` is a sample type directly
/// followed by a sample period.
pub proof fn law_extension_shape(ext: Seq<char>) -> (at: (int, int))
    requires
        valid_ext(ext),
        ext != "vlog"@,
    ensures
        0 <= at.0 < sample_types().len(),
        0 <= at.1 < sample_periods().len(),
        ext == sample_types()[at.0].0 + sample_periods()[at.1].0,
        expected_len(ext) == Some(
            sample_types()[at.0].1 * samples_per_day(sample_periods()[at.1].1),
        ),
{
    let i = lemma_first_prefix_found(sample_types(), ext);
    let j = lemma_first_suffix_found(sample_periods(), ext);
    let t = sample_types()[i].0;
    let p = sample_periods()[j].0;
    assert(ext =~= t + p) by {
        assert(ext.subrange(0, t.len() as int) == t);
        assert(ext.subrange(ext.len() - p.len(), ext.len() as int) == p);
        assert forall|k: int| 0 <= k < ext.len() implies ext[k] == (t + p)[k] by {
            if k < t.len() {
                assert(ext.subrange(0, t.len() as int)[k] == ext[k]);
            } else {
                assert(ext.subrange(ext.len() - p.len(), ext.len() as int)[k - t.len()] == ext[k]);
            }
        }
    }
    (i, j)
}

/// What a table of tokens and numbers holds.
pub open spec fn table_view(t: Seq<(&'static str, u64)>) -> Seq<(Seq<char>, nat)> {
    t.map_values(|e: (&'static str, u64)| (e.0@, e.1 as nat))
}

/// The table of sample types.
fn type_table() -> (t: Vec<(&'static str, u64)>)
    ensures
        table_view(t@) == sample_types(),
{
    vec![
        ("vmc", 1u64),
        ("vs", 1u64),
        ("vm", 1u64),
        ("vl", 1u64),
        ("pr", 2u64),
        ("pt", 1u64),
        ("v", 1u64),
        ("o", 2u64),
        ("c", 2u64),
        ("s", 1u64),
    ]
}

/// The table of sample periods.
fn period_table() -> (t: Vec<(&'static str, u64)>)
    ensures
        table_view(t@) == sample_periods(),
        forall|i: int| 0 <= i < t@.len() ==> 0 < (#[trigger] t@[i]).1 <= 86400,
{
    vec![
        ("86400", 86400u64),
        ("43200", 43200u64),
        ("28800", 28800u64),
        ("14400", 14400u64),
        ("7200", 7200u64),
        ("3600", 3600u64),
        ("1800", 1800u64),
        ("1200", 1200u64),
        ("900", 900u64),
        ("600", 600u64),
        ("300", 300u64),
        ("240", 240u64),
        ("120", 120u64),
        ("90", 90u64),
        ("60", 60u64),
        ("30", 30u64),
        ("20", 20u64),
        ("15", 15u64),
        ("10", 10u64),
        ("6", 6u64),
        ("5", 5u64),
    ]
}

/// The first entry of `table` whose token begins `ext`.
fn find_prefix(table: &Vec<(&'static str, u64)>, ext: &Vec<char>) -> (r: Option<
    (&'static str, u64),
>)
    ensures
        match r {
            Some(e) => first_prefix(table_view(table@), ext@) == Some((e.0@, e.1 as nat))
                && table@.contains(e),
            None => first_prefix(table_view(table@), ext@) is None,
        },
{
    let ghost tv = table_view(table@);
    assert(tv.subrange(0, tv.len() as int) == tv);
    let mut i: usize = 0;
    while i < table.len()
        invariant
            i <= table.len(),
            tv == table_view(table@),
            first_prefix(tv, ext@) == first_prefix(tv.subrange(i as int, tv.len() as int), ext@),
        decreases table.len() - i,
    {
        let e = table[i];
        let token = chars_of(e.0);
        let ghost rest = tv.subrange(i as int, tv.len() as int);
        assert(rest[0] == (e.0@, e.1 as nat));
        assert(rest.drop_first() == tv.subrange(i + 1, tv.len() as int));
        if starts_with(ext, &token) {
            return Some(e);
        }
        i += 1;
    }
    None
}

/// The first entry of `table` whose token ends `ext`.
fn find_suffix(table: &Vec<(&'static str, u64)>, ext: &Vec<char>) -> (r: Option<
    (&'static str, u64),
>)
    ensures
        match r {
            Some(e) => first_suffix(table_view(table@), ext@) == Some((e.0@, e.1 as nat))
                && table@.contains(e),
            None => first_suffix(table_view(table@), ext@) is None,
        },
{
    let ghost tv = table_view(table@);
    assert(tv.subrange(0, tv.len() as int) == tv);
    let mut i: usize = 0;
    while i < table.len()
        invariant
            i <= table.len(),
            tv == table_view(table@),
            first_suffix(tv, ext@) == first_suffix(tv.subrange(i as int, tv.len() as int), ext@),
        decreases table.len() - i,
    {
        let e = table[i];
        let token = chars_of(e.0);
        let ghost rest = tv.subrange(i as int, tv.len() as int);
        assert(rest[0] == (e.0@, e.1 as nat));
        assert(rest.drop_first() == tv.subrange(i + 1, tv.len() as int));
        if ends_with(ext, &token) {
            return Some(e);
        }
        i += 1;
    }
    None
}

/// The sample type of the extension `ext`.
fn type_of_chars(ext: &Vec<char>) -> (r: Option<(&'static str, u64)>)
    ensures
        match r {
            Some(t) => type_of(ext@) == Some((t.0@, t.1 as nat)) && 1 <= t.1 <= 2,
            None => type_of(ext@) is None,
        },
{
    let table = type_table();
    let r = find_prefix(&table, ext);
    proof {
        if let Some(e) = r {
            let i = choose|i: int| 0 <= i < table@.len() && table@[i] == e;
            assert(table_view(table@)[i].1 == e.1);
        }
    }
    r
}

/// The sample period of the extension `ext`.
fn period_of_chars(ext: &Vec<char>) -> (r: Option<(&'static str, u64)>)
    ensures
        match r {
            Some(p) => period_of(ext@) == Some((p.0@, p.1 as nat)) && p.1 <= 86400,
            None => period_of(ext@) is None,
        },
{
    let table = period_table();
    match find_suffix(&table, ext) {
        Some(e) => Some((e.0, DAY_SECONDS / e.1)),
        None => None,
    }
}

/// The length in bytes that the extension `ext` asks for.
fn expected_len_chars(ext: &Vec<char>) -> (r: Option<u64>)
    ensures
        match r {
            Some(n) => expected_len(ext@) == Some(n as nat),
            None => expected_len(ext@) is None,
        },
{
    if let Some(t) = type_of_chars(ext) {
        if let Some(p) = period_of_chars(ext) {
            let tl = t.0.unicode_len();
            let pl = p.0.unicode_len();
            if tl <= ext.len() && ext.len() - tl == pl {
                assert(t.1 * p.1 <= 2 * 86400) by (nonlinear_arith)
                    requires
                        t.1 <= 2,
                        p.1 <= 86400,
                ;
                return Some(t.1 * p.1);
            }
        }
    }
    None
}

/// Whether the characters `ext` are a sample file extension.
pub fn is_sample_ext_chars(ext: &Vec<char>) -> (r: bool)
    ensures
        r == valid_ext(ext@),
{
    let vlog = chars_of("vlog");
    same_chars(ext, &vlog) || expected_len_chars(ext).is_some()
}

/// Gets the sample type that an extension begins with: its token and the
/// bytes that one sample takes.
pub fn sample_type(ext: &str) -> (r: Option<(&'static str, u64)>)
    ensures
        match r {
            Some(t) => type_of(ext@) == Some((t.0@, t.1 as nat)),
            None => type_of(ext@) is None,
        },
{
    let v = chars_of(ext);
    type_of_chars(&v)
}

/// Gets the sample period that an extension ends with: its token and the
/// samples that a day holds.
pub fn sample_period(ext: &str) -> (r: Option<(&'static str, u64)>)
    ensures
        match r {
            Some(p) => period_of(ext@) == Some((p.0@, p.1 as nat)),
            None => period_of(ext@) is None,
        },
{
    let v = chars_of(ext);
    period_of_chars(&v)
}

/// Checks a sample file extension: hands it back if it is `vlog` or a
/// sample type directly followed by a sample period.
pub fn sample_file_ext(ext: &str) -> (r: Option<&str>)
    ensures
        r.is_some() == valid_ext(ext@),
        r matches Some(e) ==> e@ == ext@,
{
    let v = chars_of(ext);
    if is_sample_ext_chars(&v) {
        Some(ext)
    } else {
        None
    }
}

/// Checks the length of a sample file against its extension: any length
/// for `vlog`, else bytes per sample times samples per day.
pub fn is_valid_sample_len(ext: &str, len: u64) -> (r: bool)
    ensures
        r == valid_sample_len(ext@, len as nat),
{
    let v = chars_of(ext);
    let vlog = chars_of("vlog");
    if same_chars(&v, &vlog) {
        return true;
    }
    match expected_len_chars(&v) {
        Some(n) => n == len,
        None => false,
    }
}

} // verus!
