//! Inert heap-profile monitor: no dump is orchestrated and nothing is
//! uploaded; profiling is forced off whatever local or remote settings say.
//! Only the local naming helpers remain.
use crate::text::{chars_of, decimal, owned, push_decimal, push_str, string_from_chars};
use crate::time::Duration;
use std::collections::BTreeSet;
use vstd::prelude::*;

verus! {

/// Largest dump that would ever be written.
pub const HARD_DUMP_SIZE_CAP_BYTES: u64 = 134217728;

/// Poll interval used when none is configured, in seconds.
pub const DEFAULT_POLL_INTERVAL_SECS: u64 = 30;

/// Smallest accepted poll interval, in seconds.
pub const MIN_POLL_INTERVAL_SECS: u64 = 5;

/// Largest accepted poll interval, in seconds.
pub const MAX_POLL_INTERVAL_SECS: u64 = 300;

/// How often a scoped kill switch would be re-checked: five minutes.
pub fn scoped_kill_switch_interval() -> (d: Duration)
    ensures
        d.secs_of() == 300 && d.nanos_of() == 0,
{
    Duration::from_secs(300)
}

/// Heap-profile settings.
#[derive(Debug, Clone, PartialEq, Eq)]
pub struct JemallocHeapProfileConfig {
    pub enabled: bool,
    pub thresholds: Vec<u64>,
    pub poll_interval: Duration,
}

impl Default for JemallocHeapProfileConfig {
    fn default() -> (c: JemallocHeapProfileConfig)
        ensures
            !c.enabled,
            c.thresholds@.len() == 0,
            c.poll_interval.secs_of() == DEFAULT_POLL_INTERVAL_SECS,
            c.poll_interval.nanos_of() == 0,
    {
        JemallocHeapProfileConfig {
            enabled: false,
            thresholds: Vec::new(),
            poll_interval: Duration::from_secs(DEFAULT_POLL_INTERVAL_SECS),
        }
    }
}

/// Empty marker: credentials, endpoints and upload methods are not kept.
#[derive(Clone, Copy, Debug, PartialEq, Eq, Structural)]
pub struct HeapProfileUploadHandles;

/// How a dump attempt ended.
#[derive(Debug, Clone, Copy, PartialEq, Eq, Structural)]
pub enum DumpAttemptOutcome {
    Deferred,
    DumpFailed,
    DumpTimeout,
    SizeCap,
    UploadOk,
    UploadFailed,
}

/// Every outcome but a deferral latches its threshold.
pub fn should_latch(outcome: DumpAttemptOutcome) -> (res: bool)
    ensures
        res == !(outcome is Deferred),
{
    match outcome {
        DumpAttemptOutcome::Deferred => false,
        _ => true,
    }
}

/// A hexadecimal digit: `0`-`9`, `a`-`f` or `A`-`F`.
pub open spec fn is_hex_char(c: char) -> bool {
    let v = c as u32;
    (48 <= v <= 57) || (97 <= v <= 102) || (65 <= v <= 70)
}

/// A hyphenated UUID: 36 characters, hyphens at 8, 13, 18 and 23, hex
/// digits everywhere else.
pub open spec fn is_hyphenated_uuid(s: Seq<char>) -> bool {
    &&& s.len() == 36
    &&& forall|i: int|
        0 <= i < 36 ==> if i == 8 || i == 13 || i == 18 || i == 23 {
            #[trigger] s[i] == '-'
        } else {
            is_hex_char(s[i])
        }
}

/// An ASCII letter in lower case; every other character unchanged.
pub open spec fn ascii_lower(c: char) -> char {
    let v = c as u32;
    if 65 <= v <= 90 {
        (v + 32) as char
    } else {
        c
    }
}

/// The texts `uuid::Uuid::try_parse` accepts: 32 hex digits; a hyphenated
/// UUID; a hyphenated UUID in braces; or one behind a `urn:uuid:` prefix in
/// any ASCII case.
pub open spec fn uuid_text_parses(text: Seq<char>) -> bool {
    ||| text.len() == 32 && forall|i: int| 0 <= i < 32 ==> is_hex_char(#[trigger] text[i])
    ||| is_hyphenated_uuid(text)
    ||| text.len() == 38 && text[0] == '{' && text[37] == '}' && is_hyphenated_uuid(
        text.subrange(1, 37),
    )
    ||| text.len() == 45 && (forall|i: int|
        0 <= i < 9 ==> ascii_lower(#[trigger] text[i]) == "urn:uuid:"@[i]) && is_hyphenated_uuid(
        text.skip(9),
    )
}

/// Calls `uuid::Uuid::try_parse`. Trusted: it accepts exactly the shapes of
/// `uuid_text_parses`. Its source checks the byte length and shape; every
/// accepted shape is ASCII, so counting characters gives the same answer.
#[verifier::external_body]
fn uuid_try_parse_ok(text: &str) -> (res: bool)
    ensures
        res == uuid_text_parses(text@),
{
    uuid::Uuid::try_parse(text).is_ok()
}

/// Whether a session id is a UUID.
pub fn is_valid_session_id(session_id: &str) -> (res: bool)
    ensures
        res == uuid_text_parses(session_id@),
{
    uuid_try_parse_ok(session_id)
}

/// Characters kept verbatim in a sanitized version: ASCII letters and
/// digits, `.`, `_` and `-`.
pub open spec fn version_char_accepted(c: char) -> bool {
    let v = c as u32;
    (48 <= v <= 57) || (65 <= v <= 90) || (97 <= v <= 122) || c == '.' || c == '_' || c == '-'
}

/// Every other character becomes `_`, and a run of rejected characters
/// right after an underscore adds nothing more. `prev_underscore` tells
/// whether the text produced so far ends with `_`.
pub open spec fn collapse_rejected(s: Seq<char>, prev_underscore: bool) -> Seq<char>
    decreases s.len(),
{
    if s.len() == 0 {
        s
    } else if version_char_accepted(s[0]) {
        seq![s[0]] + collapse_rejected(s.drop_first(), s[0] == '_')
    } else if !prev_underscore {
        seq!['_'] + collapse_rejected(s.drop_first(), true)
    } else {
        collapse_rejected(s.drop_first(), true)
    }
}

/// `s` without leading underscores.
pub open spec fn trim_leading_underscores(s: Seq<char>) -> Seq<char>
    decreases s.len(),
{
    if s.len() > 0 && s[0] == '_' {
        trim_leading_underscores(s.drop_first())
    } else {
        s
    }
}

/// `s` without trailing underscores.
pub open spec fn trim_trailing_underscores(s: Seq<char>) -> Seq<char>
    decreases s.len(),
{
    if s.len() > 0 && s.last() == '_' {
        trim_trailing_underscores(s.drop_last())
    } else {
        s
    }
}

/// Placeholder used when nothing of the version survives.
pub const UNKNOWN_VERSION: &'static str = "unknown";

/// The sanitized form of a version string.
pub open spec fn sanitized_version(version: Seq<char>) -> Seq<char> {
    let t = trim_trailing_underscores(trim_leading_underscores(collapse_rejected(version, false)));
    if t.len() == 0 {
        UNKNOWN_VERSION@
    } else {
        t
    }
}

fn is_version_char(c: char) -> (res: bool)
    ensures
        res == version_char_accepted(c),
{
    let v = c as u32;
    (48 <= v && v <= 57) || (65 <= v && v <= 90) || (97 <= v && v <= 122) || c == '.' || c == '_'
        || c == '-'
}

fn collapse_version_chars(chars: &Vec<char>) -> (out: Vec<char>)
    ensures
        out@ == collapse_rejected(chars@, false),
{
    let mut out: Vec<char> = Vec::new();
    let mut previous_underscore = false;
    let mut i: usize = 0;
    assert(chars@.subrange(0, chars@.len() as int) =~= chars@);
    assert(out@ + collapse_rejected(chars@, false) =~= collapse_rejected(chars@, false));
    while i < chars.len()
        invariant
            i <= chars@.len(),
            out@ + collapse_rejected(chars@.subrange(i as int, chars@.len() as int), previous_underscore)
                == collapse_rejected(chars@, false),
        decreases chars@.len() - i,
    {
        let ghost rest = chars@.subrange(i as int, chars@.len() as int);
        let ghost before = out@;
        assert(rest.drop_first() =~= chars@.subrange(i + 1, chars@.len() as int));
        let c = chars[i];
        if is_version_char(c) {
            out.push(c);
            previous_underscore = c == '_';
            assert(before + (seq![c] + collapse_rejected(rest.drop_first(), previous_underscore))
                =~= out@ + collapse_rejected(rest.drop_first(), previous_underscore));
        } else if !previous_underscore {
            out.push('_');
            previous_underscore = true;
            assert(before + (seq!['_'] + collapse_rejected(rest.drop_first(), true)) =~= out@
                + collapse_rejected(rest.drop_first(), true));
        } else {
        }
        i = i + 1;
    }
    assert(chars@.subrange(i as int, chars@.len() as int) =~= Seq::<char>::empty());
    assert(out@ + Seq::<char>::empty() =~= out@);
    out
}

fn trim_underscores(s: &Vec<char>) -> (res: Vec<char>)
    ensures
        res@ == trim_trailing_underscores(trim_leading_underscores(s@)),
{
    let mut lo: usize = 0;
    assert(s@.subrange(0, s@.len() as int) =~= s@);
    while lo < s.len() && s[lo] == '_'
        invariant
            lo <= s@.len(),
            trim_leading_underscores(s@.subrange(lo as int, s@.len() as int))
                == trim_leading_underscores(s@),
        decreases s@.len() - lo,
    {
        assert(s@.subrange(lo as int, s@.len() as int).drop_first() =~= s@.subrange(
            lo + 1,
            s@.len() as int,
        ));
        lo = lo + 1;
    }
    let ghost lead = s@.subrange(lo as int, s@.len() as int);
    assert(trim_leading_underscores(lead) == lead);
    let mut hi: usize = s.len();
    while hi > lo && s[hi - 1] == '_'
        invariant
            lo <= hi <= s@.len(),
            trim_trailing_underscores(s@.subrange(lo as int, hi as int)) == trim_trailing_underscores(
                lead,
            ),
        decreases hi - lo,
    {
        assert(s@.subrange(lo as int, hi as int).drop_last() =~= s@.subrange(
            lo as int,
            hi - 1 as int,
        ));
        hi = hi - 1;
    }
    let mut res: Vec<char> = Vec::new();
    let mut k: usize = lo;
    while k < hi
        invariant
            lo <= k <= hi,
            hi <= s@.len(),
            res@ == s@.subrange(lo as int, k as int),
        decreases hi - k,
    {
        res.push(s[k]);
        k = k + 1;
        assert(s@.subrange(lo as int, k as int) =~= s@.subrange(lo as int, k - 1 as int).push(
            s@[k - 1],
        ));
    }
    res
}

/// Make a version string safe for object names: keep ASCII letters, digits,
/// `.`, `_` and `-`; replace each run of other characters by one `_`; trim
/// underscores at both ends; use `unknown` when nothing is left.
pub fn sanitize_version(version: &str) -> (res: String)
    ensures
        res@ == sanitized_version(version@),
{
    let chars = chars_of(version);
    let collapsed = collapse_version_chars(&chars);
    let trimmed = trim_underscores(&collapsed);
    if trimmed.len() == 0 {
        owned(UNKNOWN_VERSION)
    } else {
        string_from_chars(&trimmed)
    }
}

/// Every character of `s` is one that sanitizing keeps.
pub open spec fn all_version_chars(s: Seq<char>) -> bool {
    forall|i: int| 0 <= i < s.len() ==> version_char_accepted(#[trigger] s[i])
}

proof fn lemma_collapse_output_accepted(s: Seq<char>, prev: bool)
    ensures
        all_version_chars(collapse_rejected(s, prev)),
    decreases s.len(),
{
    if s.len() > 0 {
        if version_char_accepted(s[0]) {
            lemma_collapse_output_accepted(s.drop_first(), s[0] == '_');
            let r = collapse_rejected(s.drop_first(), s[0] == '_');
            assert forall|i: int| 0 <= i < (seq![s[0]] + r).len() implies version_char_accepted(
                #[trigger] (seq![s[0]] + r)[i],
            ) by {
                if i > 0 {
                    assert((seq![s[0]] + r)[i] == r[i - 1]);
                }
            }
        } else if !prev {
            lemma_collapse_output_accepted(s.drop_first(), true);
            let r = collapse_rejected(s.drop_first(), true);
            assert forall|i: int| 0 <= i < (seq!['_'] + r).len() implies version_char_accepted(
                #[trigger] (seq!['_'] + r)[i],
            ) by {
                if i > 0 {
                    assert((seq!['_'] + r)[i] == r[i - 1]);
                }
            }
        } else {
            lemma_collapse_output_accepted(s.drop_first(), true);
        }
    }
}

proof fn lemma_collapse_identity(s: Seq<char>, prev: bool)
    requires
        all_version_chars(s),
    ensures
        collapse_rejected(s, prev) == s,
    decreases s.len(),
{
    if s.len() > 0 {
        assert(version_char_accepted(s[0]));
        assert(all_version_chars(s.drop_first())) by {
            assert forall|i: int| 0 <= i < s.drop_first().len() implies version_char_accepted(
                #[trigger] s.drop_first()[i],
            ) by {
                assert(s.drop_first()[i] == s[i + 1]);
            }
        }
        lemma_collapse_identity(s.drop_first(), s[0] == '_');
        assert(seq![s[0]] + s.drop_first() =~= s);
    }
}

proof fn lemma_trim_leading_is_suffix(s: Seq<char>)
    ensures
        trim_leading_underscores(s).len() <= s.len(),
        forall|i: int|
            0 <= i < trim_leading_underscores(s).len() ==> #[trigger] trim_leading_underscores(s)[i]
                == s[i + s.len() - trim_leading_underscores(s).len()],
        trim_leading_underscores(s).len() > 0 ==> trim_leading_underscores(s)[0] != '_',
    decreases s.len(),
{
    if s.len() > 0 && s[0] == '_' {
        lemma_trim_leading_is_suffix(s.drop_first());
    }
}

proof fn lemma_trim_trailing_is_prefix(s: Seq<char>)
    ensures
        trim_trailing_underscores(s).len() <= s.len(),
        forall|i: int|
            0 <= i < trim_trailing_underscores(s).len() ==> #[trigger] trim_trailing_underscores(
                s,
            )[i] == s[i],
        trim_trailing_underscores(s).len() > 0 ==> trim_trailing_underscores(s).last() != '_',
    decreases s.len(),
{
    if s.len() > 0 && s.last() == '_' {
        lemma_trim_trailing_is_prefix(s.drop_last());
    }
}

proof fn lemma_unknown_shape()
    ensures
        UNKNOWN_VERSION@.len() > 0,
        all_version_chars(UNKNOWN_VERSION@),
        UNKNOWN_VERSION@[0] != '_',
        UNKNOWN_VERSION@.last() != '_',
{
    reveal_strlit("unknown");
    assert(UNKNOWN_VERSION@ =~= seq!['u', 'n', 'k', 'n', 'o', 'w', 'n']);
}

/// A sanitized version is never empty, consists only of kept characters, and
/// neither starts nor ends with an underscore.
pub proof fn lemma_sanitized_shape(version: Seq<char>)
    ensures
        sanitized_version(version).len() > 0,
        all_version_chars(sanitized_version(version)),
        sanitized_version(version)[0] != '_',
        sanitized_version(version).last() != '_',
{
    let c = collapse_rejected(version, false);
    let l = trim_leading_underscores(c);
    let t = trim_trailing_underscores(l);
    lemma_collapse_output_accepted(version, false);
    lemma_trim_leading_is_suffix(c);
    lemma_trim_trailing_is_prefix(l);
    lemma_unknown_shape();
    if t.len() > 0 {
        assert(t[0] == l[0]);
        assert forall|i: int| 0 <= i < t.len() implies version_char_accepted(#[trigger] t[i]) by {
            assert(t[i] == l[i]);
            assert(l[i] == c[i + c.len() - l.len()]);
        }
    }
}

/// No two neighbouring characters of `s` are both underscores.
pub open spec fn no_double_underscore(s: Seq<char>) -> bool {
    forall|i: int| 0 <= i < s.len() - 1 ==> !(#[trigger] s[i] == '_' && s[i + 1] == '_')
}

proof fn lemma_collapse_single_underscores(s: Seq<char>, prev: bool)
    requires
        !s.contains('_'),
    ensures
        no_double_underscore(collapse_rejected(s, prev)),
        prev ==> (collapse_rejected(s, prev).len() == 0 || collapse_rejected(s, prev)[0] != '_'),
    decreases s.len(),
{
    if s.len() > 0 {
        let t = s.drop_first();
        assert(!t.contains('_')) by {
            if t.contains('_') {
                let k = choose|k: int| 0 <= k < t.len() && t[k] == '_';
                assert(s[k + 1] == '_');
            }
        }
        assert(s[0] != '_') by {
            if s[0] == '_' {
                assert(s.contains('_'));
            }
        }
        if version_char_accepted(s[0]) {
            lemma_collapse_single_underscores(t, s[0] == '_');
            let r = collapse_rejected(t, false);
            let out = seq![s[0]] + r;
            assert(collapse_rejected(s, prev) == out);
            assert forall|i: int| 0 <= i < out.len() - 1 implies !(#[trigger] out[i] == '_' && out[i
                + 1] == '_') by {
                if i > 0 {
                    assert(out[i] == r[i - 1] && out[i + 1] == r[i]);
                }
            }
        } else if !prev {
            lemma_collapse_single_underscores(t, true);
            let r = collapse_rejected(t, true);
            let out = seq!['_'] + r;
            assert(collapse_rejected(s, prev) == out);
            assert forall|i: int| 0 <= i < out.len() - 1 implies !(#[trigger] out[i] == '_' && out[i
                + 1] == '_') by {
                if i > 0 {
                    assert(out[i] == r[i - 1] && out[i + 1] == r[i]);
                } else {
                    assert(out[1] == r[0]);
                }
            }
        } else {
            lemma_collapse_single_underscores(t, true);
        }
    }
}

/// A run of rejected characters becomes a single underscore: when the
/// version itself holds no underscore, its sanitized form never holds two
/// underscores side by side (so `1.0 (beta)` gives `1.0_beta`).
pub proof fn lemma_sanitized_runs_are_single(version: Seq<char>)
    requires
        !version.contains('_'),
    ensures
        no_double_underscore(sanitized_version(version)),
{
    let c = collapse_rejected(version, false);
    let l = trim_leading_underscores(c);
    let t = trim_trailing_underscores(l);
    lemma_collapse_single_underscores(version, false);
    lemma_trim_leading_is_suffix(c);
    lemma_trim_trailing_is_prefix(l);
    if t.len() == 0 {
        reveal_strlit("unknown");
        let u = sanitized_version(version);
        assert(u =~= seq!['u', 'n', 'k', 'n', 'o', 'w', 'n']);
    } else {
        assert forall|i: int| 0 <= i < t.len() - 1 implies !(#[trigger] t[i] == '_' && t[i + 1]
            == '_') by {
            let off = c.len() - l.len();
            assert(t[i] == l[i] && t[i + 1] == l[i + 1]);
            assert(l[i] == c[i + off] && l[i + 1] == c[i + 1 + off]);
        }
    }
}

proof fn lemma_trims_identity(s: Seq<char>)
    requires
        s.len() > 0,
        s[0] != '_',
        s.last() != '_',
    ensures
        trim_trailing_underscores(trim_leading_underscores(s)) == s,
{
}

/// Sanitizing is idempotent: a sanitized version sanitizes to itself.
pub proof fn lemma_sanitize_idempotent(version: Seq<char>)
    ensures
        sanitized_version(sanitized_version(version)) == sanitized_version(version),
{
    let r = sanitized_version(version);
    lemma_sanitized_shape(version);
    lemma_collapse_identity(r, false);
    lemma_trims_identity(r);
}

/// Object names of a dump and its metadata:
/// `{session}/jemalloc/{session}-{version}-{ts}` with `.heap` and
/// `.meta.json` suffixes, the version sanitized.
pub open spec fn object_base(session_id: Seq<char>, version: Seq<char>, ts_unix: u64) -> Seq<
    char,
> {
    session_id + "/jemalloc/"@ + session_id + "-"@ + sanitized_version(version) + "-"@ + decimal(
        ts_unix as nat,
    )
}

/// Kept only for local file-name compatibility; nothing sends these objects.
pub fn object_paths(session_id: &str, version: &str, ts_unix: u64) -> (res: (String, String))
    ensures
        res.0@ == object_base(session_id@, version@, ts_unix) + ".heap"@,
        res.1@ == object_base(session_id@, version@, ts_unix) + ".meta.json"@,
{
    let version = sanitize_version(version);
    let mut base = owned(session_id);
    push_str(&mut base, "/jemalloc/");
    push_str(&mut base, session_id);
    push_str(&mut base, "-");
    push_str(&mut base, version.as_str());
    push_str(&mut base, "-");
    push_decimal(&mut base, ts_unix);
    let mut heap = owned(base.as_str());
    push_str(&mut heap, ".heap");
    let mut meta = owned(base.as_str());
    push_str(&mut meta, ".meta.json");
    (heap, meta)
}

/// Strictly increasing, hence sorted and free of repeats.
pub open spec fn strictly_increasing(s: Seq<u64>) -> bool {
    forall|i: int, j: int| 0 <= i < j < s.len() ==> s[i] < s[j]
}

fn insert_sorted(v: &mut Vec<u64>, x: u64)
    requires
        strictly_increasing(old(v)@),
    ensures
        strictly_increasing(final(v)@),
        forall|y: u64| final(v)@.contains(y) <==> (old(v)@.contains(y) || y == x),
{
    let mut idx: usize = 0;
    while idx < v.len() && v[idx] < x
        invariant
            idx <= v@.len(),
            v@ == old(v)@,
            forall|k: int| 0 <= k < idx ==> v@[k] < x,
        decreases v@.len() - idx,
    {
        idx = idx + 1;
    }
    if idx < v.len() && v[idx] == x {
        assert(v@[idx as int] == x);
        assert(v@.contains(x));
        return;
    }
    let ghost before = v@;
    assert(before == old(v)@);
    v.insert(idx, x);
    assert(v@ == before.insert(idx as int, x));
    assert forall|i: int, j: int| 0 <= i < j < v@.len() implies v@[i] < v@[j] by {
        if j < idx {
        } else if j == idx {
        } else if i < idx {
            assert(v@[j] == before[j - 1]);
            assert(before[j - 1] >= before[idx as int]);
        } else if i == idx {
            assert(v@[j] == before[j - 1]);
            assert(before[j - 1] >= before[idx as int]);
        } else {
            assert(v@[i] == before[i - 1]);
            assert(v@[j] == before[j - 1]);
        }
    }
    assert forall|y: u64| v@.contains(y) <==> (before.contains(y) || y == x) by {
        if v@.contains(y) {
            let k = choose|k: int| 0 <= k < v@.len() && v@[k] == y;
            if k < idx {
                assert(before[k] == y);
            } else if k > idx {
                assert(before[k - 1] == y);
            }
        }
        if before.contains(y) {
            let k = choose|k: int| 0 <= k < before.len() && before[k] == y;
            if k < idx {
                assert(v@[k] == y);
            } else {
                assert(v@[k + 1] == y);
            }
        }
        if y == x {
            assert(v@[idx as int] == y);
        }
    }
    assert(forall|y: u64| v@.contains(y) <==> (before.contains(y) || y == x));
}

/// Sort thresholds and drop repeats: the result is strictly increasing and
/// holds exactly the values of the input.
pub fn normalize_thresholds(thresholds: Vec<u64>) -> (res: Vec<u64>)
    ensures
        strictly_increasing(res@),
        forall|y: u64| res@.contains(y) <==> thresholds@.contains(y),
{
    let mut res: Vec<u64> = Vec::new();
    let mut i: usize = 0;
    while i < thresholds.len()
        invariant
            i <= thresholds@.len(),
            strictly_increasing(res@),
            forall|y: u64| res@.contains(y) <==> thresholds@.take(i as int).contains(y),
        decreases thresholds@.len() - i,
    {
        insert_sorted(&mut res, thresholds[i]);
        let ghost prefix = thresholds@.take(i as int);
        assert(thresholds@.take(i + 1 as int) =~= prefix.push(thresholds@[i as int]));
        assert forall|y: u64| thresholds@.take(i + 1 as int).contains(y) <==> (prefix.contains(y)
            || y == thresholds@[i as int]) by {
            let p = thresholds@.take(i + 1 as int);
            if p.contains(y) {
                let k = choose|k: int| 0 <= k < p.len() && p[k] == y;
                if k < i {
                    assert(prefix[k] == y);
                }
            }
            if prefix.contains(y) {
                let k = choose|k: int| 0 <= k < prefix.len() && prefix[k] == y;
                assert(p[k] == y);
            }
            if y == thresholds@[i as int] {
                assert(p[i as int] == y);
            }
        }
        i = i + 1;
    }
    assert(thresholds@.take(i as int) =~= thresholds@);
    res
}

/// Normalised thresholds are determined by the set of input values alone:
/// two strictly increasing sequences with the same values are equal. So
/// normalising is insensitive to input order and repeats, and normalising a
/// normalised list gives it back.
pub proof fn lemma_normalized_thresholds_unique(a: Seq<u64>, b: Seq<u64>)
    requires
        strictly_increasing(a),
        strictly_increasing(b),
        forall|y: u64| a.contains(y) <==> b.contains(y),
    ensures
        a == b,
    decreases a.len(),
{
    if a.len() == 0 {
        if b.len() > 0 {
            assert(b.contains(b[0]));
        }
    } else if b.len() == 0 {
        assert(a.contains(a[0]));
    } else {
        // The first elements are the least values of the same set.
        assert(a.contains(a[0]));
        assert(b.contains(b[0]));
        let ka = choose|k: int| 0 <= k < a.len() && a[k] == b[0];
        let kb = choose|k: int| 0 <= k < b.len() && b[k] == a[0];
        if ka > 0 {
            assert(a[0] < a[ka]);
        }
        if kb > 0 {
            assert(b[0] < b[kb]);
        }
        assert(a[0] == b[0]);
        let ta = a.drop_first();
        let tb = b.drop_first();
        assert(strictly_increasing(ta)) by {
            assert forall|i: int, j: int| 0 <= i < j < ta.len() implies ta[i] < ta[j] by {
                assert(ta[i] == a[i + 1] && ta[j] == a[j + 1]);
            }
        }
        assert(strictly_increasing(tb)) by {
            assert forall|i: int, j: int| 0 <= i < j < tb.len() implies tb[i] < tb[j] by {
                assert(tb[i] == b[i + 1] && tb[j] == b[j + 1]);
            }
        }
        assert forall|y: u64| ta.contains(y) <==> tb.contains(y) by {
            if ta.contains(y) {
                let k = choose|k: int| 0 <= k < ta.len() && ta[k] == y;
                assert(a[k + 1] == y);
                assert(a.contains(y));
                let m = choose|m: int| 0 <= m < b.len() && b[m] == y;
                assert(a[0] < a[k + 1]);
                assert(m != 0);
                assert(tb[m - 1] == y);
            }
            if tb.contains(y) {
                let k = choose|k: int| 0 <= k < tb.len() && tb[k] == y;
                assert(b[k + 1] == y);
                assert(b.contains(y));
                let m = choose|m: int| 0 <= m < a.len() && a[m] == y;
                assert(b[0] < b[k + 1]);
                assert(m != 0);
                assert(ta[m - 1] == y);
            }
        }
        lemma_normalized_thresholds_unique(ta, tb);
        assert(a =~= seq![a[0]] + ta);
        assert(b =~= seq![b[0]] + tb);
    }
}

/// Clamping is idempotent: a clamped interval, configured again, is kept.
pub proof fn lemma_clamp_idempotent(seconds: Option<u64>)
    ensures
        clamped_poll_secs(Some(clamped_poll_secs(seconds))) == clamped_poll_secs(seconds),
        MIN_POLL_INTERVAL_SECS <= clamped_poll_secs(seconds) <= MAX_POLL_INTERVAL_SECS,
{
}

/// The poll interval actually used, in seconds.
pub open spec fn clamped_poll_secs(seconds: Option<u64>) -> u64 {
    let s = match seconds {
        Some(s) => s,
        None => DEFAULT_POLL_INTERVAL_SECS,
    };
    if s < MIN_POLL_INTERVAL_SECS {
        MIN_POLL_INTERVAL_SECS
    } else if s > MAX_POLL_INTERVAL_SECS {
        MAX_POLL_INTERVAL_SECS
    } else {
        s
    }
}

/// The configured poll interval (default 30 s), clamped to 5..=300 s.
pub fn clamp_poll_interval_secs(seconds: Option<u64>) -> (res: u64)
    ensures
        res == clamped_poll_secs(seconds),
        MIN_POLL_INTERVAL_SECS <= res <= MAX_POLL_INTERVAL_SECS,
{
    let s = match seconds {
        Some(s) => s,
        None => DEFAULT_POLL_INTERVAL_SECS,
    };
    if s < MIN_POLL_INTERVAL_SECS {
        MIN_POLL_INTERVAL_SECS
    } else if s > MAX_POLL_INTERVAL_SECS {
        MAX_POLL_INTERVAL_SECS
    } else {
        s
    }
}

/// `c` is the resolved heap-profile setting for a remote poll interval:
/// profiling off, no thresholds, and the clamped interval in whole seconds.
pub open spec fn is_resolved_heap_profile(c: JemallocHeapProfileConfig, remote_poll_interval_secs: Option<u64>) -> bool {
    &&& !c.enabled
    &&& c.thresholds@.len() == 0
    &&& c.poll_interval.secs_of() == clamped_poll_secs(remote_poll_interval_secs)
    &&& c.poll_interval.nanos_of() == 0
}

/// The resolution depends on the remote poll interval alone: two
/// resolutions for the same interval agree, whatever the remote switch,
/// thresholds, data-collection, trace-upload and profiler-availability
/// inputs were.
pub proof fn lemma_resolution_ignores_other_inputs(
    a: JemallocHeapProfileConfig,
    b: JemallocHeapProfileConfig,
    remote_poll_interval_secs: Option<u64>,
)
    requires
        is_resolved_heap_profile(a, remote_poll_interval_secs),
        is_resolved_heap_profile(b, remote_poll_interval_secs),
    ensures
        a.enabled == b.enabled,
        a.thresholds@ == b.thresholds@,
        a.poll_interval == b.poll_interval,
{
    crate::time::lemma_duration_ext(a.poll_interval, b.poll_interval);
    assert(a.thresholds@ =~= b.thresholds@);
}

/// Profiling is forced off with no thresholds; only the poll interval is
/// taken from the remote value, clamped.
pub fn resolve_jemalloc_heap_profile(
    _remote_enabled: Option<bool>,
    _remote_thresholds: Option<&[u64]>,
    remote_poll_interval_secs: Option<u64>,
    _data_collection_disabled: bool,
    _trace_upload_enabled: bool,
    _prof_available: bool,
) -> (c: JemallocHeapProfileConfig)
    ensures
        is_resolved_heap_profile(c, remote_poll_interval_secs),
{
    JemallocHeapProfileConfig {
        enabled: false,
        thresholds: Vec::new(),
        poll_interval: Duration::from_secs(clamp_poll_interval_secs(remote_poll_interval_secs)),
    }
}

/// The monitor: holds a disabled configuration and the thresholds already
/// latched (none ever are).
pub struct HeapProfileMonitor {
    config: JemallocHeapProfileConfig,
    latched: BTreeSet<u64>,
}

/// A dump that would be taken for a threshold.
pub struct PendingDump {
    pub threshold: u64,
}

impl PendingDump {
    /// Dumps are never taken: every attempt is deferred.
    pub fn execute(self) -> (o: DumpAttemptOutcome)
        ensures
            o == DumpAttemptOutcome::Deferred,
    {
        DumpAttemptOutcome::Deferred
    }
}

impl HeapProfileMonitor {
    /// The current configuration.
    pub closed spec fn config_view(&self) -> JemallocHeapProfileConfig {
        self.config
    }

    /// The latched thresholds.
    pub closed spec fn latched_view(&self) -> Set<u64> {
        self.latched@
    }

    /// A monitor with the default, disabled configuration.
    pub fn new() -> (m: HeapProfileMonitor)
        ensures
            !m.config_view().enabled,
            m.config_view().thresholds@.len() == 0,
            m.config_view().poll_interval.secs_of() == DEFAULT_POLL_INTERVAL_SECS,
            m.config_view().poll_interval.nanos_of() == 0,
            m.latched_view() == Set::<u64>::empty(),
    {
        HeapProfileMonitor { config: JemallocHeapProfileConfig::default(), latched: BTreeSet::new() }
    }

    /// The current configuration.
    pub fn config(&self) -> (c: &JemallocHeapProfileConfig)
        ensures
            *c == self.config_view(),
    {
        &self.config
    }

    /// The latched thresholds.
    pub fn latched(&self) -> (l: &BTreeSet<u64>)
        ensures
            l@ == self.latched_view(),
    {
        &self.latched
    }

    /// No session id is kept.
    pub fn session_id(&self) -> (res: Option<&str>)
        ensures
            res is None,
    {
        None
    }

    /// No upload is ever in flight.
    pub fn upload_in_flight(&self) -> (res: bool)
        ensures
            !res,
    {
        false
    }

    /// Nothing is in flight to clear.
    pub fn clear_upload_in_flight(&mut self)
        ensures
            *final(self) == *old(self),
    {
    }

    /// Take only the poll interval from `config`; profiling stays off with
    /// no thresholds, and upload handles are dropped. The allocator's
    /// profiling switch is turned off through `set_prof_active`, called once
    /// with `false` (the allocator control itself belongs to the caller);
    /// what it returns is ignored.
    pub fn reconfigure<P: FnOnce(bool) -> R, R>(
        &mut self,
        config: JemallocHeapProfileConfig,
        _upload_handles: Option<HeapProfileUploadHandles>,
        set_prof_active: P,
    )
        requires
            set_prof_active.requires((false,)),
        ensures
            !final(self).config_view().enabled,
            final(self).config_view().thresholds@.len() == 0,
            final(self).config_view().poll_interval == config.poll_interval,
            final(self).latched_view() == old(self).latched_view(),
            exists|r: R| set_prof_active.ensures((false,), r),
    {
        self.config = JemallocHeapProfileConfig {
            enabled: false,
            thresholds: Vec::new(),
            poll_interval: config.poll_interval,
        };
        let _ = set_prof_active(false);
    }

    /// The session id is not kept.
    pub fn set_session_id(&mut self, _session_id: String)
        ensures
            *final(self) == *old(self),
    {
    }

    /// No dump is ever due.
    pub fn begin_tick(&mut self) -> (res: Option<PendingDump>)
        ensures
            res is None,
            *final(self) == *old(self),
    {
        None
    }

    /// Nothing is latched after an attempt.
    pub fn finish_tick(&mut self, _threshold: u64, _outcome: DumpAttemptOutcome)
        ensures
            *final(self) == *old(self),
    {
    }

    /// A poll does nothing.
    pub fn poll_tick(&mut self)
        ensures
            *final(self) == *old(self),
    {
    }
}

/// Upload handles carry nothing: credentials, bucket and method are dropped.
pub fn build_upload_handles<A, M>(_auth_manager: A, _bucket_url: Option<String>, _upload_method: M) -> (h:
    HeapProfileUploadHandles)
    ensures
        h == HeapProfileUploadHandles,
{
    HeapProfileUploadHandles
}

} // verus!
