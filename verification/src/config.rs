//! Daemon configuration: device identity, database path and sync stream.

use vstd::prelude::*;
use crate::text::{cat, cat3, chars_of, is_blank, opt_view, owned, push_char, spec_trim, str_eq, trim};
use crate::session::Session;
use crate::json::{json_is_object, json_object, json_parsed, parse_json};
use vstd::utf8::encode_utf8;

verus! {

/// Configuration that needs no login: the device identifier and the database path.
#[derive(Clone, Debug)]
pub struct BaseConfig {
    pub device_id: String,
    pub database_path: String,
}

/// An environment value, trimmed; absent or blank values count as unset.
pub open spec fn spec_optional_value(value: Option<Seq<char>>) -> Option<Seq<char>> {
    match value {
        Some(v) => if spec_trim(v).len() == 0 {
            None
        } else {
            Some(spec_trim(v))
        },
        None => None,
    }
}

/// Reads a setting from its raw environment value: surrounding whitespace is
/// dropped, and a value that is then empty counts as unset.
pub fn optional_value(value: Option<String>) -> (res: Option<String>)
    ensures
        opt_view(res) == spec_optional_value(opt_view(value)),
{
    match value {
        Some(v) => {
            if is_blank(v.as_str()) {
                None
            } else {
                Some(trim(v.as_str()))
            }
        },
        None => None,
    }
}

/// ASCII letters and digits (`char::is_ascii_alphanumeric`).
pub open spec fn is_ascii_alnum(c: char) -> bool {
    ('0' <= c && c <= '9') || ('a' <= c && c <= 'z') || ('A' <= c && c <= 'Z')
}

/// ASCII upper-case letters mapped to lower case, other characters unchanged
/// (`char::to_ascii_lowercase`).
pub open spec fn ascii_lower(c: char) -> char {
    if 'A' <= c && c <= 'Z' {
        ((c as u8 + 32) as u8) as char
    } else {
        c
    }
}

/// Characters that may appear in a device identifier fragment.
pub open spec fn is_fragment_char(c: char) -> bool {
    ('0' <= c && c <= '9') || ('a' <= c && c <= 'z') || c == '-'
}

/// Lower-cases letters and digits and turns every run of other characters into
/// one `-`; `prev_dash` says whether the output so far ends in such a dash.
pub open spec fn collapse(s: Seq<char>, prev_dash: bool) -> Seq<char>
    decreases s.len(),
{
    if s.len() == 0 {
        Seq::empty()
    } else if is_ascii_alnum(s[0]) {
        seq![ascii_lower(s[0])] + collapse(s.drop_first(), false)
    } else if !prev_dash {
        seq!['-'] + collapse(s.drop_first(), true)
    } else {
        collapse(s.drop_first(), true)
    }
}

/// Number of leading dashes.
pub open spec fn lead_dashes(s: Seq<char>) -> nat
    decreases s.len(),
{
    if s.len() > 0 && s[0] == '-' {
        1 + lead_dashes(s.drop_first())
    } else {
        0
    }
}

/// Number of trailing dashes.
pub open spec fn trail_dashes(s: Seq<char>) -> nat
    decreases s.len(),
{
    if s.len() > 0 && s.last() == '-' {
        1 + trail_dashes(s.drop_last())
    } else {
        0
    }
}

/// `s` without leading and trailing dashes (`str::trim_matches('-')`).
pub open spec fn trim_dashes(s: Seq<char>) -> Seq<char> {
    let t = s.subrange(lead_dashes(s) as int, s.len() as int);
    t.subrange(0, t.len() - trail_dashes(t))
}

/// The device identifier fragment made from `raw`.
pub open spec fn spec_sanitize(raw: Seq<char>) -> Seq<char> {
    trim_dashes(collapse(raw, false))
}

/// A well-formed fragment: lower-case letters, digits and single dashes, with
/// no dash at either end.
pub open spec fn is_clean_fragment(s: Seq<char>) -> bool {
    &&& forall|i: int| 0 <= i < s.len() ==> is_fragment_char(#[trigger] s[i])
    &&& forall|i: int| 0 <= i < s.len() - 1 ==> !(#[trigger] s[i] == '-' && s[i + 1] == '-')
    &&& s.len() > 0 ==> s[0] != '-' && s.last() != '-'
}

proof fn lemma_lead_dashes(s: Seq<char>, i: int)
    requires
        0 <= i <= s.len(),
        forall|k: int| 0 <= k < i ==> s[k] == '-',
        i == s.len() || s[i] != '-',
    ensures
        lead_dashes(s) == i,
    decreases i,
{
    if i > 0 {
        lemma_lead_dashes(s.drop_first(), i - 1);
    }
}

proof fn lemma_trail_dashes(s: Seq<char>, j: int)
    requires
        0 <= j <= s.len(),
        forall|k: int| j <= k < s.len() ==> s[k] == '-',
        j == 0 || s[j - 1] != '-',
    ensures
        trail_dashes(s) == s.len() - j,
    decreases s.len() - j,
{
    if j < s.len() {
        lemma_trail_dashes(s.drop_last(), j);
    }
}

proof fn lemma_lead_dashes_bound(s: Seq<char>)
    ensures
        lead_dashes(s) <= s.len(),
        lead_dashes(s) < s.len() ==> s[lead_dashes(s) as int] != '-',
    decreases s.len(),
{
    if s.len() > 0 && s[0] == '-' {
        lemma_lead_dashes_bound(s.drop_first());
    }
}

proof fn lemma_trail_dashes_bound(s: Seq<char>)
    ensures
        trail_dashes(s) <= s.len(),
        trail_dashes(s) < s.len() ==> s[s.len() - trail_dashes(s) - 1] != '-',
    decreases s.len(),
{
    if s.len() > 0 && s.last() == '-' {
        lemma_trail_dashes_bound(s.drop_last());
    }
}

proof fn lemma_lower_fragment(c: char)
    requires
        is_ascii_alnum(c),
    ensures
        is_fragment_char(ascii_lower(c)),
        ascii_lower(c) != '-',
{
    if 'A' <= c && c <= 'Z' {
        assert((c as u8) as u32 == c as u32);
        assert(((c as u8 + 32) as u8) as u32 == c as u32 + 32);
    }
}

proof fn lemma_collapse_shape(s: Seq<char>, pd: bool)
    ensures
        forall|i: int|
            0 <= i < collapse(s, pd).len() ==> is_fragment_char(#[trigger] collapse(s, pd)[i]),
        forall|i: int|
            0 <= i < collapse(s, pd).len() - 1 ==> !(#[trigger] collapse(s, pd)[i] == '-'
                && collapse(s, pd)[i + 1] == '-'),
        pd && collapse(s, pd).len() > 0 ==> collapse(s, pd)[0] != '-',
    decreases s.len(),
{
    if s.len() > 0 {
        let rest_pd = if is_ascii_alnum(s[0]) { false } else { true };
        lemma_collapse_shape(s.drop_first(), rest_pd);
        let r = collapse(s, pd);
        let t = collapse(s.drop_first(), rest_pd);
        if is_ascii_alnum(s[0]) {
            lemma_lower_fragment(s[0]);
            assert(r == seq![ascii_lower(s[0])] + t);
            assert forall|i: int| 0 <= i < r.len() implies is_fragment_char(#[trigger] r[i]) by {
                if i > 0 {
                    assert(r[i] == t[i - 1]);
                }
            }
            assert forall|i: int| 0 <= i < r.len() - 1 implies !(#[trigger] r[i] == '-' && r[i
                + 1] == '-') by {
                if i > 0 {
                    assert(r[i] == t[i - 1]);
                    assert(r[i + 1] == t[i]);
                }
            }
        } else if !pd {
            assert(r == seq!['-'] + t);
            assert forall|i: int| 0 <= i < r.len() implies is_fragment_char(#[trigger] r[i]) by {
                if i > 0 {
                    assert(r[i] == t[i - 1]);
                }
            }
            assert forall|i: int| 0 <= i < r.len() - 1 implies !(#[trigger] r[i] == '-' && r[i
                + 1] == '-') by {
                assert(r[i + 1] == t[i]);
                if i > 0 {
                    assert(r[i] == t[i - 1]);
                }
            }
        }
    }
}

/// Every fragment that sanitizing produces is well formed.
pub proof fn lemma_sanitize_is_clean(raw: Seq<char>)
    ensures
        is_clean_fragment(spec_sanitize(raw)),
{
    let c = collapse(raw, false);
    lemma_collapse_shape(raw, false);
    lemma_lead_dashes_bound(c);
    let a = lead_dashes(c) as int;
    let t = c.subrange(a, c.len() as int);
    lemma_trail_dashes_bound(t);
    let b = t.len() - trail_dashes(t);
    let r = t.subrange(0, b);
    assert(r == spec_sanitize(raw));
    assert forall|i: int| 0 <= i < r.len() implies is_fragment_char(#[trigger] r[i]) by {
        assert(r[i] == c[a + i]);
    }
    assert forall|i: int| 0 <= i < r.len() - 1 implies !(#[trigger] r[i] == '-' && r[i + 1]
        == '-') by {
        assert(r[i] == c[a + i]);
        assert(r[i + 1] == c[a + i + 1]);
    }
    if r.len() > 0 {
        assert(r[0] == c[a]);
        assert(r.last() == t[b - 1]);
    }
}

proof fn lemma_collapse_clean(s: Seq<char>, pd: bool)
    requires
        forall|i: int| 0 <= i < s.len() ==> is_fragment_char(#[trigger] s[i]),
        forall|i: int| 0 <= i < s.len() - 1 ==> !(#[trigger] s[i] == '-' && s[i + 1] == '-'),
        pd && s.len() > 0 ==> s[0] != '-',
    ensures
        collapse(s, pd) == s,
    decreases s.len(),
{
    if s.len() > 0 {
        let d = s.drop_first();
        assert forall|i: int| 0 <= i < d.len() implies is_fragment_char(#[trigger] d[i]) by {
            assert(d[i] == s[i + 1]);
        }
        assert forall|i: int| 0 <= i < d.len() - 1 implies !(#[trigger] d[i] == '-' && d[i + 1]
            == '-') by {
            assert(d[i] == s[i + 1]);
            assert(d[i + 1] == s[i + 2]);
        }
        assert(is_fragment_char(s[0]));
        if is_ascii_alnum(s[0]) {
            lemma_collapse_clean(d, false);
        } else {
            if d.len() > 0 {
                assert(!(s[0] == '-' && s[1] == '-'));
                assert(d[0] == s[1]);
            }
            lemma_collapse_clean(d, true);
        }
        assert(collapse(s, pd) =~= s);
    }
}

/// Sanitizing leaves a well-formed fragment unchanged.
pub proof fn lemma_sanitize_fixes_clean(s: Seq<char>)
    requires
        is_clean_fragment(s),
    ensures
        spec_sanitize(s) == s,
{
    lemma_collapse_clean(s, false);
    lemma_lead_dashes(s, 0);
    let t = s.subrange(0, s.len() as int);
    assert(t =~= s);
    lemma_trail_dashes(t, t.len() as int);
    assert(t.subrange(0, t.len() as int) =~= s);
}

/// Sanitizing twice gives what sanitizing once gives.
pub proof fn lemma_sanitize_idempotent(raw: Seq<char>)
    ensures
        spec_sanitize(spec_sanitize(raw)) == spec_sanitize(raw),
{
    lemma_sanitize_is_clean(raw);
    lemma_sanitize_fixes_clean(spec_sanitize(raw));
}

/// The fragment of `s`, read left to right: each ASCII letter or digit in
/// lower case, and one `-` for each run of other characters that stands
/// between two of them. `started` says whether a letter or digit was already
/// written, `pending` whether a run of other characters followed it.
pub open spec fn spec_fragment_of(s: Seq<char>, started: bool, pending: bool) -> Seq<char>
    decreases s.len(),
{
    if s.len() == 0 {
        Seq::empty()
    } else if is_ascii_alnum(s[0]) {
        (if started && pending { seq!['-'] } else { Seq::empty() }) + seq![ascii_lower(s[0])]
            + spec_fragment_of(s.drop_first(), true, false)
    } else {
        spec_fragment_of(s.drop_first(), started, started)
    }
}

/// The ASCII letters and digits of `s`, in order and in lower case.
pub open spec fn alnum_lower(s: Seq<char>) -> Seq<char>
    decreases s.len(),
{
    if s.len() == 0 {
        Seq::empty()
    } else if is_ascii_alnum(s[0]) {
        seq![ascii_lower(s[0])] + alnum_lower(s.drop_first())
    } else {
        alnum_lower(s.drop_first())
    }
}

/// `s` with every `-` removed.
pub open spec fn without_dashes(s: Seq<char>) -> Seq<char>
    decreases s.len(),
{
    if s.len() == 0 {
        Seq::empty()
    } else if s[0] == '-' {
        without_dashes(s.drop_first())
    } else {
        seq![s[0]] + without_dashes(s.drop_first())
    }
}

/// `s` without its trailing dashes.
spec fn trim_trailing(s: Seq<char>) -> Seq<char> {
    s.subrange(0, s.len() - trail_dashes(s))
}

proof fn lemma_trail_dashes_after(p: Seq<char>, x: Seq<char>)
    requires
        p.len() > 0,
        p.last() != '-',
    ensures
        trail_dashes(p + x) == trail_dashes(x),
    decreases x.len(),
{
    if x.len() == 0 {
        assert(p + x =~= p);
    } else {
        assert((p + x).last() == x.last());
        if x.last() == '-' {
            assert((p + x).drop_last() =~= p + x.drop_last());
            lemma_trail_dashes_after(p, x.drop_last());
        }
    }
}

proof fn lemma_trim_trailing_after(p: Seq<char>, x: Seq<char>)
    requires
        p.len() > 0,
        p.last() != '-',
    ensures
        trim_trailing(p + x) == p + trim_trailing(x),
{
    lemma_trail_dashes_after(p, x);
    lemma_trail_dashes_bound(x);
    assert(trim_trailing(p + x) =~= p + trim_trailing(x));
}

proof fn lemma_trim_dashes_leading_dash(y: Seq<char>)
    ensures
        trim_dashes(seq!['-'] + y) == trim_dashes(y),
{
    let s = seq!['-'] + y;
    assert(s.drop_first() =~= y);
    assert(lead_dashes(s) == 1 + lead_dashes(y));
    lemma_lead_dashes_bound(y);
    assert(s.subrange(lead_dashes(s) as int, s.len() as int) =~= y.subrange(lead_dashes(y) as int, y.len() as int));
}

proof fn lemma_collapse_after_letter(s: Seq<char>)
    ensures
        trim_trailing(collapse(s, false)) == spec_fragment_of(s, true, false),
        trim_trailing(seq!['-'] + collapse(s, true)) == spec_fragment_of(s, true, true),
    decreases s.len(),
{
    if s.len() == 0 {
        assert(collapse(s, false) =~= Seq::<char>::empty());
        assert(trail_dashes(Seq::<char>::empty()) == 0);
        let d = seq!['-'] + collapse(s, true);
        assert(d.drop_last() =~= Seq::<char>::empty());
        assert(trail_dashes(d) == 1);
        assert(trim_trailing(d) =~= Seq::<char>::empty());
    } else {
        let rest = s.drop_first();
        lemma_collapse_after_letter(rest);
        if is_ascii_alnum(s[0]) {
            lemma_lower_fragment(s[0]);
            let c = ascii_lower(s[0]);
            lemma_trim_trailing_after(seq![c], collapse(rest, false));
            assert(spec_fragment_of(s, true, false) =~= seq![c] + spec_fragment_of(rest, true, false));
            assert(collapse(s, true) == seq![c] + collapse(rest, false));
            assert(seq!['-'] + collapse(s, true) =~= seq!['-', c] + collapse(rest, false));
            lemma_trim_trailing_after(seq!['-', c], collapse(rest, false));
            assert(seq!['-', c] + spec_fragment_of(rest, true, false) =~= spec_fragment_of(s, true, true));
        } else {
            assert(collapse(s, false) == seq!['-'] + collapse(rest, true));
            assert(collapse(s, true) == collapse(rest, true));
        }
    }
}

proof fn lemma_trim_collapse(s: Seq<char>, pd: bool)
    ensures
        trim_dashes(collapse(s, pd)) == spec_fragment_of(s, false, false),
    decreases s.len(),
{
    if s.len() == 0 {
        assert(collapse(s, pd) =~= Seq::<char>::empty());
        assert(lead_dashes(Seq::<char>::empty()) == 0);
        assert(trail_dashes(Seq::<char>::empty()) == 0);
        assert(trim_dashes(Seq::<char>::empty()) =~= Seq::<char>::empty());
    } else {
        let rest = s.drop_first();
        if is_ascii_alnum(s[0]) {
            lemma_lower_fragment(s[0]);
            let c = ascii_lower(s[0]);
            let x = collapse(s, pd);
            assert(x == seq![c] + collapse(rest, false));
            assert(lead_dashes(x) == 0);
            assert(x.subrange(0, x.len() as int) =~= x);
            lemma_trim_trailing_after(seq![c], collapse(rest, false));
            lemma_collapse_after_letter(rest);
            assert(spec_fragment_of(s, false, false) =~= seq![c] + spec_fragment_of(rest, true, false));
        } else if !pd {
            lemma_trim_collapse(rest, true);
            assert(collapse(s, pd) == seq!['-'] + collapse(rest, true));
            lemma_trim_dashes_leading_dash(collapse(rest, true));
        } else {
            lemma_trim_collapse(rest, true);
        }
    }
}

/// Sanitizing keeps the ASCII letters and digits of the input, in order and
/// in lower case, and writes one `-` for each run of other characters that
/// stands between two of them; nothing else.
pub proof fn lemma_sanitize_joins_runs(raw: Seq<char>)
    ensures
        spec_sanitize(raw) == spec_fragment_of(raw, false, false),
{
    lemma_trim_collapse(raw, false);
}

proof fn lemma_fragment_letters(s: Seq<char>, started: bool, pending: bool)
    ensures
        without_dashes(spec_fragment_of(s, started, pending)) == alnum_lower(s),
    decreases s.len(),
{
    if s.len() > 0 {
        let rest = s.drop_first();
        if is_ascii_alnum(s[0]) {
            lemma_fragment_letters(rest, true, false);
            lemma_lower_fragment(s[0]);
            let c = ascii_lower(s[0]);
            let tail = spec_fragment_of(rest, true, false);
            assert((seq![c] + tail).drop_first() =~= tail);
            assert(without_dashes(seq![c] + tail) == seq![c] + without_dashes(tail));
            if started && pending {
                let f = seq!['-'] + (seq![c] + tail);
                assert(f.drop_first() =~= seq![c] + tail);
                assert(spec_fragment_of(s, started, pending) =~= f);
            } else {
                assert(spec_fragment_of(s, started, pending) =~= seq![c] + tail);
            }
        } else {
            lemma_fragment_letters(rest, started, started);
        }
    }
}

/// Removing the dashes from a sanitized fragment leaves exactly the ASCII
/// letters and digits of the input, in order and in lower case.
pub proof fn lemma_sanitize_keeps_letters(raw: Seq<char>)
    ensures
        without_dashes(spec_sanitize(raw)) == alnum_lower(raw),
{
    lemma_sanitize_joins_runs(raw);
    lemma_fragment_letters(raw, false, false);
}

/// Turns a host or model name into an identifier fragment: ASCII letters and
/// digits are kept in lower case, every run of other characters becomes one
/// `-`, and dashes at either end are dropped.
pub fn sanitize_device_fragment(raw: &str) -> (res: String)
    ensures
        res@ == spec_sanitize(raw@),
{
    let cs = chars_of(raw);
    let n = cs.len();
    let mut out: Vec<char> = Vec::new();
    let mut previous_dash = false;
    let mut i: usize = 0;
    assert(cs@.subrange(0, n as int) =~= cs@);
    assert(out@ + collapse(cs@, false) =~= collapse(cs@, false));
    while i < n
        invariant
            n == cs.len(),
            i <= n,
            collapse(cs@, false) == out@ + collapse(cs@.subrange(i as int, n as int), previous_dash),
        decreases n - i,
    {
        let ch = cs[i];
        let ghost rest = cs@.subrange(i as int, n as int);
        assert(rest.drop_first() =~= cs@.subrange(i + 1, n as int));
        assert(rest[0] == ch);
        if ('0' <= ch && ch <= '9') || ('a' <= ch && ch <= 'z') || ('A' <= ch && ch <= 'Z') {
            let lower = if 'A' <= ch && ch <= 'Z' {
                ((ch as u8) + 32) as char
            } else {
                ch
            };
            out.push(lower);
            previous_dash = false;
        } else if !previous_dash {
            out.push('-');
            previous_dash = true;
        } else {
            previous_dash = true;
        }
        i = i + 1;
        assert(collapse(cs@, false) =~= out@ + collapse(cs@.subrange(i as int, n as int), previous_dash));
    }
    assert(cs@.subrange(n as int, n as int) =~= Seq::<char>::empty());
    assert(out@ =~= collapse(cs@, false));
    let m = out.len();
    let mut a: usize = 0;
    while a < m && out[a] == '-'
        invariant
            m == out.len(),
            a <= m,
            forall|k: int| 0 <= k < a ==> out@[k] == '-',
        decreases m - a,
    {
        a = a + 1;
    }
    proof {
        lemma_lead_dashes(out@, a as int);
    }
    let ghost t = out@.subrange(a as int, m as int);
    let mut b: usize = m;
    while b > a && out[b - 1] == '-'
        invariant
            m == out.len(),
            a <= b <= m,
            t == out@.subrange(a as int, m as int),
            forall|k: int| b <= k < m ==> out@[k] == '-',
        decreases b - a,
    {
        b = b - 1;
    }
    proof {
        lemma_trail_dashes(t, b - a);
    }
    let mut res = String::new();
    let mut k = a;
    while k < b
        invariant
            a <= k <= b <= m,
            m == out.len(),
            res@ == out@.subrange(a as int, k as int),
        decreases b - k,
    {
        push_char(&mut res, out[k]);
        k = k + 1;
        assert(res@ =~= out@.subrange(a as int, k as int));
    }
    assert(t.subrange(0, t.len() - trail_dashes(t)) =~= out@.subrange(a as int, b as int));
    res
}

/// Identifier used when the host has no usable name.
pub open spec fn default_host() -> Seq<char> {
    "fieldmid-edge"@
}

/// The host name to use: the reported one unless it is missing or blank.
pub open spec fn spec_host(reported: Option<Seq<char>>) -> Seq<char> {
    match reported {
        Some(h) => if spec_trim(h).len() == 0 {
            default_host()
        } else {
            h
        },
        None => default_host(),
    }
}

/// The device identifier made from a host name and a hardware model (empty when unknown).
pub open spec fn spec_device_id(host: Seq<char>, model: Seq<char>) -> Seq<char> {
    if model.len() == 0 {
        spec_sanitize(host)
    } else {
        spec_sanitize(host) + "-"@ + spec_sanitize(model)
    }
}

/// The machine's host name (`hostname::get`), when it is valid Unicode. It
/// depends on the machine, so nothing is stated of it.
#[verifier::external_body]
pub(crate) fn system_hostname() -> (res: Option<String>) {
    match hostname::get() {
        Ok(name) => name.into_string().ok(),
        Err(_) => None,
    }
}

/// The device identifier for a reported host name and a hardware model.
pub fn device_id_from_parts(reported_host: Option<String>, model: &str) -> (res: String)
    ensures
        res@ == spec_device_id(spec_host(opt_view(reported_host)), model@),
{
    let host = match reported_host {
        Some(h) => if is_blank(h.as_str()) {
            owned("fieldmid-edge")
        } else {
            h
        },
        None => owned("fieldmid-edge"),
    };
    let model_chars = chars_of(model);
    if model_chars.len() == 0 {
        sanitize_device_fragment(host.as_str())
    } else {
        let host_part = sanitize_device_fragment(host.as_str());
        let model_part = sanitize_device_fragment(model);
        cat3(host_part.as_str(), "-", model_part.as_str())
    }
}

/// The device identifier of this machine: its host name and the given hardware
/// model, made into one identifier.
pub fn auto_device_id(model: &str) -> (res: String)
    ensures
        exists|h: Option<Seq<char>>| res@ == spec_device_id(spec_host(h), model@),
{
    let reported = system_hostname();
    let res = device_id_from_parts(reported, model);
    assert(res@ == spec_device_id(spec_host(opt_view(reported)), model@));
    res
}

/// The placeholder identifier that a copied example configuration carries.
pub open spec fn placeholder_device_id() -> Seq<char> {
    "fieldmid-edge-001"@
}

/// The identifier configured in the environment, unless unset, blank or the placeholder.
pub open spec fn spec_configured_device_id(raw: Option<Seq<char>>) -> Option<Seq<char>> {
    match spec_optional_value(raw) {
        Some(v) => if v == placeholder_device_id() {
            None
        } else {
            Some(v)
        },
        None => None,
    }
}

/// The database path: the configured one, else `fieldmid-edge.db`.
pub open spec fn spec_database_path(raw: Option<Seq<char>>) -> Seq<char> {
    match raw {
        Some(p) => p,
        None => "fieldmid-edge.db"@,
    }
}

impl BaseConfig {
    /// The configuration from the raw `DEVICE_ID` and `FIELDMID_DB_PATH`
    /// values and the hardware model: a configured identifier wins, otherwise
    /// the machine's own identifier is used.
    pub fn from_settings(device_id: Option<String>, database_path: Option<String>, model: &str) -> (res: BaseConfig)
        ensures
            spec_configured_device_id(opt_view(device_id)) matches Some(d) ==> res.device_id@ == d,
            spec_configured_device_id(opt_view(device_id)) is None ==> exists|h: Option<Seq<char>>|
                res.device_id@ == spec_device_id(spec_host(h), model@),
            res.database_path@ == spec_database_path(opt_view(database_path)),
    {
        let configured = match optional_value(device_id) {
            Some(v) => if str_eq(v.as_str(), "fieldmid-edge-001") {
                None
            } else {
                Some(v)
            },
            None => None,
        };
        let device_id = match configured {
            Some(v) => v,
            None => auto_device_id(model),
        };
        let database_path = match database_path {
            Some(p) => p,
            None => owned("fieldmid-edge.db"),
        };
        BaseConfig { device_id, database_path }
    }
}

/// The sync stream the daemon subscribes to, with its parameters.
#[derive(Clone, Debug)]
pub struct SyncStreamConfig {
    pub name: String,
    pub params: Option<serde_json::Value>,
}

/// The stream that a role sees: admins the organization overview, supervisors
/// their site; other roles use the default subscription.
pub open spec fn spec_stream_for_role(role: Seq<char>) -> Option<Seq<char>> {
    if role == "admin"@ {
        Some("admin_overview"@)
    } else if role == "supervisor"@ {
        Some("supervisor_site"@)
    } else {
        None
    }
}

/// The name of an optional stream configuration.
pub open spec fn stream_name(s: Option<SyncStreamConfig>) -> Option<Seq<char>> {
    match s {
        Some(c) => Some(c.name@),
        None => None,
    }
}

/// The sync stream configuration for a role, without parameters.
pub fn stream_for_role(role: &str) -> (res: Option<SyncStreamConfig>)
    ensures
        stream_name(res) == spec_stream_for_role(role@),
        res matches Some(c) ==> c.params is None,
{
    if str_eq(role, "admin") {
        Some(SyncStreamConfig { name: owned("admin_overview"), params: None })
    } else if str_eq(role, "supervisor") {
        Some(SyncStreamConfig { name: owned("supervisor_site"), params: None })
    } else {
        None
    }
}

/// Why the daemon configuration cannot be built.
#[derive(Clone, Copy, Debug, PartialEq, Eq, Structural)]
pub enum ConfigError {
    /// `POWERSYNC_URL` is unset or blank.
    MissingPowerSyncUrl,
    /// `POWERSYNC_TOKEN` is unset or blank.
    MissingPowerSyncToken,
    /// `POWERSYNC_STREAM_PARAMS` is set but is not a JSON object.
    InvalidStreamParams,
}

impl ConfigError {
    /// The text shown to the user.
    pub fn message(&self) -> (res: &'static str)
        ensures
            res@ == match *self {
                ConfigError::MissingPowerSyncUrl => "POWERSYNC_URL is required"@,
                ConfigError::MissingPowerSyncToken => "POWERSYNC_TOKEN is required"@,
                ConfigError::InvalidStreamParams => "POWERSYNC_STREAM_PARAMS must be a JSON object"@,
            },
    {
        match self {
            ConfigError::MissingPowerSyncUrl => "POWERSYNC_URL is required",
            ConfigError::MissingPowerSyncToken => "POWERSYNC_TOKEN is required",
            ConfigError::InvalidStreamParams => "POWERSYNC_STREAM_PARAMS must be a JSON object",
        }
    }
}

/// The raw sync settings from the environment: `POWERSYNC_URL`,
/// `POWERSYNC_TOKEN`, and the optional `POWERSYNC_STREAM` and
/// `POWERSYNC_STREAM_PARAMS` overrides.
#[derive(Clone, Debug)]
pub struct SyncSettings {
    pub powersync_url: Option<String>,
    pub powersync_token: Option<String>,
    pub stream: Option<String>,
    pub stream_params: Option<String>,
}

/// The stream to subscribe to: the configured one, else the role's.
pub open spec fn spec_stream_choice(role: Seq<char>, stream: Option<Seq<char>>) -> Option<Seq<char>> {
    match spec_optional_value(stream) {
        Some(n) => Some(n),
        None => spec_stream_for_role(role),
    }
}

/// The stream parameters: none when unset or blank, else the JSON object the
/// text holds; `Err` when the text is not a JSON object.
pub open spec fn spec_stream_params(raw: Option<Seq<char>>) -> Result<Option<serde_json::Value>, ()> {
    match spec_optional_value(raw) {
        None => Ok(None),
        Some(t) => match json_parsed(encode_utf8(t)) {
            Some(v) => if json_object(v) {
                Ok(Some(v))
            } else {
                Err(())
            },
            None => Err(()),
        },
    }
}

/// Parses the stream parameters.
pub fn stream_params(raw: Option<String>) -> (res: Result<Option<serde_json::Value>, ConfigError>)
    ensures
        match spec_stream_params(opt_view(raw)) {
            Ok(p) => res == Ok::<Option<serde_json::Value>, ConfigError>(p),
            Err(_) => res == Err::<Option<serde_json::Value>, ConfigError>(ConfigError::InvalidStreamParams),
        },
{
    match optional_value(raw) {
        None => Ok(None),
        Some(t) => {
            let bytes = t.as_str().as_bytes();
            match parse_json(bytes) {
                Some(v) => if json_is_object(&v) {
                    Ok(Some(v))
                } else {
                    Err(ConfigError::InvalidStreamParams)
                },
                None => Err(ConfigError::InvalidStreamParams),
            }
        },
    }
}

/// The error, if any, of building the daemon configuration: the URL, then the
/// token, then (when a stream is chosen) its parameters.
pub open spec fn spec_config_error(role: Seq<char>, s: SyncSettings) -> Option<ConfigError> {
    if spec_optional_value(opt_view(s.powersync_url)) is None {
        Some(ConfigError::MissingPowerSyncUrl)
    } else if spec_optional_value(opt_view(s.powersync_token)) is None {
        Some(ConfigError::MissingPowerSyncToken)
    } else if spec_stream_choice(role, opt_view(s.stream)) is Some && spec_stream_params(opt_view(s.stream_params)) is Err {
        Some(ConfigError::InvalidStreamParams)
    } else {
        None
    }
}

/// Everything the daemon needs to run: the base configuration, where and how to
/// sync, and who is signed in.
#[derive(Clone, Debug)]
pub struct DaemonConfig {
    pub base: BaseConfig,
    pub powersync_url: String,
    pub powersync_token: String,
    pub sync_stream: Option<SyncStreamConfig>,
    pub role: Option<String>,
    pub org_name: Option<String>,
    pub email: Option<String>,
}

impl DaemonConfig {
    /// The daemon configuration for a signed-in session and the raw sync
    /// settings. `POWERSYNC_URL` and `POWERSYNC_TOKEN` are required; the stream
    /// is `POWERSYNC_STREAM` when set, else the one of the role, with the
    /// parameters of `POWERSYNC_STREAM_PARAMS`.
    pub fn from_session(base: BaseConfig, session: &Session, settings: SyncSettings) -> (res: Result<DaemonConfig, ConfigError>)
        ensures
            match spec_config_error(session.role@, settings) {
                Some(e) => res == Err::<DaemonConfig, ConfigError>(e),
                None => res is Ok,
            },
            res matches Ok(c) ==> {
                &&& Some(c.powersync_url@) == spec_optional_value(opt_view(settings.powersync_url))
                &&& Some(c.powersync_token@) == spec_optional_value(opt_view(settings.powersync_token))
                &&& c.base.device_id@ == base.device_id@
                &&& c.base.database_path@ == base.database_path@
                &&& stream_name(c.sync_stream) == spec_stream_choice(session.role@, opt_view(settings.stream))
                &&& (c.sync_stream matches Some(st) ==> spec_stream_params(opt_view(settings.stream_params)) == Ok::<Option<serde_json::Value>, ()>(st.params))
                &&& opt_view(c.role) == Some(session.role@)
                &&& opt_view(c.org_name) == opt_view(session.org_name)
                &&& opt_view(c.email) == Some(session.email@)
            },
    {
        let powersync_url = match optional_value(settings.powersync_url) {
            Some(u) => u,
            None => return Err(ConfigError::MissingPowerSyncUrl),
        };
        let powersync_token = match optional_value(settings.powersync_token) {
            Some(t) => t,
            None => return Err(ConfigError::MissingPowerSyncToken),
        };
        let name = match optional_value(settings.stream) {
            Some(n) => Some(n),
            None => match stream_for_role(session.role.as_str()) {
                Some(c) => Some(c.name),
                None => None,
            },
        };
        let sync_stream = match name {
            Some(n) => {
                let params = stream_params(settings.stream_params)?;
                Some(SyncStreamConfig { name: n, params })
            },
            None => None,
        };
        let org_name = match &session.org_name {
            Some(o) => Some(owned(o.as_str())),
            None => None,
        };
        Ok(DaemonConfig {
            base,
            powersync_url,
            powersync_token,
            sync_stream,
            role: Some(owned(session.role.as_str())),
            org_name,
            email: Some(owned(session.email.as_str())),
        })
    }
}

/// The line the headless daemon prints when it starts.
pub open spec fn spec_startup_line(c: DaemonConfig) -> Seq<char> {
    "fieldmid_edge_started device_id="@ + c.base.device_id@ + " database_path="@ + c.base.database_path@
        + " mode=read_only stream_subscription="@ + (if c.sync_stream is Some { "enabled"@ } else { "disabled"@ })
        + (match c.role {
            Some(r) => " role="@ + r@,
            None => Seq::empty(),
        }) + (match c.org_name {
            Some(o) => " org="@ + o@,
            None => Seq::empty(),
        })
}

/// Announces the headless daemon: device, database, read-only mode, stream, role and organization.
pub fn startup_line(config: &DaemonConfig) -> (res: String)
    ensures
        res@ == spec_startup_line(*config),
{
    let mut out = cat("fieldmid_edge_started device_id=", config.base.device_id.as_str());
    out.append(" database_path=");
    out.append(config.base.database_path.as_str());
    out.append(" mode=read_only stream_subscription=");
    out.append(if config.sync_stream.is_some() { "enabled" } else { "disabled" });
    if let Some(r) = &config.role {
        out.append(" role=");
        out.append(r.as_str());
    }
    if let Some(o) = &config.org_name {
        out.append(" org=");
        out.append(o.as_str());
    }
    proof {
        assert(out@ =~= spec_startup_line(*config));
    }
    out
}

} // verus!
