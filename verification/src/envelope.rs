//! Reads single fields out of the compact JSON envelopes the feeds deliver:
//! a quoted string value, an unsigned number, a bare boolean. Only the
//! shapes the wire actually carries are read; anything else yields `None`,
//! which the callers treat as "drop the event", never as a crash.

use crate::text::digits_end;
use crate::text::find_from;
use crate::text::is_match_at;
use crate::text::match_at;
use crate::text::parse_u64_at;
use crate::text::spec_find;
use crate::text::spec_num;
use crate::text::substring_owned;
use vstd::prelude::*;
use vstd::string::StrSliceExecFns;
use vstd::string::StringExecFns;

verus! {

/// The text that opens a quoted string field: `"key":"`.
pub open spec fn spec_str_key_pat(key: Seq<char>) -> Seq<char> {
    seq!['"'] + key + seq!['"', ':', '"']
}

/// The text that opens an unquoted field: `"key":`.
pub open spec fn spec_key_pat(key: Seq<char>) -> Seq<char> {
    seq!['"'] + key + seq!['"', ':']
}

/// The value of the first `"key":"..."` field of `t`: the characters
/// between its opening quote and the next quote.
pub open spec fn spec_str_field(t: Seq<char>, key: Seq<char>) -> Option<Seq<char>> {
    match spec_find(t, spec_str_key_pat(key), 0) {
        None => None,
        Some(i) => {
            let vs = i + spec_str_key_pat(key).len();
            match spec_find(t, seq!['"'], vs) {
                None => None,
                Some(ve) => Some(t.subrange(vs, ve)),
            }
        },
    }
}

/// The value of the first `"key":<digits>` field of `t`, as an unbounded
/// number; `None` when the key is absent or no digit follows it.
pub open spec fn spec_num_field(t: Seq<char>, key: Seq<char>) -> Option<int> {
    match spec_find(t, spec_key_pat(key), 0) {
        None => None,
        Some(i) => {
            let ds = i + spec_key_pat(key).len();
            let de = digits_end(t, ds);
            if de == ds {
                None
            } else {
                Some(spec_num(t.subrange(ds, de)))
            }
        },
    }
}

/// The value of the first `"key":true` or `"key":false` field of `t`.
pub open spec fn spec_bool_field(t: Seq<char>, key: Seq<char>) -> Option<bool> {
    match spec_find(t, spec_key_pat(key), 0) {
        None => None,
        Some(i) => {
            let vs = i + spec_key_pat(key).len();
            if is_match_at(t, seq!['t', 'r', 'u', 'e'], vs) {
                Some(true)
            } else if is_match_at(t, seq!['f', 'a', 'l', 's', 'e'], vs) {
                Some(false)
            } else {
                None
            }
        },
    }
}

/// Builds the exec pattern `"key":"`.
fn str_key_pat(key: &str) -> (r: String)
    ensures
        r@ == spec_str_key_pat(key@),
{
    let mut pat = String::from_str("\"");
    pat.append(key);
    pat.append("\":\"");
    proof {
        reveal_strlit("\"");
        reveal_strlit("\":\"");
        assert(pat@ =~= spec_str_key_pat(key@));
    }
    pat
}

/// Builds the exec pattern `"key":`.
fn key_pat(key: &str) -> (r: String)
    ensures
        r@ == spec_key_pat(key@),
{
    let mut pat = String::from_str("\"");
    pat.append(key);
    pat.append("\":");
    proof {
        reveal_strlit("\"");
        reveal_strlit("\":");
        assert(pat@ =~= spec_key_pat(key@));
    }
    pat
}

/// Reads the first `"key":"..."` string field of `t`.
pub fn json_str_field(t: &str, key: &str) -> (r: Option<String>)
    ensures
        match r {
            Some(v) => spec_str_field(t@, key@) == Some(v@),
            None => spec_str_field(t@, key@) is None,
        },
{
    let n: usize = t.unicode_len();
    let pat = str_key_pat(key);
    let i: usize = match find_from(t, pat.as_str(), 0) {
        Some(i) => i,
        None => {
            return None;
        },
    };
    proof {
        crate::text::lemma_spec_find_some(t@, spec_str_key_pat(key@), 0, i as int);
        assert(i + pat@.len() <= n);
    }
    let vs: usize = i + pat.as_str().unicode_len();
    proof {
        reveal_strlit("\"");
        assert("\""@ =~= seq!['"']);
    }
    let ve: usize = match find_from(t, "\"", vs) {
        Some(e) => e,
        None => {
            return None;
        },
    };
    proof {
        crate::text::lemma_spec_find_some(t@, seq!['"'], vs as int, ve as int);
    }
    Some(substring_owned(t, vs, ve))
}

/// Reads the first `"key":<digits>` field of `t` as a `u64`; `None` also
/// when the number does not fit.
pub fn json_u64_field(t: &str, key: &str) -> (r: Option<u64>)
    ensures
        match r {
            Some(v) => spec_num_field(t@, key@) == Some(v as int),
            None => match spec_num_field(t@, key@) {
                Some(n) => n > u64::MAX,
                None => true,
            },
        },
{
    let n: usize = t.unicode_len();
    let pat = key_pat(key);
    let i: usize = match find_from(t, pat.as_str(), 0) {
        Some(i) => i,
        None => {
            return None;
        },
    };
    proof {
        crate::text::lemma_spec_find_some(t@, spec_key_pat(key@), 0, i as int);
        assert(i + pat@.len() <= n);
    }
    let ds: usize = i + pat.as_str().unicode_len();
    parse_u64_at(t, ds)
}

/// Reads the first `"key":true` or `"key":false` field of `t`.
pub fn json_bool_field(t: &str, key: &str) -> (r: Option<bool>)
    ensures
        r == spec_bool_field(t@, key@),
{
    let n: usize = t.unicode_len();
    let pat = key_pat(key);
    let i: usize = match find_from(t, pat.as_str(), 0) {
        Some(i) => i,
        None => {
            return None;
        },
    };
    proof {
        crate::text::lemma_spec_find_some(t@, spec_key_pat(key@), 0, i as int);
        reveal_strlit("true");
        reveal_strlit("false");
        assert("true"@ =~= seq!['t', 'r', 'u', 'e']);
        assert("false"@ =~= seq!['f', 'a', 'l', 's', 'e']);
        assert(i + pat@.len() <= n);
    }
    let vs: usize = i + pat.as_str().unicode_len();
    if match_at(t, "true", vs) {
        Some(true)
    } else if match_at(t, "false", vs) {
        Some(false)
    } else {
        None
    }
}

} // verus!
