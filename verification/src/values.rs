//! Coercion of raw `key=value` strings into typed parameter values.
//!
//! The command line carries no type information, so every raw value is
//! classified by a fixed ordered trial: a case-insensitive `true`/`false`
//! becomes a boolean, a string of decimal digits in range becomes a 64-bit
//! integer, a string that reads as a finite 64-bit float becomes a number
//! literal, and anything else stays a string, verbatim. Entries without a
//! `=` are dropped silently; a later duplicate key overwrites the value of
//! an earlier one.

use vstd::prelude::*;

use crate::numbers::i64_string_value;
use crate::numbers::parse_i64;
use crate::text::chars_to_string;
use crate::text::str_chars;
use crate::text::sub_chars;

verus! {

/// A dynamically typed parameter value, as the coercion produces it: a
/// boolean, a 64-bit integer, a finite float carried as its canonical JSON
/// literal, or a raw string.
#[derive(Debug, Clone, PartialEq, Eq)]
pub enum ParamValue {
    Bool(bool),
    Int(i64),
    FloatLit(String),
    Str(String),
}

/// The mathematical model of a parameter value.
pub enum ValueModel {
    Bool(bool),
    Int(int),
    FloatLit(Seq<char>),
    Str(Seq<char>),
}

impl View for ParamValue {
    type V = ValueModel;

    open spec fn view(&self) -> ValueModel {
        match self {
            ParamValue::Bool(b) => ValueModel::Bool(*b),
            ParamValue::Int(n) => ValueModel::Int(*n as int),
            ParamValue::FloatLit(s) => ValueModel::FloatLit(s@),
            ParamValue::Str(s) => ValueModel::Str(s@),
        }
    }
}

/// The canonical JSON number literal of the string read as a finite
/// 64-bit float, or `None` where the string does not read as one.
pub uninterp spec fn float_json_of(s: Seq<char>) -> Option<Seq<char>>;

/// Relies on str::parse reading the string as a 64-bit float, on
/// serde_json::Number::from_f64 accepting exactly the finite values, and
/// on the number's Display impl rendering its canonical JSON literal.
/// Each step depends on the characters of the string alone.
#[verifier::external_body]
fn coerce_float_literal(s: &str) -> (r: Option<String>)
    ensures
        match r {
            Some(lit) => float_json_of(s@) == Some(lit@),
            None => float_json_of(s@) is None,
        },
{
    match s.parse().ok().and_then(serde_json::Number::from_f64) {
        Some(n) => Some(n.to_string()),
        None => None,
    }
}

/// Whether `s` equals `true` up to ASCII case.
pub open spec fn eq_ignore_case_true(s: Seq<char>) -> bool {
    &&& s.len() == 4
    &&& (s[0] == 't' || s[0] == 'T')
    &&& (s[1] == 'r' || s[1] == 'R')
    &&& (s[2] == 'u' || s[2] == 'U')
    &&& (s[3] == 'e' || s[3] == 'E')
}

/// Whether `s` equals `false` up to ASCII case.
pub open spec fn eq_ignore_case_false(s: Seq<char>) -> bool {
    &&& s.len() == 5
    &&& (s[0] == 'f' || s[0] == 'F')
    &&& (s[1] == 'a' || s[1] == 'A')
    &&& (s[2] == 'l' || s[2] == 'L')
    &&& (s[3] == 's' || s[3] == 'S')
    &&& (s[4] == 'e' || s[4] == 'E')
}

/// The value a raw string coerces to, in the fixed trial order: boolean,
/// then 64-bit integer, then finite float, then verbatim string.
pub open spec fn coerce_spec(raw: Seq<char>) -> ValueModel {
    if eq_ignore_case_true(raw) {
        ValueModel::Bool(true)
    } else if eq_ignore_case_false(raw) {
        ValueModel::Bool(false)
    } else {
        match i64_string_value(raw) {
            Some(n) => ValueModel::Int(n),
            None => match float_json_of(raw) {
                Some(lit) => ValueModel::FloatLit(lit),
                None => ValueModel::Str(raw),
            },
        }
    }
}

fn is_true_literal(v: &Vec<char>) -> (b: bool)
    ensures
        b == eq_ignore_case_true(v@),
{
    v.len() == 4 && (v[0] == 't' || v[0] == 'T') && (v[1] == 'r' || v[1] == 'R') && (v[2] == 'u'
        || v[2] == 'U') && (v[3] == 'e' || v[3] == 'E')
}

fn is_false_literal(v: &Vec<char>) -> (b: bool)
    ensures
        b == eq_ignore_case_false(v@),
{
    v.len() == 5 && (v[0] == 'f' || v[0] == 'F') && (v[1] == 'a' || v[1] == 'A') && (v[2] == 'l'
        || v[2] == 'L') && (v[3] == 's' || v[3] == 'S') && (v[4] == 'e' || v[4] == 'E')
}

/// Coerces one raw value string by the fixed ordered trial.
pub fn coerce_value(raw: &Vec<char>) -> (v: ParamValue)
    ensures
        v@ == coerce_spec(raw@),
{
    if is_true_literal(raw) {
        ParamValue::Bool(true)
    } else if is_false_literal(raw) {
        ParamValue::Bool(false)
    } else {
        match parse_i64(raw) {
            Some(n) => ParamValue::Int(n),
            None => {
                let s = chars_to_string(raw);
                match coerce_float_literal(s.as_str()) {
                    Some(lit) => ParamValue::FloatLit(lit),
                    None => ParamValue::Str(s),
                }
            },
        }
    }
}

/// One key together with its coerced value.
#[derive(Debug, Clone, PartialEq, Eq)]
pub struct ParamEntry {
    pub key: String,
    pub value: ParamValue,
}

impl View for ParamEntry {
    type V = (Seq<char>, ValueModel);

    open spec fn view(&self) -> (Seq<char>, ValueModel) {
        (self.key@, self.value@)
    }
}

/// The coerced parameter mapping: an ordered list of entries with unique
/// keys.
#[derive(Debug, Clone, PartialEq, Eq)]
pub struct ParamMap {
    pub entries: Vec<ParamEntry>,
}

impl View for ParamMap {
    type V = Seq<(Seq<char>, ValueModel)>;

    open spec fn view(&self) -> Seq<(Seq<char>, ValueModel)> {
        self.entries@.map_values(|e: ParamEntry| e@)
    }
}

/// Whether the keys of the entry list are pairwise distinct.
pub open spec fn unique_keys(s: Seq<(Seq<char>, ValueModel)>) -> bool {
    forall|i: int, j: int| 0 <= i < j < s.len() ==> (#[trigger] s[i]).0 != (#[trigger] s[j]).0
}

/// Whether some entry carries the key `k`.
pub open spec fn has_key(s: Seq<(Seq<char>, ValueModel)>, k: Seq<char>) -> bool {
    exists|i: int| 0 <= i < s.len() && (#[trigger] s[i]).0 == k
}

/// The entry list after binding `k` to `v`: the existing entry for `k` is
/// overwritten in place, or a new entry is appended.
pub open spec fn upsert_model(
    s: Seq<(Seq<char>, ValueModel)>,
    k: Seq<char>,
    v: ValueModel,
) -> Seq<(Seq<char>, ValueModel)> {
    if has_key(s, k) {
        s.map_values(
            |p: (Seq<char>, ValueModel)|
                if p.0 == k {
                    (k, v)
                } else {
                    p
                },
        )
    } else {
        s.push((k, v))
    }
}

/// The index of the first `=` in `s`.
pub open spec fn first_eq(s: Seq<char>) -> Option<int>
    decreases s.len(),
{
    if s.len() == 0 {
        None
    } else if s[0] == '=' {
        Some(0)
    } else {
        match first_eq(s.drop_first()) {
            Some(i) => Some(i + 1),
            None => None,
        }
    }
}

/// The key and raw value of one `key=value` entry, split on the first `=`,
/// or `None` where the entry has no `=`.
pub open spec fn entry_parts(s: Seq<char>) -> Option<(Seq<char>, Seq<char>)> {
    match first_eq(s) {
        Some(i) => Some((s.take(i), s.subrange(i + 1, s.len() as int))),
        None => None,
    }
}

/// The mapping obtained by folding every well-formed entry of `inputs`
/// into the list, in order.
pub open spec fn params_model(inputs: Seq<Seq<char>>) -> Seq<(Seq<char>, ValueModel)>
    decreases inputs.len(),
{
    if inputs.len() == 0 {
        Seq::empty()
    } else {
        let prev = params_model(inputs.drop_last());
        match entry_parts(inputs.last()) {
            Some(kv) => upsert_model(prev, kv.0, coerce_spec(kv.1)),
            None => prev,
        }
    }
}

/// The value bound to `k`, read from the latest matching entry.
pub open spec fn lookup(s: Seq<(Seq<char>, ValueModel)>, k: Seq<char>) -> Option<ValueModel>
    decreases s.len(),
{
    if s.len() == 0 {
        None
    } else if s.last().0 == k {
        Some(s.last().1)
    } else {
        lookup(s.drop_last(), k)
    }
}

proof fn lemma_lookup_overwritten(s: Seq<(Seq<char>, ValueModel)>, k: Seq<char>, v: ValueModel)
    requires
        has_key(s, k),
    ensures
        lookup(
            s.map_values(
                |p: (Seq<char>, ValueModel)|
                    if p.0 == k {
                        (k, v)
                    } else {
                        p
                    },
            ),
            k,
        ) == Some(v),
    decreases s.len(),
{
    let m = s.map_values(
        |p: (Seq<char>, ValueModel)|
            if p.0 == k {
                (k, v)
            } else {
                p
            },
    );
    if s.last().0 == k {
        assert(m.last() == (k, v));
    } else {
        assert(m.last() == s.last());
        assert(has_key(s.drop_last(), k)) by {
            let i = choose|i: int| 0 <= i < s.len() && (#[trigger] s[i]).0 == k;
            assert(s.drop_last()[i] == s[i]);
        }
        assert(m.drop_last() =~= s.drop_last().map_values(
            |p: (Seq<char>, ValueModel)|
                if p.0 == k {
                    (k, v)
                } else {
                    p
                },
        ));
        lemma_lookup_overwritten(s.drop_last(), k, v);
    }
}

proof fn lemma_lookup_upsert(s: Seq<(Seq<char>, ValueModel)>, k: Seq<char>, v: ValueModel)
    ensures
        lookup(upsert_model(s, k, v), k) == Some(v),
{
    if has_key(s, k) {
        let m = s.map_values(
            |p: (Seq<char>, ValueModel)|
                if p.0 == k {
                    (k, v)
                } else {
                    p
                },
        );
        assert(upsert_model(s, k, v) =~= m);
        lemma_lookup_overwritten(s, k, v);
    } else {
        assert(upsert_model(s, k, v).last() == (k, v));
    }
}

/// A later duplicate key overwrites an earlier value: after one more
/// `key=value` entry, the mapping binds that key to the coercion of that
/// raw value, whatever any earlier entry bound it to.
pub proof fn lemma_later_duplicate_wins(inputs: Seq<Seq<char>>, entry: Seq<char>)
    requires
        entry_parts(entry) is Some,
    ensures
        lookup(params_model(inputs.push(entry)), entry_parts(entry)->Some_0.0) == Some(
            coerce_spec(entry_parts(entry)->Some_0.1),
        ),
{
    let kv = entry_parts(entry)->Some_0;
    assert(inputs.push(entry).drop_last() =~= inputs);
    assert(inputs.push(entry).last() == entry);
    lemma_lookup_upsert(params_model(inputs), kv.0, coerce_spec(kv.1));
}

proof fn lemma_first_eq_at(s: Seq<char>, i: int)
    requires
        0 <= i < s.len(),
        s[i] == '=',
        forall|j: int| 0 <= j < i ==> s[j] != '=',
    ensures
        first_eq(s) == Some(i),
    decreases i,
{
    if i > 0 {
        lemma_first_eq_at(s.drop_first(), i - 1);
    }
}

proof fn lemma_first_eq_none(s: Seq<char>)
    requires
        forall|j: int| 0 <= j < s.len() ==> s[j] != '=',
    ensures
        first_eq(s) is None,
    decreases s.len(),
{
    if s.len() > 0 {
        lemma_first_eq_none(s.drop_first());
    }
}

fn find_first_eq(v: &Vec<char>) -> (r: Option<usize>)
    ensures
        match r {
            Some(i) => i < v@.len() && first_eq(v@) == Some(i as int),
            None => first_eq(v@) is None,
        },
{
    let mut i: usize = 0;
    while i < v.len()
        invariant
            i <= v.len(),
            forall|j: int| 0 <= j < i ==> v@[j] != '=',
        decreases v.len() - i,
    {
        if v[i] == '=' {
            proof {
                lemma_first_eq_at(v@, i as int);
            }
            return Some(i);
        }
        i = i + 1;
    }
    proof {
        lemma_first_eq_none(v@);
    }
    None
}

/// Binds `key` to `value`, overwriting an existing entry in place or
/// appending a new one; keys stay unique.
fn upsert(entries: &mut Vec<ParamEntry>, key: String, value: ParamValue)
    requires
        unique_keys(old(entries)@.map_values(|e: ParamEntry| e@)),
    ensures
        final(entries)@.map_values(|e: ParamEntry| e@) == upsert_model(
            old(entries)@.map_values(|e: ParamEntry| e@),
            key@,
            value@,
        ),
        unique_keys(final(entries)@.map_values(|e: ParamEntry| e@)),
{
    let ghost m0 = old(entries)@.map_values(|e: ParamEntry| e@);
    let mut i: usize = 0;
    while i < entries.len()
        invariant
            i <= entries.len(),
            entries@ == old(entries)@,
            forall|j: int| 0 <= j < i ==> (#[trigger] entries@[j]).key@ != key@,
            unique_keys(m0),
            m0 == entries@.map_values(|e: ParamEntry| e@),
        decreases entries.len() - i,
    {
        if entries[i].key == key {
            let e = ParamEntry { key, value };
            let ghost ev = e@;
            entries[i] = e;
            proof {
                assert(has_key(m0, ev.0)) by {
                    assert(m0[i as int].0 == ev.0);
                }
                let mapped = m0.map_values(
                    |p: (Seq<char>, ValueModel)|
                        if p.0 == ev.0 {
                            (ev.0, ev.1)
                        } else {
                            p
                        },
                );
                assert forall|j: int|
                    0 <= j < m0.len() implies (entries@.map_values(|en: ParamEntry| en@))[j]
                    == mapped[j] by {
                    if j != i {
                        assert(m0[j].0 != m0[i as int].0);
                    }
                }
                assert(entries@.map_values(|en: ParamEntry| en@) =~= mapped);
                assert forall|a: int, b: int|
                    0 <= a < b < mapped.len() implies mapped[a].0 != mapped[b].0 by {
                    assert(m0[a].0 != m0[b].0);
                }
            }
            return ;
        }
        i = i + 1;
    }
    proof {
        assert(!has_key(m0, key@));
    }
    let e = ParamEntry { key, value };
    let ghost ev = e@;
    entries.push(e);
    proof {
        assert(entries@.map_values(|en: ParamEntry| en@) =~= m0.push(ev));
        let m1 = m0.push(ev);
        assert forall|a: int, b: int| 0 <= a < b < m1.len() implies m1[a].0 != m1[b].0 by {
            if b < m0.len() {
                assert(m0[a].0 != m0[b].0);
            } else {
                assert(!has_key(m0, key@));
                assert(m1[a] == m0[a]);
            }
        }
    }
}

/// Builds the parameter mapping from raw `key=value` strings: each entry
/// is split on its first `=` and its value coerced; entries without `=`
/// are dropped; a later duplicate key overwrites the earlier value.
pub fn parse_params(params: &Vec<String>) -> (r: ParamMap)
    ensures
        r@ == params_model(params@.map_values(|s: String| s@)),
        unique_keys(r@),
{
    let ghost inputs = params@.map_values(|s: String| s@);
    let mut entries: Vec<ParamEntry> = Vec::new();
    let mut i: usize = 0;
    while i < params.len()
        invariant
            i <= params.len(),
            inputs == params@.map_values(|s: String| s@),
            entries@.map_values(|e: ParamEntry| e@) == params_model(inputs.take(i as int)),
            unique_keys(entries@.map_values(|e: ParamEntry| e@)),
        decreases params.len() - i,
    {
        let raw = str_chars(&params[i]);
        assert(raw@ == inputs[i as int]);
        match find_first_eq(&raw) {
            Some(pos) => {
                let key_chars = sub_chars(&raw, 0, pos);
                let value_chars = sub_chars(&raw, pos + 1, raw.len());
                assert(key_chars@ =~= raw@.take(pos as int));
                let key = chars_to_string(&key_chars);
                let value = coerce_value(&value_chars);
                upsert(&mut entries, key, value);
            },
            None => {
            },
        }
        i = i + 1;
        proof {
            assert(inputs.take(i as int).drop_last() =~= inputs.take(i - 1));
            assert(inputs.take(i as int).last() == inputs[i - 1]);
        }
    }
    proof {
        assert(inputs.take(params@.len() as int) =~= inputs);
    }
    ParamMap { entries }
}

} // verus!
