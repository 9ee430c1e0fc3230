//! The frame grammar of the subscription protocol and its codec.
//!
//! Frames on the wire are compact JSON in which every scalar is a
//! string: the upstream provider transmits all quantities as opaque
//! hexadecimal strings, and the client relays them without numeric
//! interpretation.  The grammar here is exactly that fragment: null,
//! the booleans, strings without escapes or control characters,
//! arrays and objects, with no blanks between tokens.  A frame
//! outside the fragment simply fails to parse and is passed through
//! raw; it is never an error.

use vstd::prelude::*;

verus! {

/// The mathematical value of one frame.
#[verifier::ext_equal]
pub enum JsonV {
    Null,
    Bool(bool),
    Str(Seq<char>),
    Arr(Seq<JsonV>),
    Obj(Seq<(Seq<char>, JsonV)>),
}

/// Characters admitted inside a string: no quote, no backslash,
/// nothing below the space character.
pub open spec fn char_ok(c: char) -> bool {
    c != '"' && c != '\\' && (c as u32) >= 32
}

pub open spec fn str_ok(s: Seq<char>) -> bool {
    forall|i: int| 0 <= i < s.len() ==> char_ok(s[i])
}

/// A value the printer can serialise: every string in it is escape-free.
pub open spec fn wf_json(j: JsonV) -> bool
    decreases j,
{
    match j {
        JsonV::Null => true,
        JsonV::Bool(_) => true,
        JsonV::Str(s) => str_ok(s),
        JsonV::Arr(a) => forall|i: int| 0 <= i < a.len() ==> wf_json(#[trigger] a[i]),
        JsonV::Obj(ms) => forall|i: int|
            0 <= i < ms.len() ==> str_ok((#[trigger] ms[i]).0) && wf_json(ms[i].1),
    }
}

/// Canonical text of a value: compact, fields in the order given.
pub open spec fn print_json(j: JsonV) -> Seq<char>
    decreases j,
{
    match j {
        JsonV::Null => seq!['n', 'u', 'l', 'l'],
        JsonV::Bool(b) => if b {
            seq!['t', 'r', 'u', 'e']
        } else {
            seq!['f', 'a', 'l', 's', 'e']
        },
        JsonV::Str(s) => seq!['"'] + s + seq!['"'],
        JsonV::Arr(a) => seq!['['] + print_elems(a) + seq![']'],
        JsonV::Obj(ms) => seq!['{'] + print_members(ms) + seq!['}'],
    }
}

pub open spec fn print_elems(a: Seq<JsonV>) -> Seq<char>
    decreases a,
{
    if a.len() == 0 {
        Seq::empty()
    } else if a.len() == 1 {
        print_json(a[0])
    } else {
        print_json(a[0]) + seq![','] + print_elems(a.drop_first())
    }
}

pub open spec fn print_members(ms: Seq<(Seq<char>, JsonV)>) -> Seq<char>
    decreases ms,
{
    if ms.len() == 0 {
        Seq::empty()
    } else {
        let head = seq!['"'] + ms[0].0 + seq!['"', ':'] + print_json(ms[0].1);
        if ms.len() == 1 {
            head
        } else {
            head + seq![','] + print_members(ms.drop_first())
        }
    }
}

/// Scans a string body from `i` up to the closing quote; the opening
/// quote is already consumed.  Fails on an escape, a control
/// character or a missing closing quote.
pub open spec fn parse_str_body(s: Seq<char>, i: int) -> Option<(Seq<char>, int)>
    decreases s.len() - i,
    when 0 <= i <= s.len()
{
    if i == s.len() {
        None
    } else if s[i] == '"' {
        Some((Seq::empty(), i + 1))
    } else if char_ok(s[i]) {
        match parse_str_body(s, i + 1) {
            None => None,
            Some((t, r)) => Some((seq![s[i]] + t, r)),
        }
    } else {
        None
    }
}

/// Parses one value starting exactly at `i`.
pub open spec fn parse_value(s: Seq<char>, i: int) -> Option<(JsonV, int)>
    decreases s.len() - i, 0int,
    when 0 <= i <= s.len()
{
    if i == s.len() {
        None
    } else if s[i] == 'n' {
        if i + 4 <= s.len() && s[i + 1] == 'u' && s[i + 2] == 'l' && s[i + 3] == 'l' {
            Some((JsonV::Null, i + 4))
        } else {
            None
        }
    } else if s[i] == 't' {
        if i + 4 <= s.len() && s[i + 1] == 'r' && s[i + 2] == 'u' && s[i + 3] == 'e' {
            Some((JsonV::Bool(true), i + 4))
        } else {
            None
        }
    } else if s[i] == 'f' {
        if i + 5 <= s.len() && s[i + 1] == 'a' && s[i + 2] == 'l' && s[i + 3] == 's'
            && s[i + 4] == 'e' {
            Some((JsonV::Bool(false), i + 5))
        } else {
            None
        }
    } else if s[i] == '"' {
        match parse_str_body(s, i + 1) {
            None => None,
            Some((t, r)) => Some((JsonV::Str(t), r)),
        }
    } else if s[i] == '[' {
        if i + 1 < s.len() && s[i + 1] == ']' {
            Some((JsonV::Arr(Seq::empty()), i + 2))
        } else {
            match parse_elems(s, i + 1) {
                None => None,
                Some((a, r)) => Some((JsonV::Arr(a), r)),
            }
        }
    } else if s[i] == '{' {
        if i + 1 < s.len() && s[i + 1] == '}' {
            Some((JsonV::Obj(Seq::empty()), i + 2))
        } else {
            match parse_members(s, i + 1) {
                None => None,
                Some((ms, r)) => Some((JsonV::Obj(ms), r)),
            }
        }
    } else {
        None
    }
}

/// Parses a non-empty comma-separated list of values and the
/// closing bracket.
pub open spec fn parse_elems(s: Seq<char>, i: int) -> Option<(Seq<JsonV>, int)>
    decreases s.len() - i, 1int,
    when 0 <= i <= s.len()
{
    match parse_value(s, i) {
        None => None,
        Some((v, r)) => if !(i < r && r < s.len()) {
            None
        } else if s[r] == ']' {
            Some((seq![v], r + 1))
        } else if s[r] == ',' {
            match parse_elems(s, r + 1) {
                None => None,
                Some((rest, r2)) => Some((seq![v] + rest, r2)),
            }
        } else {
            None
        },
    }
}

/// Parses a non-empty comma-separated list of `"key":value` members
/// and the closing brace.
pub open spec fn parse_members(s: Seq<char>, i: int) -> Option<(Seq<(Seq<char>, JsonV)>, int)>
    decreases s.len() - i, 1int,
    when 0 <= i <= s.len()
{
    if i == s.len() || s[i] != '"' {
        None
    } else {
        match parse_str_body(s, i + 1) {
            None => None,
            Some((k, r)) => if !(i < r && r < s.len() && s[r] == ':') {
                None
            } else {
                match parse_value(s, r + 1) {
                    None => None,
                    Some((v, r2)) => if !(r < r2 && r2 < s.len()) {
                        None
                    } else if s[r2] == '}' {
                        Some((seq![(k, v)], r2 + 1))
                    } else if s[r2] == ',' {
                        match parse_members(s, r2 + 1) {
                            None => None,
                            Some((rest, r3)) => Some((seq![(k, v)] + rest, r3)),
                        }
                    } else {
                        None
                    },
                }
            },
        }
    }
}

/// Reading an index through a known suffix of `s`.
proof fn lemma_index_via(s: Seq<char>, i: int, p: Seq<char>, k: int)
    requires
        0 <= i <= s.len(),
        s.subrange(i, s.len() as int) == p,
        0 <= k < p.len(),
    ensures
        i + k < s.len(),
        s[i + k] == p[k],
        p.len() == s.len() - i,
{
    assert(s.subrange(i, s.len() as int).len() == s.len() - i);
    assert(s.subrange(i, s.len() as int)[k] == s[i + k]);
}

/// Dropping a known prefix of the suffix of `s`.
proof fn lemma_tail_via(s: Seq<char>, i: int, a: Seq<char>, b: Seq<char>)
    requires
        0 <= i <= s.len(),
        s.subrange(i, s.len() as int) == a + b,
    ensures
        i + a.len() <= s.len(),
        s.subrange(i + a.len(), s.len() as int) == b,
{
    assert(s.subrange(i, s.len() as int).len() == s.len() - i);
    assert(s.subrange(i + a.len(), s.len() as int) =~= b) by {
        assert forall|k: int| 0 <= k < b.len() implies s.subrange(
            i + a.len(),
            s.len() as int,
        )[k] == b[k] by {
            assert(s[i + a.len() + k] == (a + b)[a.len() + k]) by {
                assert(s.subrange(i, s.len() as int)[a.len() + k] == s[i + a.len() + k]);
            }
        }
    }
}

/// Printed text is never empty, and its first character names the
/// kind of the value.
proof fn lemma_print_head(j: JsonV)
    ensures
        print_json(j).len() >= 1,
        print_json(j)[0] == 'n' || print_json(j)[0] == 't' || print_json(j)[0] == 'f'
            || print_json(j)[0] == '"' || print_json(j)[0] == '[' || print_json(j)[0] == '{',
{
    match j {
        JsonV::Null => {}
        JsonV::Bool(b) => {}
        JsonV::Str(s) => {
            assert(print_json(j)[0] == '"');
        }
        JsonV::Arr(a) => {
            assert(print_json(j)[0] == '[');
        }
        JsonV::Obj(ms) => {
            assert(print_json(j)[0] == '{');
        }
    }
}

/// The scanner recovers an escape-free string body exactly.
proof fn lemma_parse_str_body_print(t: Seq<char>, s: Seq<char>, i: int, suf: Seq<char>)
    requires
        str_ok(t),
        0 <= i <= s.len(),
        s.subrange(i, s.len() as int) == t + seq!['"'] + suf,
    ensures
        parse_str_body(s, i) == Some((t, i + t.len() + 1)),
    decreases t.len(),
{
    let p = t + seq!['"'] + suf;
    lemma_index_via(s, i, p, 0);
    if t.len() == 0 {
        assert(p[0] == '"');
        assert(parse_str_body(s, i) == Some((Seq::<char>::empty(), i + 1)));
        assert(Seq::<char>::empty() =~= t);
    } else {
        assert(p[0] == t[0]);
        assert(char_ok(t[0]));
        let t2 = t.drop_first();
        assert(t + seq!['"'] + suf =~= seq![t[0]] + (t2 + seq!['"'] + suf));
        lemma_tail_via(s, i, seq![t[0]], t2 + seq!['"'] + suf);
        assert(str_ok(t2));
        lemma_parse_str_body_print(t2, s, i + 1, suf);
        assert(seq![s[i]] + t2 =~= t);
    }
}

/// The parser inverts the printer: within any surrounding text, a
/// printed well-formed value parses back to itself, consuming
/// exactly its own printed length.
proof fn lemma_parse_print(j: JsonV, s: Seq<char>, i: int, suf: Seq<char>)
    requires
        wf_json(j),
        0 <= i <= s.len(),
        s.subrange(i, s.len() as int) == print_json(j) + suf,
    ensures
        parse_value(s, i) == Some((j, i + print_json(j).len())),
    decreases j, 0int,
{
    let p = print_json(j) + suf;
    lemma_index_via(s, i, p, 0);
    match j {
        JsonV::Null => {
            lemma_index_via(s, i, p, 1);
            lemma_index_via(s, i, p, 2);
            lemma_index_via(s, i, p, 3);
            assert(parse_value(s, i) == Some((JsonV::Null, i + 4)));
        }
        JsonV::Bool(b) => {
            lemma_index_via(s, i, p, 1);
            lemma_index_via(s, i, p, 2);
            lemma_index_via(s, i, p, 3);
            if !b {
                lemma_index_via(s, i, p, 4);
            }
        }
        JsonV::Str(t) => {
            assert(p[0] == '"');
            assert(seq!['"'] + t + seq!['"'] + suf =~= seq!['"'] + (t + seq!['"'] + suf));
            lemma_tail_via(s, i, seq!['"'], t + seq!['"'] + suf);
            lemma_parse_str_body_print(t, s, i + 1, suf);
            assert(parse_value(s, i) == Some((JsonV::Str(t), i + t.len() + 2)));
        }
        JsonV::Arr(a) => {
            assert(p[0] == '[');
            if a.len() == 0 {
                lemma_index_via(s, i, p, 1);
                assert(p[1] == ']');
                assert(a =~= Seq::<JsonV>::empty());
                assert(parse_value(s, i) == Some((j, i + 2)));
            } else {
                lemma_index_via(s, i, p, 1);
                lemma_print_head(a[0]);
                assert(p[1] == print_elems(a)[0]) by {
                    assert(print_elems(a)[0] == print_json(a[0])[0]);
                }
                assert(p[1] != ']');
                assert(seq!['['] + print_elems(a) + seq![']'] + suf =~= seq!['['] + (print_elems(
                    a,
                ) + seq![']'] + suf));
                lemma_tail_via(s, i, seq!['['], print_elems(a) + seq![']'] + suf);
                lemma_parse_elems_print(a, s, i + 1, suf);
                assert(parse_value(s, i) == Some((JsonV::Arr(a), i + print_elems(a).len() + 2)));
            }
        }
        JsonV::Obj(ms) => {
            assert(p[0] == '{');
            if ms.len() == 0 {
                lemma_index_via(s, i, p, 1);
                assert(p[1] == '}');
                assert(ms =~= Seq::<(Seq<char>, JsonV)>::empty());
                assert(parse_value(s, i) == Some((j, i + 2)));
            } else {
                lemma_index_via(s, i, p, 1);
                assert(p[1] == print_members(ms)[0]) by {
                    assert(print_members(ms)[0] == '"');
                }
                assert(p[1] != '}');
                assert(seq!['{'] + print_members(ms) + seq!['}'] + suf =~= seq!['{'] + (
                print_members(ms) + seq!['}'] + suf));
                lemma_tail_via(s, i, seq!['{'], print_members(ms) + seq!['}'] + suf);
                lemma_parse_members_print(ms, s, i + 1, suf);
                assert(parse_value(s, i) == Some((JsonV::Obj(ms), i + print_members(ms).len() + 2)));
            }
        }
    }
}

/// List counterpart of `lemma_parse_print`: a printed non-empty
/// element list followed by `]` parses back to itself.
proof fn lemma_parse_elems_print(a: Seq<JsonV>, s: Seq<char>, i: int, suf: Seq<char>)
    requires
        a.len() >= 1,
        forall|k: int| 0 <= k < a.len() ==> wf_json(#[trigger] a[k]),
        0 <= i <= s.len(),
        s.subrange(i, s.len() as int) == print_elems(a) + seq![']'] + suf,
    ensures
        parse_elems(s, i) == Some((a, i + print_elems(a).len() + 1)),
    decreases a, 1int,
{
    let pj = print_json(a[0]);
    lemma_print_head(a[0]);
    if a.len() == 1 {
        assert(print_elems(a) + seq![']'] + suf =~= pj + (seq![']'] + suf));
        lemma_parse_print(a[0], s, i, seq![']'] + suf);
        let r = i + pj.len();
        lemma_index_via(s, i, pj + (seq![']'] + suf), pj.len() as int);
        assert(s[r] == ']');
        assert(seq![a[0]] =~= a);
        assert(parse_elems(s, i) == Some((seq![a[0]], r + 1)));
    } else {
        let a2 = a.drop_first();
        let rest = print_elems(a2);
        assert(print_elems(a) + seq![']'] + suf =~= pj + (seq![','] + rest + seq![']'] + suf));
        lemma_parse_print(a[0], s, i, seq![','] + rest + seq![']'] + suf);
        let r = i + pj.len();
        lemma_index_via(s, i, pj + (seq![','] + rest + seq![']'] + suf), pj.len() as int);
        assert(s[r] == ',');
        assert(pj + (seq![','] + rest + seq![']'] + suf) =~= (pj + seq![',']) + (rest + seq![']']
            + suf));
        lemma_tail_via(s, i, pj + seq![','], rest + seq![']'] + suf);
        assert(forall|k: int| 0 <= k < a2.len() ==> wf_json(#[trigger] a2[k]));
        lemma_parse_elems_print(a2, s, r + 1, suf);
        assert(seq![a[0]] + a2 =~= a);
        assert(parse_elems(s, i) == Some((a, i + print_elems(a).len() + 1)));
    }
}

/// Member-list counterpart: printed `"key":value` members followed
/// by `}` parse back to themselves.
proof fn lemma_parse_members_print(
    ms: Seq<(Seq<char>, JsonV)>,
    s: Seq<char>,
    i: int,
    suf: Seq<char>,
)
    requires
        ms.len() >= 1,
        forall|k: int| 0 <= k < ms.len() ==> str_ok((#[trigger] ms[k]).0) && wf_json(ms[k].1),
        0 <= i <= s.len(),
        s.subrange(i, s.len() as int) == print_members(ms) + seq!['}'] + suf,
    ensures
        parse_members(s, i) == Some((ms, i + print_members(ms).len() + 1)),
    decreases ms, 1int,
{
    let key = ms[0].0;
    let v = ms[0].1;
    let pj = print_json(v);
    let p = print_members(ms) + seq!['}'] + suf;
    lemma_index_via(s, i, p, 0);
    assert(p[0] == '"');
    lemma_print_head(v);
    if ms.len() == 1 {
        let after = seq![':'] + pj + seq!['}'] + suf;
        assert(p =~= seq!['"'] + (key + seq!['"'] + after));
        lemma_tail_via(s, i, seq!['"'], key + seq!['"'] + after);
        lemma_parse_str_body_print(key, s, i + 1, after);
        let r = i + 1 + key.len() + 1;
        assert(key + seq!['"'] + after =~= (key + seq!['"']) + after);
        lemma_tail_via(s, i + 1, key + seq!['"'], after);
        lemma_index_via(s, r, after, 0);
        assert(s[r] == ':');
        assert(after =~= seq![':'] + (pj + (seq!['}'] + suf)));
        lemma_tail_via(s, r, seq![':'], pj + (seq!['}'] + suf));
        lemma_parse_print(v, s, r + 1, seq!['}'] + suf);
        let r2 = r + 1 + pj.len();
        lemma_index_via(s, r + 1, pj + (seq!['}'] + suf), pj.len() as int);
        assert(s[r2] == '}');
        assert(seq![(key, v)] =~= ms);
        assert(parse_members(s, i) == Some((ms, i + print_members(ms).len() + 1)));
    } else {
        let ms2 = ms.drop_first();
        let rest = print_members(ms2);
        let after = seq![':'] + pj + seq![','] + rest + seq!['}'] + suf;
        assert(p =~= seq!['"'] + (key + seq!['"'] + after));
        lemma_tail_via(s, i, seq!['"'], key + seq!['"'] + after);
        lemma_parse_str_body_print(key, s, i + 1, after);
        let r = i + 1 + key.len() + 1;
        assert(key + seq!['"'] + after =~= (key + seq!['"']) + after);
        lemma_tail_via(s, i + 1, key + seq!['"'], after);
        lemma_index_via(s, r, after, 0);
        assert(s[r] == ':');
        assert(after =~= seq![':'] + (pj + (seq![','] + rest + seq!['}'] + suf)));
        lemma_tail_via(s, r, seq![':'], pj + (seq![','] + rest + seq!['}'] + suf));
        lemma_parse_print(v, s, r + 1, seq![','] + rest + seq!['}'] + suf);
        let r2 = r + 1 + pj.len();
        lemma_index_via(s, r + 1, pj + (seq![','] + rest + seq!['}'] + suf), pj.len() as int);
        assert(s[r2] == ',');
        assert(pj + (seq![','] + rest + seq!['}'] + suf) =~= (pj + seq![',']) + (rest + seq!['}']
            + suf));
        lemma_tail_via(s, r + 1, pj + seq![','], rest + seq!['}'] + suf);
        assert(forall|k: int|
            0 <= k < ms2.len() ==> str_ok((#[trigger] ms2[k]).0) && wf_json(ms2[k].1));
        lemma_parse_members_print(ms2, s, r2 + 1, suf);
        assert(seq![(key, v)] + ms2 =~= ms);
        assert(parse_members(s, i) == Some((ms, i + print_members(ms).len() + 1)));
    }
}

/// Decoding is lossless: the canonical text of any well-formed value
/// parses back to exactly that value.
pub proof fn lemma_print_parse_round_trip(j: JsonV)
    requires
        wf_json(j),
    ensures
        parse_document(print_json(j)) == Some(j),
{
    let s = print_json(j);
    assert(s.subrange(0, s.len() as int) =~= s + Seq::<char>::empty());
    assert((s + Seq::<char>::empty()) =~= print_json(j) + Seq::<char>::empty());
    lemma_parse_print(j, s, 0, Seq::empty());
}

/// A whole frame: one value covering the entire text.
pub open spec fn parse_document(s: Seq<char>) -> Option<JsonV> {
    match parse_value(s, 0) {
        None => None,
        Some((j, r)) => if r == s.len() {
            Some(j)
        } else {
            None
        },
    }
}

/// First match wins when an object repeats a key.
pub open spec fn lookup(ms: Seq<(Seq<char>, JsonV)>, k: Seq<char>) -> Option<JsonV>
    decreases ms.len(),
{
    if ms.len() == 0 {
        None
    } else if ms[0].0 == k {
        Some(ms[0].1)
    } else {
        lookup(ms.drop_first(), k)
    }
}

/// A key found at `i`, behind no earlier occurrence of itself, is
/// what `lookup` returns.
pub proof fn lemma_lookup_at(ms: Seq<(Seq<char>, JsonV)>, i: int)
    requires
        0 <= i < ms.len(),
        forall|q: int| 0 <= q < i ==> (#[trigger] ms[q]).0 != ms[i].0,
    ensures
        lookup(ms, ms[i].0) == Some(ms[i].1),
    decreases i,
{
    if i == 0 {
    } else {
        let ms2 = ms.drop_first();
        assert(ms[0].0 != ms[i].0);
        assert(forall|q: int| 0 <= q < i - 1 ==> (#[trigger] ms2[q]).0 != ms2[i - 1].0) by {
            assert(forall|q: int| 0 <= q < ms2.len() ==> #[trigger] ms2[q] == ms[q + 1]);
        }
        lemma_lookup_at(ms2, i - 1);
        assert(ms2[i - 1] == ms[i]);
    }
}

/// One decoded frame in memory; `v()` is its mathematical value.
pub enum Json {
    Null,
    Bool(bool),
    Str(String),
    Arr(Vec<Json>),
    Obj(Vec<(String, Json)>),
}

pub open spec fn arr_v(a: Seq<Json>) -> Seq<JsonV>
    decreases a,
{
    if a.len() == 0 {
        Seq::empty()
    } else {
        seq![a[0].v()] + arr_v(a.drop_first())
    }
}

pub open spec fn obj_v(ms: Seq<(String, Json)>) -> Seq<(Seq<char>, JsonV)>
    decreases ms,
{
    if ms.len() == 0 {
        Seq::empty()
    } else {
        seq![(ms[0].0@, ms[0].1.v())] + obj_v(ms.drop_first())
    }
}

impl Json {
    pub open spec fn v(self) -> JsonV
        decreases self,
    {
        match self {
            Json::Null => JsonV::Null,
            Json::Bool(b) => JsonV::Bool(b),
            Json::Str(s) => JsonV::Str(s@),
            Json::Arr(a) => JsonV::Arr(arr_v(a@)),
            Json::Obj(ms) => JsonV::Obj(obj_v(ms@)),
        }
    }
}

pub broadcast proof fn lemma_arr_v_props(a: Seq<Json>)
    ensures
        (#[trigger] arr_v(a)).len() == a.len(),
        forall|i: int| 0 <= i < a.len() ==> arr_v(a)[i] == a[i].v(),
    decreases a,
{
    if a.len() > 0 {
        lemma_arr_v_props(a.drop_first());
        assert forall|i: int| 0 <= i < a.len() implies arr_v(a)[i] == a[i].v() by {
            if i > 0 {
                assert(arr_v(a)[i] == arr_v(a.drop_first())[i - 1]);
                assert(a.drop_first()[i - 1] == a[i]);
            }
        }
    }
}

pub broadcast proof fn lemma_obj_v_props(ms: Seq<(String, Json)>)
    ensures
        (#[trigger] obj_v(ms)).len() == ms.len(),
        forall|i: int|
            0 <= i < ms.len() ==> obj_v(ms)[i] == (ms[i].0@, ms[i].1.v()),
    decreases ms,
{
    if ms.len() > 0 {
        lemma_obj_v_props(ms.drop_first());
        assert forall|i: int| 0 <= i < ms.len() implies obj_v(ms)[i] == (ms[i].0@, ms[i].1.v()) by {
            if i > 0 {
                assert(obj_v(ms)[i] == obj_v(ms.drop_first())[i - 1]);
                assert(ms.drop_first()[i - 1] == ms[i]);
            }
        }
    }
}

fn print_str_into(t: &String, out: &mut Vec<char>)
    ensures
        final(out)@ == old(out)@ + seq!['"'] + t@ + seq!['"'],
{
    out.push('"');
    let n = t.as_str().unicode_len();
    let mut i: usize = 0;
    while i < n
        invariant
            n == t@.len(),
            i <= n,
            out@ == old(out)@ + seq!['"'] + t@.take(i as int),
        decreases n - i,
    {
        out.push(t.as_str().get_char(i));
        i = i + 1;
        proof {
            assert(old(out)@ + seq!['"'] + t@.take(i - 1) + seq![t@[i - 1]] =~= old(out)@
                + seq!['"'] + t@.take(i as int));
        }
    }
    out.push('"');
    proof {
        assert(t@.take(n as int) =~= t@);
    }
}

fn print_into(j: &Json, out: &mut Vec<char>)
    ensures
        final(out)@ == old(out)@ + print_json(j.v()),
    decreases j, 0int,
{
    match j {
        Json::Null => {
            out.push('n');
            out.push('u');
            out.push('l');
            out.push('l');
            proof {
                assert(out@ =~= old(out)@ + print_json(j.v()));
            }
        }
        Json::Bool(b) => {
            if *b {
                out.push('t');
                out.push('r');
                out.push('u');
                out.push('e');
            } else {
                out.push('f');
                out.push('a');
                out.push('l');
                out.push('s');
                out.push('e');
            }
            proof {
                assert(out@ =~= old(out)@ + print_json(j.v()));
            }
        }
        Json::Str(t) => {
            print_str_into(t, out);
            proof {
                assert(old(out)@ + seq!['"'] + t@ + seq!['"'] =~= old(out)@ + print_json(j.v()));
            }
        }
        Json::Arr(a) => {
            out.push('[');
            if a.len() > 0 {
                print_list_into(a, 0, out);
            }
            out.push(']');
            proof {
                broadcast use lemma_arr_v_props;

                if a@.len() > 0 {
                    assert(arr_v(a@).skip(0) =~= arr_v(a@));
                } else {
                    assert(arr_v(a@) =~= Seq::<JsonV>::empty());
                }
                assert(out@ =~= old(out)@ + print_json(j.v()));
            }
        }
        Json::Obj(ms) => {
            out.push('{');
            if ms.len() > 0 {
                print_membs_into(ms, 0, out);
            }
            out.push('}');
            proof {
                broadcast use lemma_obj_v_props;

                if ms@.len() > 0 {
                    assert(obj_v(ms@).skip(0) =~= obj_v(ms@));
                } else {
                    assert(obj_v(ms@) =~= Seq::<(Seq<char>, JsonV)>::empty());
                }
                assert(out@ =~= old(out)@ + print_json(j.v()));
            }
        }
    }
}

fn print_list_into(a: &Vec<Json>, k: usize, out: &mut Vec<char>)
    requires
        k < a.len(),
    ensures
        final(out)@ == old(out)@ + print_elems(arr_v(a@).skip(k as int)),
    decreases a, a.len() - k,
{
    proof {
        broadcast use lemma_arr_v_props;

    }
    let ghost pre = out@;
    print_into(&a[k], out);
    proof {
        assert(arr_v(a@).skip(k as int)[0] == a@[k as int].v());
    }
    if k + 1 < a.len() {
        out.push(',');
        print_list_into(a, k + 1, out);
        proof {
            broadcast use lemma_arr_v_props;

            assert(arr_v(a@).skip(k as int).drop_first() =~= arr_v(a@).skip(k as int + 1));
            assert(out@ =~= pre + print_elems(arr_v(a@).skip(k as int)));
        }
    } else {
        proof {
            broadcast use lemma_arr_v_props;

            assert(arr_v(a@).skip(k as int).len() == 1);
            assert(out@ =~= pre + print_elems(arr_v(a@).skip(k as int)));
        }
    }
}

fn print_membs_into(ms: &Vec<(String, Json)>, k: usize, out: &mut Vec<char>)
    requires
        k < ms.len(),
    ensures
        final(out)@ == old(out)@ + print_members(obj_v(ms@).skip(k as int)),
    decreases ms, ms.len() - k,
{
    proof {
        broadcast use lemma_obj_v_props;

    }
    let ghost pre = out@;
    print_str_into(&ms[k].0, out);
    out.push(':');
    print_into(&ms[k].1, out);
    proof {
        assert(obj_v(ms@).skip(k as int)[0] == (ms@[k as int].0@, ms@[k as int].1.v()));
    }
    if k + 1 < ms.len() {
        out.push(',');
        print_membs_into(ms, k + 1, out);
        proof {
            broadcast use lemma_obj_v_props;

            assert(obj_v(ms@).skip(k as int).drop_first() =~= obj_v(ms@).skip(k as int + 1));
            assert(out@ =~= pre + print_members(obj_v(ms@).skip(k as int)));
        }
    } else {
        proof {
            broadcast use lemma_obj_v_props;

            assert(obj_v(ms@).skip(k as int).len() == 1);
            assert(out@ =~= pre + print_members(obj_v(ms@).skip(k as int)));
        }
    }
}

fn p_str_body(s: &Vec<char>, i: usize) -> (r: Option<(Vec<char>, usize)>)
    requires
        i <= s.len(),
    ensures
        match r {
            Some(p) => parse_str_body(s@, i as int) == Some((p.0@, p.1 as int)) && i < p.1
                <= s.len(),
            None => parse_str_body(s@, i as int) is None,
        },
    decreases s.len() - i,
{
    if i == s.len() {
        return None;
    }
    let c = s[i];
    if c == '"' {
        let out: Vec<char> = Vec::new();
        proof {
            assert(out@ =~= Seq::<char>::empty());
        }
        return Some((out, i + 1));
    }
    if c != '\\' && (c as u32) >= 32 {
        match p_str_body(s, i + 1) {
            None => None,
            Some((t, r)) => {
                let mut out: Vec<char> = Vec::new();
                out.push(c);
                let mut t = t;
                out.append(&mut t);
                proof {
                    assert(out@ =~= seq![s@[i as int]] + (out@.drop_first()));
                }
                Some((out, r))
            }
        }
    } else {
        None
    }
}

fn p_value(s: &Vec<char>, i: usize) -> (r: Option<(Json, usize)>)
    requires
        i <= s.len(),
    ensures
        match r {
            Some(p) => parse_value(s@, i as int) == Some((p.0.v(), p.1 as int)) && i < p.1
                <= s.len(),
            None => parse_value(s@, i as int) is None,
        },
    decreases s.len() - i, 0int,
{
    if i == s.len() {
        return None;
    }
    let c = s[i];
    if c == 'n' {
        if s.len() - i >= 4 && s[i + 1] == 'u' && s[i + 2] == 'l' && s[i + 3] == 'l' {
            Some((Json::Null, i + 4))
        } else {
            None
        }
    } else if c == 't' {
        if s.len() - i >= 4 && s[i + 1] == 'r' && s[i + 2] == 'u' && s[i + 3] == 'e' {
            Some((Json::Bool(true), i + 4))
        } else {
            None
        }
    } else if c == 'f' {
        if s.len() - i >= 5 && s[i + 1] == 'a' && s[i + 2] == 'l' && s[i + 3] == 's' && s[i + 4]
            == 'e' {
            Some((Json::Bool(false), i + 5))
        } else {
            None
        }
    } else if c == '"' {
        match p_str_body(s, i + 1) {
            None => None,
            Some((t, r)) => Some((Json::Str(string_from_chars(&t)), r)),
        }
    } else if c == '[' {
        if s.len() - i >= 2 && s[i + 1] == ']' {
            let out: Vec<Json> = Vec::new();
            proof {
                assert(arr_v(out@) =~= Seq::<JsonV>::empty());
            }
            Some((Json::Arr(out), i + 2))
        } else {
            match p_elems(s, i + 1) {
                None => None,
                Some((a, r)) => Some((Json::Arr(a), r)),
            }
        }
    } else if c == '{' {
        if s.len() - i >= 2 && s[i + 1] == '}' {
            let out: Vec<(String, Json)> = Vec::new();
            proof {
                assert(obj_v(out@) =~= Seq::<(Seq<char>, JsonV)>::empty());
            }
            Some((Json::Obj(out), i + 2))
        } else {
            match p_members(s, i + 1) {
                None => None,
                Some((ms, r)) => Some((Json::Obj(ms), r)),
            }
        }
    } else {
        None
    }
}

fn p_elems(s: &Vec<char>, i: usize) -> (r: Option<(Vec<Json>, usize)>)
    requires
        i <= s.len(),
    ensures
        match r {
            Some(p) => parse_elems(s@, i as int) == Some((arr_v(p.0@), p.1 as int)) && i < p.1
                <= s.len(),
            None => parse_elems(s@, i as int) is None,
        },
    decreases s.len() - i, 1int,
{
    match p_value(s, i) {
        None => None,
        Some((v, r)) => {
            if r == s.len() {
                return None;
            }
            let c = s[r];
            if c == ']' {
                let mut out: Vec<Json> = Vec::new();
                out.push(v);
                proof {
                    assert(out@.drop_first() =~= Seq::<Json>::empty());
                    assert(arr_v(out@.drop_first()) =~= Seq::<JsonV>::empty());
                    assert(arr_v(out@) =~= seq![out@[0].v()]);
                }
                Some((out, r + 1))
            } else if c == ',' {
                match p_elems(s, r + 1) {
                    None => None,
                    Some((rest, r2)) => {
                        let mut out: Vec<Json> = Vec::new();
                        out.push(v);
                        let mut rest = rest;
                        let ghost restv = rest@;
                        out.append(&mut rest);
                        proof {
                            assert(out@.drop_first() =~= restv);
                            assert(arr_v(out@) =~= seq![out@[0].v()] + arr_v(restv));
                        }
                        Some((out, r2))
                    }
                }
            } else {
                None
            }
        }
    }
}

fn p_members(s: &Vec<char>, i: usize) -> (r: Option<(Vec<(String, Json)>, usize)>)
    requires
        i <= s.len(),
    ensures
        match r {
            Some(p) => parse_members(s@, i as int) == Some((obj_v(p.0@), p.1 as int)) && i < p.1
                <= s.len(),
            None => parse_members(s@, i as int) is None,
        },
    decreases s.len() - i, 1int,
{
    if i == s.len() {
        return None;
    }
    if s[i] != '"' {
        return None;
    }
    match p_str_body(s, i + 1) {
        None => None,
        Some((kc, r)) => {
            if r == s.len() {
                return None;
            }
            if s[r] != ':' {
                return None;
            }
            let key = string_from_chars(&kc);
            match p_value(s, r + 1) {
                None => None,
                Some((v, r2)) => {
                    if r2 == s.len() {
                        return None;
                    }
                    let c = s[r2];
                    if c == '}' {
                        let mut out: Vec<(String, Json)> = Vec::new();
                        out.push((key, v));
                        proof {
                            assert(out@.drop_first() =~= Seq::<(String, Json)>::empty());
                            assert(obj_v(out@.drop_first()) =~= Seq::<(Seq<char>, JsonV)>::empty());
                            assert(obj_v(out@) =~= seq![(out@[0].0@, out@[0].1.v())]);
                        }
                        Some((out, r2 + 1))
                    } else if c == ',' {
                        match p_members(s, r2 + 1) {
                            None => None,
                            Some((rest, r3)) => {
                                let mut out: Vec<(String, Json)> = Vec::new();
                                out.push((key, v));
                                let mut rest = rest;
                                let ghost restv = rest@;
                                out.append(&mut rest);
                                proof {
                                    assert(out@.drop_first() =~= restv);
                                    assert(obj_v(out@) =~= seq![(out@[0].0@, out@[0].1.v())]
                                        + obj_v(restv));
                                }
                                Some((out, r3))
                            }
                        }
                    } else {
                        None
                    }
                }
            }
        }
    }
}

/// Parses one whole frame; `None` exactly when the text is not a
/// single value of the grammar.
pub fn parse_text(s: &str) -> (r: Option<Json>)
    ensures
        match r {
            Some(j) => parse_document(s@) == Some(j.v()),
            None => parse_document(s@) is None,
        },
{
    let cs = chars_of(s);
    match p_value(&cs, 0) {
        None => None,
        Some((j, r)) => {
            if r == cs.len() {
                Some(j)
            } else {
                None
            }
        }
    }
}

/// Canonical text of one value.
pub fn print_text(j: &Json) -> (r: String)
    ensures
        r@ == print_json(j.v()),
{
    let mut out: Vec<char> = Vec::new();
    print_into(j, &mut out);
    string_from_chars(&out)
}

/// Relies on `FromIterator<char> for String` (std): collecting
/// characters yields the string of exactly those characters.
#[verifier::external_body]
fn string_from_chars(v: &Vec<char>) -> (r: String)
    ensures
        r@ == v@,
{
    v.iter().collect()
}

/// The characters of `s`, as a vector.
pub fn chars_of(s: &str) -> (v: Vec<char>)
    ensures
        v@ == s@,
{
    let n = s.unicode_len();
    let mut v: Vec<char> = Vec::new();
    let mut i: usize = 0;
    while i < n
        invariant
            n == s@.len(),
            i <= n,
            v@ == s@.take(i as int),
        decreases n - i,
    {
        v.push(s.get_char(i));
        i = i + 1;
        proof {
            assert(v@ =~= s@.take(i as int));
        }
    }
    proof {
        assert(s@.take(n as int) =~= s@);
    }
    v
}

} // verus!
