//! JSON values and their canonical text: object keys in order at every level, array items
//! in their order, no white space. Signatures are made over this text.
use vstd::prelude::*;
use vstd::string::*;
use crate::text::{decimal, digit_str, lemma_lt_trans, seq_lt, str_lt};

verus! {

/// A JSON value. Numbers are integers (the protocol carries no fractions).
#[derive(Debug)]
pub enum JsonValue {
    Null,
    Bool(bool),
    /// A number that is not negative.
    PosInt(u64),
    /// A negative number.
    NegInt(i64),
    Str(String),
    Array(Vec<JsonValue>),
    /// The members of an object, each key once.
    Object(Vec<(String, JsonValue)>),
}

/// The lower-case hexadecimal digit of `d`.
pub open spec fn hex_digit(d: nat) -> char {
    if d < 10 {
        ((48 + d) as u8) as char
    } else {
        ((87 + d) as u8) as char
    }
}

/// A character inside a JSON string: a quote and a backslash are escaped, the usual
/// control characters by their short escapes, the other control characters as `\u00XX`.
pub open spec fn escape_char(c: char) -> Seq<char> {
    if c == '"' {
        seq!['\\', '"']
    } else if c == '\\' {
        seq!['\\', '\\']
    } else if c == '\u{8}' {
        seq!['\\', 'b']
    } else if c == '\u{c}' {
        seq!['\\', 'f']
    } else if c == '\n' {
        seq!['\\', 'n']
    } else if c == '\r' {
        seq!['\\', 'r']
    } else if c == '\t' {
        seq!['\\', 't']
    } else if (c as u32) < 0x20 {
        seq!['\\', 'u', '0', '0', hex_digit((c as u32 / 16) as nat), hex_digit((c as u32 % 16) as nat)]
    } else {
        seq![c]
    }
}

/// The characters of a text, escaped.
pub open spec fn escaped(s: Seq<char>) -> Seq<char>
    decreases s.len(),
{
    if s.len() == 0 {
        Seq::empty()
    } else {
        escaped(s.drop_last()) + escape_char(s.last())
    }
}

/// A text as a JSON string.
pub open spec fn quoted(s: Seq<char>) -> Seq<char> {
    seq!['"'] + escaped(s) + seq!['"']
}

/// The position at which `key` goes among the keys already placed in `order`: after every
/// key that is not greater.
pub open spec fn insert_position(order: Seq<int>, keys: Seq<Seq<char>>, key: Seq<char>, j: int) -> int
    decreases order.len() - j,
{
    if j >= order.len() {
        order.len() as int
    } else if 0 <= order[j] < keys.len() && seq_lt(key, keys[order[j]]) {
        j
    } else {
        insert_position(order, keys, key, j + 1)
    }
}

/// The indices of the first `n` keys, in key order (equal keys keep their order).
pub open spec fn key_order(keys: Seq<Seq<char>>, n: nat) -> Seq<int>
    decreases n,
{
    if n == 0 {
        Seq::empty()
    } else {
        let order = key_order(keys, (n - 1) as nat);
        order.insert(insert_position(order, keys, keys[n - 1], 0), n - 1)
    }
}

/// The keys of the members.
pub open spec fn keys_of_members(members: Seq<(String, JsonValue)>) -> Seq<Seq<char>> {
    members.map_values(|m: (String, JsonValue)| m.0@)
}

/// The canonical text of a value.
pub open spec fn json_text(v: JsonValue) -> Seq<char>
    decreases v, 0nat,
{
    match v {
        JsonValue::Null => "null"@,
        JsonValue::Bool(b) => if b { "true"@ } else { "false"@ },
        JsonValue::PosInt(n) => decimal(n as nat),
        JsonValue::NegInt(n) => if n < 0 { seq!['-'] + decimal((-n) as nat) } else { decimal(n as nat) },
        JsonValue::Str(s) => quoted(s@),
        JsonValue::Array(items) => seq!['['] + items_text(items@) + seq![']'],
        JsonValue::Object(members) => seq!['{'] + members_text(
            members@,
            key_order(keys_of_members(members@), members@.len()),
        ) + seq!['}'],
    }
}

/// The canonical texts of the items, separated by commas.
pub open spec fn items_text(items: Seq<JsonValue>) -> Seq<char>
    decreases items, 0nat,
{
    if items.len() == 0 {
        Seq::empty()
    } else if items.len() == 1 {
        json_text(items[0])
    } else {
        items_text(items.drop_last()) + seq![','] + json_text(items.last())
    }
}

/// The members at the positions of `order`, each as its key, a colon and its value,
/// separated by commas.
pub open spec fn members_text(members: Seq<(String, JsonValue)>, order: Seq<int>) -> Seq<char>
    decreases members, order.len(),
{
    if order.len() == 0 {
        Seq::empty()
    } else {
        let i = order.last();
        let member = if 0 <= i < members.len() {
            quoted(members[i].0@) + seq![':'] + json_text(members[i].1)
        } else {
            Seq::empty()
        };
        if order.len() == 1 {
            member
        } else {
            members_text(members, order.drop_last()) + seq![','] + member
        }
    }
}

/// The error type of `serde_json`.
#[verifier::external_type_specification]
#[verifier::external_body]
pub struct ExJsonError(serde_json::Error);

/// Calls `serde_json::to_string` on a string. Claimed: the result is the text as a JSON
/// string, as `quoted` states it (quotes around; a quote, a backslash and the control
/// characters escaped, `\b`, `\t`, `\n`, `\f`, `\r` by their short escapes and the others
/// as `\u00` and two lower-case hex digits; every other character as it is), and the call
/// succeeds: its documentation names as the only causes of failure a `Serialize` impl that
/// decides to fail and a map with non-string keys, and a `str` is written by
/// `serialize_str` into a `Vec`.
#[verifier::external_body]
fn json_string(s: &str) -> (r: Result<String, serde_json::Error>)
    ensures
        r is Ok,
        r->Ok_0@ == quoted(s@),
{
    serde_json::to_string(s)
}

/// Append the text as a JSON string.
fn append_quoted(s: &str, out: &mut String)
    ensures
        final(out)@ == old(out)@ + quoted(s@),
{
    match json_string(s) {
        Ok(t) => out.append(t.as_str()),
        Err(_) => {
            assert(false);
        },
    }
}

/// `n` written in decimal.
fn decimal_u64(n: u64) -> (r: String)
    ensures
        r@ == decimal(n as nat),
    decreases n,
{
    if n < 10 {
        String::from_str(digit_str(n as usize))
    } else {
        let mut r = decimal_u64(n / 10);
        r.append(digit_str((n % 10) as usize));
        r
    }
}

/// The indices of the members in key order.
fn member_key_order(members: &Vec<(String, JsonValue)>) -> (r: Vec<usize>)
    ensures
        r@.map_values(|i: usize| i as int) == key_order(keys_of_members(members@), members@.len()),
        forall|k: int| 0 <= k < r@.len() ==> (#[trigger] r@[k]) < members@.len(),
{
    let ghost keys = keys_of_members(members@);
    let mut out: Vec<usize> = Vec::new();
    let mut i: usize = 0;
    while i < members.len()
        invariant
            i <= members.len(),
            keys == keys_of_members(members@),
            out@.map_values(|x: usize| x as int) == key_order(keys, i as nat),
            forall|k: int| 0 <= k < out@.len() ==> (#[trigger] out@[k]) < i,
        decreases members.len() - i,
    {
        let ghost order = key_order(keys, i as nat);
        let key = members[i].0.as_str();
        let mut j: usize = 0;
        while j < out.len() && !str_lt(key, members[out[j]].0.as_str())
            invariant
                j <= out.len(),
                i < members.len(),
                key@ == keys[i as int],
                keys == keys_of_members(members@),
                out@.map_values(|x: usize| x as int) == order,
                forall|k: int| 0 <= k < out@.len() ==> (#[trigger] out@[k]) < i,
                insert_position(order, keys, keys[i as int], 0) == insert_position(order, keys, keys[i as int], j as int),
            decreases out.len() - j,
        {
            proof {
                assert(order[j as int] == out@[j as int] as int);
                assert(keys[out@[j as int] as int] == members@[out@[j as int] as int].0@);
            }
            j = j + 1;
        }
        proof {
            if j < out.len() {
                assert(order[j as int] == out@[j as int] as int);
                assert(keys[out@[j as int] as int] == members@[out@[j as int] as int].0@);
            }
            assert(insert_position(order, keys, keys[i as int], j as int) == j);
            assert(keys[i as int] == members@[i as int].0@);
        }
        let ghost before = out@;
        out.insert(j, i);
        proof {
            assert(out@.map_values(|x: usize| x as int) =~= order.insert(j as int, i as int));
            assert(key_order(keys, (i + 1) as nat) == order.insert(insert_position(order, keys, keys[i as int], 0), i as int));
            assert forall|k: int| 0 <= k < out@.len() implies (#[trigger] out@[k]) < i + 1 by {
                if k < j {
                    assert(out@[k] == before[k]);
                } else if k > j {
                    assert(out@[k] == before[k - 1]);
                }
            }
        }
        i = i + 1;
    }
    out
}

/// Append the canonical text of the value.
fn write_json(v: &JsonValue, out: &mut String)
    ensures
        final(out)@ == old(out)@ + json_text(*v),
    decreases v,
{
    proof {
        reveal_strlit("null");
        reveal_strlit("true");
        reveal_strlit("false");
        reveal_strlit("-");
        reveal_strlit("[");
        reveal_strlit("]");
        reveal_strlit("{");
        reveal_strlit("}");
        reveal_strlit(",");
        reveal_strlit(":");
    }
    match v {
        JsonValue::Null => out.append("null"),
        JsonValue::Bool(b) => {
            if *b {
                out.append("true")
            } else {
                out.append("false")
            }
        },
        JsonValue::PosInt(n) => {
            let d = decimal_u64(*n);
            out.append(d.as_str());
        },
        JsonValue::NegInt(n) => {
            if *n < 0 {
                let magnitude: u64 = ((-(*n + 1)) as u64) + 1;
                assert(magnitude == -(*n));
                out.append("-");
                let d = decimal_u64(magnitude);
                out.append(d.as_str());
            } else {
                let d = decimal_u64(*n as u64);
                out.append(d.as_str());
            }
            assert(out@ =~= old(out)@ + json_text(*v));
        },
        JsonValue::Str(text) => append_quoted(text.as_str(), out),
        JsonValue::Array(items) => {
            out.append("[");
            let mut i: usize = 0;
            while i < items.len()
                invariant
                    i <= items.len(),
                    *v == JsonValue::Array(*items),
                    out@ == old(out)@ + seq!['['] + items_text(items@.take(i as int)),
                decreases items.len() - i,
            {
                let ghost t = items@.take(i as int);
                let ghost t1 = items@.take(i + 1);
                let ghost mid = out@;
                proof {
                    assert(t1.drop_last() =~= t);
                    assert(t1.last() == items@[i as int]);
                    reveal_strlit(",");
                    assert(","@ =~= seq![',']);
                    assert(decreases_to!(*v => (*v)->Array_0));
                    assert(decreases_to!((*v)->Array_0 => (*v)->Array_0@));
                    assert(decreases_to!((*v)->Array_0@ => (*v)->Array_0@[i as int]));
                }
                if i > 0 {
                    out.append(",");
                }
                let ghost mid2 = out@;
                write_json(&items[i], out);
                proof {
                    if i == 0 {
                        assert(t1.len() == 1);
                        assert(t1[0] == items@[0]);
                        assert(t =~= Seq::<JsonValue>::empty());
                        assert(items_text(t1) == json_text(items@[0]));
                        assert(out@ =~= old(out)@ + seq!['['] + items_text(t1));
                    } else {
                        assert(items_text(t1) == items_text(t) + seq![','] + json_text(items@[i as int]));
                        assert(out@ =~= old(out)@ + seq!['['] + items_text(t1));
                    }
                }
                i = i + 1;
            }
            proof {
                assert(items@.take(i as int) =~= items@);
            }
            out.append("]");
            assert(out@ =~= old(out)@ + json_text(*v));
        },
        JsonValue::Object(members) => {
            let order = member_key_order(members);
            let ghost ord = order@.map_values(|x: usize| x as int);
            out.append("{");
            let mut k: usize = 0;
            while k < order.len()
                invariant
                    k <= order.len(),
                    *v == JsonValue::Object(*members),
                    ord == order@.map_values(|x: usize| x as int),
                    ord == key_order(keys_of_members(members@), members@.len()),
                    forall|j: int| 0 <= j < order@.len() ==> (#[trigger] order@[j]) < members@.len(),
                    out@ == old(out)@ + seq!['{'] + members_text(members@, ord.take(k as int)),
                decreases order.len() - k,
            {
                let ghost t = ord.take(k as int);
                let ghost t1 = ord.take(k + 1);
                proof {
                    assert(t1.drop_last() =~= t);
                    assert(t1.last() == order@[k as int] as int);
                    reveal_strlit(",");
                    reveal_strlit(":");
                    assert(","@ =~= seq![',']);
                    assert(":"@ =~= seq![':']);
                }
                if k > 0 {
                    out.append(",");
                }
                let idx = order[k];
                let member = &members[idx];
                proof {
                    assert(decreases_to!(*v => (*v)->Object_0));
                    assert(decreases_to!((*v)->Object_0 => (*v)->Object_0@));
                    assert(decreases_to!((*v)->Object_0@ => (*v)->Object_0@[idx as int]));
                    assert(decreases_to!((*v)->Object_0@[idx as int] => (*v)->Object_0@[idx as int].1));
                }
                let ghost before_member = out@;
                append_quoted(member.0.as_str(), out);
                out.append(":");
                write_json(&member.1, out);
                proof {
                    let m = quoted(members@[idx as int].0@) + seq![':'] + json_text(members@[idx as int].1);
                    assert(out@ =~= before_member + m);
                    if k == 0 {
                        assert(t =~= Seq::<int>::empty());
                        assert(members_text(members@, t1) == m);
                    } else {
                        assert(members_text(members@, t1) == members_text(members@, t) + seq![','] + m);
                    }
                    assert(out@ =~= old(out)@ + seq!['{'] + members_text(members@, t1));
                }
                k = k + 1;
            }
            proof {
                assert(ord.take(k as int) =~= ord);
            }
            out.append("}");
            assert(out@ =~= old(out)@ + json_text(*v));
        },
    }
}

/// The canonical text of the value, as UTF-8 bytes.
pub open spec fn canonical_bytes(v: JsonValue) -> Seq<u8> {
    vstd::utf8::encode_utf8(json_text(v))
}

/// The canonical text of the value.
pub fn canonical_text(v: &JsonValue) -> (r: String)
    ensures
        r@ == json_text(*v),
{
    let mut out = String::new();
    write_json(v, &mut out);
    assert(out@ =~= json_text(*v));
    out
}

proof fn lemma_insert_position(order: Seq<int>, keys: Seq<Seq<char>>, key: Seq<char>, j: int)
    requires
        0 <= j <= order.len(),
        forall|m: int| 0 <= m < order.len() ==> 0 <= #[trigger] order[m] < keys.len(),
    ensures
        j <= insert_position(order, keys, key, j) <= order.len(),
        forall|m: int| j <= m < insert_position(order, keys, key, j) ==> !seq_lt(key, keys[#[trigger] order[m]]),
        insert_position(order, keys, key, j) < order.len() ==> seq_lt(
            key,
            keys[order[insert_position(order, keys, key, j)]],
        ),
    decreases order.len() - j,
{
    if j < order.len() && !seq_lt(key, keys[order[j]]) {
        lemma_insert_position(order, keys, key, j + 1);
    }
}

/// The key order of the members is a reordering of all of them in which no key comes
/// after a greater one: the canonical text lists the members of an object by key.
pub proof fn law_key_order_sorts(keys: Seq<Seq<char>>, n: nat)
    requires
        n <= keys.len(),
    ensures
        key_order(keys, n).len() == n,
        key_order(keys, n).no_duplicates(),
        forall|j: int| 0 <= j < n ==> 0 <= #[trigger] key_order(keys, n)[j] < n,
        forall|a: int, b: int|
            0 <= a < b < n ==> !seq_lt(keys[#[trigger] key_order(keys, n)[b]], keys[#[trigger] key_order(keys, n)[a]]),
    decreases n,
{
    if n > 0 {
        let m = (n - 1) as nat;
        law_key_order_sorts(keys, m);
        let o = key_order(keys, m);
        let k = keys[m as int];
        let p = insert_position(o, keys, k, 0);
        lemma_insert_position(o, keys, k, 0);
        let r = o.insert(p, m as int);
        assert(key_order(keys, n) == r);
        assert forall|j: int| 0 <= j < n implies 0 <= #[trigger] r[j] < n by {
            if j < p {
                assert(r[j] == o[j]);
            } else if j > p {
                assert(r[j] == o[j - 1]);
            }
        }
        assert(r.no_duplicates()) by {
            assert forall|a: int, b: int| 0 <= a < r.len() && 0 <= b < r.len() && a != b implies r[a] != r[b] by {
                let oa = if a < p { a } else { a - 1 };
                let ob = if b < p { b } else { b - 1 };
                if a != p && b != p {
                    assert(r[a] == o[oa] && r[b] == o[ob]);
                    assert(oa != ob);
                } else if a == p {
                    assert(r[b] == o[ob]);
                } else {
                    assert(r[a] == o[oa]);
                }
            }
        }
        assert forall|a: int, b: int| 0 <= a < b < n implies !seq_lt(keys[#[trigger] r[b]], keys[#[trigger] r[a]]) by {
            if b < p {
                assert(r[a] == o[a] && r[b] == o[b]);
            } else if b == p {
                assert(r[a] == o[a]);
                assert(r[b] == m);
            } else if a < p {
                assert(r[a] == o[a] && r[b] == o[b - 1]);
            } else if a == p {
                assert(r[a] == m);
                assert(r[b] == o[b - 1]);
                // key < keys[o[p]] <= keys[o[b - 1]]
                if seq_lt(keys[o[b - 1]], k) {
                    if b - 1 == p {
                        lemma_lt_trans(keys[o[b - 1]], k, keys[o[p]]);
                        crate::text::lemma_lt_total(keys[o[p]], keys[o[p]]);
                    } else {
                        lemma_lt_trans(keys[o[b - 1]], k, keys[o[p]]);
                    }
                }
            } else {
                assert(r[a] == o[a - 1] && r[b] == o[b - 1]);
            }
        }
    }
}

} // verus!

