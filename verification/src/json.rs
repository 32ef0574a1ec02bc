//! The opaque structured payload carried inside an envelope: a tree of
//! objects, arrays and scalars, with key lookup and JSON string quoting.

use vstd::prelude::*;
use crate::strutil::{str_eq, dec_digit_char};

verus! {

/// A structured payload value. An object keeps its entries in insertion
/// order; a lookup returns the first entry with the requested key.
pub enum Json {
    Null,
    Bool(bool),
    Int(i64),
    Str(String),
    Arr(Vec<Json>),
    Obj(Vec<(String, Json)>),
}

/// The position of the first entry of `entries` whose key reads as `key`.
pub open spec fn obj_key_index(entries: Seq<(String, Json)>, key: Seq<char>) -> Option<int>
    decreases entries.len(),
{
    if entries.len() == 0 {
        None
    } else if entries[0].0@ == key {
        Some(0int)
    } else {
        match obj_key_index(entries.drop_first(), key) {
            Some(i) => Some(i + 1),
            None => None,
        }
    }
}

/// The first entry of `entries` whose key reads as `key`, if any.
pub open spec fn obj_lookup(entries: Seq<(String, Json)>, key: Seq<char>) -> Option<Json> {
    match obj_key_index(entries, key) {
        Some(i) => Some(entries[i].1),
        None => None,
    }
}

/// The found index always points at a matching entry, and a missing key
/// means no entry matches.
pub proof fn lemma_obj_key_index(entries: Seq<(String, Json)>, key: Seq<char>)
    ensures
        match obj_key_index(entries, key) {
            Some(i) => 0 <= i < entries.len() && entries[i].0@ == key && forall|k: int|
                0 <= k < i ==> entries[k].0@ != key,
            None => forall|k: int| 0 <= k < entries.len() ==> entries[k].0@ != key,
        },
    decreases entries.len(),
{
    if entries.len() > 0 && entries[0].0@ != key {
        let rest = entries.drop_first();
        lemma_obj_key_index(rest, key);
        assert(forall|k: int| 0 <= k < rest.len() ==> rest[k] == entries[k + 1]);
        match obj_key_index(rest, key) {
            Some(i) => {
                assert(entries[i + 1].0@ == key);
                assert forall|k: int| 0 <= k < i + 1 implies entries[k].0@ != key by {
                    if k > 0 {
                        assert(rest[k - 1].0@ != key);
                    }
                }
            },
            None => {
                assert forall|k: int| 0 <= k < entries.len() implies entries[k].0@ != key by {
                    if k > 0 {
                        assert(rest[k - 1].0@ != key);
                    }
                }
            },
        }
    }
}

/// The value at `key` when `j` is an object holding that key.
pub open spec fn json_get(j: Json, key: Seq<char>) -> Option<Json> {
    match j {
        Json::Obj(entries) => obj_lookup(entries@, key),
        _ => None,
    }
}

/// Looks `key` up in `j`; `None` when `j` is not an object or lacks the key.
pub fn obj_get<'a>(j: &'a Json, key: &str) -> (r: Option<&'a Json>)
    ensures
        match r {
            Some(v) => json_get(*j, key@) == Some(*v),
            None => json_get(*j, key@) is None,
        },
{
    match j {
        Json::Obj(entries) => {
            let n = entries.len();
            let mut i: usize = 0;
            while i < n
                invariant
                    *j is Obj,
                    j->Obj_0 == *entries,
                    n == entries@.len(),
                    i <= n,
                    forall|k: int| 0 <= k < i ==> entries@[k].0@ != key@,
                decreases n - i,
            {
                let e = &entries[i];
                if str_eq(e.0.as_str(), key) {
                    proof {
                        lemma_obj_key_index(entries@, key@);
                        assert(entries@[i as int].0@ == key@);
                        match obj_key_index(entries@, key@) {
                            Some(m) => {
                                if m < i as int {
                                    assert(entries@[m].0@ != key@);
                                } else if m > i as int {
                                    assert(entries@[i as int].0@ != key@);
                                }
                                assert(m == i as int);
                            },
                            None => {
                                assert(entries@[i as int].0@ != key@);
                            },
                        }
                        assert(obj_lookup(entries@, key@) == Some(entries@[i as int].1));
                        assert(json_get(*j, key@) == Some(e.1));
                    }
                    return Some(&e.1);
                }
                i += 1;
            }
            proof {
                lemma_obj_key_index(entries@, key@);
                match obj_key_index(entries@, key@) {
                    Some(m) => {
                        assert(entries@[m].0@ != key@);
                    },
                    None => {},
                }
                assert(obj_key_index(entries@, key@) is None);
            }
            None
        },
        _ => None,
    }
}

/// The string inside `j` when it is a string value.
pub fn json_as_str<'a>(j: &'a Json) -> (r: Option<&'a String>)
    ensures
        match r {
            Some(s) => j matches Json::Str(v) && v@ == s@,
            None => !(j matches Json::Str(_)),
        },
{
    match j {
        Json::Str(s) => Some(s),
        _ => None,
    }
}

/// The lower-case hexadecimal digit character for one value below sixteen.
pub open spec fn hex_digit_char(n: int) -> char {
    if n < 10 {
        dec_digit_char(n)
    } else if n == 10 {
        'a'
    } else if n == 11 {
        'b'
    } else if n == 12 {
        'c'
    } else if n == 13 {
        'd'
    } else if n == 14 {
        'e'
    } else {
        'f'
    }
}

/// One lower-case hexadecimal digit as a string slice.
pub fn hex_digit_str(d: u64) -> (r: &'static str)
    requires
        d < 16,
    ensures
        r@ == seq![hex_digit_char(d as int)],
{
    if d < 10 {
        crate::strutil::digit_str(d)
    } else if d == 10 {
        proof {
            reveal_strlit("a");
            assert("a"@ =~= seq![hex_digit_char(10)]);
        }
        "a"
    } else if d == 11 {
        proof {
            reveal_strlit("b");
            assert("b"@ =~= seq![hex_digit_char(11)]);
        }
        "b"
    } else if d == 12 {
        proof {
            reveal_strlit("c");
            assert("c"@ =~= seq![hex_digit_char(12)]);
        }
        "c"
    } else if d == 13 {
        proof {
            reveal_strlit("d");
            assert("d"@ =~= seq![hex_digit_char(13)]);
        }
        "d"
    } else if d == 14 {
        proof {
            reveal_strlit("e");
            assert("e"@ =~= seq![hex_digit_char(14)]);
        }
        "e"
    } else {
        proof {
            reveal_strlit("f");
            assert("f"@ =~= seq![hex_digit_char(15)]);
        }
        "f"
    }
}

/// The JSON escape of one character inside a quoted string.
pub open spec fn esc_char(c: char) -> Seq<char> {
    if c == '"' {
        seq!['\\', '"']
    } else if c == '\\' {
        seq!['\\', '\\']
    } else if c == '\n' {
        seq!['\\', 'n']
    } else if c == '\r' {
        seq!['\\', 'r']
    } else if c == '\t' {
        seq!['\\', 't']
    } else if (c as u32) < 32 {
        seq!['\\', 'u', '0', '0'] + seq![
            hex_digit_char((c as u32) as int / 16),
            hex_digit_char((c as u32) as int % 16),
        ]
    } else {
        seq![c]
    }
}

/// The escapes of the first `n` characters of `s`, concatenated.
pub open spec fn esc_upto(s: Seq<char>, n: int) -> Seq<char>
    decreases n,
{
    if n <= 0 {
        Seq::empty()
    } else {
        esc_upto(s, n - 1) + esc_char(s[n - 1])
    }
}

/// A JSON string literal: the escaped characters between double quotes.
pub open spec fn quoted(s: Seq<char>) -> Seq<char> {
    seq!['"'] + esc_upto(s, s.len() as int) + seq!['"']
}

/// Renders `s` as a JSON string literal.
pub fn json_quote(s: &str) -> (r: String)
    ensures
        r@ == quoted(s@),
{
    let n = s.unicode_len();
    let mut out = String::new();
    proof {
        reveal_strlit("\"");
    }
    out.append("\"");
    let mut i: usize = 0;
    while i < n
        invariant
            n == s@.len(),
            i <= n,
            out@ == seq!['"'] + esc_upto(s@, i as int),
        decreases n - i,
    {
        let c = s.get_char(i);
        if c == '"' {
            proof {
                reveal_strlit("\\\"");
                assert("\\\""@ =~= esc_char('"'));
            }
            out.append("\\\"");
            proof {
                assert(out@ =~= seq!['"'] + esc_upto(s@, i as int + 1));
            }
        } else if c == '\\' {
            proof {
                reveal_strlit("\\\\");
                assert("\\\\"@ =~= esc_char('\\'));
            }
            out.append("\\\\");
            proof {
                assert(out@ =~= seq!['"'] + esc_upto(s@, i as int + 1));
            }
        } else if c == '\n' {
            proof {
                reveal_strlit("\\n");
                assert("\\n"@ =~= esc_char('\n'));
            }
            out.append("\\n");
            proof {
                assert(out@ =~= seq!['"'] + esc_upto(s@, i as int + 1));
            }
        } else if c == '\r' {
            proof {
                reveal_strlit("\\r");
                assert("\\r"@ =~= esc_char('\r'));
            }
            out.append("\\r");
            proof {
                assert(out@ =~= seq!['"'] + esc_upto(s@, i as int + 1));
            }
        } else if c == '\t' {
            proof {
                reveal_strlit("\\t");
                assert("\\t"@ =~= esc_char('\t'));
            }
            out.append("\\t");
            proof {
                assert(out@ =~= seq!['"'] + esc_upto(s@, i as int + 1));
            }
        } else if (c as u32) < 32 {
            proof {
                reveal_strlit("\\u00");
            }
            out.append("\\u00");
            let v = c as u32;
            out.append(hex_digit_str((v / 16) as u64));
            out.append(hex_digit_str((v % 16) as u64));
            proof {
                assert(out@ =~= seq!['"'] + esc_upto(s@, i as int + 1));
            }
        } else {
            out.append(s.substring_char(i, i + 1));
            proof {
                assert(s@.subrange(i as int, i as int + 1) =~= seq![s@[i as int]]);
                assert(out@ =~= seq!['"'] + esc_upto(s@, i as int + 1));
            }
        }
        i += 1;
    }
    out.append("\"");
    proof {
        assert(out@ =~= quoted(s@));
    }
    out
}

} // verus!
