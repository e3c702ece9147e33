//! Rendering a JSON value to wire text. The spec functions state the exact
//! text; the writer is proved to produce it.
use vstd::prelude::*;

verus! {

use vstd::string::{StrSliceExecFns, StringExecFns};
use crate::json::{Json, JsonField};

/// The hexadecimal digit for `d`.
pub open spec fn hex_char_spec(d: int) -> char {
    if d == 0 {
        '0'
    } else if d == 1 {
        '1'
    } else if d == 2 {
        '2'
    } else if d == 3 {
        '3'
    } else if d == 4 {
        '4'
    } else if d == 5 {
        '5'
    } else if d == 6 {
        '6'
    } else if d == 7 {
        '7'
    } else if d == 8 {
        '8'
    } else if d == 9 {
        '9'
    } else if d == 10 {
        'a'
    } else if d == 11 {
        'b'
    } else if d == 12 {
        'c'
    } else if d == 13 {
        'd'
    } else if d == 14 {
        'e'
    } else {
        'f'
    }
}

/// The hexadecimal digit for `d`.
fn hex_char(d: u32) -> (r: char)
    requires
        d < 16,
    ensures
        r == hex_char_spec(d as int),
{
    if d == 0 {
        '0'
    } else if d == 1 {
        '1'
    } else if d == 2 {
        '2'
    } else if d == 3 {
        '3'
    } else if d == 4 {
        '4'
    } else if d == 5 {
        '5'
    } else if d == 6 {
        '6'
    } else if d == 7 {
        '7'
    } else if d == 8 {
        '8'
    } else if d == 9 {
        '9'
    } else if d == 10 {
        'a'
    } else if d == 11 {
        'b'
    } else if d == 12 {
        'c'
    } else if d == 13 {
        'd'
    } else if d == 14 {
        'e'
    } else {
        'f'
    }
}

/// What one character of a string becomes in its wire form: quotes and
/// backslashes escaped, control characters as a hexadecimal escape, anything
/// else itself.
pub open spec fn esc(c: char) -> Seq<char> {
    if c == '"' {
        seq!['\\', '"']
    } else if c == '\\' {
        seq!['\\', '\\']
    } else if (c as u32) < 32 {
        seq!['\\', 'u', '0', '0', hex_char_spec(c as u32 as int / 16), hex_char_spec(
            c as u32 as int % 16,
        )]
    } else {
        seq![c]
    }
}

/// The wire form of the first `n` characters of a string body.
pub open spec fn esc_str(s: Seq<char>, n: int) -> Seq<char>
    decreases n,
{
    if n <= 0 {
        Seq::empty()
    } else {
        esc_str(s, n - 1) + esc(s[n - 1])
    }
}

/// The wire text of a JSON value: object fields in held order, strings
/// escaped, numbers by their literal text.
pub open spec fn jser(j: Json) -> Seq<char>
    decreases j, 0int, 0int,
{
    match j {
        Json::Null => "null"@,
        Json::Bool(b) => if b {
            "true"@
        } else {
            "false"@
        },
        Json::Num(n) => n@,
        Json::Str(s) => seq!['"'] + esc_str(s@, s@.len() as int) + seq!['"'],
        Json::Arr(items) => seq!['['] + jser_items(items@, items@.len() as int) + seq![']'],
        Json::Obj(fields) => seq!['{'] + jser_fields(fields@, fields@.len() as int) + seq!['}'],
    }
}

/// The wire text of the first `n` array elements, comma-separated.
pub open spec fn jser_items(xs: Seq<Json>, n: int) -> Seq<char>
    decreases xs, 1int, n,
        when n <= xs.len()
{
    if n <= 0 {
        Seq::empty()
    } else if n == 1 {
        jser(xs[0])
    } else {
        jser_items(xs, n - 1) + seq![','] + jser(xs[n - 1])
    }
}

/// The wire text of one object field.
pub open spec fn jser_field(f: JsonField) -> Seq<char>
    decreases f, 1int, 0int,
{
    seq!['"'] + esc_str(f.key@, f.key@.len() as int) + seq!['"', ':'] + jser(f.value)
}

/// The wire text of the first `n` object fields, comma-separated.
pub open spec fn jser_fields(fs: Seq<JsonField>, n: int) -> Seq<char>
    decreases fs, 2int, n,
        when n <= fs.len()
{
    if n <= 0 {
        Seq::empty()
    } else if n == 1 {
        jser_field(fs[0])
    } else {
        jser_fields(fs, n - 1) + seq![','] + jser_field(fs[n - 1])
    }
}

/// Relies on String::push: appends exactly the one character.
#[verifier::external_body]
fn push_char(out: &mut String, c: char)
    ensures
        final(out)@ == old(out)@ + seq![c],
{
    out.push(c);
}

/// Appends the wire form of a string body: every character escaped as `esc`
/// says.
#[verifier::loop_isolation(false)]
fn write_escaped(s: &str, out: &mut String)
    ensures
        final(out)@ == old(out)@ + esc_str(s@, s@.len() as int),
{
    let n = s.unicode_len();
    let mut i: usize = 0;
    while i < n
        invariant
            i <= n == s@.len(),
            out@ == old(out)@ + esc_str(s@, i as int),
        decreases n - i,
    {
        let c = s.get_char(i);
        if c == '"' {
            out.append("\\\"");
            proof {
                reveal_strlit("\\\"");
                assert(out@ =~= old(out)@ + esc_str(s@, i as int + 1));
            }
        } else if c == '\\' {
            out.append("\\\\");
            proof {
                reveal_strlit("\\\\");
                assert(out@ =~= old(out)@ + esc_str(s@, i as int + 1));
            }
        } else if (c as u32) < 32 {
            out.append("\\u00");
            let hi = hex_char((c as u32) / 16);
            let lo = hex_char((c as u32) % 16);
            push_char(out, hi);
            push_char(out, lo);
            proof {
                reveal_strlit("\\u00");
                assert(out@ =~= old(out)@ + esc_str(s@, i as int + 1));
            }
        } else {
            push_char(out, c);
            proof {
                assert(out@ =~= old(out)@ + esc_str(s@, i as int + 1));
            }
        }
        i += 1;
    }
}

impl Json {
    /// Appends this value's wire text to `out`.
    #[verifier::loop_isolation(false)]
    pub fn write(&self, out: &mut String)
        ensures
            final(out)@ == old(out)@ + jser(*self),
        decreases *self,
    {
        match self {
            Json::Null => {
                out.append("null");
            }
            Json::Bool(b) => {
                if *b {
                    out.append("true");
                } else {
                    out.append("false");
                }
            }
            Json::Num(n) => {
                out.append(n.as_str());
            }
            Json::Str(s) => {
                push_char(out, '"');
                write_escaped(s.as_str(), out);
                push_char(out, '"');
                proof {
                    assert(out@ =~= old(out)@ + jser(*self));
                }
            }
            Json::Arr(items) => {
                push_char(out, '[');
                let mut k: usize = 0;
                while k < items.len()
                    invariant
                        k <= items@.len(),
                        out@ == old(out)@ + seq!['['] + jser_items(items@, k as int),
                    decreases items@.len() - k,
                {
                    if k > 0 {
                        push_char(out, ',');
                    }
                    proof {
                        assert(*items == self->Arr_0);
                        assert(decreases_to!(*self => self->Arr_0));
                        assert(decreases_to!(*items => items@[k as int]));
                    }
                    items[k].write(out);
                    proof {
                        assert(out@ =~= old(out)@ + seq!['['] + jser_items(items@, k as int + 1));
                    }
                    k += 1;
                }
                push_char(out, ']');
                proof {
                    assert(out@ =~= old(out)@ + jser(*self));
                }
            }
            Json::Obj(fields) => {
                push_char(out, '{');
                let mut k: usize = 0;
                while k < fields.len()
                    invariant
                        k <= fields@.len(),
                        out@ == old(out)@ + seq!['{'] + jser_fields(fields@, k as int),
                    decreases fields@.len() - k,
                {
                    if k > 0 {
                        push_char(out, ',');
                    }
                    let f = &fields[k];
                    push_char(out, '"');
                    write_escaped(f.key.as_str(), out);
                    push_char(out, '"');
                    push_char(out, ':');
                    proof {
                        assert(*fields == self->Obj_0);
                        assert(decreases_to!(*self => self->Obj_0));
                        assert(decreases_to!(*fields => fields@[k as int]));
                        assert(decreases_to!(fields@[k as int] => fields@[k as int].value));
                    }
                    f.value.write(out);
                    proof {
                        let fval = fields@[k as int];
                        assert(jser_field(fval) == seq!['"'] + esc_str(
                            fval.key@,
                            fval.key@.len() as int,
                        ) + seq!['"', ':'] + jser(fval.value));
                        assert(out@ =~= old(out)@ + seq!['{'] + jser_fields(fields@, k as int + 1));
                    }
                    k += 1;
                }
                push_char(out, '}');
                proof {
                    assert(out@ =~= old(out)@ + jser(*self));
                }
            }
        }
    }

    /// This value's wire text.
    pub fn to_text(&self) -> (r: String)
        ensures
            r@ == jser(*self),
    {
        let mut out = String::new();
        self.write(&mut out);
        proof {
            assert(out@ =~= jser(*self));
        }
        out
    }
}

} // verus!
