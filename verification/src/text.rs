//! The JSON grammar: what a well-formed export document looks like, and the
//! decoder that reads one.
//!
//! The grammar is stated as spec functions over the character sequence; the
//! executable decoder returns exactly what the grammar says, or the position
//! of the first offending character.

use vstd::prelude::*;

use crate::value::{arr_v, entries_v, json_v, lemma_arr_v, lemma_entries_v, vec_v, obj_v, Json, JsonV};

verus! {

broadcast use vstd::utf8::char_u32_cast;

/// A character is JSON whitespace.
pub open spec fn is_ws(c: char) -> bool {
    c == ' ' || c == '\t' || c == '\n' || c == '\r'
}

/// A decimal digit.
pub open spec fn is_digit(c: char) -> bool {
    48 <= c as u32 <= 57
}

/// A hexadecimal digit.
pub open spec fn is_hex(c: char) -> bool {
    is_digit(c) || 97 <= c as u32 <= 102 || 65 <= c as u32 <= 70
}

/// The numeric value of a hexadecimal digit.
pub open spec fn hex_val(c: char) -> int {
    if is_digit(c) {
        c as u32 - 48
    } else if 97 <= c as u32 {
        c as u32 - 87
    } else {
        c as u32 - 55
    }
}

/// The position of the first non-whitespace character at or after `i`.
pub open spec fn sp_ws(s: Seq<char>, i: int) -> int
    decreases s.len() - i,
{
    if 0 <= i < s.len() && is_ws(s[i]) {
        sp_ws(s, i + 1)
    } else {
        i
    }
}

/// A character that may follow a backslash, other than `u`.
pub open spec fn is_simple_escape(c: char) -> bool {
    c == '"' || c == '\\' || c == '/' || c == 'b' || c == 'f' || c == 'n' || c == 'r' || c == 't'
}

/// The character denoted by a simple escape.
pub open spec fn simple_escape(c: char) -> char {
    if c == '"' {
        '"'
    } else if c == '\\' {
        '\\'
    } else if c == '/' {
        '/'
    } else if c == 'b' {
        '\u{8}'
    } else if c == 'f' {
        '\u{c}'
    } else if c == 'n' {
        '\n'
    } else if c == 'r' {
        '\r'
    } else {
        '\t'
    }
}

/// Four hexadecimal digits start at `i`.
pub open spec fn hex4_ok(s: Seq<char>, i: int) -> bool {
    &&& i + 4 <= s.len()
    &&& is_hex(s[i])
    &&& is_hex(s[i + 1])
    &&& is_hex(s[i + 2])
    &&& is_hex(s[i + 3])
}

/// The value of the four hexadecimal digits starting at `i`.
pub open spec fn hex4_val(s: Seq<char>, i: int) -> int {
    hex_val(s[i]) * 4096 + hex_val(s[i + 1]) * 256 + hex_val(s[i + 2]) * 16 + hex_val(s[i + 3])
}

/// A `\u` escape whose first hexadecimal digit stands at `i`: either one
/// scalar, or a surrogate pair spelled as two adjacent `\u` escapes.
pub open spec fn sp_unicode(s: Seq<char>, i: int) -> Result<(char, int), int> {
    if !hex4_ok(s, i) {
        Result::Err(i)
    } else {
        let v = hex4_val(s, i);
        if 0xD800 <= v < 0xDC00 {
            if i + 6 <= s.len() && s[i + 4] == '\\' && s[i + 5] == 'u' && hex4_ok(s, i + 6) {
                let w = hex4_val(s, i + 6);
                if 0xDC00 <= w < 0xE000 {
                    Result::Ok(
                        (((0x10000 + (v - 0xD800) * 0x400 + (w - 0xDC00)) as u32) as char, i + 10),
                    )
                } else {
                    Result::Err(i + 6)
                }
            } else {
                Result::Err(i + 4)
            }
        } else if 0xDC00 <= v < 0xE000 {
            Result::Err(i)
        } else {
            Result::Ok(((v as u32) as char, i + 4))
        }
    }
}

/// The body of a string literal, read from just after the opening quote to
/// just after the closing one.
pub open spec fn sp_str_body(s: Seq<char>, i: int) -> Result<(Seq<char>, int), int>
    decreases s.len() - i,
{
    if !(0 <= i < s.len()) {
        Result::Err(s.len() as int)
    } else if s[i] == '"' {
        Result::Ok((Seq::empty(), i + 1))
    } else if s[i] == '\\' {
        if i + 1 >= s.len() {
            Result::Err(i + 1)
        } else if is_simple_escape(s[i + 1]) {
            match sp_str_body(s, i + 2) {
                Result::Ok((t, j)) => Result::Ok((seq![simple_escape(s[i + 1])] + t, j)),
                Result::Err(e) => Result::Err(e),
            }
        } else if s[i + 1] == 'u' {
            match sp_unicode(s, i + 2) {
                Result::Ok((c, j)) => {
                    if !(i + 2 < j <= s.len()) {
                        // unreachable: a `\u` escape always makes progress
                        Result::Err(i)
                    } else {
                        match sp_str_body(s, j) {
                            Result::Ok((t, k)) => Result::Ok((seq![c] + t, k)),
                            Result::Err(e) => Result::Err(e),
                        }
                    }
                },
                Result::Err(e) => Result::Err(e),
            }
        } else {
            Result::Err(i + 1)
        }
    } else if (s[i] as u32) < 32 {
        Result::Err(i)
    } else {
        match sp_str_body(s, i + 1) {
            Result::Ok((t, j)) => Result::Ok((seq![s[i]] + t, j)),
            Result::Err(e) => Result::Err(e),
        }
    }
}

/// The end of the digit run starting at `i`.
pub open spec fn sp_digits(s: Seq<char>, i: int) -> int
    decreases s.len() - i,
{
    if 0 <= i < s.len() && is_digit(s[i]) {
        sp_digits(s, i + 1)
    } else {
        i
    }
}

/// The end of an optional fraction part starting at `i`.
pub open spec fn sp_frac(s: Seq<char>, i: int) -> Result<int, int> {
    if 0 <= i < s.len() && s[i] == '.' {
        if i + 1 < s.len() && is_digit(s[i + 1]) {
            Result::Ok(sp_digits(s, i + 1))
        } else {
            Result::Err(i + 1)
        }
    } else {
        Result::Ok(i)
    }
}

/// The end of an optional exponent part starting at `i`.
pub open spec fn sp_exp(s: Seq<char>, i: int) -> Result<int, int> {
    if 0 <= i < s.len() && (s[i] == 'e' || s[i] == 'E') {
        let j = if i + 1 < s.len() && (s[i + 1] == '+' || s[i + 1] == '-') {
            i + 2
        } else {
            i + 1
        };
        if j < s.len() && is_digit(s[j]) {
            Result::Ok(sp_digits(s, j))
        } else {
            Result::Err(j)
        }
    } else {
        Result::Ok(i)
    }
}

/// A number token starting at `i`: its raw text and its end.
pub open spec fn sp_num(s: Seq<char>, i: int) -> Result<(Seq<char>, int), int> {
    let i1 = if 0 <= i < s.len() && s[i] == '-' {
        i + 1
    } else {
        i
    };
    if !(i1 < s.len() && is_digit(s[i1])) {
        Result::Err(i1)
    } else {
        let i2 = if s[i1] == '0' {
            i1 + 1
        } else {
            sp_digits(s, i1)
        };
        match sp_frac(s, i2) {
            Result::Err(e) => Result::Err(e),
            Result::Ok(i3) => match sp_exp(s, i3) {
                Result::Err(e) => Result::Err(e),
                Result::Ok(i4) => Result::Ok((s.subrange(i, i4), i4)),
            },
        }
    }
}

/// A JSON value whose first character stands at `i`; whitespace is consumed
/// by the caller.  `Err` carries the position of the offending character.
pub open spec fn sp_value(s: Seq<char>, i: int) -> Result<(JsonV, int), int>
    decreases s.len() - i, 0int,
{
    if !(0 <= i < s.len()) {
        Result::Err(s.len() as int)
    } else {
        let c = s[i];
        if c == 'n' {
            if s.len() - i >= 4 && s[i + 1] == 'u' && s[i + 2] == 'l' && s[i + 3] == 'l' {
                Result::Ok((JsonV::Null, i + 4))
            } else {
                Result::Err(i)
            }
        } else if c == 't' {
            if s.len() - i >= 4 && s[i + 1] == 'r' && s[i + 2] == 'u' && s[i + 3] == 'e' {
                Result::Ok((JsonV::Bool(true), i + 4))
            } else {
                Result::Err(i)
            }
        } else if c == 'f' {
            if i + 5 <= s.len() && s[i + 1] == 'a' && s[i + 2] == 'l' && s[i + 3] == 's' && s[i + 4]
                == 'e' {
                Result::Ok((JsonV::Bool(false), i + 5))
            } else {
                Result::Err(i)
            }
        } else if c == '"' {
            match sp_str_body(s, i + 1) {
                Result::Ok((t, j)) => Result::Ok((JsonV::Str(t), j)),
                Result::Err(e) => Result::Err(e),
            }
        } else if c == '-' || is_digit(c) {
            match sp_num(s, i) {
                Result::Ok((t, j)) => Result::Ok((JsonV::Num(t), j)),
                Result::Err(e) => Result::Err(e),
            }
        } else if c == '[' {
            let j = sp_ws(s, i + 1);
            if !(i + 1 <= j <= s.len()) {
                // unreachable: whitespace skipping stays inside the input
                Result::Err(i)
            } else if j < s.len() && s[j] == ']' {
                Result::Ok((JsonV::Arr(Seq::empty()), j + 1))
            } else {
                match sp_arr_items(s, j) {
                    Result::Ok((vs, k)) => Result::Ok((JsonV::Arr(vs), k)),
                    Result::Err(e) => Result::Err(e),
                }
            }
        } else if c == '{' {
            let j = sp_ws(s, i + 1);
            if !(i + 1 <= j <= s.len()) {
                // unreachable: whitespace skipping stays inside the input
                Result::Err(i)
            } else if j < s.len() && s[j] == '}' {
                Result::Ok((JsonV::Obj(Seq::empty()), j + 1))
            } else {
                match sp_obj_items(s, j) {
                    Result::Ok((es, k)) => Result::Ok((JsonV::Obj(es), k)),
                    Result::Err(e) => Result::Err(e),
                }
            }
        } else {
            Result::Err(i)
        }
    }
}

/// One or more comma-separated array items starting at `i`, up to and past
/// the closing bracket.
pub open spec fn sp_arr_items(s: Seq<char>, i: int) -> Result<(Seq<JsonV>, int), int>
    decreases s.len() - i, 1int,
{
    match sp_value(s, i) {
        Result::Err(e) => Result::Err(e),
        Result::Ok((v, j)) => {
            if !(i < j <= s.len()) {
                // unreachable: a value always makes progress
                Result::Err(i)
            } else {
                let k = sp_ws(s, j);
                if !(j <= k <= s.len()) {
                    // unreachable: whitespace skipping stays inside the input
                    Result::Err(i)
                } else if k < s.len() && s[k] == ',' {
                    let m = sp_ws(s, k + 1);
                    if !(k + 1 <= m <= s.len()) {
                        // unreachable: whitespace skipping stays inside the input
                        Result::Err(i)
                    } else {
                        match sp_arr_items(s, m) {
                            Result::Err(e) => Result::Err(e),
                            Result::Ok((vs, p)) => Result::Ok((seq![v] + vs, p)),
                        }
                    }
                } else if k < s.len() && s[k] == ']' {
                    Result::Ok((seq![v], k + 1))
                } else {
                    Result::Err(k)
                }
            }
        },
    }
}

/// One or more comma-separated object members starting at `i`, up to and
/// past the closing brace.
pub open spec fn sp_obj_items(s: Seq<char>, i: int) -> Result<(Seq<(Seq<char>, JsonV)>, int), int>
    decreases s.len() - i, 2int,
{
    if !(0 <= i < s.len() && s[i] == '"') {
        Result::Err(i)
    } else {
        match sp_str_body(s, i + 1) {
            Result::Err(e) => Result::Err(e),
            Result::Ok((key, j)) => {
                if !(i < j <= s.len()) {
                    // unreachable: a string body always makes progress
                    Result::Err(i)
                } else {
                    let k = sp_ws(s, j);
                    if !(j <= k <= s.len()) {
                        // unreachable: whitespace skipping stays inside the input
                        Result::Err(i)
                    } else if !(k < s.len() && s[k] == ':') {
                        Result::Err(k)
                    } else {
                        let m = sp_ws(s, k + 1);
                        if !(k + 1 <= m <= s.len()) {
                            // unreachable: whitespace skipping stays inside the input
                            Result::Err(i)
                        } else {
                            match sp_value(s, m) {
                                Result::Err(e) => Result::Err(e),
                                Result::Ok((v, p)) => {
                                    if !(m < p <= s.len()) {
                                        // unreachable: a value always makes progress
                                        Result::Err(i)
                                    } else {
                                        let q = sp_ws(s, p);
                                        if !(p <= q <= s.len()) {
                                            // unreachable
                                            Result::Err(i)
                                        } else if q < s.len() && s[q] == ',' {
                                            let n = sp_ws(s, q + 1);
                                            if !(q + 1 <= n <= s.len()) {
                                                // unreachable
                                                Result::Err(i)
                                            } else {
                                                match sp_obj_items(s, n) {
                                                    Result::Err(e) => Result::Err(e),
                                                    Result::Ok((es, t)) => Result::Ok(
                                                        (seq![(key, v)] + es, t),
                                                    ),
                                                }
                                            }
                                        } else if q < s.len() && s[q] == '}' {
                                            Result::Ok((seq![(key, v)], q + 1))
                                        } else {
                                            Result::Err(q)
                                        }
                                    }
                                },
                            }
                        }
                    }
                }
            },
        }
    }
}

/// A complete document: optional whitespace, one value, optional whitespace,
/// end of input.
pub open spec fn sp_doc(s: Seq<char>) -> Result<JsonV, int> {
    match sp_value(s, sp_ws(s, 0)) {
        Result::Err(e) => Result::Err(e),
        Result::Ok((v, j)) => {
            let k = sp_ws(s, j);
            if k >= s.len() {
                Result::Ok(v)
            } else {
                Result::Err(k)
            }
        },
    }
}

/// Executable mirror of [`is_ws`].
fn ws_char(c: char) -> (r: bool)
    ensures
        r == is_ws(c),
{
    c == ' ' || c == '\t' || c == '\n' || c == '\r'
}

/// Executable mirror of [`is_digit`].
fn digit_char(c: char) -> (r: bool)
    ensures
        r == is_digit(c),
{
    let u = c as u32;
    48 <= u && u <= 57
}

/// Executable mirror of [`is_hex`].
fn hex_char(c: char) -> (r: bool)
    ensures
        r == is_hex(c),
{
    let u = c as u32;
    (48 <= u && u <= 57) || (97 <= u && u <= 102) || (65 <= u && u <= 70)
}

/// Executable mirror of [`hex_val`].
fn hex_val_c(c: char) -> (r: u32)
    requires
        is_hex(c),
    ensures
        r as int == hex_val(c),
        r <= 15,
{
    let u = c as u32;
    if 48 <= u && u <= 57 {
        u - 48
    } else if 97 <= u {
        u - 87
    } else {
        u - 55
    }
}

/// Skips whitespace, landing on [`sp_ws`].
fn skip_ws(s: &Vec<char>, i: usize) -> (r: usize)
    requires
        i <= s.len(),
    ensures
        r as int == sp_ws(s@, i as int),
        i <= r <= s.len(),
{
    let mut j = i;
    while j < s.len() && ws_char(s[j])
        invariant
            i <= j <= s.len(),
            sp_ws(s@, i as int) == sp_ws(s@, j as int),
        decreases s.len() - j,
    {
        j = j + 1;
    }
    proof {
        assert(sp_ws(s@, j as int) == j);
    }
    j
}

/// Reads a `\u` escape, landing on [`sp_unicode`].
fn p_unicode(s: &Vec<char>, i: usize) -> (r: Result<(char, usize), usize>)
    requires
        i <= s.len(),
    ensures
        match r {
            Result::Ok((c, j)) => sp_unicode(s@, i as int) == Result::<(char, int), int>::Ok(
                (c, j as int),
            ) && i < j <= s.len(),
            Result::Err(e) => sp_unicode(s@, i as int) == Result::<(char, int), int>::Err(
                e as int,
            ),
        },
{
    if !(s.len() - i >= 4 && hex_char(s[i]) && hex_char(s[i + 1]) && hex_char(s[i + 2])
        && hex_char(s[i + 3])) {
        return Result::Err(i);
    }
    let v: u32 = hex_val_c(s[i]) * 4096 + hex_val_c(s[i + 1]) * 256 + hex_val_c(s[i + 2]) * 16
        + hex_val_c(s[i + 3]);
    proof {
        assert(v as int == hex4_val(s@, i as int));
    }
    if 0xD800 <= v && v < 0xDC00 {
        if s.len() - i >= 6 && s[i + 4] == '\\' && s[i + 5] == 'u' && s.len() - i >= 10
            && hex_char(s[i + 6]) && hex_char(s[i + 7]) && hex_char(s[i + 8]) && hex_char(
            s[i + 9],
        ) {
            let w: u32 = hex_val_c(s[i + 6]) * 4096 + hex_val_c(s[i + 7]) * 256 + hex_val_c(
                s[i + 8],
            ) * 16 + hex_val_c(s[i + 9]);
            proof {
                assert(w as int == hex4_val(s@, i as int + 6));
            }
            if 0xDC00 <= w && w < 0xE000 {
                let u: u32 = 0x10000 + (v - 0xD800) * 0x400 + (w - 0xDC00);
                let c = crate::shims::char_of(u);
                Result::Ok((c, i + 10))
            } else {
                Result::Err(i + 6)
            }
        } else {
            Result::Err(i + 4)
        }
    } else if 0xDC00 <= v && v < 0xE000 {
        Result::Err(i)
    } else {
        let c = crate::shims::char_of(v);
        Result::Ok((c, i + 4))
    }
}

/// Reads a string body, landing on [`sp_str_body`].
fn p_str_body(s: &Vec<char>, i: usize) -> (r: Result<(String, usize), usize>)
    requires
        i <= s.len(),
    ensures
        match r {
            Result::Ok((t, j)) => sp_str_body(s@, i as int) == Result::<(Seq<char>, int), int>::Ok(
                (t@, j as int),
            ) && i < j <= s.len(),
            Result::Err(e) => sp_str_body(s@, i as int) == Result::<(Seq<char>, int), int>::Err(
                e as int,
            ),
        },
{
    let mut acc = String::new();
    let mut cur = i;
    while cur < s.len()
        invariant
            i <= cur <= s.len(),
            match sp_str_body(s@, cur as int) {
                Result::Ok((t, j)) => sp_str_body(s@, i as int) == Result::<
                    (Seq<char>, int),
                    int,
                >::Ok((acc@ + t, j)),
                Result::Err(e) => sp_str_body(s@, i as int) == Result::<
                    (Seq<char>, int),
                    int,
                >::Err(e),
            },
        decreases s.len() - cur,
    {
        let c = s[cur];
        if c == '"' {
            proof {
                assert(acc@ + Seq::<char>::empty() =~= acc@);
            }
            return Result::Ok((acc, cur + 1));
        } else if c == '\\' {
            if cur + 1 >= s.len() {
                return Result::Err(cur + 1);
            }
            let e = s[cur + 1];
            if e == '"' || e == '\\' || e == '/' || e == 'b' || e == 'f' || e == 'n' || e == 'r'
                || e == 't' {
                let c2 = if e == '"' {
                    '"'
                } else if e == '\\' {
                    '\\'
                } else if e == '/' {
                    '/'
                } else if e == 'b' {
                    '\u{8}'
                } else if e == 'f' {
                    '\u{c}'
                } else if e == 'n' {
                    '\n'
                } else if e == 'r' {
                    '\r'
                } else {
                    '\t'
                };
                proof {
                    assert(c2 == simple_escape(s@[cur + 1]));
                }
                let ghost acc0 = acc@;
                acc.push(c2);
                proof {
                    assert(acc@ =~= acc0 + seq![c2]);
                    assert forall|t: Seq<char>| acc0 + (seq![c2] + t) =~= acc@ + t by {}
                }
                cur = cur + 2;
            } else if e == 'u' {
                match p_unicode(s, cur + 2) {
                    Result::Ok((c2, j)) => {
                        let ghost acc0 = acc@;
                        acc.push(c2);
                        proof {
                            assert(acc@ =~= acc0 + seq![c2]);
                            assert forall|t: Seq<char>| acc0 + (seq![c2] + t) =~= acc@ + t by {}
                        }
                        cur = j;
                    },
                    Result::Err(e2) => {
                        return Result::Err(e2);
                    },
                }
            } else {
                return Result::Err(cur + 1);
            }
        } else if (c as u32) < 32 {
            return Result::Err(cur);
        } else {
            let ghost acc0 = acc@;
            acc.push(c);
            proof {
                assert(acc@ =~= acc0 + seq![c]);
                assert forall|t: Seq<char>| acc0 + (seq![c] + t) =~= acc@ + t by {}
            }
            cur = cur + 1;
        }
    }
    Result::Err(s.len())
}

/// Finds the end of a digit run, landing on [`sp_digits`].
fn digits_end(s: &Vec<char>, i: usize) -> (r: usize)
    requires
        i <= s.len(),
    ensures
        r as int == sp_digits(s@, i as int),
        i <= r <= s.len(),
{
    let mut j = i;
    while j < s.len() && digit_char(s[j])
        invariant
            i <= j <= s.len(),
            sp_digits(s@, i as int) == sp_digits(s@, j as int),
        decreases s.len() - j,
    {
        j = j + 1;
    }
    proof {
        assert(sp_digits(s@, j as int) == j);
    }
    j
}

/// Reads a number token, landing on [`sp_num`].
fn p_num(s: &Vec<char>, i: usize) -> (r: Result<(Vec<char>, usize), usize>)
    requires
        i < s.len(),
    ensures
        match r {
            Result::Ok((t, j)) => sp_num(s@, i as int) == Result::<(Seq<char>, int), int>::Ok(
                (t@, j as int),
            ) && i < j <= s.len(),
            Result::Err(e) => sp_num(s@, i as int) == Result::<(Seq<char>, int), int>::Err(
                e as int,
            ),
        },
{
    let i1 = if s[i] == '-' {
        i + 1
    } else {
        i
    };
    if !(i1 < s.len() && digit_char(s[i1])) {
        return Result::Err(i1);
    }
    let i2 = if s[i1] == '0' {
        i1 + 1
    } else {
        digits_end(s, i1 + 1)
    };
    proof {
        if s@[i1 as int] != '0' {
            assert(sp_digits(s@, i1 as int) == sp_digits(s@, i1 as int + 1));
        }
    }
    let i3 = if i2 < s.len() && s[i2] == '.' {
        if i2 + 1 < s.len() && digit_char(s[i2 + 1]) {
            digits_end(s, i2 + 1)
        } else {
            return Result::Err(i2 + 1);
        }
    } else {
        i2
    };
    proof {
        assert(Result::<int, int>::Ok(i3 as int) == sp_frac(s@, i2 as int));
    }
    let i4 = if i3 < s.len() && (s[i3] == 'e' || s[i3] == 'E') {
        let j = if i3 + 1 < s.len() && (s[i3 + 1] == '+' || s[i3 + 1] == '-') {
            i3 + 2
        } else {
            i3 + 1
        };
        if j < s.len() && digit_char(s[j]) {
            digits_end(s, j)
        } else {
            return Result::Err(j);
        }
    } else {
        i3
    };
    proof {
        assert(Result::<int, int>::Ok(i4 as int) == sp_exp(s@, i3 as int));
    }
    let mut t: Vec<char> = Vec::new();
    let mut k = i;
    while k < i4
        invariant
            i <= k <= i4 <= s.len(),
            t@ =~= s@.subrange(i as int, k as int),
        decreases i4 - k,
    {
        t.push(s[k]);
        proof {
            assert(t@ =~= s@.subrange(i as int, k as int + 1));
        }
        k = k + 1;
    }
    proof {
        assert(t@ =~= s@.subrange(i as int, i4 as int));
    }
    Result::Ok((t, i4))
}

/// Reads one JSON value, landing on [`sp_value`].
pub fn p_value(s: &Vec<char>, i: usize) -> (r: Result<(Json, usize), usize>)
    requires
        i <= s.len(),
    ensures
        match r {
            Result::Ok((v, j)) => sp_value(s@, i as int) == Result::<(JsonV, int), int>::Ok(
                (json_v(v), j as int),
            ) && i < j <= s.len(),
            Result::Err(e) => sp_value(s@, i as int) == Result::<(JsonV, int), int>::Err(
                e as int,
            ),
        },
    decreases s.len() - i, 0int,
{
    if i >= s.len() {
        return Result::Err(s.len());
    }
    let c = s[i];
    if c == 'n' {
        if s.len() - i >= 4 && s[i + 1] == 'u' && s[i + 2] == 'l' && s[i + 3] == 'l' {
            Result::Ok((Json::Null, i + 4))
        } else {
            Result::Err(i)
        }
    } else if c == 't' {
        if s.len() - i >= 4 && s[i + 1] == 'r' && s[i + 2] == 'u' && s[i + 3] == 'e' {
            Result::Ok((Json::Bool(true), i + 4))
        } else {
            Result::Err(i)
        }
    } else if c == 'f' {
        if s.len() - i >= 5 && s[i + 1] == 'a' && s[i + 2] == 'l' && s[i + 3] == 's' && s[i + 4]
            == 'e' {
            Result::Ok((Json::Bool(false), i + 5))
        } else {
            Result::Err(i)
        }
    } else if c == '"' {
        match p_str_body(s, i + 1) {
            Result::Ok((t, j)) => Result::Ok((Json::Str(t), j)),
            Result::Err(e) => Result::Err(e),
        }
    } else if c == '-' || digit_char(c) {
        match p_num(s, i) {
            Result::Ok((t, j)) => Result::Ok((Json::Num(t), j)),
            Result::Err(e) => Result::Err(e),
        }
    } else if c == '[' {
        let j0 = skip_ws(s, i + 1);
        if j0 < s.len() && s[j0] == ']' {
            let items: Vec<Json> = Vec::new();
            proof {
                assert(vec_v(items) =~= Seq::<JsonV>::empty());
            }
            return Result::Ok((Json::Arr(items), j0 + 1));
        }
        match p_arr_items(s, j0) {
            Result::Ok((items, k)) => Result::Ok((Json::Arr(items), k)),
            Result::Err(e) => Result::Err(e),
        }
    } else if c == '{' {
        let j0 = skip_ws(s, i + 1);
        if j0 < s.len() && s[j0] == '}' {
            let entries: Vec<(String, Json)> = Vec::new();
            proof {
                assert(obj_v(entries) =~= Seq::<(Seq<char>, JsonV)>::empty());
            }
            return Result::Ok((Json::Obj(entries), j0 + 1));
        }
        match p_obj_items(s, j0) {
            Result::Ok((entries, k)) => Result::Ok((Json::Obj(entries), k)),
            Result::Err(e) => Result::Err(e),
        }
    } else {
        Result::Err(i)
    }
}

/// Reads the items of a non-empty array, landing on [`sp_arr_items`].
fn p_arr_items(s: &Vec<char>, i: usize) -> (r: Result<(Vec<Json>, usize), usize>)
    requires
        i <= s.len(),
    ensures
        match r {
            Result::Ok((vs, j)) => sp_arr_items(s@, i as int) == Result::<
                (Seq<JsonV>, int),
                int,
            >::Ok((vec_v(vs), j as int)) && i < j <= s.len(),
            Result::Err(e) => sp_arr_items(s@, i as int) == Result::<(Seq<JsonV>, int), int>::Err(
                e as int,
            ),
        },
    decreases s.len() - i, 1int,
{
    match p_value(s, i) {
        Result::Err(e) => Result::Err(e),
        Result::Ok((v, j)) => {
            let k = skip_ws(s, j);
            if k < s.len() && s[k] == ',' {
                let m = skip_ws(s, k + 1);
                match p_arr_items(s, m) {
                    Result::Err(e) => Result::Err(e),
                    Result::Ok((mut vs, p)) => {
                        let ghost vs0 = vs@;
                        vs.insert(0, v);
                        proof {
                            lemma_arr_v(vs0);
                            lemma_arr_v(vs@);
                            assert(vs@ =~= seq![v] + vs0);
                            assert(arr_v(vs@) =~= seq![json_v(v)] + arr_v(vs0));
                        }
                        Result::Ok((vs, p))
                    },
                }
            } else if k < s.len() && s[k] == ']' {
                let mut vs: Vec<Json> = Vec::new();
                vs.push(v);
                proof {
                    lemma_arr_v(vs@);
                    assert(arr_v(vs@) =~= seq![json_v(v)]);
                }
                Result::Ok((vs, k + 1))
            } else {
                Result::Err(k)
            }
        },
    }
}

/// Reads the members of a non-empty object, landing on [`sp_obj_items`].
fn p_obj_items(s: &Vec<char>, i: usize) -> (r: Result<(Vec<(String, Json)>, usize), usize>)
    requires
        i <= s.len(),
    ensures
        match r {
            Result::Ok((es, j)) => sp_obj_items(s@, i as int) == Result::<
                (Seq<(Seq<char>, JsonV)>, int),
                int,
            >::Ok((obj_v(es), j as int)) && i < j <= s.len(),
            Result::Err(e) => sp_obj_items(s@, i as int) == Result::<
                (Seq<(Seq<char>, JsonV)>, int),
                int,
            >::Err(e as int),
        },
    decreases s.len() - i, 2int,
{
    if !(i < s.len() && s[i] == '"') {
        return Result::Err(i);
    }
    match p_str_body(s, i + 1) {
        Result::Err(e) => Result::Err(e),
        Result::Ok((key, j)) => {
            let k = skip_ws(s, j);
            if !(k < s.len() && s[k] == ':') {
                return Result::Err(k);
            }
            let m = skip_ws(s, k + 1);
            match p_value(s, m) {
                Result::Err(e) => Result::Err(e),
                Result::Ok((v, p)) => {
                    let q = skip_ws(s, p);
                    if q < s.len() && s[q] == ',' {
                        let n = skip_ws(s, q + 1);
                        let ghost kv = (key@, json_v(v));
                        match p_obj_items(s, n) {
                            Result::Err(e) => Result::Err(e),
                            Result::Ok((mut es, t)) => {
                                let ghost es0 = es@;
                                es.insert(0, (key, v));
                                proof {
                                    lemma_entries_v(es0);
                                    lemma_entries_v(es@);
                                    assert(es@ =~= seq![(key, v)] + es0);
                                    assert(entries_v(es@) =~= seq![kv] + entries_v(es0));
                                }
                                Result::Ok((es, t))
                            },
                        }
                    } else if q < s.len() && s[q] == '}' {
                        let ghost kv = (key@, json_v(v));
                        let mut es: Vec<(String, Json)> = Vec::new();
                        es.push((key, v));
                        proof {
                            lemma_entries_v(es@);
                            assert(entries_v(es@) =~= seq![kv]);
                        }
                        Result::Ok((es, q + 1))
                    } else {
                        Result::Err(q)
                    }
                },
            }
        },
    }
}

/// Reads a complete document, landing on [`sp_doc`].
pub fn p_doc(s: &Vec<char>) -> (r: Result<Json, usize>)
    ensures
        match r {
            Result::Ok(v) => sp_doc(s@) == Result::<JsonV, int>::Ok(json_v(v)),
            Result::Err(e) => sp_doc(s@) == Result::<JsonV, int>::Err(e as int),
        },
{
    let i = skip_ws(s, 0);
    match p_value(s, i) {
        Result::Err(e) => Result::Err(e),
        Result::Ok((v, j)) => {
            let k = skip_ws(s, j);
            if k >= s.len() {
                Result::Ok(v)
            } else {
                Result::Err(k)
            }
        },
    }
}

} // verus!
