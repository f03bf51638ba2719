//! Character-level text primitives shared by the settings-document codec:
//! decimal numerals, string escaping, and small parsers over `&str`.

use vstd::prelude::*;

verus! {

/// The decimal digit character for a value below ten.
pub open spec fn dchar(d: nat) -> char {
    if d == 0 {
        '0'
    } else if d == 1 {
        '1'
    } else if d == 2 {
        '2'
    } else if d == 3 {
        '3'
    } else if d == 4 {
        '4'
    } else if d == 5 {
        '5'
    } else if d == 6 {
        '6'
    } else if d == 7 {
        '7'
    } else if d == 8 {
        '8'
    } else {
        '9'
    }
}

/// The value of a decimal digit character.
pub open spec fn dval(c: char) -> nat {
    if c == '0' {
        0
    } else if c == '1' {
        1
    } else if c == '2' {
        2
    } else if c == '3' {
        3
    } else if c == '4' {
        4
    } else if c == '5' {
        5
    } else if c == '6' {
        6
    } else if c == '7' {
        7
    } else if c == '8' {
        8
    } else {
        9
    }
}

pub open spec fn is_digit(c: char) -> bool {
    c == '0' || c == '1' || c == '2' || c == '3' || c == '4' || c == '5' || c == '6' || c == '7'
        || c == '8' || c == '9'
}

/// Canonical decimal text of a number: no sign, no leading zero
/// (except for the single digit of zero itself).
pub open spec fn dec(n: nat) -> Seq<char>
    decreases n,
{
    if n < 10 {
        seq![dchar(n)]
    } else {
        dec(n / 10).push(dchar(n % 10))
    }
}

/// The number denoted by a sequence of digit characters, most significant first.
pub open spec fn digits_value(ds: Seq<char>) -> nat
    decreases ds.len(),
{
    if ds.len() == 0 {
        0
    } else {
        digits_value(ds.drop_last()) * 10 + dval(ds.last())
    }
}

pub proof fn lemma_dec_is_digits(n: nat)
    ensures
        dec(n).len() >= 1,
        forall|i: int| 0 <= i < dec(n).len() ==> is_digit(#[trigger] dec(n)[i]),
    decreases n,
{
    if n < 10 {
        assert(is_digit(dchar(n)));
    } else {
        lemma_dec_is_digits(n / 10);
        assert(dec(n) == dec(n / 10).push(dchar(n % 10)));
        assert(is_digit(dchar(n % 10)));
        assert forall|i: int| 0 <= i < dec(n).len() implies is_digit(#[trigger] dec(n)[i]) by {
            if i < dec(n / 10).len() {
                assert(dec(n)[i] == dec(n / 10)[i]);
            } else {
                assert(dec(n)[i] == dchar(n % 10));
            }
        }
    }
}

/// Reading back the canonical decimal text yields the number.
pub proof fn lemma_digits_value_dec(n: nat)
    ensures
        digits_value(dec(n)) == n,
    decreases n,
{
    if n < 10 {
        assert(dec(n) == seq![dchar(n)]);
        assert(seq![dchar(n)].drop_last() =~= Seq::<char>::empty());
        assert(digits_value(Seq::<char>::empty()) == 0);
        assert(seq![dchar(n)].last() == dchar(n));
        assert(digits_value(dec(n)) == dval(dchar(n)));
        assert(dval(dchar(n)) == n);
    } else {
        lemma_digits_value_dec(n / 10);
        let d = dec(n / 10);
        assert(dec(n) == d.push(dchar(n % 10)));
        assert(d.push(dchar(n % 10)).drop_last() =~= d);
        assert(d.push(dchar(n % 10)).last() == dchar(n % 10));
        assert(dval(dchar(n % 10)) == n % 10);
        assert(digits_value(dec(n)) == (n / 10) * 10 + n % 10);
        assert(n == (n / 10) * 10 + n % 10) by (nonlinear_arith);
    }
}

/// Relies on String::push from std: appends exactly one character at the end.
#[verifier::external_body]
pub(crate) fn push_char(s: &mut String, c: char)
    ensures
        final(s)@ == old(s)@.push(c),
{
    s.push(c);
}

fn digit_char(d: u64) -> (c: char)
    requires
        d < 10,
    ensures
        c == dchar(d as nat),
{
    if d == 0 {
        '0'
    } else if d == 1 {
        '1'
    } else if d == 2 {
        '2'
    } else if d == 3 {
        '3'
    } else if d == 4 {
        '4'
    } else if d == 5 {
        '5'
    } else if d == 6 {
        '6'
    } else if d == 7 {
        '7'
    } else if d == 8 {
        '8'
    } else {
        '9'
    }
}

fn digit_val(c: char) -> (r: u64)
    requires
        is_digit(c),
    ensures
        r as nat == dval(c),
{
    if c == '0' {
        0
    } else if c == '1' {
        1
    } else if c == '2' {
        2
    } else if c == '3' {
        3
    } else if c == '4' {
        4
    } else if c == '5' {
        5
    } else if c == '6' {
        6
    } else if c == '7' {
        7
    } else if c == '8' {
        8
    } else {
        9
    }
}

fn hex_digit_char(d: u32) -> (c: char)
    requires
        d < 16,
    ensures
        c == hex_digit(d as nat),
{
    if d < 10 {
        digit_char(d as u64)
    } else if d == 10 {
        'a'
    } else if d == 11 {
        'b'
    } else if d == 12 {
        'c'
    } else if d == 13 {
        'd'
    } else if d == 14 {
        'e'
    } else {
        'f'
    }
}

fn char_is_hex(c: char) -> (r: bool)
    ensures
        r == is_hex(c),
{
    char_is_digit(c) || c == 'a' || c == 'b' || c == 'c' || c == 'd' || c == 'e' || c == 'f'
        || c == 'A' || c == 'B' || c == 'C' || c == 'D' || c == 'E' || c == 'F'
}

fn hex_digit_val(c: char) -> (r: u32)
    requires
        is_hex(c),
    ensures
        r as nat == hex_val(c),
        r < 16,
{
    if char_is_digit(c) {
        digit_val(c) as u32
    } else if c == 'a' || c == 'A' {
        10
    } else if c == 'b' || c == 'B' {
        11
    } else if c == 'c' || c == 'C' {
        12
    } else if c == 'd' || c == 'D' {
        13
    } else if c == 'e' || c == 'E' {
        14
    } else {
        15
    }
}

fn char_is_digit(c: char) -> (r: bool)
    ensures
        r == is_digit(c),
{
    c == '0' || c == '1' || c == '2' || c == '3' || c == '4' || c == '5' || c == '6' || c == '7'
        || c == '8' || c == '9'
}

/// Canonical decimal text of a number, as a `String`.
pub fn fmt_u64(n: u64) -> (r: String)
    ensures
        r@ == dec(n as nat),
    decreases n,
{
    if n < 10 {
        let mut s = String::new();
        push_char(&mut s, digit_char(n));
        proof {
            assert(s@ =~= seq![dchar(n as nat)]);
        }
        s
    } else {
        let mut s = fmt_u64(n / 10);
        push_char(&mut s, digit_char(n % 10));
        s
    }
}

/// Strip an expected literal from the front of the input.
pub open spec fn sp_lit(s: Seq<char>, lit: Seq<char>) -> Option<Seq<char>> {
    if lit.len() <= s.len() && s.take(lit.len() as int) == lit {
        Some(s.skip(lit.len() as int))
    } else {
        None
    }
}

/// Split the input into its longest prefix of digit characters and the rest.
pub open spec fn sp_digits(s: Seq<char>) -> (Seq<char>, Seq<char>)
    decreases s.len(),
{
    if s.len() > 0 && is_digit(s[0]) {
        let (d, r) = sp_digits(s.skip(1));
        (seq![s[0]] + d, r)
    } else {
        (seq![], s)
    }
}

/// Read a decimal number from the front of the input: at least one digit,
/// value at most `bound`.
pub open spec fn sp_uint(s: Seq<char>, bound: nat) -> Option<(nat, Seq<char>)> {
    let (ds, r) = sp_digits(s);
    if ds.len() >= 1 && digits_value(ds) <= bound {
        Some((digits_value(ds), r))
    } else {
        None
    }
}

pub open spec fn is_hex(c: char) -> bool {
    is_digit(c) || c == 'a' || c == 'b' || c == 'c' || c == 'd' || c == 'e' || c == 'f' || c == 'A'
        || c == 'B' || c == 'C' || c == 'D' || c == 'E' || c == 'F'
}

/// The value of a hexadecimal digit character, either case.
pub open spec fn hex_val(c: char) -> nat {
    if is_digit(c) {
        dval(c)
    } else if c == 'a' || c == 'A' {
        10
    } else if c == 'b' || c == 'B' {
        11
    } else if c == 'c' || c == 'C' {
        12
    } else if c == 'd' || c == 'D' {
        13
    } else if c == 'e' || c == 'E' {
        14
    } else {
        15
    }
}

/// The lowercase hexadecimal digit character for a value below sixteen.
pub open spec fn hex_digit(n: nat) -> char {
    if n < 10 {
        dchar(n)
    } else if n == 10 {
        'a'
    } else if n == 11 {
        'b'
    } else if n == 12 {
        'c'
    } else if n == 13 {
        'd'
    } else if n == 14 {
        'e'
    } else {
        'f'
    }
}

/// A character code below 0x100 casts to a byte and back to the same character.
pub proof fn lemma_char_code_roundtrip(c: char)
    requires
        (c as u32) < 256,
    ensures
        (((c as u32) as u8) as char) == c,
{
}

pub proof fn lemma_hex_digit_val(n: nat)
    requires
        n < 16,
    ensures
        is_hex(hex_digit(n)),
        hex_val(hex_digit(n)) == n,
{
}

/// The character a two-character escape with a letter stands for.
pub open spec fn unesc_named(d: char) -> char {
    if d == 'n' {
        '\n'
    } else if d == 'r' {
        '\r'
    } else if d == 't' {
        '\t'
    } else if d == 'b' {
        '\u{8}'
    } else {
        '\u{c}'
    }
}

/// Read the body of a quoted string, after the opening quote, up to the
/// closing quote: plain characters, and the backslash escapes of the
/// document grammar — the quote, the backslash and the slash themselves,
/// the five named control characters, and a four-digit hexadecimal code
/// below 0x100.
pub open spec fn sp_str_body(s: Seq<char>) -> Option<(Seq<char>, Seq<char>)>
    decreases s.len(),
{
    if s.len() == 0 {
        None
    } else if s[0] == '"' {
        Some((seq![], s.skip(1)))
    } else if s[0] == '\\' {
        if s.len() < 2 {
            None
        } else {
            let d = s[1];
            if d == '"' || d == '\\' || d == '/' {
                match sp_str_body(s.skip(2)) {
                    Some((v, r)) => Some((seq![d] + v, r)),
                    None => None,
                }
            } else if d == 'n' || d == 'r' || d == 't' || d == 'b' || d == 'f' {
                match sp_str_body(s.skip(2)) {
                    Some((v, r)) => Some((seq![unesc_named(d)] + v, r)),
                    None => None,
                }
            } else if d == 'u' {
                if s.len() >= 6 && is_hex(s[2]) && is_hex(s[3]) && is_hex(s[4]) && is_hex(s[5]) {
                    let code = hex_val(s[2]) * 4096 + hex_val(s[3]) * 256 + hex_val(s[4]) * 16
                        + hex_val(s[5]);
                    if code < 256 {
                        match sp_str_body(s.skip(6)) {
                            Some((v, r)) => Some((seq![(code as u8) as char] + v, r)),
                            None => None,
                        }
                    } else {
                        None
                    }
                } else {
                    None
                }
            } else {
                None
            }
        }
    } else {
        match sp_str_body(s.skip(1)) {
            Some((v, r)) => Some((seq![s[0]] + v, r)),
            None => None,
        }
    }
}

/// Read a quoted string from the front of the input.
pub open spec fn sp_str(s: Seq<char>) -> Option<(Seq<char>, Seq<char>)> {
    if s.len() > 0 && s[0] == '"' {
        sp_str_body(s.skip(1))
    } else {
        None
    }
}

pub open spec fn bool_txt(b: bool) -> Seq<char> {
    if b {
        "true"@
    } else {
        "false"@
    }
}

/// Read a boolean word from the front of the input.
pub open spec fn sp_bool(s: Seq<char>) -> Option<(bool, Seq<char>)> {
    if s.len() > 0 && s[0] == 't' {
        match sp_lit(s, "true"@) {
            Some(r) => Some((true, r)),
            None => None,
        }
    } else {
        match sp_lit(s, "false"@) {
            Some(r) => Some((false, r)),
            None => None,
        }
    }
}

/// The escaped form of one character inside a quoted string: backslash
/// escapes for the quote, the backslash, the five named control characters,
/// and a four-digit hexadecimal code for any other control character.
pub open spec fn esc_char(c: char) -> Seq<char> {
    if c == '"' || c == '\\' {
        seq!['\\', c]
    } else if c == '\u{8}' {
        seq!['\\', 'b']
    } else if c == '\u{c}' {
        seq!['\\', 'f']
    } else if c == '\n' {
        seq!['\\', 'n']
    } else if c == '\r' {
        seq!['\\', 'r']
    } else if c == '\t' {
        seq!['\\', 't']
    } else if (c as u32) < 32 {
        seq!['\\', 'u', '0', '0', hex_digit(((c as u32) / 16) as nat), hex_digit(
            ((c as u32) % 16) as nat,
        )]
    } else {
        seq![c]
    }
}

/// The escaped form of a whole string body.
pub open spec fn esc(s: Seq<char>) -> Seq<char>
    decreases s.len(),
{
    if s.len() == 0 {
        seq![]
    } else {
        esc_char(s[0]) + esc(s.skip(1))
    }
}

/// A string as it stands in the settings document: quoted and escaped.
pub open spec fn quoted(s: Seq<char>) -> Seq<char> {
    seq!['"'] + esc(s) + seq!['"']
}

pub proof fn lemma_assoc(a: Seq<char>, b: Seq<char>, c: Seq<char>)
    ensures
        (a + b) + c == a + (b + c),
{
    assert((a + b) + c =~= a + (b + c));
}

pub proof fn lemma_esc_append(a: Seq<char>, b: Seq<char>)
    ensures
        esc(a + b) == esc(a) + esc(b),
    decreases a.len(),
{
    if a.len() == 0 {
        assert(a + b =~= b);
        assert(esc(a) + esc(b) =~= esc(b));
    } else {
        lemma_esc_append(a.skip(1), b);
        assert((a + b).skip(1) =~= a.skip(1) + b);
        assert((a + b).len() > 0 && (a + b)[0] == a[0]);
        assert(esc(a + b) == esc_char(a[0]) + (esc(a.skip(1)) + esc(b)));
        lemma_assoc(esc_char(a[0]), esc(a.skip(1)), esc(b));
    }
}

/// A literal at the front of the input is stripped, and nothing else consumed.
pub proof fn lemma_sp_lit(lit: Seq<char>, rest: Seq<char>)
    ensures
        sp_lit(lit + rest, lit) == Some(rest),
{
    let s = lit + rest;
    assert(s.take(lit.len() as int) =~= lit);
    assert(s.skip(lit.len() as int) =~= rest);
}

/// A maximal run of digits is split off exactly.
pub proof fn lemma_sp_digits_run(s: Seq<char>, k: int)
    requires
        0 <= k <= s.len(),
        forall|j: int| 0 <= j < k ==> is_digit(#[trigger] s[j]),
        k == s.len() || !is_digit(s[k]),
    ensures
        sp_digits(s) == (s.take(k), s.skip(k)),
    decreases k,
{
    if k == 0 {
        assert(s.take(0) =~= seq![]);
        assert(s.skip(0) =~= s);
    } else {
        assert(is_digit(s[0]));
        lemma_sp_digits_run(s.skip(1), k - 1);
        assert(s.skip(1).take(k - 1) =~= s.take(k).skip(1));
        assert(seq![s[0]] + s.take(k).skip(1) =~= s.take(k));
        assert(s.skip(1).skip(k - 1) =~= s.skip(k));
    }
}

/// The canonical decimal text of a number, followed by anything that does not
/// begin with a digit, reads back as that number.
pub proof fn lemma_sp_uint_dec(n: nat, bound: nat, rest: Seq<char>)
    requires
        n <= bound,
        rest.len() == 0 || !is_digit(rest[0]),
    ensures
        sp_uint(dec(n) + rest, bound) == Some((n, rest)),
{
    let s = dec(n) + rest;
    lemma_dec_is_digits(n);
    let k = dec(n).len() as int;
    assert(forall|j: int| 0 <= j < k ==> is_digit(#[trigger] s[j]));
    assert(k == s.len() || !is_digit(s[k]));
    lemma_sp_digits_run(s, k);
    assert(s.take(k) =~= dec(n));
    assert(s.skip(k) =~= rest);
    lemma_digits_value_dec(n);
}

/// An escaped string body with its closing quote reads back as the original.
pub proof fn lemma_sp_str_body_esc(v: Seq<char>, rest: Seq<char>)
    ensures
        sp_str_body(esc(v) + seq!['"'] + rest) == Some((v, rest)),
    decreases v.len(),
{
    let s = esc(v) + seq!['"'] + rest;
    if v.len() == 0 {
        assert(s =~= seq!['"'] + rest);
        assert(s[0] == '"');
        assert(s.skip(1) =~= rest);
        let e: Seq<char> = seq![];
        assert(sp_str_body(s) == Some((e, rest)));
        assert(e =~= v);
    } else {
        let c = v[0];
        lemma_sp_str_body_esc(v.skip(1), rest);
        assert(esc(v) == esc_char(c) + esc(v.skip(1)));
        let t = esc(v.skip(1)) + seq!['"'] + rest;
        if c == '"' || c == '\\' {
            assert(s =~= seq!['\\', c] + t);
            assert(s[0] == '\\' && s[1] == c && s.len() >= 2);
            assert(s.skip(2) =~= t);
            assert(sp_str_body(s) == Some((seq![c] + v.skip(1), rest)));
        } else if c == '\u{8}' || c == '\u{c}' || c == '\n' || c == '\r' || c == '\t' {
            let d = if c == '\u{8}' {
                'b'
            } else if c == '\u{c}' {
                'f'
            } else if c == '\n' {
                'n'
            } else if c == '\r' {
                'r'
            } else {
                't'
            };
            assert(esc_char(c) =~= seq!['\\', d]);
            assert(s =~= seq!['\\', d] + t);
            assert(s[0] == '\\' && s[1] == d && s.len() >= 2);
            assert(s.skip(2) =~= t);
            assert(unesc_named(d) == c);
            assert(sp_str_body(s) == Some((seq![c] + v.skip(1), rest)));
        } else if (c as u32) < 32 {
            let q = ((c as u32) / 16) as nat;
            let m = ((c as u32) % 16) as nat;
            let hq = hex_digit(q);
            let hm = hex_digit(m);
            lemma_hex_digit_val(q);
            lemma_hex_digit_val(m);
            assert(esc_char(c) =~= seq!['\\', 'u', '0', '0', hq, hm]);
            assert(s =~= seq!['\\', 'u', '0', '0', hq, hm] + t);
            assert(s[0] == '\\' && s[1] == 'u' && s[2] == '0' && s[3] == '0' && s[4] == hq && s[5]
                == hm && s.len() >= 6);
            assert(is_hex('0') && hex_val('0') == 0);
            let code = hex_val(s[2]) * 4096 + hex_val(s[3]) * 256 + hex_val(s[4]) * 16 + hex_val(
                s[5],
            );
            assert(((c as u32) / 16) * 16 + ((c as u32) % 16) == (c as u32));
            assert(code == (c as u32) as nat);
            assert(code < 256);
            assert((code as u8) == ((c as u32) as u8));
            lemma_char_code_roundtrip(c);
            assert(s.skip(6) =~= t);
            assert(sp_str_body(s) == Some((seq![c] + v.skip(1), rest)));
        } else {
            assert(s =~= seq![c] + t);
            assert(s[0] == c);
            assert(s.skip(1) =~= t);
            assert(sp_str_body(s) == Some((seq![c] + v.skip(1), rest)));
        }
        assert(seq![c] + v.skip(1) =~= v);
    }
}

/// A quoted, escaped string reads back as the original.
pub proof fn lemma_sp_str_quoted(v: Seq<char>, rest: Seq<char>)
    ensures
        sp_str(quoted(v) + rest) == Some((v, rest)),
{
    let s = quoted(v) + rest;
    assert(s[0] == '"');
    assert(s.skip(1) =~= esc(v) + seq!['"'] + rest);
    lemma_sp_str_body_esc(v, rest);
}

/// A boolean word reads back as the boolean.
pub proof fn lemma_sp_bool(b: bool, rest: Seq<char>)
    ensures
        sp_bool(bool_txt(b) + rest) == Some((b, rest)),
{
    reveal_strlit("true");
    reveal_strlit("false");
    let s = bool_txt(b) + rest;
    if b {
        assert(s[0] == 't');
        lemma_sp_lit("true"@, rest);
    } else {
        assert(s[0] == 'f');
        lemma_sp_lit("false"@, rest);
    }
}

/// Character-for-character equality of two string slices.
pub fn str_eq(a: &str, b: &str) -> (r: bool)
    ensures
        r == (a@ == b@),
{
    let la = a.unicode_len();
    let lb = b.unicode_len();
    if la != lb {
        return false;
    }
    let mut k: usize = 0;
    while k < la
        invariant
            k <= la,
            la == a@.len(),
            la == b@.len(),
            forall|j: int| 0 <= j < k ==> a@[j] == b@[j],
        decreases la - k,
    {
        if a.get_char(k) != b.get_char(k) {
            return false;
        }
        k += 1;
    }
    proof {
        assert(a@ =~= b@);
    }
    true
}

/// Match an expected literal at position `i`; on success return the position
/// just past it.
pub fn parse_lit(s: &str, i: usize, lit: &str) -> (r: Option<usize>)
    requires
        i <= s@.len(),
    ensures
        ({
            let t = s@.skip(i as int);
            match sp_lit(t, lit@) {
                Some(rest) => match r {
                    Some(j) => i <= j && j <= s@.len() && s@.skip(j as int) == rest,
                    None => false,
                },
                None => r is None,
            }
        }),
{
    let sl = s.unicode_len();
    let ll = lit.unicode_len();
    if sl - i < ll {
        return None;
    }
    let mut k: usize = 0;
    while k < ll
        invariant
            k <= ll,
            i + ll <= sl,
            sl == s@.len(),
            ll == lit@.len(),
            forall|j: int| 0 <= j < k ==> s@[i + j] == lit@[j],
        decreases ll - k,
    {
        if s.get_char(i + k) != lit.get_char(k) {
            proof {
                let t = s@.skip(i as int);
                assert(t[k as int] == s@[i + k]);
                assert(t.take(ll as int)[k as int] != lit@[k as int]);
                assert(t.take(ll as int) != lit@);
            }
            return None;
        }
        k += 1;
    }
    proof {
        let t = s@.skip(i as int);
        assert forall|j: int| 0 <= j < ll implies t.take(ll as int)[j] == lit@[j] by {
            assert(t[j] == s@[i + j]);
        }
        assert(t.take(ll as int) =~= lit@);
        assert(t.skip(ll as int) =~= s@.skip((i + ll) as int));
    }
    Some(i + ll)
}

/// Read a decimal number at position `i`: at least one digit, value at most
/// `bound`; on success return the value and the position just past the digits.
pub fn parse_u64(s: &str, i: usize, bound: u64) -> (r: Option<(u64, usize)>)
    requires
        i <= s@.len(),
    ensures
        ({
            let t = s@.skip(i as int);
            match sp_uint(t, bound as nat) {
                Some((v, rest)) => match r {
                    Some((x, j)) => x as nat == v && i <= j && j <= s@.len() && s@.skip(j as int)
                        == rest,
                    None => false,
                },
                None => r is None,
            }
        }),
{
    let sl = s.unicode_len();
    let cap = u64::MAX / 10;
    let cap_rem = u64::MAX % 10;
    let mut j = i;
    let mut acc: u64 = 0;
    let mut over = false;
    while j < sl && char_is_digit(s.get_char(j))
        invariant
            i <= j && j <= sl,
            sl == s@.len(),
            cap == u64::MAX / 10,
            cap_rem == u64::MAX % 10,
            forall|m: int| i <= m < j ==> is_digit(#[trigger] s@[m]),
            !over ==> acc as nat == digits_value(s@.subrange(i as int, j as int)),
            over ==> digits_value(s@.subrange(i as int, j as int)) > u64::MAX,
        decreases sl - j,
    {
        let c = s.get_char(j);
        let d = digit_val(c);
        proof {
            let pre = s@.subrange(i as int, j as int);
            let ext = s@.subrange(i as int, j as int + 1);
            assert(ext =~= pre.push(s@[j as int]));
            assert(ext.drop_last() =~= pre);
            assert(ext.last() == c);
            assert(digits_value(ext) == digits_value(pre) * 10 + dval(c));
        }
        if over {
        } else if acc > cap || (acc == cap && d > cap_rem) {
            over = true;
        } else {
            acc = acc * 10 + d;
        }
        j += 1;
    }
    proof {
        let t = s@.skip(i as int);
        let k = j - i;
        assert forall|m: int| 0 <= m < k implies is_digit(#[trigger] t[m]) by {
            assert(t[m] == s@[i + m]);
        }
        if j < sl {
            assert(t[k as int] == s@[j as int]);
        }
        lemma_sp_digits_run(t, k as int);
        assert(t.take(k as int) =~= s@.subrange(i as int, j as int));
        assert(t.skip(k as int) =~= s@.skip(j as int));
    }
    if j == i {
        return None;
    }
    if over {
        return None;
    }
    if acc > bound {
        return None;
    }
    Some((acc, j))
}

/// Read a quoted string at position `i`, undoing the escapes; on success
/// return the content and the position just past the closing quote.
pub fn parse_string(s: &str, i: usize) -> (r: Option<(String, usize)>)
    requires
        i <= s@.len(),
    ensures
        ({
            let t = s@.skip(i as int);
            match sp_str(t) {
                Some((v, rest)) => match r {
                    Some((x, j)) => x@ == v && i <= j && j <= s@.len() && s@.skip(j as int)
                        == rest,
                    None => false,
                },
                None => r is None,
            }
        }),
{
    let sl = s.unicode_len();
    if i >= sl {
        return None;
    }
    if s.get_char(i) != '"' {
        return None;
    }
    proof {
        assert(s@.skip(i as int)[0] == s@[i as int]);
        assert(s@.skip(i as int).skip(1) =~= s@.skip(i as int + 1));
    }
    let mut out = String::new();
    let mut cur = i + 1;
    while cur < sl
        invariant
            i + 1 <= cur && cur <= sl,
            sl == s@.len(),
            sp_str(s@.skip(i as int)) == sp_str_body(s@.skip(i as int + 1)),
            ({
                let whole = sp_str_body(s@.skip(i as int + 1));
                match sp_str_body(s@.skip(cur as int)) {
                    Some((v2, rest)) => whole == Some((out@ + v2, rest)),
                    None => whole is None,
                }
            }),
        decreases sl - cur,
    {
        let c = s.get_char(cur);
        proof {
            assert(s@.skip(cur as int)[0] == s@[cur as int]);
        }
        if c == '"' {
            proof {
                let here = s@.skip(cur as int);
                assert(here.skip(1) =~= s@.skip(cur as int + 1));
                let e: Seq<char> = seq![];
                assert(sp_str_body(here) == Some((e, s@.skip(cur as int + 1))));
                assert(out@ + e =~= out@);
            }
            return Some((out, cur + 1));
        } else if c == '\\' {
            if cur + 1 >= sl {
                proof {
                    let here = s@.skip(cur as int);
                    assert(here.len() < 2);
                    assert(sp_str_body(here) is None);
                }
                return None;
            }
            let d = s.get_char(cur + 1);
            proof {
                assert(s@.skip(cur as int)[1] == s@[cur as int + 1]);
            }
            if d == '"' || d == '\\' || d == '/' || d == 'n' || d == 'r' || d == 't' || d == 'b'
                || d == 'f' {
                let mapped = if d == 'n' {
                    '\n'
                } else if d == 'r' {
                    '\r'
                } else if d == 't' {
                    '\t'
                } else if d == 'b' {
                    '\u{8}'
                } else if d == 'f' {
                    '\u{c}'
                } else {
                    d
                };
                proof {
                    let here = s@.skip(cur as int);
                    assert(here.skip(2) =~= s@.skip(cur as int + 2));
                }
                let ghost prev = out@;
                push_char(&mut out, mapped);
                proof {
                    let next = sp_str_body(s@.skip(cur as int + 2));
                    if next is Some {
                        let (v3, rest) = next.unwrap();
                        assert(sp_str_body(s@.skip(cur as int)) == Some(
                            (seq![mapped] + v3, rest),
                        ));
                        assert(out@ + v3 =~= prev + (seq![mapped] + v3));
                    }
                }
                cur += 2;
            } else if d == 'u' {
                if sl - cur < 6 {
                    proof {
                        assert(s@.skip(cur as int).len() < 6);
                    }
                    return None;
                }
                let h2 = s.get_char(cur + 2);
                let h3 = s.get_char(cur + 3);
                let h4 = s.get_char(cur + 4);
                let h5 = s.get_char(cur + 5);
                proof {
                    let here = s@.skip(cur as int);
                    assert(here[2] == s@[cur as int + 2]);
                    assert(here[3] == s@[cur as int + 3]);
                    assert(here[4] == s@[cur as int + 4]);
                    assert(here[5] == s@[cur as int + 5]);
                }
                if !char_is_hex(h2) || !char_is_hex(h3) || !char_is_hex(h4) || !char_is_hex(h5) {
                    return None;
                }
                let code = hex_digit_val(h2) * 4096 + hex_digit_val(h3) * 256 + hex_digit_val(h4)
                    * 16 + hex_digit_val(h5);
                if code >= 256 {
                    return None;
                }
                proof {
                    let here = s@.skip(cur as int);
                    assert(here.skip(6) =~= s@.skip(cur as int + 6));
                }
                let ghost prev = out@;
                let mapped = (code as u8) as char;
                push_char(&mut out, mapped);
                proof {
                    let next = sp_str_body(s@.skip(cur as int + 6));
                    if next is Some {
                        let (v3, rest) = next.unwrap();
                        assert(sp_str_body(s@.skip(cur as int)) == Some(
                            (seq![mapped] + v3, rest),
                        ));
                        assert(out@ + v3 =~= prev + (seq![mapped] + v3));
                    }
                }
                cur += 6;
            } else {
                proof {
                    assert(sp_str_body(s@.skip(cur as int)) is None);
                }
                return None;
            }
        } else {
            proof {
                let here = s@.skip(cur as int);
                assert(here.skip(1) =~= s@.skip(cur as int + 1));
            }
            let ghost prev = out@;
            push_char(&mut out, c);
            proof {
                let next = sp_str_body(s@.skip(cur as int + 1));
                if next is Some {
                    let (v3, rest) = next.unwrap();
                    assert(sp_str_body(s@.skip(cur as int)) == Some((seq![c] + v3, rest)));
                    assert(out@ + v3 =~= prev + (seq![c] + v3));
                }
            }
            cur += 1;
        }
    }
    proof {
        assert(s@.skip(cur as int).len() == 0);
    }
    None
}

/// Read a boolean word at position `i`.
pub fn parse_bool(s: &str, i: usize) -> (r: Option<(bool, usize)>)
    requires
        i <= s@.len(),
    ensures
        ({
            let t = s@.skip(i as int);
            match sp_bool(t) {
                Some((v, rest)) => match r {
                    Some((b, j)) => b == v && i <= j && j <= s@.len() && s@.skip(j as int)
                        == rest,
                    None => false,
                },
                None => r is None,
            }
        }),
{
    proof {
        reveal_strlit("true");
        reveal_strlit("false");
    }
    match parse_lit(s, i, "true") {
        Some(j) => {
            proof {
                let t = s@.skip(i as int);
                assert(t.take(4)[0] == t[0]);
            }
            Some((true, j))
        },
        None => match parse_lit(s, i, "false") {
            Some(j) => {
                proof {
                    let t = s@.skip(i as int);
                    assert(t.take(5)[0] == t[0]);
                }
                Some((false, j))
            },
            None => None,
        },
    }
}

/// The quoted, escaped form of a string, as it stands in the settings document.
pub fn quote_string(v: &str) -> (r: String)
    ensures
        r@ == quoted(v@),
{
    let mut out = String::new();
    push_char(&mut out, '"');
    proof {
        assert(out@ =~= seq!['"']);
        let e: Seq<char> = seq![];
        assert(v@.take(0) =~= e);
        assert(out@ =~= seq!['"'] + esc(v@.take(0)));
    }
    let vl = v.unicode_len();
    let mut k: usize = 0;
    while k < vl
        invariant
            k <= vl,
            vl == v@.len(),
            out@ == seq!['"'] + esc(v@.take(k as int)),
        decreases vl - k,
    {
        let c = v.get_char(k);
        if c == '"' || c == '\\' {
            push_char(&mut out, '\\');
            push_char(&mut out, c);
        } else if c == '\u{8}' {
            push_char(&mut out, '\\');
            push_char(&mut out, 'b');
        } else if c == '\u{c}' {
            push_char(&mut out, '\\');
            push_char(&mut out, 'f');
        } else if c == '\n' {
            push_char(&mut out, '\\');
            push_char(&mut out, 'n');
        } else if c == '\r' {
            push_char(&mut out, '\\');
            push_char(&mut out, 'r');
        } else if c == '\t' {
            push_char(&mut out, '\\');
            push_char(&mut out, 't');
        } else if (c as u32) < 32 {
            let code = c as u32;
            push_char(&mut out, '\\');
            push_char(&mut out, 'u');
            push_char(&mut out, '0');
            push_char(&mut out, '0');
            push_char(&mut out, hex_digit_char(code / 16));
            push_char(&mut out, hex_digit_char(code % 16));
        } else {
            push_char(&mut out, c);
        }
        proof {
            lemma_esc_append(v@.take(k as int), seq![c]);
            assert(v@.take(k as int + 1) =~= v@.take(k as int) + seq![c]);
            assert(seq![c].skip(1) =~= Seq::<char>::empty());
            assert(seq![c][0] == c);
            assert(esc(Seq::<char>::empty()) == Seq::<char>::empty());
            assert(esc(seq![c]) == esc_char(c) + Seq::<char>::empty());
            assert(esc_char(c) + Seq::<char>::empty() =~= esc_char(c));
            assert(out@ =~= seq!['"'] + esc(v@.take(k as int + 1)));
        }
        k += 1;
    }
    push_char(&mut out, '"');
    proof {
        assert(v@.take(vl as int) =~= v@);
        assert(out@ =~= quoted(v@));
    }
    out
}

} // verus!
