//! Flat JSON objects, the frames of the wire: `{"key":value,...}` where each
//! value is a string or a number, with no whitespace.
use vstd::prelude::*;
use crate::number::is_digit;
use crate::text::{escape, escape_char, hex_digit, hex_value, push_chars, push_quoted, quote};

verus! {

/// A field's value: the characters of a string, or the text of a number.
pub enum Scalar {
    Text(Seq<char>),
    Number(Seq<char>),
}

/// A field: its key and its value.
pub type Field = (Seq<char>, Scalar);

pub open spec fn render_scalar(v: Scalar) -> Seq<char> {
    match v {
        Scalar::Text(t) => quote(t),
        Scalar::Number(n) => n,
    }
}

pub open spec fn render_field(f: Field) -> Seq<char> {
    quote(f.0) + seq![':'] + render_scalar(f.1)
}

/// The fields, separated by commas.
pub open spec fn render_fields(fs: Seq<Field>) -> Seq<char>
    decreases fs.len(),
{
    if fs.len() == 0 {
        Seq::empty()
    } else if fs.len() == 1 {
        render_field(fs[0])
    } else {
        render_field(fs[0]) + seq![','] + render_fields(fs.drop_first())
    }
}

/// The object holding the fields, in order.
pub open spec fn render_object(fs: Seq<Field>) -> Seq<char> {
    seq!['{'] + render_fields(fs) + seq!['}']
}

pub open spec fn is_number_char(c: char) -> bool {
    is_digit(c) || c == '-' || c == '+' || c == '.' || c == 'e' || c == 'E'
}

/// Number texts are non-empty runs of number characters.
pub open spec fn fields_wf(fs: Seq<Field>) -> bool {
    forall|i: int| 0 <= i < fs.len() ==> field_wf(#[trigger] fs[i])
}

/// The escape sequence at `s[i] == '\\'`: the character it stands for and
/// its length. `\u` is read for code points below 0x100.
pub open spec fn unescape_at(s: Seq<char>, i: int) -> Option<(char, int)> {
    if s.len() - i < 2 {
        None
    } else {
        let e = s[i + 1];
        if e == '"' {
            Some(('"', 2))
        } else if e == '\\' {
            Some(('\\', 2))
        } else if e == '/' {
            Some(('/', 2))
        } else if e == 'b' {
            Some(('\u{8}', 2))
        } else if e == 'f' {
            Some(('\u{c}', 2))
        } else if e == 'n' {
            Some(('\n', 2))
        } else if e == 'r' {
            Some(('\r', 2))
        } else if e == 't' {
            Some(('\t', 2))
        } else if e == 'u' && s.len() - i > 5 && s[i + 2] == '0' && s[i + 3] == '0' && hex_value(
            s[i + 4],
        ) is Some && hex_value(s[i + 5]) is Some {
            Some(
                (
                    (hex_value(s[i + 4]).unwrap() * 16 + hex_value(s[i + 5]).unwrap()) as char,
                    6,
                ),
            )
        } else {
            None
        }
    }
}

/// Reads a string body from `i` up to its closing quote, appending its
/// characters to `acc`; returns them and the index after the quote.
pub open spec fn scan_text(s: Seq<char>, i: int, acc: Seq<char>) -> Option<(Seq<char>, int)>
    decreases s.len() - i,
{
    if i < 0 || i >= s.len() {
        None
    } else if s[i] == '"' {
        Some((acc, i + 1))
    } else if s[i] == '\\' {
        match unescape_at(s, i) {
            Some((c, n)) => if n > 0 {
                scan_text(s, i + n, acc.push(c))
            } else {
                None
            },
            None => None,
        }
    } else if (s[i] as u32) < 0x20 {
        None
    } else {
        scan_text(s, i + 1, acc.push(s[i]))
    }
}

/// End of the run of number characters that starts at `i`.
pub open spec fn number_end(s: Seq<char>, i: int) -> int
    decreases s.len() - i,
{
    if 0 <= i < s.len() && is_number_char(s[i]) {
        number_end(s, i + 1)
    } else {
        i
    }
}

/// Reads a value at `i`; returns it and the index after it.
pub open spec fn scan_value(s: Seq<char>, i: int) -> Option<(Scalar, int)> {
    if 0 <= i < s.len() && s[i] == '"' {
        match scan_text(s, i + 1, Seq::empty()) {
            Some((t, e)) => Some((Scalar::Text(t), e)),
            None => None,
        }
    } else {
        let e = number_end(s, i);
        if 0 <= i < e {
            Some((Scalar::Number(s.subrange(i, e)), e))
        } else {
            None
        }
    }
}

/// Reads `"key":value` at `i`; returns the field and the index after it.
#[verifier::opaque]
pub open spec fn scan_field(s: Seq<char>, i: int) -> Option<(Field, int)> {
    if 0 <= i < s.len() && s[i] == '"' {
        match scan_text(s, i + 1, Seq::empty()) {
            Some((k, j)) => if 0 <= j < s.len() && s[j] == ':' {
                match scan_value(s, j + 1) {
                    Some((v, e)) => Some(((k, v), e)),
                    None => None,
                }
            } else {
                None
            },
            None => None,
        }
    } else {
        None
    }
}

/// Reads the fields from `i` to the closing brace, which must end `s`.
pub open spec fn parse_fields(s: Seq<char>, i: int, acc: Seq<Field>) -> Option<Seq<Field>>
    decreases s.len() - i,
{
    match scan_field(s, i) {
        Some((f, e)) => if e <= i {
            None
        } else if e < s.len() && s[e] == ',' {
            parse_fields(s, e + 1, acc.push(f))
        } else if e == s.len() - 1 && s[e] == '}' {
            Some(acc.push(f))
        } else {
            None
        },
        None => None,
    }
}

/// The fields of a flat object, or `None` if `s` is not one.
pub open spec fn parse_object(s: Seq<char>) -> Option<Seq<Field>> {
    if s.len() >= 2 && s[0] == '{' {
        if s.len() == 2 && s[1] == '}' {
            Some(Seq::empty())
        } else {
            parse_fields(s, 1, Seq::empty())
        }
    } else {
        None
    }
}

// ---- rendering, then reading back ----

pub proof fn lemma_hex_round_trip(n: int)
    requires
        0 <= n < 16,
    ensures
        hex_value(hex_digit(n)) == Some(n),
{
}

/// A string body and its closing quote read back as the string.
pub proof fn lemma_scan_text(
    s: Seq<char>,
    pre: Seq<char>,
    t: Seq<char>,
    post: Seq<char>,
    acc: Seq<char>,
)
    requires
        s == pre + escape(t) + seq!['"'] + post,
    ensures
        scan_text(s, pre.len() as int, acc) == Some(
            (acc + t, (pre.len() + escape(t).len() + 1) as int),
        ),
    decreases t.len(),
{
    let i = pre.len() as int;
    if t.len() == 0 {
        assert(escape(t) == Seq::<char>::empty());
        assert(s[i] == '"');
        assert(acc + t =~= acc);
    } else {
        let c = t[0];
        let ec = escape_char(c);
        let rest = t.drop_first();
        assert(escape(t) == ec + escape(rest));
        assert(s =~= (pre + ec) + escape(rest) + seq!['"'] + post);
        lemma_scan_text(s, pre + ec, rest, post, acc.push(c));
        assert(acc.push(c) + rest =~= acc + t);
        assert(escape(rest).len() + ec.len() == escape(t).len());
        assert forall|k: int| 0 <= k < ec.len() implies s[i + k] == ec[k] by {
            assert(s[i + k] == (pre + ec)[i + k]);
        }
        assert(i + ec.len() < s.len());
        if c == '"' {
            assert(unescape_at(s, i) == Some(('"', 2int)));
        } else if c == '\\' {
            assert(unescape_at(s, i) == Some(('\\', 2int)));
        } else if (c as u32) < 0x20 {
            let v = (c as u32) as int;
            lemma_hex_round_trip(v / 16);
            lemma_hex_round_trip(v % 16);
            assert(s[i + 4] == hex_digit(v / 16));
            assert(s[i + 5] == hex_digit(v % 16));
            assert((v / 16) * 16 + v % 16 == v);
            vstd::utf8::char_u32_cast(c, c as u32);
            assert(unescape_at(s, i) == Some((c, 6int)));
        } else {
            assert(s[i] == c);
        }
    }
}

/// A run of number characters ends where the next character is not one.
pub proof fn lemma_number_end(s: Seq<char>, i: int, e: int)
    requires
        0 <= i <= e <= s.len(),
        forall|j: int| i <= j < e ==> is_number_char(#[trigger] s[j]),
        e == s.len() || !is_number_char(s[e]),
    ensures
        number_end(s, i) == e,
    decreases e - i,
{
    if i < e {
        lemma_number_end(s, i + 1, e);
    }
}

pub open spec fn field_wf(f: Field) -> bool {
    scalar_wf(f.1)
}

pub open spec fn scalar_wf(v: Scalar) -> bool {
    match v {
        Scalar::Number(n) => n.len() > 0 && forall|j: int|
            0 <= j < n.len() ==> is_number_char(#[trigger] n[j]),
        Scalar::Text(_) => true,
    }
}

/// A rendered value reads back as itself, given what follows it is no
/// number character.
pub proof fn lemma_scan_value(s: Seq<char>, pre: Seq<char>, v: Scalar, post: Seq<char>)
    requires
        s == pre + render_scalar(v) + post,
        scalar_wf(v),
        post.len() > 0,
        !is_number_char(post[0]),
    ensures
        scan_value(s, pre.len() as int) == Some((v, (pre.len() + render_scalar(v).len()) as int)),
{
    let i = pre.len() as int;
    match v {
        Scalar::Text(t) => {
            assert(s =~= (pre + seq!['"']) + escape(t) + seq!['"'] + post);
            assert(s[i] == '"');
            lemma_scan_text(s, pre + seq!['"'], t, post, Seq::empty());
            assert(Seq::<char>::empty() + t =~= t);
        },
        Scalar::Number(n) => {
            assert(s[i] == n[0]);
            assert forall|q: int| i <= q < i + n.len() implies is_number_char(#[trigger] s[q]) by {
                assert(s[q] == n[q - i]);
            }
            assert(s[i + n.len()] == post[0]);
            lemma_number_end(s, i, i + n.len());
            assert(s.subrange(i, i + n.len()) =~= n);
        },
    }
}

/// A rendered field reads back as itself, given what follows it is no
/// number character.
pub proof fn lemma_scan_field(s: Seq<char>, pre: Seq<char>, f: Field, post: Seq<char>)
    requires
        s == pre + render_field(f) + post,
        field_wf(f),
        post.len() > 0,
        !is_number_char(post[0]),
    ensures
        scan_field(s, pre.len() as int) == Some((f, (pre.len() + render_field(f).len()) as int)),
{
    reveal(scan_field);
    let i = pre.len() as int;
    let k = f.0;
    let rv = render_scalar(f.1);
    let pre1 = pre + seq!['"'];
    assert(s =~= pre1 + escape(k) + seq!['"'] + (seq![':'] + rv + post));
    assert(s[i] == '"');
    lemma_scan_text(s, pre1, k, seq![':'] + rv + post, Seq::empty());
    assert(Seq::<char>::empty() + k =~= k);
    let j = i + 1 + escape(k).len() + 1;
    let pre2 = pre1 + escape(k) + seq!['"'] + seq![':'];
    assert(s =~= pre2 + rv + post);
    assert(s[j] == ':');
    lemma_scan_value(s, pre2, f.1, post);
}

/// Rendered fields and the closing brace read back as the fields.
pub proof fn lemma_parse_fields(s: Seq<char>, pre: Seq<char>, fs: Seq<Field>, acc: Seq<Field>)
    requires
        s == pre + render_fields(fs) + seq!['}'],
        fs.len() > 0,
        fields_wf(fs),
    ensures
        parse_fields(s, pre.len() as int, acc) == Some(acc + fs),
    decreases fs.len(),
{
    let f = fs[0];
    assert(field_wf(f)) by {
        assert(fields_wf(fs));
        let x = fs[0].1;
    }
    if fs.len() == 1 {
        assert(render_fields(fs) == render_field(f));
        lemma_scan_field(s, pre, f, seq!['}']);
        assert(acc.push(f) =~= acc + fs);
    } else {
        let rest = fs.drop_first();
        assert(render_fields(fs) == render_field(f) + seq![','] + render_fields(rest));
        assert(s =~= pre + render_field(f) + (seq![','] + render_fields(rest) + seq!['}']));
        lemma_scan_field(s, pre, f, seq![','] + render_fields(rest) + seq!['}']);
        let pre1 = pre + render_field(f) + seq![','];
        assert(s =~= pre1 + render_fields(rest) + seq!['}']);
        assert(fields_wf(rest)) by {
            assert forall|i: int| 0 <= i < rest.len() implies field_wf(rest[i]) by {
                assert(rest[i] == fs[i + 1]);
            }
        }
        lemma_parse_fields(s, pre1, rest, acc.push(f));
        assert(acc.push(f) + rest =~= acc + fs);
    }
}

/// A rendered object reads back as its fields.
pub proof fn lemma_parse_object(fs: Seq<Field>)
    requires
        fields_wf(fs),
    ensures
        parse_object(render_object(fs)) == Some(fs),
{
    let s = render_object(fs);
    if fs.len() == 0 {
        assert(render_fields(fs) == Seq::<char>::empty());
        assert(s =~= seq!['{', '}']);
    } else {
        assert(render_field(fs[0]).len() >= 3);
        assert(render_fields(fs).len() >= 3) by {
            if fs.len() > 1 {
                assert(render_fields(fs) == render_field(fs[0]) + seq![','] + render_fields(
                    fs.drop_first(),
                ));
            }
        }
        lemma_parse_fields(s, seq!['{'], fs, Seq::empty());
        assert(Seq::<Field>::empty() + fs =~= fs);
    }
}

// ---- executable ----

/// A field value held in memory.
pub enum WireScalar {
    Text(Vec<char>),
    Number(Vec<char>),
}

impl View for WireScalar {
    type V = Scalar;

    open spec fn view(&self) -> Scalar {
        match self {
            WireScalar::Text(t) => Scalar::Text(t@),
            WireScalar::Number(n) => Scalar::Number(n@),
        }
    }
}

/// A field held in memory.
pub struct WireField {
    pub key: Vec<char>,
    pub value: WireScalar,
}

impl View for WireField {
    type V = Field;

    open spec fn view(&self) -> Field {
        (self.key@, self.value@)
    }
}

pub open spec fn fields_view(fs: Seq<WireField>) -> Seq<Field> {
    fs.map_values(|f: WireField| f@)
}

/// Appending one field to rendered fields adds a comma and the field.
pub proof fn lemma_render_fields_push(fs: Seq<Field>, f: Field)
    ensures
        render_fields(fs.push(f)) == if fs.len() == 0 {
            render_field(f)
        } else {
            render_fields(fs) + seq![','] + render_field(f)
        },
    decreases fs.len(),
{
    if fs.len() == 0 {
        assert(fs.push(f) =~= seq![f]);
    } else if fs.len() == 1 {
        assert(fs.push(f).drop_first() =~= seq![f]);
        assert(render_fields(seq![f]) == render_field(f));
    } else {
        assert(fs.push(f).drop_first() =~= fs.drop_first().push(f));
        lemma_render_fields_push(fs.drop_first(), f);
        assert(fs.push(f)[0] == fs[0]);
        assert(render_fields(fs.push(f)) =~= render_field(fs[0]) + seq![','] + (render_fields(
            fs.drop_first(),
        ) + seq![','] + render_field(f)));
    }
}

fn push_field(out: &mut Vec<char>, f: &WireField)
    ensures
        final(out)@ == old(out)@ + render_field(f@),
{
    push_quoted(out, &f.key);
    out.push(':');
    match &f.value {
        WireScalar::Text(t) => push_quoted(out, t),
        WireScalar::Number(n) => push_chars(out, n),
    }
    assert(out@ =~= old(out)@ + render_field(f@));
}

/// The text of the object holding `fs`.
pub fn render_object_exec(fs: &Vec<WireField>) -> (r: Vec<char>)
    ensures
        r@ == render_object(fields_view(fs@)),
{
    let mut out: Vec<char> = Vec::new();
    out.push('{');
    let mut i: usize = 0;
    while i < fs.len()
        invariant
            i <= fs@.len(),
            out@ == seq!['{'] + render_fields(fields_view(fs@).take(i as int)),
        decreases fs.len() - i,
    {
        let ghost before = out@;
        if i > 0 {
            out.push(',');
        }
        push_field(&mut out, &fs[i]);
        proof {
            let v = fields_view(fs@);
            assert(v.take(i + 1) =~= v.take(i as int).push(fs@[i as int]@));
            lemma_render_fields_push(v.take(i as int), fs@[i as int]@);
            assert(out@ =~= seq!['{'] + render_fields(v.take(i + 1)));
        }
        i = i + 1;
    }
    out.push('}');
    assert(fields_view(fs@).take(fs@.len() as int) =~= fields_view(fs@));
    out
}

fn hex_value_exec(c: char) -> (r: Option<u32>)
    ensures
        r matches Some(v) ==> hex_value(c) == Some(v as int),
        r is None ==> hex_value(c) is None,
{
    if '0' <= c && c <= '9' {
        Some(c as u32 - 48)
    } else if 'a' <= c && c <= 'f' {
        Some(c as u32 - 87)
    } else if 'A' <= c && c <= 'F' {
        Some(c as u32 - 55)
    } else {
        None
    }
}

fn unescape_exec(s: &Vec<char>, i: usize) -> (r: Option<(char, usize)>)
    requires
        i < s@.len(),
    ensures
        r matches Some((c, n)) ==> unescape_at(s@, i as int) == Some((c, n as int)),
        r is None ==> unescape_at(s@, i as int) is None,
{
    if s.len() - i < 2 {
        return None;
    }
    let e = s[i + 1];
    if e == '"' {
        Some(('"', 2))
    } else if e == '\\' {
        Some(('\\', 2))
    } else if e == '/' {
        Some(('/', 2))
    } else if e == 'b' {
        Some(('\u{8}', 2))
    } else if e == 'f' {
        Some(('\u{c}', 2))
    } else if e == 'n' {
        Some(('\n', 2))
    } else if e == 'r' {
        Some(('\r', 2))
    } else if e == 't' {
        Some(('\t', 2))
    } else if e == 'u' && s.len() - i > 5 && s[i + 2] == '0' && s[i + 3] == '0' {
        match (hex_value_exec(s[i + 4]), hex_value_exec(s[i + 5])) {
            (Some(h), Some(l)) => {
                let v: u8 = (h * 16 + l) as u8;
                Some((v as char, 6))
            },
            _ => None,
        }
    } else {
        None
    }
}

fn scan_text_exec(s: &Vec<char>, i: usize) -> (r: Option<(Vec<char>, usize)>)
    ensures
        r matches Some((t, e)) ==> scan_text(s@, i as int, Seq::empty()) == Some((t@, e as int)),
        r is None ==> scan_text(s@, i as int, Seq::empty()) is None,
{
    let mut acc: Vec<char> = Vec::new();
    let mut j: usize = i;
    loop
        invariant
            i <= j,
            scan_text(s@, j as int, acc@) == scan_text(s@, i as int, Seq::empty()),
        decreases s@.len() - j,
    {
        if j >= s.len() {
            return None;
        }
        let c = s[j];
        if c == '"' {
            return Some((acc, j + 1));
        } else if c == '\\' {
            match unescape_exec(s, j) {
                Some((d, n)) => {
                    acc.push(d);
                    j = j + n;
                },
                None => {
                    return None;
                },
            }
        } else if (c as u32) < 0x20 {
            return None;
        } else {
            acc.push(c);
            j = j + 1;
        }
    }
}

fn number_end_exec(s: &Vec<char>, i: usize) -> (r: usize)
    requires
        i <= s@.len(),
    ensures
        r == number_end(s@, i as int),
        i <= r <= s@.len(),
{
    let mut j: usize = i;
    while j < s.len() && (('0' <= s[j] && s[j] <= '9') || s[j] == '-' || s[j] == '+' || s[j]
        == '.' || s[j] == 'e' || s[j] == 'E')
        invariant
            i <= j <= s@.len(),
            number_end(s@, j as int) == number_end(s@, i as int),
        decreases s@.len() - j,
    {
        j = j + 1;
    }
    j
}

fn slice_chars(s: &Vec<char>, lo: usize, hi: usize) -> (r: Vec<char>)
    requires
        lo <= hi <= s@.len(),
    ensures
        r@ == s@.subrange(lo as int, hi as int),
{
    let mut r: Vec<char> = Vec::new();
    let mut j: usize = lo;
    while j < hi
        invariant
            lo <= j <= hi <= s@.len(),
            r@ == s@.subrange(lo as int, j as int),
        decreases hi - j,
    {
        r.push(s[j]);
        j = j + 1;
        assert(r@ =~= s@.subrange(lo as int, j as int));
    }
    r
}

fn scan_value_exec(s: &Vec<char>, i: usize) -> (r: Option<(WireScalar, usize)>)
    requires
        i <= s@.len(),
    ensures
        r matches Some((v, e)) ==> scan_value(s@, i as int) == Some((v@, e as int)),
        r is None ==> scan_value(s@, i as int) is None,
{
    if i < s.len() && s[i] == '"' {
        match scan_text_exec(s, i + 1) {
            Some((t, e)) => Some((WireScalar::Text(t), e)),
            None => None,
        }
    } else {
        let e = number_end_exec(s, i);
        if i < e {
            Some((WireScalar::Number(slice_chars(s, i, e)), e))
        } else {
            None
        }
    }
}

fn scan_field_exec(s: &Vec<char>, i: usize) -> (r: Option<(WireField, usize)>)
    requires
        i <= s@.len(),
    ensures
        r matches Some((f, e)) ==> scan_field(s@, i as int) == Some((f@, e as int)) && e <= s@.len(),
        r is None ==> scan_field(s@, i as int) is None,
{
    reveal(scan_field);
    if i < s.len() && s[i] == '"' {
        match scan_text_exec(s, i + 1) {
            Some((key, j)) => {
                if j < s.len() && s[j] == ':' {
                    match scan_value_exec(s, j + 1) {
                        Some((value, e)) => {
                            proof {
                                lemma_scan_value_end(s@, (j + 1) as int);
                            }
                            Some((WireField { key, value }, e))
                        },
                        None => None,
                    }
                } else {
                    None
                }
            },
            None => None,
        }
    } else {
        None
    }
}

pub proof fn lemma_number_end_bound(s: Seq<char>, i: int)
    requires
        0 <= i <= s.len(),
    ensures
        i <= number_end(s, i) <= s.len(),
    decreases s.len() - i,
{
    if i < s.len() && is_number_char(s[i]) {
        lemma_number_end_bound(s, i + 1);
    }
}

pub proof fn lemma_scan_text_end(s: Seq<char>, i: int, acc: Seq<char>)
    ensures
        scan_text(s, i, acc) matches Some((t, e)) ==> e <= s.len(),
    decreases s.len() - i,
{
    if 0 <= i < s.len() && s[i] != '"' {
        if s[i] == '\\' {
            match unescape_at(s, i) {
                Some((c, n)) => {
                    if n > 0 {
                        lemma_scan_text_end(s, i + n, acc.push(c));
                    }
                },
                None => {},
            }
        } else if (s[i] as u32) >= 0x20 {
            lemma_scan_text_end(s, i + 1, acc.push(s[i]));
        }
    }
}

pub proof fn lemma_scan_value_end(s: Seq<char>, i: int)
    requires
        0 <= i <= s.len(),
    ensures
        scan_value(s, i) matches Some((v, e)) ==> e <= s.len(),
{
    lemma_scan_text_end(s, i + 1, Seq::empty());
    lemma_number_end_bound(s, i);
}

/// The fields of the flat object `s`, or `None` if it is not one.
pub fn parse_object_exec(s: &Vec<char>) -> (r: Option<Vec<WireField>>)
    ensures
        r matches Some(fs) ==> parse_object(s@) == Some(fields_view(fs@)),
        r is None ==> parse_object(s@) is None,
{
    let n = s.len();
    if n < 2 || s[0] != '{' {
        return None;
    }
    let mut acc: Vec<WireField> = Vec::new();
    if n == 2 && s[1] == '}' {
        assert(fields_view(acc@) =~= Seq::<Field>::empty());
        return Some(acc);
    }
    let mut i: usize = 1;
    assert(fields_view(acc@) =~= Seq::<Field>::empty());
    loop
        invariant
            n == s@.len(),
            1 <= i <= n,
            n >= 2 && s@[0] == '{' && !(n == 2 && s@[1] == '}'),
            parse_fields(s@, i as int, fields_view(acc@)) == parse_fields(s@, 1, Seq::empty()),
        decreases n - i,
    {
        match scan_field_exec(s, i) {
            Some((f, e)) => {
                proof {
                    assert(fields_view(acc@.push(f)) =~= fields_view(acc@).push(f@));
                }
                if e <= i {
                    return None;
                } else if e < n && s[e] == ',' {
                    acc.push(f);
                    i = e + 1;
                } else if e == n - 1 && s[e] == '}' {
                    acc.push(f);
                    return Some(acc);
                } else {
                    return None;
                }
            },
            None => {
                return None;
            },
        }
    }
}

} // verus!
