//! Ordered query-parameter containers and their wire rendering.
//!
//! A [`QueryParams`] accumulates key/value pairs preserving insertion order and
//! allowing repeated keys.  Rendering to a query string is a separate pure
//! operation: every UTF-8 byte of a key or value is kept when it is in the
//! form-encoding safe set, turned into `+` when it is a space, and
//! percent-encoded otherwise.

use vstd::prelude::*;
use vstd::utf8::encode_utf8;

verus! {

/// Whether a byte is kept as-is by form encoding: ASCII alphanumerics and
/// `*`, `-`, `.`, `_`.
pub open spec fn is_safe_byte(b: u8) -> bool {
    (0x30 <= b && b <= 0x39) || (0x41 <= b && b <= 0x5a) || (0x61 <= b && b <= 0x7a) || b == 0x2a
        || b == 0x2d || b == 0x2e || b == 0x5f
}

/// The ASCII code of the upper-case hexadecimal digit for `d < 16`.
pub open spec fn hex_digit(d: u8) -> u8 {
    if d < 10 {
        (0x30 + d) as u8
    } else {
        (0x37 + d) as u8
    }
}

/// The form encoding of one byte.
pub open spec fn encoded_byte(b: u8) -> Seq<u8> {
    if b == 0x20 {
        seq![0x2bu8]
    } else if is_safe_byte(b) {
        seq![b]
    } else {
        seq![0x25u8, hex_digit(b / 16), hex_digit(b % 16)]
    }
}

/// The form encoding of a byte sequence.
pub open spec fn encoded_bytes(bs: Seq<u8>) -> Seq<u8>
    decreases bs.len(),
{
    if bs.len() == 0 {
        Seq::empty()
    } else {
        encoded_byte(bs[0]) + encoded_bytes(bs.drop_first())
    }
}

/// The form encoding of a string: its UTF-8 bytes, encoded byte by byte.
pub open spec fn encoded_str(s: Seq<char>) -> Seq<u8> {
    encoded_bytes(encode_utf8(s))
}

/// One rendered `key=value` pair.
pub open spec fn rendered_pair(k: Seq<char>, v: Seq<char>) -> Seq<u8> {
    encoded_str(k) + seq![0x3du8] + encoded_str(v)
}

/// A whole rendered query string: the pairs in order, separated by `&`.
pub open spec fn rendered_query(ps: Seq<(Seq<char>, Seq<char>)>) -> Seq<u8>
    decreases ps.len(),
{
    if ps.len() == 0 {
        Seq::empty()
    } else if ps.len() == 1 {
        rendered_pair(ps[0].0, ps[0].1)
    } else {
        rendered_query(ps.drop_last()) + seq![0x26u8] + rendered_pair(ps.last().0, ps.last().1)
    }
}

/// In specifications: `ps` with `(key, v)` appended when `v` is present.
pub open spec fn opt_pair(
    ps: Seq<(Seq<char>, Seq<char>)>,
    key: Seq<char>,
    v: Option<Seq<char>>,
) -> Seq<(Seq<char>, Seq<char>)> {
    match v {
        Some(value) => ps.push((key, value)),
        None => ps,
    }
}

/// Bytes as characters, for relating rendered bytes to a `String` view.
pub open spec fn bytes_as_chars(bs: Seq<u8>) -> Seq<char> {
    bs.map_values(|b: u8| b as char)
}

proof fn lemma_encoded_bytes_push(bs: Seq<u8>, b: u8)
    ensures
        encoded_bytes(bs.push(b)) == encoded_bytes(bs) + encoded_byte(b),
    decreases bs.len(),
{
    if bs.len() == 0 {
        let s = bs.push(b);
        assert(s[0] == b);
        assert(s.drop_first() =~= Seq::<u8>::empty());
        assert(encoded_byte(b) + encoded_bytes(Seq::<u8>::empty()) =~= encoded_byte(b));
        assert(encoded_bytes(bs) + encoded_byte(b) =~= encoded_byte(b));
    } else {
        assert(bs.push(b)[0] == bs[0]);
        assert(bs.push(b).drop_first() =~= bs.drop_first().push(b));
        lemma_encoded_bytes_push(bs.drop_first(), b);
        assert(encoded_bytes(bs.push(b)) =~= encoded_bytes(bs) + encoded_byte(b));
    }
}

proof fn lemma_low_concat(a: Seq<u8>, b: Seq<u8>)
    requires
        forall|i: int| 0 <= i < a.len() ==> a[i] < 0x80,
        forall|i: int| 0 <= i < b.len() ==> b[i] < 0x80,
    ensures
        forall|i: int| 0 <= i < (a + b).len() ==> #[trigger] (a + b)[i] < 0x80,
{
    assert forall|i: int| 0 <= i < (a + b).len() implies #[trigger] (a + b)[i] < 0x80 by {
        if i < a.len() {
            assert((a + b)[i] == a[i]);
        } else {
            assert((a + b)[i] == b[i - a.len()]);
        }
    }
}

proof fn lemma_encoded_byte_ascii(b: u8)
    ensures
        forall|i: int| 0 <= i < encoded_byte(b).len() ==> #[trigger] encoded_byte(b)[i] < 0x80,
{
    if b == 0x20 {
        assert(encoded_byte(b)[0] == 0x2b);
    } else if is_safe_byte(b) {
        assert(encoded_byte(b)[0] == b);
    } else {
        assert(b / 16 < 16);
        assert(encoded_byte(b)[0] == 0x25);
        assert(encoded_byte(b)[1] == hex_digit(b / 16));
        assert(encoded_byte(b)[2] == hex_digit(b % 16));
    }
}

/// Every byte of an encoded byte sequence is ASCII.
pub proof fn lemma_encoded_bytes_ascii(bs: Seq<u8>)
    ensures
        forall|i: int| 0 <= i < encoded_bytes(bs).len() ==> #[trigger] encoded_bytes(bs)[i]
            < 0x80,
    decreases bs.len(),
{
    if bs.len() != 0 {
        lemma_encoded_byte_ascii(bs[0]);
        lemma_encoded_bytes_ascii(bs.drop_first());
        lemma_low_concat(encoded_byte(bs[0]), encoded_bytes(bs.drop_first()));
    }
}

/// Relies on `String::from_utf8`: a sequence of ASCII bytes decodes to the
/// string whose characters are exactly those bytes.
#[verifier::external_body]
pub(crate) fn ascii_string(bytes: &Vec<u8>) -> (r: String)
    requires
        forall|i: int| 0 <= i < bytes@.len() ==> bytes@[i] < 0x80,
    ensures
        r@ == bytes_as_chars(bytes@),
{
    match String::from_utf8(bytes.clone()) {
        Ok(s) => s,
        Err(_) => String::new(),
    }
}

/// The decimal digits of `n`, as ASCII bytes, most significant first.
pub open spec fn dec_rep(n: nat) -> Seq<u8>
    decreases n,
{
    if n < 10 {
        seq![(0x30 + n) as u8]
    } else {
        dec_rep(n / 10) + seq![(0x30 + n % 10) as u8]
    }
}

/// The decimal digits of `n`, as characters.
pub open spec fn dec_str(n: nat) -> Seq<char> {
    bytes_as_chars(dec_rep(n))
}

/// Every byte of a decimal representation is an ASCII digit.
pub proof fn lemma_dec_rep_digits(n: nat)
    ensures
        forall|i: int| 0 <= i < dec_rep(n).len() ==> 0x30 <= #[trigger] dec_rep(n)[i] <= 0x39,
    decreases n,
{
    if n < 10 {
        assert(dec_rep(n)[0] == (0x30 + n) as u8);
    } else {
        lemma_dec_rep_digits(n / 10);
        let head = dec_rep(n / 10);
        let tail = seq![(0x30 + n % 10) as u8];
        assert(tail[0] == (0x30 + n % 10) as u8);
        assert forall|i: int| 0 <= i < dec_rep(n).len() implies 0x30 <= #[trigger] dec_rep(n)[i]
            <= 0x39 by {
            if i < head.len() {
                assert(dec_rep(n)[i] == head[i]);
            } else {
                assert(dec_rep(n)[i] == tail[i - head.len()]);
            }
        }
    }
}

fn push_dec(out: &mut Vec<u8>, n: u64)
    ensures
        final(out)@ == old(out)@ + dec_rep(n as nat),
    decreases n,
{
    if n < 10 {
        out.push(0x30 + n as u8);
        assert(out@ =~= old(out)@ + dec_rep(n as nat));
    } else {
        assert(n / 10 < n) by (nonlinear_arith)
            requires
                n >= 10,
        ;
        push_dec(out, n / 10);
        out.push(0x30 + (n % 10) as u8);
        assert(out@ =~= old(out)@ + dec_rep(n as nat));
    }
}

/// Render `n` in decimal.
pub fn u64_dec(n: u64) -> (r: String)
    ensures
        r@ == dec_str(n as nat),
{
    let mut bytes: Vec<u8> = Vec::new();
    push_dec(&mut bytes, n);
    proof {
        lemma_dec_rep_digits(n as nat);
    }
    ascii_string(&bytes)
}

fn hex_digit_exec(d: u8) -> (r: u8)
    requires
        d < 16,
    ensures
        r == hex_digit(d),
{
    if d < 10 {
        0x30 + d
    } else {
        0x37 + d
    }
}

fn is_safe_byte_exec(b: u8) -> (r: bool)
    ensures
        r == is_safe_byte(b),
{
    (0x30 <= b && b <= 0x39) || (0x41 <= b && b <= 0x5a) || (0x61 <= b && b <= 0x7a) || b == 0x2a
        || b == 0x2d || b == 0x2e || b == 0x5f
}

/// Append the form encoding of `s` to `out`.
fn encode_into(out: &mut Vec<u8>, s: &str)
    ensures
        final(out)@ == old(out)@ + encoded_str(s@),
{
    let bytes = s.as_bytes();
    let n = bytes.len();
    let mut i: usize = 0;
    while i < n
        invariant
            n == bytes@.len(),
            bytes@ == encode_utf8(s@),
            i <= n,
            out@ == old(out)@ + encoded_bytes(bytes@.take(i as int)),
        decreases n - i,
    {
        let b = bytes[i];
        if b == 0x20 {
            out.push(0x2b);
        } else if is_safe_byte_exec(b) {
            out.push(b);
        } else {
            out.push(0x25);
            out.push(hex_digit_exec(b / 16));
            out.push(hex_digit_exec(b % 16));
        }
        proof {
            assert(bytes@.take(i + 1) =~= bytes@.take(i as int).push(b));
            lemma_encoded_bytes_push(bytes@.take(i as int), b);
            assert(out@ =~= old(out)@ + encoded_bytes(bytes@.take(i + 1)));
        }
        i = i + 1;
    }
    proof {
        assert(bytes@.take(n as int) =~= bytes@);
    }
}

/// An ordered multi-map of query-string parameters.
///
/// Insertion order is preserved and repeated keys are allowed.
#[derive(Debug, Clone, Default)]
pub struct QueryParams {
    pairs: Vec<(String, String)>,
}

impl View for QueryParams {
    type V = Seq<(Seq<char>, Seq<char>)>;

    closed spec fn view(&self) -> Seq<(Seq<char>, Seq<char>)> {
        self.pairs@.map_values(|p: (String, String)| (p.0@, p.1@))
    }
}

impl QueryParams {
    /// An empty parameter list.
    pub fn new() -> (r: Self)
        ensures
            r@ == Seq::<(Seq<char>, Seq<char>)>::empty(),
    {
        let r = QueryParams { pairs: Vec::new() };
        proof {
            assert(r@ =~= Seq::<(Seq<char>, Seq<char>)>::empty());
        }
        r
    }

    /// The number of pairs held.
    pub fn len(&self) -> (r: usize)
        ensures
            r == self@.len(),
    {
        self.pairs.len()
    }

    /// Append one pair.
    pub fn push(&mut self, key: &str, value: &str)
        ensures
            final(self)@ == old(self)@.push((key@, value@)),
    {
        self.pairs.push((key.to_owned(), value.to_owned()));
        proof {
            assert(self@ =~= old(self)@.push((key@, value@)));
        }
    }

    /// Append one pair if the value is present, else leave the list as it is.
    pub fn push_opt(&mut self, key: &str, value: &Option<String>)
        ensures
            match value {
                Some(v) => final(self)@ == old(self)@.push((key@, v@)),
                None => final(self)@ == old(self)@,
            },
    {
        match value {
            Some(v) => self.push(key, v.as_str()),
            None => (),
        }
    }

    /// Append one pair for each value, all under the same key, in order.
    pub fn extend(&mut self, key: &str, values: &Vec<String>)
        ensures
            final(self)@ == old(self)@ + values@.map_values(|v: String| (key@, v@)),
    {
        let n = values.len();
        let mut i: usize = 0;
        while i < n
            invariant
                n == values@.len(),
                i <= n,
                self@ == old(self)@ + values@.take(i as int).map_values(
                    |v: String| (key@, v@),
                ),
        decreases n - i,
        {
            self.push(key, values[i].as_str());
            proof {
                assert(values@.take(i + 1) =~= values@.take(i as int).push(values@[i as int]));
                assert(self@ =~= old(self)@ + values@.take(i + 1).map_values(
                    |v: String| (key@, v@),
                ));
            }
            i = i + 1;
        }
        proof {
            assert(values@.take(n as int) =~= values@);
            assert(self@ =~= old(self)@ + values@.map_values(|v: String| (key@, v@)));
        }
    }

    /// Render the parameters as a query string.
    ///
    /// The result is a pure function of the held pairs, so rendering twice
    /// without mutation in between yields identical strings.
    pub fn render(&self) -> (r: String)
        ensures
            r@ == bytes_as_chars(rendered_query(self@)),
    {
        let mut out: Vec<u8> = Vec::new();
        let n = self.pairs.len();
        let mut i: usize = 0;
        while i < n
            invariant
                n == self.pairs@.len(),
                n == self@.len(),
                i <= n,
                out@ == rendered_query(self@.take(i as int)),
                forall|j: int| 0 <= j < self@.len() ==> #[trigger] self@[j] == (
                self.pairs@[j].0@,
                self.pairs@[j].1@,
                ),
            decreases n - i,
        {
            if i > 0 {
                out.push(0x26);
            }
            encode_into(&mut out, self.pairs[i].0.as_str());
            out.push(0x3d);
            encode_into(&mut out, self.pairs[i].1.as_str());
            proof {
                assert(self@.take(i + 1).drop_last() =~= self@.take(i as int));
                assert(self@.take(i + 1).last() == self@[i as int]);
                assert(out@ =~= rendered_query(self@.take(i + 1)));
            }
            i = i + 1;
        }
        proof {
            assert(self@.take(n as int) =~= self@);
            lemma_rendered_query_ascii(self@);
        }
        ascii_string(&out)
    }
}

proof fn lemma_rendered_pair_ascii(k: Seq<char>, v: Seq<char>)
    ensures
        forall|i: int| 0 <= i < rendered_pair(k, v).len() ==> #[trigger] rendered_pair(k, v)[i]
            < 0x80,
{
    lemma_encoded_bytes_ascii(encode_utf8(k));
    lemma_encoded_bytes_ascii(encode_utf8(v));
    assert(seq![0x3du8][0] == 0x3du8);
    lemma_low_concat(encoded_str(k), seq![0x3du8]);
    lemma_low_concat(encoded_str(k) + seq![0x3du8], encoded_str(v));
}

/// Every byte of a rendered query string is ASCII.
pub proof fn lemma_rendered_query_ascii(ps: Seq<(Seq<char>, Seq<char>)>)
    ensures
        forall|i: int| 0 <= i < rendered_query(ps).len() ==> #[trigger] rendered_query(ps)[i]
            < 0x80,
    decreases ps.len(),
{
    if ps.len() == 0 {
    } else if ps.len() == 1 {
        lemma_rendered_pair_ascii(ps[0].0, ps[0].1);
    } else {
        lemma_rendered_query_ascii(ps.drop_last());
        lemma_rendered_pair_ascii(ps.last().0, ps.last().1);
        assert(seq![0x26u8][0] == 0x26u8);
        lemma_low_concat(rendered_query(ps.drop_last()), seq![0x26u8]);
        lemma_low_concat(
            rendered_query(ps.drop_last()) + seq![0x26u8],
            rendered_pair(ps.last().0, ps.last().1),
        );
    }
}

/// Rendering is deterministic: any two renderings of the same parameter
/// list are the same string, because the rendering is a pure function of
/// the held pairs.
pub proof fn lemma_render_deterministic(
    ps: Seq<(Seq<char>, Seq<char>)>,
    r1: Seq<char>,
    r2: Seq<char>,
)
    requires
        r1 == bytes_as_chars(rendered_query(ps)),
        r2 == bytes_as_chars(rendered_query(ps)),
    ensures
        r1 == r2,
{
}

/// Rendering appends to the right: pushing a pair renders as the old query
/// string, an `&` separator when the old list was not empty, and the new
/// pair.  In particular pairs are rendered in insertion order, and repeated
/// keys are kept.
pub proof fn lemma_rendered_query_push(ps: Seq<(Seq<char>, Seq<char>)>, k: Seq<char>, v: Seq<char>)
    ensures
        ps.len() == 0 ==> rendered_query(ps.push((k, v))) == rendered_pair(k, v),
        ps.len() > 0 ==> rendered_query(ps.push((k, v))) == rendered_query(ps) + seq![0x26u8]
            + rendered_pair(k, v),
{
    if ps.len() == 0 {
        assert(rendered_query(ps.push((k, v))) =~= rendered_pair(k, v));
    } else {
        assert(ps.push((k, v)).drop_last() =~= ps);
        assert(ps.push((k, v)).last() == (k, v));
    }
}

} // verus!
