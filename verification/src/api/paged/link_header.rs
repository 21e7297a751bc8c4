//! Parsing `Link` headers for a keyset continuation URL.
//!
//! The pagination driver only consumes "was there a next URL or not"; this
//! module owns the header syntax.  A link header value is a comma-separated
//! list of segments, each `<url>` followed by parameters; the segment whose
//! parameters contain `rel="next"` names the next page.

use vstd::prelude::*;

use crate::api::paged::PaginationError;

verus! {

/// The lower-cased code point of an ASCII character.
pub open spec fn lower_u32(c: char) -> u32 {
    if 65 <= c as u32 && c as u32 <= 90 {
        (c as u32 + 32) as u32
    } else {
        c as u32
    }
}

/// A header name spelled `link` in any ASCII case.
pub open spec fn is_link_name(s: Seq<char>) -> bool {
    s.map_values(|c: char| lower_u32(c)) == seq![108u32, 105u32, 110u32, 107u32]
}

fn lower_exec(c: char) -> (r: u32)
    ensures
        r == lower_u32(c),
{
    let v = c as u32;
    if 65 <= v && v <= 90 {
        v + 32
    } else {
        v
    }
}

/// Whether a header name is `link`, compared ASCII-case-insensitively.
fn is_link_header_name(s: &str) -> (r: bool)
    ensures
        r == is_link_name(s@),
{
    let n = s.unicode_len();
    if n != 4 {
        proof {
            assert(s@.map_values(|c: char| lower_u32(c)).len() == s@.len());
        }
        return false;
    }
    let ghost mapped = s@.map_values(|c: char| lower_u32(c));
    let ok = lower_exec(s.get_char(0)) == 108 && lower_exec(s.get_char(1)) == 105 && lower_exec(
        s.get_char(2),
    ) == 110 && lower_exec(s.get_char(3)) == 107;
    proof {
        assert(mapped.len() == 4);
        assert(mapped[0] == lower_u32(s@[0]));
        assert(mapped[1] == lower_u32(s@[1]));
        assert(mapped[2] == lower_u32(s@[2]));
        assert(mapped[3] == lower_u32(s@[3]));
        if ok {
            assert(mapped =~= seq![108u32, 105u32, 110u32, 107u32]);
        } else {
            assert(mapped != seq![108u32, 105u32, 110u32, 107u32]);
        }
    }
    ok
}

/// `i` is the first position of `c` in `s` at or after `from`.
pub open spec fn found_at(s: Seq<char>, from: int, c: char, i: int) -> bool {
    from <= i < s.len() && s[i] == c && (forall|j: int| from <= j < i ==> s[j] != c)
}

/// A first position is unique.
proof fn lemma_found_at_unique(s: Seq<char>, from: int, c: char, i: int, j: int)
    requires
        found_at(s, from, c, i),
        found_at(s, from, c, j),
    ensures
        i == j,
{
    if i < j {
        assert(s[i] != c);
    }
    if j < i {
        assert(s[j] != c);
    }
}

/// `i` closes the segment opened before `from`: the first comma at or
/// after `from`, or the end of the value when no comma follows.
pub open spec fn segment_end_at(s: Seq<char>, from: int, i: int) -> bool {
    found_at(s, from, ',', i) || (i == s.len() && 0 <= from <= s.len() && (forall|j: int|
        from <= j < s.len() ==> s[j] != ','))
}

proof fn lemma_segment_end_unique(s: Seq<char>, from: int, i: int, j: int)
    requires
        segment_end_at(s, from, i),
        segment_end_at(s, from, j),
    ensures
        i == j,
{
    if found_at(s, from, ',', i) && found_at(s, from, ',', j) {
        lemma_found_at_unique(s, from, ',', i, j);
    }
}

/// The first position of `c` in `s` at or after `from`.
fn find_char_from(s: &str, from: usize, c: char) -> (r: Option<usize>)
    requires
        from <= s@.len(),
    ensures
        match r {
            Some(i) => found_at(s@, from as int, c, i as int),
            None => forall|j: int| from <= j < s@.len() ==> s@[j] != c,
        },
{
    let n = s.unicode_len();
    let mut i: usize = from;
    while i < n
        invariant
            n == s@.len(),
            from <= i <= n,
            forall|j: int| from <= j < i ==> s@[j] != c,
        decreases n - i,
    {
        if s.get_char(i) == c {
            return Some(i);
        }
        i = i + 1;
    }
    None
}

/// Whether `rel="next"` occurs in `s` between `from` and `to`.
pub open spec fn has_rel_next(s: Seq<char>, from: int, to: int) -> bool {
    exists|i: int|
        from <= i && i + 10 <= to && #[trigger] s.subrange(i, i + 10) == "rel=\"next\""@
}

fn contains_rel_next(s: &str, from: usize, to: usize) -> (r: bool)
    requires
        from <= to <= s@.len(),
    ensures
        r == has_rel_next(s@, from as int, to as int),
{
    proof {
        reveal_strlit("rel=\"next\"");
    }
    if to - from < 10 {
        return false;
    }
    let mut i: usize = from;
    while i <= to - 10
        invariant
            from + 10 <= to,
            from <= i,
            i <= to,
            to <= s@.len(),
            forall|j: int| from <= j < i ==> #[trigger] s@.subrange(j, j + 10) != "rel=\"next\""@,
            "rel=\"next\""@ =~= seq!['r', 'e', 'l', '=', '"', 'n', 'e', 'x', 't', '"'],
        decreases to - i,
    {
        let hit = s.get_char(i) == 'r' && s.get_char(i + 1) == 'e' && s.get_char(i + 2) == 'l'
            && s.get_char(i + 3) == '=' && s.get_char(i + 4) == '"' && s.get_char(i + 5) == 'n'
            && s.get_char(i + 6) == 'e' && s.get_char(i + 7) == 'x' && s.get_char(i + 8) == 't'
            && s.get_char(i + 9) == '"';
        proof {
            let sub = s@.subrange(i as int, i + 10);
            assert(sub.len() == 10);
            assert(sub[0] == s@[i as int]);
            assert(sub[1] == s@[i + 1]);
            assert(sub[2] == s@[i + 2]);
            assert(sub[3] == s@[i + 3]);
            assert(sub[4] == s@[i + 4]);
            assert(sub[5] == s@[i + 5]);
            assert(sub[6] == s@[i + 6]);
            assert(sub[7] == s@[i + 7]);
            assert(sub[8] == s@[i + 8]);
            assert(sub[9] == s@[i + 9]);
            if hit {
                assert(sub =~= "rel=\"next\""@);
            } else {
                assert(sub != "rel=\"next\""@);
            }
        }
        if hit {
            return true;
        }
        i = i + 1;
    }
    false
}

/// A `rel="next"` URL sits bracketed in the value: some `<`...`>` pair
/// whose following segment carries the `rel="next"` parameter.
pub open spec fn bracketed_next_url(value: Seq<char>, url: Seq<char>) -> bool {
    exists|open_i: int, close: int|
        0 <= open_i < close < value.len() && value[open_i] == '<' && #[trigger] found_at(
            value,
            open_i + 1,
            '>',
            close,
        ) && url == value.subrange(open_i + 1, close) && (exists|to: int|
            close < to <= value.len() && #[trigger] has_rel_next(value, close + 1, to))
}

/// Whether the value's first segment is a bracketed URL carrying
/// `rel="next"`: the value opens with `<`, `close` is the first `>` and
/// `seg_end` the end of that segment.
pub open spec fn leading_next_segment(value: Seq<char>, close: int, seg_end: int) -> bool {
    &&& value.len() > 0
    &&& value[0] == '<'
    &&& found_at(value, 1, '>', close)
    &&& segment_end_at(value, close + 1, seg_end)
    &&& has_rel_next(value, close + 1, seg_end)
}

/// Parse one link header value; the URL of the segment carrying
/// `rel="next"`, if one is present.
///
/// A segment that does not start with a `<`-bracketed URL is a parse error.
fn next_from_value(value: &str) -> (r: Result<Option<String>, PaginationError>)
    ensures
        r matches Ok(Some(url)) ==> bracketed_next_url(value@, url@),
        forall|close: int, seg_end: int|
            #[trigger] leading_next_segment(value@, close, seg_end) ==> (r matches Ok(found)
                && found matches Some(url) && url@ == value@.subrange(1, close)),
        value@.len() > 0 && value@[0] != '<' && value@[0] != ' ' && value@[0] != ',' ==> r
            is Err,
{
    let n = value.unicode_len();
    let mut pos: usize = 0;
    while pos < n
        invariant
            n == value@.len(),
            pos <= n,
            pos > 0 ==> (value@[0] == ' ' || value@[0] == ',' || value@[0] == '<'),
            value@.len() > 0 && value@[0] == '<' && pos > 0 ==> (forall|close: int, seg_end: int|
                !#[trigger] leading_next_segment(value@, close, seg_end)),
        decreases n - pos,
    {
        let c = value.get_char(pos);
        if c == ' ' || c == ',' {
            pos = pos + 1;
        } else if c != '<' {
            return Err(
                PaginationError::LinkHeader {
                    reason: String::from_str("expected a `<`-bracketed URL"),
                },
            );
        } else {
            let close = match find_char_from(value, pos + 1, '>') {
                Some(i) => i,
                None => {
                    proof {
                        if pos == 0 {
                            assert forall|c2: int, e2: int| !#[trigger] leading_next_segment(
                                value@,
                                c2,
                                e2,
                            ) by {
                                if found_at(value@, 1, '>', c2) {
                                    assert(value@[c2] != '>');
                                }
                            }
                        }
                    }
                    return Err(
                        PaginationError::LinkHeader {
                            reason: String::from_str("unterminated URL bracket"),
                        },
                    );
                },
            };
            let url = value.substring_char(pos + 1, close).to_owned();
            let seg_end = match find_char_from(value, close + 1, ',') {
                Some(i) => i,
                None => n,
            };
            let ghost first_seg = pos == 0;
            if contains_rel_next(value, close + 1, seg_end) {
                proof {
                    assert(value@[pos as int] == '<');
                    assert(seg_end <= value@.len());
                    assert(bracketed_next_url(value@, url@)) by {
                        assert(found_at(value@, pos + 1, '>', close as int));
                        assert(close < seg_end);
                        assert(seg_end <= value@.len());
                        assert(has_rel_next(value@, close + 1, seg_end as int));
                    }
                    if first_seg {
                        assert forall|c2: int, e2: int| #[trigger] leading_next_segment(
                            value@,
                            c2,
                            e2,
                        ) implies url@ == value@.subrange(1, c2) by {
                            lemma_found_at_unique(value@, 1, '>', c2, close as int);
                        }
                    }
                }
                return Ok(Some(url));
            }
            proof {
                if first_seg {
                    assert forall|c2: int, e2: int| !#[trigger] leading_next_segment(
                        value@,
                        c2,
                        e2,
                    ) by {
                        if leading_next_segment(value@, c2, e2) {
                            lemma_found_at_unique(value@, 1, '>', c2, close as int);
                            if seg_end < n {
                                assert(segment_end_at(value@, close + 1, seg_end as int));
                            } else {
                                assert(segment_end_at(value@, close + 1, n as int));
                            }
                            lemma_segment_end_unique(
                                value@,
                                close + 1,
                                e2,
                                seg_end as int,
                            );
                        }
                    }
                }
            }
            pos = seg_end;
            if pos < n {
                pos = pos + 1;
            }
        }
    }
    Ok(None)
}

/// No header of the response is named `link`.
pub open spec fn no_link_headers(headers: Seq<(String, String)>) -> bool {
    forall|i: int| 0 <= i < headers.len() ==> !is_link_name(#[trigger] headers[i].0@)
}

/// Find the continuation URL among response headers: the `rel="next"` URL
/// of the first `link`-named header that carries one.  Absence of any such
/// header, or of a `rel="next"` segment, means "no more pages".
pub fn next_page_from_headers(headers: &Vec<(String, String)>) -> (r: Result<
    Option<String>,
    PaginationError,
>)
    ensures
        no_link_headers(headers@) ==> r == Ok::<Option<String>, PaginationError>(None),
        r matches Ok(Some(url)) ==> exists|i: int|
            0 <= i < headers@.len() && is_link_name(#[trigger] headers@[i].0@)
                && bracketed_next_url(headers@[i].1@, url@),
        r is Err ==> !no_link_headers(headers@),
{
    let n = headers.len();
    let mut i: usize = 0;
    while i < n
        invariant
            n == headers@.len(),
            i <= n,
        decreases n - i,
    {
        if is_link_header_name(headers[i].0.as_str()) {
            proof {
                assert(is_link_name(headers@[i as int].0@));
            }
            match next_from_value(headers[i].1.as_str()) {
                Ok(Some(url)) => {
                    proof {
                        assert(bracketed_next_url(headers@[i as int].1@, url@));
                    }
                    return Ok(Some(url));
                },
                Ok(None) => (),
                Err(e) => {
                    return Err(e);
                },
            }
        }
        i = i + 1;
    }
    Ok(None)
}

} // verus!
