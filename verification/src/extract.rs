//! Text extraction primitives.
//!
//! Four fallible, pure functions that read navigation targets out of the
//! portal's semi-structured response bodies and header values.  They are
//! deliberately offset scans, not parsers: each is specified exactly,
//! quirks included, because the addresses they produce must match what the
//! portal serves byte for byte.
//!
//! Known quirks, preserved on purpose:
//! - [`get_element_value`] matches `<name` as a prefix, so `<nameX` also
//!   matches, and letter case is ignored (ASCII case only).
//! - [`get_attribute_value`] takes the first `"`-quoted span after the
//!   first occurrence of the attribute name, with no awareness of quote
//!   escaping or of the attribute name occurring inside another attribute.
//! - [`get_cookie_value`] and [`get_header_attribute`] skip a fixed number
//!   of characters after the searched name (one for `=`, two for `="`)
//!   without checking what those characters are; an occurrence too close
//!   to the end of the value to leave room for them yields nothing from
//!   that header.

use vstd::prelude::*;
use vstd::string::StrSliceExecFns;

use crate::http::{headers_view, HttpHeader};
use crate::scan::{find_from, find_in, lemma_find_from, seq_eq_ci};
use crate::text::{push_chars, str_chars, str_eq, str_eq_ci};

verus! {

/// Failure of an extraction primitive, carrying the searched name.
#[derive(Debug, Clone, PartialEq, Eq)]
pub struct NotFound {
    pub name: String,
}

/// What [`get_element_value`] returns: the text strictly between the
/// first `>` after the first (ASCII-case-insensitive, prefix-matched)
/// `<element` and the first following `</element`.
pub open spec fn element_value_spec(body: Seq<char>, element: Seq<char>) -> Option<Seq<char>> {
    let open = seq!['<'] + element;
    match find_from(body, open, 0, true) {
        None => None,
        Some(i) => match find_from(body, seq!['>'], i + open.len(), false) {
            None => None,
            Some(j) => {
                let close = seq!['<', '/'] + element;
                match find_from(body, close, j + 1, true) {
                    None => None,
                    Some(k) => Some(body.subrange(j + 1, k)),
                }
            },
        },
    }
}

/// Locate the first case-insensitive occurrence of `<element`, advance
/// past the tag's `>`, and return everything up to the matching
/// case-insensitive `</element`.
pub fn get_element_value(body: &str, element: &str) -> (r: Result<String, NotFound>)
    ensures
        match r {
            Ok(v) => element_value_spec(body@, element@) == Some(v@),
            Err(e) => element_value_spec(body@, element@) is None && e.name@ == element@,
        },
{
    let bodyv = str_chars(body);
    let m = bodyv.len();
    let mut open: Vec<char> = Vec::new();
    open.push('<');
    push_chars(&mut open, element);
    proof {
        assert(open@ =~= seq!['<'] + element@);
    }
    let i = match find_in(&bodyv, &open, 0, true) {
        Some(i) => i,
        None => {
            return Err(NotFound { name: element.to_owned() });
        },
    };
    proof {
        lemma_find_from(bodyv@, open@, 0, true);
        assert(i + open@.len() <= m);
    }
    let after_open = i + open.len();
    let mut gt: Vec<char> = Vec::new();
    gt.push('>');
    proof {
        assert(gt@ =~= seq!['>']);
    }
    let j = match find_in(&bodyv, &gt, after_open, false) {
        Some(j) => j,
        None => {
            return Err(NotFound { name: element.to_owned() });
        },
    };
    proof {
        lemma_find_from(bodyv@, gt@, after_open as int, false);
        assert(j + 1 <= m);
    }
    let start = j + 1;
    let mut close: Vec<char> = Vec::new();
    close.push('<');
    close.push('/');
    push_chars(&mut close, element);
    proof {
        assert(close@ =~= seq!['<', '/'] + element@);
    }
    let k = match find_in(&bodyv, &close, start, true) {
        Some(k) => k,
        None => {
            return Err(NotFound { name: element.to_owned() });
        },
    };
    proof {
        lemma_find_from(bodyv@, close@, start as int, true);
        assert(start <= k <= body@.len());
    }
    Ok(body.substring_char(start, k).to_owned())
}

/// The marker [`get_attribute_value`] scans for: `<element ` exactly.
pub open spec fn attribute_marker(element: Seq<char>) -> Seq<char> {
    seq!['<'] + element + seq![' ']
}

/// What [`get_attribute_value`] returns: the text between the first pair
/// of `"` quotes after the first occurrence of `attribute` after the
/// first occurrence of the exact marker `<element `.
pub open spec fn attribute_value_spec(
    body: Seq<char>,
    element: Seq<char>,
    attribute: Seq<char>,
) -> Option<Seq<char>> {
    let marker = attribute_marker(element);
    match find_from(body, marker, 0, false) {
        None => None,
        Some(i) => match find_from(body, attribute, i + marker.len(), false) {
            None => None,
            Some(a) => match find_from(body, seq!['"'], a + attribute.len(), false) {
                None => None,
                Some(q1) => match find_from(body, seq!['"'], q1 + 1, false) {
                    None => None,
                    Some(q2) => Some(body.subrange(q1 + 1, q2)),
                },
            },
        },
    }
}

/// Which name a failed [`get_attribute_value`] reports: the element when
/// its marker is absent, the attribute otherwise.
pub open spec fn attribute_missing_name(
    body: Seq<char>,
    element: Seq<char>,
    attribute: Seq<char>,
) -> Seq<char> {
    if find_from(body, attribute_marker(element), 0, false) is None {
        element
    } else {
        attribute
    }
}

/// Locate the exact marker `<element ` (the element may be a multi-word
/// marker such as `method name="X"`), then the first occurrence of
/// `attribute` after it, and return the text inside the next pair of `"`
/// quotes.
pub fn get_attribute_value(body: &str, element: &str, attribute: &str) -> (r: Result<
    String,
    NotFound,
>)
    ensures
        match r {
            Ok(v) => attribute_value_spec(body@, element@, attribute@) == Some(v@),
            Err(e) => attribute_value_spec(body@, element@, attribute@) is None && e.name@
                == attribute_missing_name(body@, element@, attribute@),
        },
{
    let bodyv = str_chars(body);
    let m = bodyv.len();
    let mut marker: Vec<char> = Vec::new();
    marker.push('<');
    push_chars(&mut marker, element);
    marker.push(' ');
    proof {
        assert(marker@ =~= attribute_marker(element@));
    }
    let i = match find_in(&bodyv, &marker, 0, false) {
        Some(i) => i,
        None => {
            return Err(NotFound { name: element.to_owned() });
        },
    };
    proof {
        lemma_find_from(bodyv@, marker@, 0, false);
        assert(i + marker@.len() <= m);
    }
    let base = i + marker.len();
    let attrv = str_chars(attribute);
    let a = match find_in(&bodyv, &attrv, base, false) {
        Some(a) => a,
        None => {
            return Err(NotFound { name: attribute.to_owned() });
        },
    };
    proof {
        lemma_find_from(bodyv@, attrv@, base as int, false);
        assert(a + attrv@.len() <= m);
    }
    let after_attr = a + attrv.len();
    let mut quote: Vec<char> = Vec::new();
    quote.push('"');
    proof {
        assert(quote@ =~= seq!['"']);
    }
    let q1 = match find_in(&bodyv, &quote, after_attr, false) {
        Some(q) => q,
        None => {
            return Err(NotFound { name: attribute.to_owned() });
        },
    };
    proof {
        lemma_find_from(bodyv@, quote@, after_attr as int, false);
        assert(q1 + 1 <= m);
    }
    let start = q1 + 1;
    let q2 = match find_in(&bodyv, &quote, start, false) {
        Some(q) => q,
        None => {
            return Err(NotFound { name: attribute.to_owned() });
        },
    };
    proof {
        lemma_find_from(bodyv@, quote@, start as int, false);
        assert(start <= q2 <= body@.len());
    }
    Ok(body.substring_char(start, q2).to_owned())
}

/// What one set-cookie-style header value yields for a cookie name: the
/// text after the first `cookie_name` plus one further character (the
/// `=`), up to the next `;` or the end of the value.  An occurrence with
/// no room for the skipped character yields nothing.
pub open spec fn cookie_in_header(value: Seq<char>, name: Seq<char>) -> Option<Seq<char>> {
    match find_from(value, name, 0, false) {
        None => None,
        Some(i) => {
            let start = i + name.len() + 1;
            if start > value.len() {
                None
            } else {
                let end = match find_from(value, seq![';'], start, false) {
                    Some(e) => e,
                    None => value.len() as int,
                };
                Some(value.subrange(start, end))
            }
        },
    }
}

/// What [`get_cookie_value`] returns: the first header whose name is
/// `set-cookie` up to ASCII case and whose value yields the cookie wins.
pub open spec fn cookie_value_spec(
    headers: Seq<(Seq<char>, Seq<char>)>,
    name: Seq<char>,
) -> Option<Seq<char>>
    decreases headers.len(),
{
    if headers.len() == 0 {
        None
    } else if seq_eq_ci(headers[0].0, "set-cookie"@) && cookie_in_header(headers[0].1, name)
        is Some {
        cookie_in_header(headers[0].1, name)
    } else {
        cookie_value_spec(headers.drop_first(), name)
    }
}

fn cookie_in_header_exec(value: &str, name: &str) -> (r: Option<String>)
    ensures
        match r {
            Some(v) => cookie_in_header(value@, name@) == Some(v@),
            None => cookie_in_header(value@, name@) is None,
        },
{
    let valv = str_chars(value);
    let m = valv.len();
    let namev = str_chars(name);
    let i = match find_in(&valv, &namev, 0, false) {
        Some(i) => i,
        None => {
            return None;
        },
    };
    proof {
        lemma_find_from(valv@, namev@, 0, false);
        assert(i + namev@.len() <= m);
    }
    let base = i + namev.len();
    if base >= m {
        return None;
    }
    let start = base + 1;
    let mut semi: Vec<char> = Vec::new();
    semi.push(';');
    proof {
        assert(semi@ =~= seq![';']);
    }
    let end = match find_in(&valv, &semi, start, false) {
        Some(e) => {
            proof {
                lemma_find_from(valv@, semi@, start as int, false);
            }
            e
        },
        None => m,
    };
    Some(value.substring_char(start, end).to_owned())
}

/// Scan all set-cookie-style headers (header name matched without regard
/// to ASCII case) for one containing `cookie_name`, and return the text
/// after `cookie_name=` up to the next `;` or the end of the value.
pub fn get_cookie_value(headers: &Vec<HttpHeader>, cookie_name: &str) -> (r: Result<
    String,
    NotFound,
>)
    ensures
        match r {
            Ok(v) => cookie_value_spec(headers_view(headers@), cookie_name@) == Some(v@),
            Err(e) => cookie_value_spec(headers_view(headers@), cookie_name@) is None && e.name@
                == cookie_name@,
        },
{
    let ghost full = headers_view(headers@);
    proof {
        assert(full.skip(0) =~= full);
    }
    let n = headers.len();
    let mut idx: usize = 0;
    while idx < n
        invariant
            n == headers@.len(),
            idx <= n,
            full == headers_view(headers@),
            cookie_value_spec(full, cookie_name@) == cookie_value_spec(
                full.skip(idx as int),
                cookie_name@,
            ),
        decreases n - idx,
    {
        let h = &headers[idx];
        if str_eq_ci(h.name.as_str(), "set-cookie") {
            match cookie_in_header_exec(h.value.as_str(), cookie_name) {
                Some(v) => {
                    proof {
                        assert(full.skip(idx as int)[0] == headers@[idx as int]@);
                    }
                    return Ok(v);
                },
                None => {},
            }
        }
        proof {
            assert(full.skip(idx as int)[0] == headers@[idx as int]@);
            assert(full.skip(idx as int).drop_first() =~= full.skip(idx + 1));
        }
        idx += 1;
    }
    proof {
        assert(full.skip(idx as int) =~= Seq::<(Seq<char>, Seq<char>)>::empty());
    }
    Err(NotFound { name: cookie_name.to_owned() })
}

/// What one header value yields for a sub-attribute: the text after the
/// first `attribute` plus two further characters (the `="`), up to the
/// next `"` or the end of the value.  An occurrence with no room for the
/// skipped characters yields nothing.
pub open spec fn header_attr_in_value(value: Seq<char>, attribute: Seq<char>) -> Option<Seq<char>> {
    match find_from(value, attribute, 0, false) {
        None => None,
        Some(i) => {
            let start = i + attribute.len() + 2;
            if start > value.len() {
                None
            } else {
                let end = match find_from(value, seq!['"'], start, false) {
                    Some(e) => e,
                    None => value.len() as int,
                };
                Some(value.subrange(start, end))
            }
        },
    }
}

/// What [`get_header_attribute`] returns: the first header with exactly
/// the requested name whose value yields the sub-attribute wins.
pub open spec fn header_attribute_spec(
    headers: Seq<(Seq<char>, Seq<char>)>,
    header: Seq<char>,
    attribute: Seq<char>,
) -> Option<Seq<char>>
    decreases headers.len(),
{
    if headers.len() == 0 {
        None
    } else if headers[0].0 == header && header_attr_in_value(headers[0].1, attribute) is Some {
        header_attr_in_value(headers[0].1, attribute)
    } else {
        header_attribute_spec(headers.drop_first(), header, attribute)
    }
}

fn header_attr_in_value_exec(value: &str, attribute: &str) -> (r: Option<String>)
    ensures
        match r {
            Some(v) => header_attr_in_value(value@, attribute@) == Some(v@),
            None => header_attr_in_value(value@, attribute@) is None,
        },
{
    let valv = str_chars(value);
    let m = valv.len();
    let attrv = str_chars(attribute);
    let i = match find_in(&valv, &attrv, 0, false) {
        Some(i) => i,
        None => {
            return None;
        },
    };
    proof {
        lemma_find_from(valv@, attrv@, 0, false);
        assert(i + attrv@.len() <= m);
    }
    let base = i + attrv.len();
    if m < 2 || base > m - 2 {
        return None;
    }
    let start = base + 2;
    let mut quote: Vec<char> = Vec::new();
    quote.push('"');
    proof {
        assert(quote@ =~= seq!['"']);
    }
    let end = match find_in(&valv, &quote, start, false) {
        Some(e) => {
            proof {
                lemma_find_from(valv@, quote@, start as int, false);
            }
            e
        },
        None => m,
    };
    Some(value.substring_char(start, end).to_owned())
}

/// Find the header with exactly the given name, locate `attribute` in its
/// value, skip the assumed `="` delimiter, and return the text up to the
/// next `"` or the end of the value.
pub fn get_header_attribute(headers: &Vec<HttpHeader>, header: &str, attribute: &str) -> (r: Result<
    String,
    NotFound,
>)
    ensures
        match r {
            Ok(v) => header_attribute_spec(headers_view(headers@), header@, attribute@) == Some(
                v@,
            ),
            Err(e) => header_attribute_spec(headers_view(headers@), header@, attribute@) is None
                && e.name@ == attribute@,
        },
{
    let ghost full = headers_view(headers@);
    proof {
        assert(full.skip(0) =~= full);
    }
    let n = headers.len();
    let mut idx: usize = 0;
    while idx < n
        invariant
            n == headers@.len(),
            idx <= n,
            full == headers_view(headers@),
            header_attribute_spec(full, header@, attribute@) == header_attribute_spec(
                full.skip(idx as int),
                header@,
                attribute@,
            ),
        decreases n - idx,
    {
        let h = &headers[idx];
        if str_eq(h.name.as_str(), header) {
            match header_attr_in_value_exec(h.value.as_str(), attribute) {
                Some(v) => {
                    proof {
                        assert(full.skip(idx as int)[0] == headers@[idx as int]@);
                    }
                    return Ok(v);
                },
                None => {},
            }
        }
        proof {
            assert(full.skip(idx as int)[0] == headers@[idx as int]@);
            assert(full.skip(idx as int).drop_first() =~= full.skip(idx + 1));
        }
        idx += 1;
    }
    proof {
        assert(full.skip(idx as int) =~= Seq::<(Seq<char>, Seq<char>)>::empty());
    }
    Err(NotFound { name: attribute.to_owned() })
}

} // verus!
