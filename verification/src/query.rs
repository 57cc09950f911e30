//! Query-string composition: decimal page numbers, percent-encoded key/value
//! pairs, and the exact strings the paginating accessor puts on each page's
//! URL.
//!
//! Wire compatibility matters here: pairs are joined with `&` in the order
//! given (no re-sorting), and the page parameter is appended after any
//! caller-supplied pairs, exactly as the remote service expects.

use vstd::prelude::*;

verus! {

/// The character of one decimal digit.
pub open spec fn decimal_digit(d: nat) -> char {
    if d == 0 {
        '0'
    } else if d == 1 {
        '1'
    } else if d == 2 {
        '2'
    } else if d == 3 {
        '3'
    } else if d == 4 {
        '4'
    } else if d == 5 {
        '5'
    } else if d == 6 {
        '6'
    } else if d == 7 {
        '7'
    } else if d == 8 {
        '8'
    } else {
        '9'
    }
}

/// The decimal notation of a natural number, most significant digit first,
/// without leading zeros (a single `0` for zero).
pub open spec fn spec_decimal(n: nat) -> Seq<char>
    decreases n,
{
    if n < 10 {
        seq![decimal_digit(n)]
    } else {
        spec_decimal(n / 10).push(decimal_digit(n % 10))
    }
}

/// The one-character string of a decimal digit.
fn decimal_digit_str(d: u32) -> (r: &'static str)
    requires
        d < 10,
    ensures
        r@ =~= seq![decimal_digit(d as nat)],
{
    proof {
        reveal_strlit("0");
        reveal_strlit("1");
        reveal_strlit("2");
        reveal_strlit("3");
        reveal_strlit("4");
        reveal_strlit("5");
        reveal_strlit("6");
        reveal_strlit("7");
        reveal_strlit("8");
        reveal_strlit("9");
    }
    match d {
        0 => "0",
        1 => "1",
        2 => "2",
        3 => "3",
        4 => "4",
        5 => "5",
        6 => "6",
        7 => "7",
        8 => "8",
        _ => "9",
    }
}

/// Formats a page number in decimal, as the page parameter's value.
pub fn u32_decimal(n: u32) -> (r: String)
    ensures
        r@ == spec_decimal(n as nat),
    decreases n,
{
    if n < 10 {
        let s = decimal_digit_str(n);
        s.to_owned()
    } else {
        let prefix = u32_decimal(n / 10);
        let last = decimal_digit_str(n % 10);
        let r = prefix.concat(last);
        proof {
            assert(r@ =~= spec_decimal((n / 10) as nat).push(decimal_digit((n % 10) as nat)));
        }
        r
    }
}

/// Relies on `url::form_urlencoded::Serializer::append_pair`: the result is
/// the form-urlencoded serialization of one key/value pair, the
/// percent-encoded key and value joined by `=`, a function of the two
/// arguments alone.
pub uninterp spec fn encoded_pair(key: Seq<char>, value: Seq<char>) -> Seq<char>;

/// Relies on `url::form_urlencoded::Serializer::append_pair`, on an empty
/// serializer, so the result carries no `&` separator of its own.
#[verifier::external_body]
fn encode_pair(key: &str, value: &str) -> (r: String)
    ensures
        r@ == encoded_pair(key@, value@),
{
    let mut serializer = url::form_urlencoded::Serializer::new(String::new());
    serializer.append_pair(key, value);
    serializer.finish()
}

/// The serialization of a whole parameter list: each pair percent-encoded,
/// pairs joined with `&`, in the order given.
pub open spec fn spec_query_string(params: Seq<(Seq<char>, Seq<char>)>) -> Seq<char>
    decreases params.len(),
{
    if params.len() == 0 {
        Seq::empty()
    } else if params.len() == 1 {
        encoded_pair(params[0].0, params[0].1)
    } else {
        spec_query_string(params.drop_last()) + "&"@ + encoded_pair(
            params.last().0,
            params.last().1,
        )
    }
}

/// The view of a borrowed parameter list as sequences of characters.
pub open spec fn spec_pairs(params: Seq<(&str, &str)>) -> Seq<(Seq<char>, Seq<char>)> {
    params.map_values(|p: (&str, &str)| (p.0@, p.1@))
}

/// Serializes a parameter list the way the remote service reads it: pairs
/// percent-encoded and joined with `&`, insertion order kept. This is the
/// exact query string a parameterized paginating call retains for reuse on
/// every page.
pub fn build_query(params: &Vec<(&str, &str)>) -> (r: String)
    ensures
        r@ == spec_query_string(spec_pairs(params@)),
{
    let mut out = String::new();
    let mut i: usize = 0;
    proof {
        assert(spec_pairs(params@.take(0)) =~= Seq::<(Seq<char>, Seq<char>)>::empty());
    }
    while i < params.len()
        invariant
            i <= params@.len(),
            out@ == spec_query_string(spec_pairs(params@.take(i as int))),
        decreases params@.len() - i,
    {
        let (key, value) = params[i];
        let piece = encode_pair(key, value);
        if i > 0 {
            out.append("&");
        }
        out.append(piece.as_str());
        proof {
            assert(spec_pairs(params@.take(i + 1)).drop_last() =~= spec_pairs(
                params@.take(i as int),
            ));
            assert(spec_pairs(params@.take(i + 1)).last() == (params@[i as int].0@,
            params@[i as int].1@));
            assert(out@ =~= spec_query_string(spec_pairs(params@.take(i + 1))));
        }
        i = i + 1;
    }
    proof {
        assert(params@.take(params@.len() as int) =~= params@);
    }
    out
}

/// The query string of one page request: the retained original query with
/// `&page=<n>` appended when fixed parameters were supplied, and exactly
/// `page=<n>` when none were.
pub open spec fn spec_page_query(orig: Option<Seq<char>>, page: nat) -> Seq<char> {
    match orig {
        Some(q) => q + "&page="@ + spec_decimal(page),
        None => "page="@ + spec_decimal(page),
    }
}

/// Composes the query string of one page request from the retained original
/// query and the page number.
pub fn page_query(orig: Option<&str>, page: u32) -> (r: String)
    ensures
        r@ == spec_page_query(
            match orig {
                Some(q) => Some(q@),
                None => None,
            },
            page as nat,
        ),
{
    let number = u32_decimal(page);
    match orig {
        Some(q) => {
            let mut out = q.to_owned();
            out.append("&page=");
            out.append(number.as_str());
            out
        }
        None => {
            let mut out = String::from_str("page=");
            out.append(number.as_str());
            out
        }
    }
}

/// True when some pair of the list carries the reserved `page` key.
pub open spec fn spec_has_page_key(params: Seq<(Seq<char>, Seq<char>)>) -> bool {
    exists|i: int| 0 <= i < params.len() && params[i].0 == "page"@
}

/// Tests two string slices for character-for-character equality.
pub(crate) fn str_eq(a: &str, b: &str) -> (r: bool)
    ensures
        r == (a@ == b@),
{
    let owned_a = a.to_owned();
    let owned_b = b.to_owned();
    owned_a == owned_b
}

/// Scans a caller-supplied parameter list for the reserved `page` key, which
/// pagination owns exclusively.
pub fn has_page_key(params: &Vec<(&str, &str)>) -> (r: bool)
    ensures
        r == spec_has_page_key(spec_pairs(params@)),
{
    let mut i: usize = 0;
    while i < params.len()
        invariant
            i <= params@.len(),
            forall|j: int| 0 <= j < i ==> params@[j].0@ != "page"@,
        decreases params@.len() - i,
    {
        let (key, _) = params[i];
        if str_eq(key, "page") {
            assert(spec_pairs(params@)[i as int].0 == "page"@);
            return true;
        }
        i = i + 1;
    }
    assert(forall|i: int|
        0 <= i < params@.len() ==> spec_pairs(params@)[i].0 == params@[i].0@);
    false
}

} // verus!
