use crate::search::{first_match, first_position, lemma_first_position};
use crate::text::{chars_of, lowercase, lowercased, str_eq, text_view, texts};
use vstd::prelude::*;

verus! {

/// One header line of a request: its name and its value.
#[derive(Debug, Clone, PartialEq, Eq)]
pub struct Header {
    pub name: String,
    pub value: String,
}

/// A header with its texts as sequences of characters.
pub struct HeaderView {
    pub name: Seq<char>,
    pub value: Seq<char>,
}

impl View for Header {
    type V = HeaderView;

    open spec fn view(&self) -> HeaderView {
        HeaderView { name: self.name@, value: self.value@ }
    }
}

/// The views of a list of headers.
pub open spec fn header_views(headers: Seq<Header>) -> Seq<HeaderView> {
    headers.map_values(|h: Header| h@)
}

/// Selects the headers that carry cookies: those whose name is `cookie` in any casing.
pub open spec fn is_cookie_header() -> spec_fn(HeaderView) -> bool {
    |h: HeaderView| lowercased(h.name) == "cookie"@
}

/// The value of the first header that carries cookies.
pub open spec fn cookie_line(headers: Seq<HeaderView>) -> Option<Seq<char>> {
    match first_match(headers, is_cookie_header()) {
        Some(h) => Some(h.value),
        None => None,
    }
}

/// A separator, the two characters `; `, starts at position `k` of `s`.
pub open spec fn separator_at(s: Seq<char>, k: int) -> bool {
    0 <= k && k + 1 < s.len() && s[k] == ';' && s[k + 1] == ' '
}

/// The first position at or after `from` where a separator starts, or the length of `s`
/// where none does.
pub open spec fn next_separator(s: Seq<char>, from: int) -> int
    decreases s.len() - from,
{
    if from < 0 || from >= s.len() {
        s.len() as int
    } else if separator_at(s, from) {
        from
    } else {
        next_separator(s, from + 1)
    }
}

/// The pieces of `s` from position `from` on, cut at each separator in turn from the left.
pub open spec fn pieces_from(s: Seq<char>, from: int) -> Seq<Seq<char>>
    decreases s.len() - from,
{
    let k = next_separator(s, from);
    if 0 <= from <= k && k + 1 < s.len() {
        seq![s.subrange(from, k)] + pieces_from(s, k + 2)
    } else {
        seq![s.subrange(from, s.len() as int)]
    }
}

/// The cookies of a cookie line: the line cut at each `; `. A line without a separator is
/// one cookie, and so is an empty line.
pub open spec fn cookies_of(line: Seq<char>) -> Seq<Seq<char>> {
    pieces_from(line, 0)
}

/// Selects the cookies named `name`: those that begin with `name` and an equals sign.
pub open spec fn names_cookie(name: Seq<char>) -> spec_fn(Seq<char>) -> bool {
    |cookie: Seq<char>| (name + seq!['=']).is_prefix_of(cookie)
}

/// Selects the equals sign.
pub open spec fn is_equals() -> spec_fn(char) -> bool {
    |c: char| c == '='
}

/// What follows the first equals sign of a cookie.
pub open spec fn value_part(cookie: Seq<char>) -> Option<Seq<char>> {
    match first_position(cookie, is_equals()) {
        Some(k) => Some(cookie.skip(k + 1)),
        None => None,
    }
}

/// The value of the first cookie named `name`: what follows its first equals sign.
pub open spec fn cookie_value(cookies: Seq<Seq<char>>, name: Seq<char>) -> Option<Seq<char>> {
    match first_match(cookies, names_cookie(name)) {
        Some(cookie) => value_part(cookie),
        None => None,
    }
}

/// The value of the cookie `name` of a request, read from its first cookie header.
pub open spec fn request_cookie(headers: Seq<HeaderView>, name: Seq<char>) -> Option<Seq<char>> {
    match cookie_line(headers) {
        Some(line) => cookie_value(cookies_of(line), name),
        None => None,
    }
}

/// Finds the value of the first header whose name is `cookie`, in any casing.
pub fn cookie_header<'a>(headers: &'a Vec<Header>) -> (line: Option<&'a str>)
    ensures
        text_view(line) == cookie_line(header_views(headers@)),
{
    let mut i: usize = 0;
    while i < headers.len()
        invariant
            i <= headers.len(),
            forall|j: int| 0 <= j < i ==> !is_cookie_header()(#[trigger] header_views(headers@)[j]),
        decreases headers.len() - i,
    {
        let lower = lowercase(headers[i].name.as_str());
        if str_eq(lower.as_str(), "cookie") {
            proof {
                lemma_first_position(header_views(headers@), is_cookie_header(), i as int);
            }
            return Some(headers[i].value.as_str());
        }
        i += 1;
    }
    proof {
        lemma_first_position(header_views(headers@), is_cookie_header(), i as int);
    }
    None
}

/// Cuts a cookie line into its cookies.
pub fn split_cookies<'a>(line: &'a str) -> (cookies: Vec<&'a str>)
    ensures
        texts(cookies@) == cookies_of(line@),
{
    let chars = chars_of(line);
    let n = chars.len();
    let mut cookies: Vec<&'a str> = Vec::new();
    let mut start: usize = 0;
    let mut i: usize = 0;
    assert(texts(cookies@) =~= Seq::<Seq<char>>::empty());
    while i < n && i + 1 < n
        invariant
            chars@ == line@,
            n == chars.len(),
            start <= i <= n,
            next_separator(line@, start as int) == next_separator(line@, i as int),
            texts(cookies@) + pieces_from(line@, start as int) == cookies_of(line@),
        decreases n - i,
    {
        if chars[i] == ';' && chars[i + 1] == ' ' {
            let piece = line.substring_char(start, i);
            proof {
                assert(separator_at(line@, i as int));
                assert(texts(cookies@.push(piece)) =~= texts(cookies@).push(piece@));
                assert(texts(cookies@).push(piece@) + pieces_from(line@, i + 2) =~= texts(
                    cookies@,
                ) + (seq![piece@] + pieces_from(line@, i + 2)));
            }
            cookies.push(piece);
            start = i + 2;
            i = i + 2;
        } else {
            i = i + 1;
        }
    }
    let piece = line.substring_char(start, n);
    proof {
        assert(next_separator(line@, i as int) == n) by {
            if i < n {
                assert(!separator_at(line@, i as int));
                assert(next_separator(line@, i + 1) == n);
            }
        }
        assert(texts(cookies@.push(piece)) =~= texts(cookies@).push(piece@));
        assert(texts(cookies@).push(piece@) =~= texts(cookies@) + seq![piece@]);
    }
    cookies.push(piece);
    cookies
}

/// Whether `cookie` begins with `name` and an equals sign.
fn is_named(cookie: &Vec<char>, name: &Vec<char>) -> (named: bool)
    ensures
        named == names_cookie(name@)(cookie@),
{
    let n = name.len();
    if cookie.len() <= n {
        return false;
    }
    let mut i: usize = 0;
    while i < n
        invariant
            i <= n,
            n == name.len(),
            n < cookie.len(),
            forall|j: int| 0 <= j < i ==> cookie@[j] == name@[j],
        decreases n - i,
    {
        if cookie[i] != name[i] {
            assert((name@ + seq!['='])[i as int] == name@[i as int]);
            return false;
        }
        i += 1;
    }
    if cookie[n] != '=' {
        assert((name@ + seq!['='])[n as int] == '=');
        return false;
    }
    assert forall|j: int| 0 <= j < (name@ + seq!['=']).len() implies (name@ + seq!['='])[j]
        == cookie@[j] by {
        if j < n {
            assert((name@ + seq!['='])[j] == name@[j]);
        }
    }
    assert((name@ + seq!['=']) =~= cookie@.subrange(0, (name@ + seq!['=']).len() as int));
    true
}

/// The position of the first equals sign of `cookie`.
fn first_equals(cookie: &Vec<char>) -> (at: Option<usize>)
    ensures
        match at {
            Some(k) => first_position(cookie@, is_equals()) == Some(k as int),
            None => first_position(cookie@, is_equals()) is None,
        },
{
    let mut k: usize = 0;
    while k < cookie.len()
        invariant
            k <= cookie.len(),
            forall|j: int| 0 <= j < k ==> !is_equals()(#[trigger] cookie@[j]),
        decreases cookie.len() - k,
    {
        if cookie[k] == '=' {
            proof {
                lemma_first_position(cookie@, is_equals(), k as int);
            }
            return Some(k);
        }
        k += 1;
    }
    proof {
        lemma_first_position(cookie@, is_equals(), k as int);
    }
    None
}

/// Looks a cookie up by name among the cookies of a request and gives its value.
pub fn get_cookie<'a>(cookies: &Vec<&'a str>, name: &str) -> (value: Option<&'a str>)
    ensures
        text_view(value) == cookie_value(texts(cookies@), name@),
{
    let wanted = chars_of(name);
    let mut i: usize = 0;
    while i < cookies.len()
        invariant
            i <= cookies.len(),
            wanted@ == name@,
            forall|j: int| 0 <= j < i ==> !names_cookie(name@)(#[trigger] texts(cookies@)[j]),
        decreases cookies.len() - i,
    {
        let cookie = cookies[i];
        let chars = chars_of(cookie);
        if is_named(&chars, &wanted) {
            proof {
                lemma_first_position(texts(cookies@), names_cookie(name@), i as int);
            }
            return match first_equals(&chars) {
                Some(k) => Some(cookie.substring_char(k + 1, chars.len())),
                None => None,
            };
        }
        i += 1;
    }
    proof {
        lemma_first_position(texts(cookies@), names_cookie(name@), i as int);
    }
    None
}

} // verus!
