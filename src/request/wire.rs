//! The HTTP/1.1 text of a synthetic request, as it is handed to the parser of
//! the HTTP layer.

use vstd::prelude::*;
use vstd::utf8::encode_utf8;

verus! {

/// The decimal digit `d`.
pub open spec fn digit_char(d: nat) -> char {
    "0123456789"@[d as int]
}

/// `n` written in decimal, without leading zeros.
pub open spec fn decimal_of(n: nat) -> Seq<char>
    decreases n,
{
    if n < 10 {
        seq![digit_char(n)]
    } else {
        decimal_of(n / 10).push(digit_char(n % 10))
    }
}

/// `n` written in decimal.
pub fn decimal(n: usize) -> (r: String)
    ensures
        r@ == decimal_of(n as nat),
    decreases n,
{
    let digits = "0123456789";
    proof {
        reveal_strlit("0123456789");
    }
    let d = n % 10;
    let last = digits.substring_char(d, d + 1);
    if n < 10 {
        assert(last@ =~= seq![digit_char(n as nat)]);
        last.to_owned()
    } else {
        let mut r = decimal(n / 10);
        r.append(last);
        assert(r@ =~= decimal_of(n as nat));
        r
    }
}

/// Two characters that are equal once ASCII letters are taken in lower case.
pub open spec fn same_letter(c: char, d: char) -> bool {
    ||| c == d
    ||| ('A' <= c && c <= 'Z' && d as u32 == c as u32 + 32)
    ||| ('A' <= d && d <= 'Z' && c as u32 == d as u32 + 32)
}

/// Two texts that are equal without regard to ASCII case.
pub open spec fn eq_ignoring_ascii_case(a: Seq<char>, b: Seq<char>) -> bool {
    &&& a.len() == b.len()
    &&& forall|i: int| 0 <= i < a.len() ==> same_letter(#[trigger] a[i], b[i])
}

/// Whether `a` and `b` are equal without regard to ASCII case.
pub fn same_ignoring_ascii_case(a: &str, b: &str) -> (r: bool)
    ensures
        r == eq_ignoring_ascii_case(a@, b@),
{
    let n = a.unicode_len();
    if n != b.unicode_len() {
        return false;
    }
    let mut i: usize = 0;
    while i < n
        invariant
            n == a@.len() == b@.len(),
            0 <= i <= n,
            forall|j: int| 0 <= j < i ==> same_letter(#[trigger] a@[j], b@[j]),
        decreases n - i,
    {
        let c = a.get_char(i);
        let d = b.get_char(i);
        let same = c == d || ('A' <= c && c <= 'Z' && d as u32 == c as u32 + 32) || ('A' <= d
            && d <= 'Z' && c as u32 == d as u32 + 32);
        if !same {
            return false;
        }
        i = i + 1;
    }
    true
}

/// `<name>: <value>` and a line end.
pub open spec fn header_line(name: Seq<char>, value: Seq<char>) -> Seq<char> {
    name + ": "@ + value + "\r\n"@
}

/// The header lines of `headers`, in order.
pub open spec fn header_block(headers: Seq<(String, String)>) -> Seq<char>
    decreases headers.len(),
{
    if headers.len() == 0 {
        seq![]
    } else {
        header_block(headers.drop_last()) + header_line(
            headers.last().0@,
            headers.last().1@,
        )
    }
}

/// One of `headers` is a `User-Agent`.
pub open spec fn names_user_agent(headers: Seq<(String, String)>) -> bool {
    exists|i: int|
        0 <= i < headers.len() && eq_ignoring_ascii_case(#[trigger] headers[i].0@, "User-Agent"@)
}

/// The request line, the length of the body, the given headers, a
/// `User-Agent: iron-test` where none was given, a blank line, and the body.
pub open spec fn request_text_of(
    method: Seq<char>,
    url: Seq<char>,
    headers: Seq<(String, String)>,
    body: Seq<char>,
) -> Seq<char> {
    method + " "@ + url + " HTTP/1.1\r\n"@ + "Content-Length: "@ + decimal_of(
        encode_utf8(body).len(),
    ) + "\r\n"@ + header_block(headers) + (if names_user_agent(headers) {
        Seq::<char>::empty()
    } else {
        "User-Agent: iron-test\r\n"@
    }) + "\r\n"@ + body
}

/// Whether one of `headers` is a `User-Agent`.
pub fn has_user_agent(headers: &Vec<(String, String)>) -> (r: bool)
    ensures
        r == names_user_agent(headers@),
{
    let mut i: usize = 0;
    while i < headers.len()
        invariant
            0 <= i <= headers@.len(),
            forall|j: int|
                0 <= j < i ==> !eq_ignoring_ascii_case(#[trigger] headers@[j].0@, "User-Agent"@),
        decreases headers@.len() - i,
    {
        if same_ignoring_ascii_case(headers[i].0.as_str(), "User-Agent") {
            return true;
        }
        i = i + 1;
    }
    false
}

/// The text of a request with this method, URL, headers (as name and value)
/// and body. The byte length of a string in memory always fits in `usize`.
pub fn request_text(method: &str, url: &str, headers: &Vec<(String, String)>, body: &str) -> (r:
    String)
    requires
        encode_utf8(body@).len() <= usize::MAX,
    ensures
        r@ == request_text_of(method@, url@, headers@, body@),
{
    let mut r = method.to_owned();
    r.append(" ");
    r.append(url);
    r.append(" HTTP/1.1\r\n");
    r.append("Content-Length: ");
    r.append(decimal(body.len()).as_str());
    r.append("\r\n");
    let ghost head = r@;
    let mut i: usize = 0;
    while i < headers.len()
        invariant
            0 <= i <= headers@.len(),
            r@ == head + header_block(headers@.subrange(0, i as int)),
        decreases headers@.len() - i,
    {
        proof {
            assert(headers@.subrange(0, i + 1).drop_last() =~= headers@.subrange(0, i as int));
        }
        r.append(headers[i].0.as_str());
        r.append(": ");
        r.append(headers[i].1.as_str());
        r.append("\r\n");
        i = i + 1;
    }
    assert(headers@.subrange(0, headers@.len() as int) =~= headers@);
    if !has_user_agent(headers) {
        r.append("User-Agent: iron-test\r\n");
    }
    r.append("\r\n");
    r.append(body);
    assert(r@ =~= request_text_of(method@, url@, headers@, body@));
    r
}

} // verus!
