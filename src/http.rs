use vstd::prelude::*;
use vstd::string::StringExecFns;
use vstd::utf8::encode_utf8;

verus! {

/// The character of a decimal digit.
pub open spec fn digit_char(d: nat) -> char {
    seq!['0', '1', '2', '3', '4', '5', '6', '7', '8', '9'][d as int]
}

/// The decimal notation of `n`, without leading zeros.
pub open spec fn decimal(n: nat) -> Seq<char>
    decreases n,
{
    if n < 10 {
        seq![digit_char(n)]
    } else {
        decimal(n / 10).push(digit_char(n % 10))
    }
}

/// The header line that announces a body of `n` bytes.
pub open spec fn content_length_line(n: nat) -> Seq<char> {
    "Content-Length: "@ + decimal(n) + "\r\n"@
}

/// A GET request for `path` that asks the server to close the connection
/// after replying.
pub open spec fn get_request_text(path: Seq<char>) -> Seq<char> {
    "GET "@ + path + " HTTP/1.1\r\nHost: localhost\r\nConnection: close\r\n\r\n"@
}

/// A POST request for `path` carrying `body` as plain text, with its length
/// in bytes announced.
pub open spec fn post_request_text(path: Seq<char>, body: Seq<char>) -> Seq<char> {
    "POST "@ + path + " HTTP/1.1\r\nHost: localhost\r\nContent-Type: text/plain\r\n"@
        + content_length_line(encode_utf8(body).len()) + "Connection: close\r\n\r\n"@ + body
}

fn digit_text(d: usize) -> (r: &'static str)
    requires
        d < 10,
    ensures
        r@ == seq![digit_char(d as nat)],
{
    let r = if d == 0 {
        proof { reveal_strlit("0"); }
        "0"
    } else if d == 1 {
        proof { reveal_strlit("1"); }
        "1"
    } else if d == 2 {
        proof { reveal_strlit("2"); }
        "2"
    } else if d == 3 {
        proof { reveal_strlit("3"); }
        "3"
    } else if d == 4 {
        proof { reveal_strlit("4"); }
        "4"
    } else if d == 5 {
        proof { reveal_strlit("5"); }
        "5"
    } else if d == 6 {
        proof { reveal_strlit("6"); }
        "6"
    } else if d == 7 {
        proof { reveal_strlit("7"); }
        "7"
    } else if d == 8 {
        proof { reveal_strlit("8"); }
        "8"
    } else {
        proof { reveal_strlit("9"); }
        "9"
    };
    assert(r@ =~= seq![digit_char(d as nat)]);
    r
}

/// Appends the decimal notation of `n` to `s`.
fn append_decimal(s: &mut String, n: usize)
    ensures
        final(s)@ == old(s)@ + decimal(n as nat),
    decreases n,
{
    if n < 10 {
        s.append(digit_text(n));
    } else {
        append_decimal(s, n / 10);
        s.append(digit_text(n % 10));
        assert(final(s)@ =~= old(s)@ + decimal(n as nat));
    }
}

/// The text of a GET request for `path`.
pub fn get_request(path: &str) -> (r: String)
    ensures
        r@ == get_request_text(path@),
{
    let mut s = String::from_str("GET ");
    s.append(path);
    s.append(" HTTP/1.1\r\nHost: localhost\r\nConnection: close\r\n\r\n");
    assert(s@ =~= get_request_text(path@));
    s
}

/// The text of a POST request for `path` carrying `body`.
pub fn post_request(path: &str, body: &str) -> (r: String)
    ensures
        r@ == post_request_text(path@, body@),
{
    let mut s = String::from_str("POST ");
    s.append(path);
    s.append(" HTTP/1.1\r\nHost: localhost\r\nContent-Type: text/plain\r\n");
    s.append("Content-Length: ");
    let n = body.as_bytes().len();
    append_decimal(&mut s, n);
    s.append("\r\n");
    s.append("Connection: close\r\n\r\n");
    s.append(body);
    assert(s@ =~= post_request_text(path@, body@));
    s
}

/// A POST request announces the byte length of its body in a
/// `Content-Length` header, ends its header block with an empty line, and
/// carries the body text verbatim after it.
pub proof fn lemma_post_request_shape(path: Seq<char>, body: Seq<char>)
    ensures
        ({
            let t = post_request_text(path, body);
            let head_len = t.len() - body.len();
            &&& head_len >= 4
            &&& t.subrange(head_len, t.len() as int) == body
            &&& t.subrange(head_len - 4, head_len) == "\r\n\r\n"@
            &&& exists|i: int|
                0 <= i && i + content_length_line(encode_utf8(body).len()).len() <= head_len
                    && #[trigger] t.subrange(i, i + content_length_line(encode_utf8(body).len()).len())
                    == content_length_line(encode_utf8(body).len())
        }),
{
    reveal_strlit("Connection: close\r\n\r\n");
    reveal_strlit("\r\n\r\n");
    let t = post_request_text(path, body);
    let line = content_length_line(encode_utf8(body).len());
    let a = "POST "@ + path + " HTTP/1.1\r\nHost: localhost\r\nContent-Type: text/plain\r\n"@;
    let tail = "Connection: close\r\n\r\n"@;
    assert(t =~= a + line + tail + body);
    let head_len = t.len() - body.len();
    assert(t.subrange(head_len, t.len() as int) =~= body);
    assert(t.subrange(head_len - 4, head_len) =~= "\r\n\r\n"@);
    assert(t.subrange(a.len() as int, (a.len() + line.len()) as int) =~= line);
}

} // verus!
