//! Route selection for the accompanying request handler.
//!
//! The server that sits in front of the pool distinguishes exactly three
//! routes by matching the whole request line; the decision itself is plain
//! computation and is verified here, while reading the request and writing
//! the response stay with the caller.

use vstd::prelude::*;
use vstd::string::StringExecFns;
use vstd::string::StringSliceAdditionalSpecFns;
use vstd::utf8::encode_utf8;

verus! {

/// The three routes the request handler distinguishes.
#[derive(Clone, Copy, Debug, PartialEq, Eq, Structural)]
pub enum Route {
    /// The root page.
    Root,
    /// The page that is served only after a deliberate delay.
    Sleep,
    /// Anything else.
    NotFound,
}

/// Which route a request line selects: the two literal routes are matched
/// exactly, anything else falls back to `NotFound`.
pub open spec fn route_spec(line: Seq<char>) -> Route {
    if line == "GET / HTTP/1.1"@ {
        Route::Root
    } else if line == "GET /sleep HTTP/1.1"@ {
        Route::Sleep
    } else {
        Route::NotFound
    }
}

impl Route {
    /// The status line answered on this route.
    pub open spec fn status_line_spec(self) -> Seq<char> {
        match self {
            Route::NotFound => "HTTP/1.1 404 NOT FOUND"@,
            _ => "HTTP/1.1 200 OK"@,
        }
    }

    /// The file whose contents form the response body on this route.
    pub open spec fn file_name_spec(self) -> Seq<char> {
        match self {
            Route::Root => "hello.html"@,
            Route::Sleep => "front-end/hello.html"@,
            Route::NotFound => "404.html"@,
        }
    }

    pub fn status_line(&self) -> (s: String)
        ensures
            s@ == self.status_line_spec(),
    {
        match self {
            Route::NotFound => "HTTP/1.1 404 NOT FOUND".to_owned(),
            _ => "HTTP/1.1 200 OK".to_owned(),
        }
    }

    pub fn file_name(&self) -> (s: String)
        ensures
            s@ == self.file_name_spec(),
    {
        match self {
            Route::Root => "hello.html".to_owned(),
            Route::Sleep => "front-end/hello.html".to_owned(),
            Route::NotFound => "404.html".to_owned(),
        }
    }

    /// Whether the handler stalls before answering on this route.
    pub fn is_sleep(&self) -> (b: bool)
        ensures
            b == (self is Sleep),
    {
        matches!(self, Route::Sleep)
    }
}

/// The character a single decimal digit is written as.
pub open spec fn digit_char(d: nat) -> char {
    if d == 0 {
        '0'
    } else if d == 1 {
        '1'
    } else if d == 2 {
        '2'
    } else if d == 3 {
        '3'
    } else if d == 4 {
        '4'
    } else if d == 5 {
        '5'
    } else if d == 6 {
        '6'
    } else if d == 7 {
        '7'
    } else if d == 8 {
        '8'
    } else {
        '9'
    }
}

/// The decimal writing of `n`: most significant digit first, no leading
/// zeroes, a lone zero for zero.
pub open spec fn decimal_of(n: nat) -> Seq<char>
    decreases n,
{
    if n < 10 {
        seq![digit_char(n)]
    } else {
        decimal_of(n / 10).push(digit_char(n % 10))
    }
}

fn push_digit(s: &mut String, d: usize)
    requires
        d < 10,
    ensures
        final(s)@ == old(s)@.push(digit_char(d as nat)),
{
    proof {
        reveal_strlit("0");
        reveal_strlit("1");
        reveal_strlit("2");
        reveal_strlit("3");
        reveal_strlit("4");
        reveal_strlit("5");
        reveal_strlit("6");
        reveal_strlit("7");
        reveal_strlit("8");
        reveal_strlit("9");
    }
    match d {
        0 => s.append("0"),
        1 => s.append("1"),
        2 => s.append("2"),
        3 => s.append("3"),
        4 => s.append("4"),
        5 => s.append("5"),
        6 => s.append("6"),
        7 => s.append("7"),
        8 => s.append("8"),
        _ => s.append("9"),
    }
    proof {
        assert(s@ =~= old(s)@.push(digit_char(d as nat)));
    }
}

/// Writes `n` in decimal.
pub fn decimal_string(n: usize) -> (s: String)
    ensures
        s@ == decimal_of(n as nat),
    decreases n,
{
    if n < 10 {
        let mut s = String::new();
        push_digit(&mut s, n);
        proof {
            assert(s@ =~= decimal_of(n as nat));
        }
        s
    } else {
        let mut s = decimal_string(n / 10);
        push_digit(&mut s, n % 10);
        s
    }
}

/// The whole response for a status line and a body: the status line,
/// then a Content-Length header naming exactly the body's length in
/// bytes, a blank line, and the body.
pub open spec fn response_spec(status: Seq<char>, body: Seq<char>) -> Seq<char> {
    status + "\r\nContent-Length: "@ + decimal_of(encode_utf8(body).len()) + "\r\n\r\n"@ + body
}

/// Assembles the response the handler writes back: the Content-Length
/// it names is exactly the byte length of the body that follows. The
/// body must fit the machine: a string in memory always does.
pub fn build_response(status: &String, body: &String) -> (r: String)
    requires
        encode_utf8(body@).len() <= usize::MAX,
    ensures
        r@ == response_spec(status@, body@),
{
    let mut r = status.clone();
    r.append("\r\nContent-Length: ");
    let bs = body.as_str();
    let n = bs.len();
    proof {
        assert(bs.spec_bytes() == encode_utf8(body@));
        assert(n as nat == encode_utf8(body@).len());
    }
    let digits = decimal_string(n);
    r.append(digits.as_str());
    r.append("\r\n\r\n");
    r.append(bs);
    proof {
        assert(r@ =~= response_spec(status@, body@));
    }
    r
}

/// Selects the route for one request line.
pub fn route(line: &String) -> (r: Route)
    ensures
        r == route_spec(line@),
{
    let root: String = "GET / HTTP/1.1".to_owned();
    if *line == root {
        return Route::Root;
    }
    let delayed: String = "GET /sleep HTTP/1.1".to_owned();
    if *line == delayed {
        Route::Sleep
    } else {
        Route::NotFound
    }
}

} // verus!
