use vstd::prelude::*;

verus! {

/// The decimal digits of `n`, most significant first, without leading zeros.
pub open spec fn decimal(n: nat) -> Seq<u8>
    decreases n,
{
    if n < 10 {
        seq![(48 + n) as u8]
    } else {
        decimal(n / 10).push((48 + n % 10) as u8)
    }
}

/// Appends the decimal digits of `n` to `out`.
pub fn push_decimal(out: &mut Vec<u8>, n: usize)
    ensures
        final(out)@ == old(out)@ + decimal(n as nat),
    decreases n,
{
    if n >= 10 {
        push_decimal(out, n / 10);
    }
    let digit: u8 = (n % 10) as u8;
    out.push(48u8 + digit);
    assert(out@ =~= old(out)@ + decimal(n as nat));
}

/// What a request asks for, judged by the first bytes of the request.
#[derive(PartialEq, Eq, Structural, Clone, Copy, Debug)]
pub enum Route {
    /// The root page.
    Index,
    /// The root page, served after a deliberate delay.
    Slow,
    /// Anything else: the not-found page.
    NotFound,
}

/// The request line that asks for the root page: `GET / HTTP/1.1\r\n` in ASCII.
pub open spec fn index_request() -> Seq<u8> {
    seq![71u8, 69, 84, 32, 47, 32, 72, 84, 84, 80, 47, 49, 46, 49, 13, 10]
}

/// The request line that asks for the root page after a delay:
/// `GET /sleep HTTP/1.1\r\n` in ASCII.
pub open spec fn slow_request() -> Seq<u8> {
    seq![
        71u8, 69, 84, 32, 47, 115, 108, 101, 101, 112, 32,
        72, 84, 84, 80, 47, 49, 46, 49, 13, 10,
    ]
}

/// `p` is a prefix of `s`.
pub open spec fn starts_with(s: Seq<u8>, p: Seq<u8>) -> bool {
    p.len() <= s.len() && s.subrange(0, p.len() as int) == p
}

/// The route that a request (the bytes read from a connection) selects.
pub open spec fn route_of(request: Seq<u8>) -> Route {
    if starts_with(request, index_request()) {
        Route::Index
    } else if starts_with(request, slow_request()) {
        Route::Slow
    } else {
        Route::NotFound
    }
}

/// Whether `p` is a prefix of `s`.
pub fn has_prefix(s: &[u8], p: &[u8]) -> (r: bool)
    ensures
        r == starts_with(s@, p@),
{
    if p.len() > s.len() {
        return false;
    }
    let mut i: usize = 0;
    while i < p.len()
        invariant
            p@.len() <= s@.len(),
            i <= p@.len(),
            forall|k: int| 0 <= k < i ==> s@[k] == p@[k],
        decreases p@.len() - i,
    {
        if s[i] != p[i] {
            assert(s@.subrange(0, p@.len() as int)[i as int] != p@[i as int]);
            return false;
        }
        i = i + 1;
    }
    assert(s@.subrange(0, p@.len() as int) =~= p@);
    true
}

/// The request line for the root page, as bytes.
fn index_line() -> (r: Vec<u8>)
    ensures
        r@ == index_request(),
{
    let r = vec![71u8, 69, 84, 32, 47, 32, 72, 84, 84, 80, 47, 49, 46, 49, 13, 10];
    assert(r@ =~= index_request());
    r
}

/// The request line for the delayed root page, as bytes.
fn slow_line() -> (r: Vec<u8>)
    ensures
        r@ == slow_request(),
{
    let r = vec![
        71u8, 69, 84, 32, 47, 115, 108, 101, 101, 112, 32,
        72, 84, 84, 80, 47, 49, 46, 49, 13, 10,
    ];
    assert(r@ =~= slow_request());
    r
}

/// Classifies a request by its first bytes: the root page, the delayed root
/// page, or not found.
pub fn classify(request: &[u8]) -> (r: Route)
    ensures
        r == route_of(request@),
{
    let index = index_line();
    if has_prefix(request, index.as_slice()) {
        return Route::Index;
    }
    let slow = slow_line();
    if has_prefix(request, slow.as_slice()) {
        Route::Slow
    } else {
        Route::NotFound
    }
}

/// The status line for a route: `HTTP/1.1 200 OK` for the root page, fast or
/// slow, and `HTTP/1.1 404 NOT FOUND` otherwise, in ASCII.
pub open spec fn status_of(route: Route) -> Seq<u8> {
    match route {
        Route::NotFound => seq![
            72u8, 84, 84, 80, 47, 49, 46, 49, 32, 52, 48, 52, 32, 78, 79, 84, 32, 70, 79, 85, 78, 68,
        ],
        _ => seq![72u8, 84, 84, 80, 47, 49, 46, 49, 32, 50, 48, 48, 32, 79, 75],
    }
}

/// `\r\nContent-Length: ` in ASCII.
pub open spec fn length_header() -> Seq<u8> {
    seq![13u8, 10, 67, 111, 110, 116, 101, 110, 116, 45, 76, 101, 110, 103, 116, 104, 58, 32]
}

/// `\r\n\r\n` in ASCII: the end of the header.
pub open spec fn header_end() -> Seq<u8> {
    seq![13u8, 10, 13, 10]
}

/// A response: the status line, a `Content-Length` header that gives the
/// byte length of the body, an empty line, and the body.
pub open spec fn response(status: Seq<u8>, body: Seq<u8>) -> Seq<u8> {
    status + length_header() + decimal(body.len()) + header_end() + body
}

/// The status line for `route`.
pub fn status_line(route: Route) -> (r: Vec<u8>)
    ensures
        r@ == status_of(route),
{
    match route {
        Route::NotFound => {
            let r = vec![
                72u8, 84, 84, 80, 47, 49, 46, 49, 32, 52, 48, 52, 32, 78, 79, 84, 32, 70, 79, 85, 78,
                68,
            ];
            assert(r@ =~= status_of(route));
            r
        },
        _ => {
            let r = vec![72u8, 84, 84, 80, 47, 49, 46, 49, 32, 50, 48, 48, 32, 79, 75];
            assert(r@ =~= status_of(route));
            r
        },
    }
}

/// The name of the file whose contents answer `route`.
pub fn file_name(route: Route) -> (r: &'static str)
    ensures
        route == Route::NotFound ==> r@ == "404.html"@,
        route != Route::NotFound ==> r@ == "index.html"@,
{
    match route {
        Route::NotFound => "404.html",
        _ => "index.html",
    }
}

/// Appends the bytes of `s` to `out`.
fn push_bytes(out: &mut Vec<u8>, s: &[u8])
    ensures
        final(out)@ == old(out)@ + s@,
{
    let mut i: usize = 0;
    while i < s.len()
        invariant
            i <= s@.len(),
            out@ == old(out)@ + s@.subrange(0, i as int),
        decreases s@.len() - i,
    {
        out.push(s[i]);
        i = i + 1;
        assert(out@ =~= old(out)@ + s@.subrange(0, i as int));
    }
    assert(s@.subrange(0, i as int) =~= s@);
}

/// Frames `body` as a response with the given status line.
pub fn render_response(status: &[u8], body: &[u8]) -> (r: Vec<u8>)
    ensures
        r@ == response(status@, body@),
{
    let mut out: Vec<u8> = Vec::new();
    push_bytes(&mut out, status);
    let header = vec![13u8, 10, 67, 111, 110, 116, 101, 110, 116, 45, 76, 101, 110, 103, 116, 104, 58, 32];
    assert(header@ =~= length_header());
    push_bytes(&mut out, header.as_slice());
    push_decimal(&mut out, body.len());
    let end = vec![13u8, 10, 13, 10];
    assert(end@ =~= header_end());
    push_bytes(&mut out, end.as_slice());
    push_bytes(&mut out, body);
    assert(out@ =~= response(status@, body@));
    out
}

/// The response to a request on `route` whose file holds `contents`.
pub fn respond(route: Route, contents: &[u8]) -> (r: Vec<u8>)
    ensures
        r@ == response(status_of(route), contents@),
{
    let status = status_line(route);
    render_response(status.as_slice(), contents)
}

} // verus!
