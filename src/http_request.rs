//! An HTTP request described as plain values, for any HTTP client to send.
use vstd::prelude::*;

verus! {

/// An HTTP request to the API.
#[derive(Debug)]
pub struct HttpRequest {
    /// Request host.
    pub host: String,
    /// Request path.
    pub path: String,
    /// HTTP method.
    pub method: &'static str,
    /// Request headers, in order.
    pub headers: Vec<(&'static str, String)>,
    /// Request body.
    pub body: String,
}

/// One header line, without its line break.
pub open spec fn header_line(h: (&'static str, String)) -> Seq<char> {
    h.0@ + ": "@ + h.1@
}

/// The first `n` header lines, separated by line breaks.
pub open spec fn header_lines(hs: Seq<(&'static str, String)>, n: int) -> Seq<char>
    decreases n,
{
    if n <= 0 || n > hs.len() {
        Seq::empty()
    } else if n == 1 {
        header_line(hs[0])
    } else {
        header_lines(hs, n - 1) + "\n"@ + header_line(hs[n - 1])
    }
}

/// The first `n` header lines, each ended by a line break.
pub open spec fn header_block(hs: Seq<(&'static str, String)>, n: int) -> Seq<char>
    decreases n,
{
    if n <= 0 || n > hs.len() {
        Seq::empty()
    } else {
        header_block(hs, n - 1) + header_line(hs[n - 1]) + "\n"@
    }
}

/// The request as text: request line, host, headers, an empty line, then the body.
pub open spec fn request_text(r: HttpRequest) -> Seq<char> {
    r.method@ + " "@ + r.path@ + " HTTP/1.1\n"@ + "Host: "@ + r.host@ + "\n"@ + header_block(
        r.headers@,
        r.headers@.len() as int,
    ) + "\n"@ + r.body@
}

impl HttpRequest {
    /// The headers as text, one `name: value` per line; the `Host` header is not among them.
    pub fn render_headers(&self) -> (r: String)
        ensures
            r@ == header_lines(self.headers@, self.headers@.len() as int),
    {
        let mut out = String::new();
        let mut i: usize = 0;
        while i < self.headers.len()
            invariant
                i <= self.headers@.len(),
                out@ == header_lines(self.headers@, i as int),
            decreases self.headers@.len() - i,
        {
            if i > 0 {
                out.append("\n");
            }
            let (name, value) = &self.headers[i];
            out.append(name);
            out.append(": ");
            out.append(value.as_str());
            i = i + 1;
        }
        out
    }

    /// The whole request as text.
    pub fn to_text(&self) -> (r: String)
        ensures
            r@ == request_text(*self),
    {
        let mut out = String::from_str(self.method);
        out.append(" ");
        out.append(self.path.as_str());
        out.append(" HTTP/1.1\n");
        out.append("Host: ");
        out.append(self.host.as_str());
        out.append("\n");
        let mut i: usize = 0;
        let ghost head = out@;
        while i < self.headers.len()
            invariant
                i <= self.headers@.len(),
                out@ == head + header_block(self.headers@, i as int),
            decreases self.headers@.len() - i,
        {
            let (name, value) = &self.headers[i];
            out.append(name);
            out.append(": ");
            out.append(value.as_str());
            out.append("\n");
            i = i + 1;
        }
        out.append("\n");
        out.append(self.body.as_str());
        out
    }

    /// The URL the request goes to, over HTTPS.
    pub fn url(&self) -> (r: String)
        ensures
            r@ == "https://"@ + self.host@ + self.path@,
    {
        let mut out = String::from_str("https://");
        out.append(self.host.as_str());
        out.append(self.path.as_str());
        out
    }
}

} // verus!
