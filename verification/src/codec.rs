//! Protocol codec: builds the line-oriented SHIORI/3.0 request text.
//!
//! A request is literal bytes
//! `METHOD VERSION VERSION\r\n` followed by `Key: Value\r\n` header lines in
//! insertion order and a terminating empty line.  The response body is opaque
//! to the codec; only the outgoing request format is structured here.

use vstd::prelude::*;

use crate::text::{append_u64, dec_digits, dec_int, append_i32};

verus! {

/// Carriage return + line feed, the protocol's line terminator.
pub open spec fn crlf() -> Seq<char> {
    seq!['\r', '\n']
}

/// One header line: `Key: Value\r\n`.
pub open spec fn header_line(key: Seq<char>, value: Seq<char>) -> Seq<char> {
    key + seq![':', ' '] + value + crlf()
}

/// All header lines, in insertion order.
pub open spec fn header_lines(headers: Seq<(Seq<char>, Seq<char>)>) -> Seq<char>
    decreases headers.len(),
{
    if headers.len() == 0 {
        seq![]
    } else {
        header_lines(headers.drop_last()) + header_line(headers.last().0, headers.last().1)
    }
}

/// The complete request: request line, header lines, empty line.
/// The method line echoes the version twice per legacy convention.
pub open spec fn request_text(
    method: Seq<char>,
    version: Seq<char>,
    headers: Seq<(Seq<char>, Seq<char>)>,
) -> Seq<char> {
    method + seq![' '] + version + seq![' '] + version + crlf() + header_lines(headers) + crlf()
}

/// The mathematical contents of a request under construction.
pub ghost struct RequestView {
    pub method: Seq<char>,
    pub version: Seq<char>,
    pub headers: Seq<(Seq<char>, Seq<char>)>,
}

/// Builder for SHIORI/3.0 request text.
pub struct ShioriRequestBuilder {
    method: String,
    version: String,
    headers: Vec<(String, String)>,
}

impl View for ShioriRequestBuilder {
    type V = RequestView;

    closed spec fn view(&self) -> RequestView {
        RequestView {
            method: self.method@,
            version: self.version@,
            headers: self.headers@.map_values(|p: (String, String)| (p.0@, p.1@)),
        }
    }
}

impl ShioriRequestBuilder {
    /// A plain `GET SHIORI/3.0` request with no headers yet.
    pub fn new() -> (r: Self)
        ensures
            r@.method == "GET"@,
            r@.version == "SHIORI/3.0"@,
            r@.headers.len() == 0,
    {
        let r = ShioriRequestBuilder {
            method: String::from_str("GET"),
            version: String::from_str("SHIORI/3.0"),
            headers: Vec::new(),
        };
        proof {
            assert(r@.headers =~= Seq::<(Seq<char>, Seq<char>)>::empty());
        }
        r
    }

    /// Replaces the request method (`GET` or `NOTIFY`).
    pub fn method(self, method: &str) -> (r: Self)
        ensures
            r@.method == method@,
            r@.version == self@.version,
            r@.headers == self@.headers,
    {
        let mut s = self;
        s.method = String::from_str(method);
        s
    }

    /// Appends one header; insertion order is preserved in the built text.
    pub fn header(self, key: &str, value: &str) -> (r: Self)
        ensures
            r@.method == self@.method,
            r@.version == self@.version,
            r@.headers == self@.headers.push((key@, value@)),
    {
        let mut s = self;
        s.headers.push((String::from_str(key), String::from_str(value)));
        proof {
            assert(s@.headers =~= self@.headers.push((key@, value@)));
        }
        s
    }

    /// Appends the optional `Sender` metadata header.
    pub fn sender(self, sender: &str) -> (r: Self)
        ensures
            r@.method == self@.method,
            r@.version == self@.version,
            r@.headers == self@.headers.push(("Sender"@, sender@)),
    {
        self.header("Sender", sender)
    }

    /// Appends the optional `Charset` metadata header.
    pub fn charset(self, charset: &str) -> (r: Self)
        ensures
            r@.method == self@.method,
            r@.version == self@.version,
            r@.headers == self@.headers.push(("Charset"@, charset@)),
    {
        self.header("Charset", charset)
    }

    /// Appends the `Event` header naming the notified event.
    pub fn event(self, event: &str) -> (r: Self)
        ensures
            r@.method == self@.method,
            r@.version == self@.version,
            r@.headers == self@.headers.push(("Event"@, event@)),
    {
        self.header("Event", event)
    }

    /// Appends the positional argument header `Reference<index>`.
    pub fn reference(self, index: usize, value: &str) -> (r: Self)
        ensures
            r@.method == self@.method,
            r@.version == self@.version,
            r@.headers == self@.headers.push(
                ("Reference"@ + dec_digits(index as int), value@),
            ),
    {
        let mut key = String::from_str("Reference");
        append_u64(&mut key, index as u64);
        let mut s = self;
        s.headers.push((key, String::from_str(value)));
        proof {
            assert(s@.headers =~= self@.headers.push(
                ("Reference"@ + dec_digits(index as int), value@),
            ));
        }
        s
    }

    /// Serializes the request: request line, headers in order, empty line.
    pub fn build(self) -> (r: String)
        ensures
            r@ == request_text(self@.method, self@.version, self@.headers),
    {
        proof {
            reveal_strlit(" ");
            reveal_strlit(": ");
            reveal_strlit("\r\n");
        }
        let mut request = String::new();
        request.append(self.method.as_str());
        request.append(" ");
        request.append(self.version.as_str());
        request.append(" ");
        request.append(self.version.as_str());
        request.append("\r\n");
        let ghost head = self@.method + seq![' '] + self@.version + seq![' '] + self@.version
            + crlf();
        proof {
            assert(request@ =~= head);
        }
        let ghost hdrs = self@.headers;
        let mut i: usize = 0;
        while i < self.headers.len()
            invariant
                hdrs == self@.headers,
                hdrs.len() == self.headers@.len(),
                forall|k: int|
                    0 <= k < hdrs.len() ==> hdrs[k] == (
                        #[trigger] self.headers@[k].0@,
                        self.headers@[k].1@,
                    ),
                0 <= i <= self.headers@.len(),
                request@ == head + header_lines(hdrs.take(i as int)),
            decreases self.headers@.len() - i,
        {
            let ghost prev = request@;
            request.append(self.headers[i].0.as_str());
            request.append(": ");
            request.append(self.headers[i].1.as_str());
            request.append("\r\n");
            proof {
                reveal_strlit(": ");
                reveal_strlit("\r\n");
                assert(hdrs[i as int] == (self.headers@[i as int].0@, self.headers@[i as int].1@));
                assert(request@ =~= prev + header_line(hdrs[i as int].0, hdrs[i as int].1));
                assert(hdrs.take(i + 1).drop_last() =~= hdrs.take(i as int));
                assert(hdrs.take(i + 1).last() == hdrs[i as int]);
                assert(header_lines(hdrs.take(i + 1)) == header_lines(hdrs.take(i as int))
                    + header_line(hdrs[i as int].0, hdrs[i as int].1));
                assert(request@ =~= head + header_lines(hdrs.take(i + 1)));
            }
            i += 1;
        }
        request.append("\r\n");
        proof {
            assert(hdrs.take(hdrs.len() as int) =~= hdrs);
            assert(request@ =~= request_text(self@.method, self@.version, self@.headers));
        }
        request
    }

    /// The synthetic boot event sent right after a successful load.
    pub fn on_boot() -> (r: Self)
        ensures
            r@.method == "NOTIFY"@,
            r@.version == "SHIORI/3.0"@,
            r@.headers == seq![("Event"@, "OnBoot"@), ("Charset"@, "UTF-8"@)],
    {
        let r = ShioriRequestBuilder::new().method("NOTIFY").header("Event", "OnBoot").charset(
            "UTF-8",
        );
        proof {
            assert(r@.headers =~= seq![("Event"@, "OnBoot"@), ("Charset"@, "UTF-8"@)]);
        }
        r
    }

    /// The synthetic close event sent right before unload.
    pub fn on_close() -> (r: Self)
        ensures
            r@.method == "NOTIFY"@,
            r@.version == "SHIORI/3.0"@,
            r@.headers == seq![("Event"@, "OnClose"@), ("Charset"@, "UTF-8"@)],
    {
        let r = ShioriRequestBuilder::new().method("NOTIFY").header("Event", "OnClose").charset(
            "UTF-8",
        );
        proof {
            assert(r@.headers =~= seq![("Event"@, "OnClose"@), ("Charset"@, "UTF-8"@)]);
        }
        r
    }

    /// The mouse-click UI event: coordinates then button name as references.
    pub fn on_mouse_click(x: i32, y: i32, button: &str) -> (r: Self)
        ensures
            r@.method == "NOTIFY"@,
            r@.version == "SHIORI/3.0"@,
            r@.headers == seq![
                ("Event"@, "OnMouseClick"@),
                ("Reference"@ + dec_digits(0), dec_int(x as int)),
                ("Reference"@ + dec_digits(1), dec_int(y as int)),
                ("Reference"@ + dec_digits(2), button@),
                ("Charset"@, "UTF-8"@),
            ],
    {
        let xs = crate::text::i32_to_string(x);
        let ys = crate::text::i32_to_string(y);
        let r = ShioriRequestBuilder::new().method("NOTIFY").header("Event", "OnMouseClick")
            .reference(0, xs.as_str()).reference(1, ys.as_str()).reference(2, button).charset(
            "UTF-8",
        );
        proof {
            assert(r@.headers =~= seq![
                ("Event"@, "OnMouseClick"@),
                ("Reference"@ + dec_digits(0), dec_int(x as int)),
                ("Reference"@ + dec_digits(1), dec_int(y as int)),
                ("Reference"@ + dec_digits(2), button@),
                ("Charset"@, "UTF-8"@),
            ]);
        }
        r
    }

    /// The per-second tick UI event.
    pub fn on_second_change() -> (r: Self)
        ensures
            r@.method == "NOTIFY"@,
            r@.version == "SHIORI/3.0"@,
            r@.headers == seq![("Event"@, "OnSecondChange"@), ("Charset"@, "UTF-8"@)],
    {
        let r = ShioriRequestBuilder::new().method("NOTIFY").header(
            "Event",
            "OnSecondChange",
        ).charset("UTF-8");
        proof {
            assert(r@.headers =~= seq![("Event"@, "OnSecondChange"@), ("Charset"@, "UTF-8"@)]);
        }
        r
    }
}

} // verus!
