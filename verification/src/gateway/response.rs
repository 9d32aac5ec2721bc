//! The output of the CGI program as an HTTP response: a block of header lines
//! that ends at the first empty line, and behind it the body.

use crate::decimal::{parse_unsigned, read_unsigned};
use crate::text::{
    chars_of, find_byte, find_char, is_text, lemma_position_unique, position, string_of_range,
};
use vstd::prelude::*;
use vstd::slice::{slice_subrange, slice_to_vec};
use vstd::utf8::{decode_utf8, valid_utf8};

verus! {

/// The byte that ends a line.
pub const LINE_FEED: u8 = 10;

/// The byte that may stand before the line feed and then belongs to the line's end.
pub const CARRIAGE_RETURN: u8 = 13;

/// The status of a response whose header block names none.
pub const DEFAULT_STATUS: u16 = 200;

/// Why the output of the CGI program is no response.
#[derive(Clone, Copy, Debug, PartialEq, Eq, Structural)]
pub enum CgiError {
    /// A header line is not UTF-8.
    InvalidUtf8,
    /// A header line has no `:`.
    MissingColon,
    /// A header line ends with its first `:`.
    MissingValue,
    /// The value of `Status` does not start with a three-character number.
    InvalidStatus,
}

/// One line of the header block.
pub enum HeaderLine {
    /// The status code that the line `Status` gives.
    Status(u16),
    /// A header with its name and value.
    Field(String, String),
}

/// What a line of the header block says, as plain values.
pub enum HeaderLineView {
    Status(u16),
    Field(Seq<char>, Seq<char>),
}

impl View for HeaderLine {
    type V = HeaderLineView;

    open spec fn view(&self) -> HeaderLineView {
        match *self {
            HeaderLine::Status(code) => HeaderLineView::Status(code),
            HeaderLine::Field(name, value) => HeaderLineView::Field(name@, value@),
        }
    }
}

/// The name of a header line: what stands before its first `:`.
pub open spec fn line_name(line: Seq<char>) -> Seq<char> {
    line.take(position(line, ':') as int)
}

/// The value of a header line: what stands behind its first `:` and the one
/// character that follows it.
pub open spec fn line_value(line: Seq<char>) -> Seq<char> {
    line.skip(position(line, ':') as int + 2)
}

/// The status code at the start of the value of `Status`: its first three
/// characters, read as a number.
pub open spec fn status_of(value: Seq<char>) -> Option<u16> {
    if value.len() < 3 {
        None
    } else {
        match parse_unsigned(value.take(3), u16::MAX as nat) {
            Some(code) => Some(code as u16),
            None => None,
        }
    }
}

/// What a line of the header block says, or why it is malformed.
pub open spec fn header_line_of(line: Seq<char>) -> Result<HeaderLineView, CgiError> {
    if position(line, ':') >= line.len() {
        Err(CgiError::MissingColon)
    } else if position(line, ':') + 1 >= line.len() {
        Err(CgiError::MissingValue)
    } else if line_name(line) == "Status"@ {
        match status_of(line_value(line)) {
            Some(code) => Ok(HeaderLineView::Status(code)),
            None => Err(CgiError::InvalidStatus),
        }
    } else {
        Ok(HeaderLineView::Field(line_name(line), line_value(line)))
    }
}

/// Reads one line of the header block, given without its line end.
pub fn parse_header_line(line: &str) -> (parsed: Result<HeaderLine, CgiError>)
    ensures
        match parsed {
            Ok(l) => header_line_of(line@) == Ok::<HeaderLineView, CgiError>(l@),
            Err(e) => header_line_of(line@) == Err::<HeaderLineView, CgiError>(e),
        },
{
    let chars = chars_of(line);
    let colon = find_char(chars.as_slice(), ':');
    if colon >= chars.len() {
        return Err(CgiError::MissingColon);
    }
    if colon + 1 >= chars.len() {
        return Err(CgiError::MissingValue);
    }
    let name = slice_subrange(chars.as_slice(), 0, colon);
    if is_text(name, "Status") {
        if chars.len() - (colon + 2) < 3 {
            return Err(CgiError::InvalidStatus);
        }
        let digits = slice_subrange(chars.as_slice(), colon + 2, colon + 5);
        assert(digits@ == line_value(line@).take(3));
        match read_unsigned(digits, 65535) {
            Some(code) => Ok(HeaderLine::Status(code as u16)),
            None => Err(CgiError::InvalidStatus),
        }
    } else {
        let name = string_of_range(chars.as_slice(), 0, colon);
        let value = string_of_range(chars.as_slice(), colon + 2, chars.len());
        Ok(HeaderLine::Field(name, value))
    }
}

/// The status code and headers of a response.
pub struct ResponseHead {
    pub status_code: u16,
    pub headers: Vec<(String, String)>,
}

/// The status code and headers of a response, as plain values.
pub struct ResponseHeadView {
    pub status_code: u16,
    pub headers: Seq<(Seq<char>, Seq<char>)>,
}

/// A list of headers as plain values.
pub open spec fn header_views(headers: Seq<(String, String)>) -> Seq<(Seq<char>, Seq<char>)> {
    headers.map_values(|h: (String, String)| (h.0@, h.1@))
}

impl View for ResponseHead {
    type V = ResponseHeadView;

    open spec fn view(&self) -> ResponseHeadView {
        ResponseHeadView { status_code: self.status_code, headers: header_views(self.headers@) }
    }
}

/// The head before any line is read: the default status, no header.
pub open spec fn initial_head() -> ResponseHeadView {
    ResponseHeadView { status_code: DEFAULT_STATUS, headers: Seq::empty() }
}

/// The head once a further line is read: `Status` replaces the status code,
/// any other line adds a header at the end.
pub open spec fn head_with(head: ResponseHeadView, line: HeaderLineView) -> ResponseHeadView {
    match line {
        HeaderLineView::Status(code) => ResponseHeadView {
            status_code: code,
            headers: head.headers,
        },
        HeaderLineView::Field(name, value) => ResponseHeadView {
            status_code: head.status_code,
            headers: head.headers.push((name, value)),
        },
    }
}

impl ResponseHead {
    /// The head before any line is read.
    pub fn new() -> (head: ResponseHead)
        ensures
            head@ == initial_head(),
    {
        let head = ResponseHead { status_code: DEFAULT_STATUS, headers: Vec::new() };
        assert(head@.headers =~= Seq::empty());
        head
    }

    /// Takes in what a line said.
    pub fn apply(&mut self, line: HeaderLine)
        ensures
            final(self)@ == head_with(old(self)@, line@),
    {
        match line {
            HeaderLine::Status(code) => {
                self.status_code = code;
            },
            HeaderLine::Field(name, value) => {
                self.headers.push((name, value));
                assert(header_views(self.headers@) =~= header_views(old(self).headers@).push(
                    (name@, value@),
                ));
            },
        }
    }

    /// Reads the next line of the output, given without its line end. The
    /// empty line ends the header block: the answer is `Ok(false)` and the
    /// head is complete. Any other line is taken in, with `Ok(true)`, or
    /// refused.
    pub fn accept(&mut self, line: &str) -> (more: Result<bool, CgiError>)
        ensures
            match more {
                Ok(taken) => taken == (line@.len() > 0) && (if taken {
                    header_line_of(line@) is Ok && final(self)@ == head_with(
                        old(self)@,
                        header_line_of(line@)->Ok_0,
                    )
                } else {
                    final(self)@ == old(self)@
                }),
                Err(e) => line@.len() > 0 && header_line_of(line@) == Err::<
                    HeaderLineView,
                    CgiError,
                >(e) && final(self)@ == old(self)@,
            },
    {
        if line.is_empty() {
            return Ok(false);
        }
        match parse_header_line(line) {
            Ok(parsed) => {
                self.apply(parsed);
                Ok(true)
            },
            Err(e) => Err(e),
        }
    }
}

/// A response made of the CGI program's output.
pub struct CgiResponse {
    pub status_code: u16,
    pub headers: Vec<(String, String)>,
    pub body: Vec<u8>,
}

/// A response made of the CGI program's output, as plain values.
pub struct CgiResponseView {
    pub status_code: u16,
    pub headers: Seq<(Seq<char>, Seq<char>)>,
    pub body: Seq<u8>,
}

impl View for CgiResponse {
    type V = CgiResponseView;

    open spec fn view(&self) -> CgiResponseView {
        CgiResponseView {
            status_code: self.status_code,
            headers: header_views(self.headers@),
            body: self.body@,
        }
    }
}

/// A line without its end: where a line feed ended it, a carriage return
/// before the line feed is taken off too.
pub open spec fn line_content(raw: Seq<u8>, terminated: bool) -> Seq<u8> {
    if terminated && raw.len() > 0 && raw.last() == CARRIAGE_RETURN {
        raw.drop_last()
    } else {
        raw
    }
}

/// The output in two parts: the lines before the first empty line, each
/// without its line end, and the bytes behind the empty line. Output without
/// an empty line is all header lines, with nothing behind.
pub open spec fn split_head(out: Seq<u8>) -> (Seq<Seq<u8>>, Seq<u8>)
    decreases out.len(),
{
    if out.len() == 0 {
        (Seq::empty(), Seq::empty())
    } else {
        let end = position(out, LINE_FEED) as int;
        let terminated = end < out.len();
        let rest = if terminated {
            out.skip(end + 1)
        } else {
            Seq::empty()
        };
        let line = line_content(out.take(end), terminated);
        if line.len() == 0 {
            (Seq::empty(), rest)
        } else {
            (seq![line] + split_head(rest).0, split_head(rest).1)
        }
    }
}

/// The head that the header lines give, read first to last over `head`. The
/// first line that is malformed decides the error.
pub open spec fn head_of_lines(lines: Seq<Seq<u8>>, head: ResponseHeadView) -> Result<
    ResponseHeadView,
    CgiError,
>
    decreases lines.len(),
{
    if lines.len() == 0 {
        Ok(head)
    } else if !valid_utf8(lines[0]) {
        Err(CgiError::InvalidUtf8)
    } else {
        match header_line_of(decode_utf8(lines[0])) {
            Err(e) => Err(e),
            Ok(line) => head_of_lines(lines.drop_first(), head_with(head, line)),
        }
    }
}

/// The response that output gives when its header lines are read over `head`.
pub open spec fn response_from(out: Seq<u8>, head: ResponseHeadView) -> Result<
    CgiResponseView,
    CgiError,
> {
    match head_of_lines(split_head(out).0, head) {
        Ok(h) => Ok(
            CgiResponseView {
                status_code: h.status_code,
                headers: h.headers,
                body: split_head(out).1,
            },
        ),
        Err(e) => Err(e),
    }
}

/// The response that the output of the CGI program stands for.
pub open spec fn cgi_response_of(out: Seq<u8>) -> Result<CgiResponseView, CgiError> {
    response_from(out, initial_head())
}

/// Header lines written out one after the other, each ended by a line feed.
pub open spec fn joined(lines: Seq<Seq<u8>>) -> Seq<u8>
    decreases lines.len(),
{
    if lines.len() == 0 {
        Seq::empty()
    } else {
        lines[0] + seq![LINE_FEED] + joined(lines.drop_first())
    }
}

/// Whether `end` is an empty line: a line feed, alone or behind a carriage return.
pub open spec fn is_empty_line(end: Seq<u8>) -> bool {
    end == seq![LINE_FEED] || end == seq![CARRIAGE_RETURN, LINE_FEED]
}

/// The header block ends at the first empty line, and what follows it is the
/// body, byte for byte: output made of header lines, an empty line and a
/// body is split into those lines, each without its line end, and that body.
pub proof fn lemma_split_head(lines: Seq<Seq<u8>>, empty_line: Seq<u8>, body: Seq<u8>)
    requires
        forall|i: int|
            0 <= i < lines.len() ==> !(#[trigger] lines[i]).contains(LINE_FEED) && line_content(
                lines[i],
                true,
            ).len() > 0,
        is_empty_line(empty_line),
    ensures
        split_head(joined(lines) + empty_line + body) == (
            lines.map_values(|l: Seq<u8>| line_content(l, true)),
            body,
        ),
    decreases lines.len(),
{
    let out = joined(lines) + empty_line + body;
    let stripped = lines.map_values(|l: Seq<u8>| line_content(l, true));
    if lines.len() == 0 {
        let end = empty_line.len() - 1;
        assert(out[end] == LINE_FEED);
        lemma_position_unique(out, LINE_FEED, end);
        assert(out.skip(end + 1) =~= body);
        assert(out.take(end) =~= empty_line.take(end));
        assert(line_content(out.take(end), true).len() == 0);
        assert(stripped =~= Seq::empty());
    } else {
        let first = lines[0];
        let others = lines.drop_first();
        let end = first.len() as int;
        let after = joined(others) + empty_line + body;
        assert(out =~= first + seq![LINE_FEED] + after);
        assert forall|j: int| 0 <= j < end implies out[j] != LINE_FEED by {
            assert(out[j] == first[j]);
            assert(first.contains(first[j]));
        }
        assert(out[end] == LINE_FEED);
        lemma_position_unique(out, LINE_FEED, end);
        assert(out.take(end) =~= first);
        assert(out.skip(end + 1) =~= after);
        assert forall|i: int| 0 <= i < others.len() implies !(#[trigger] others[i]).contains(
            LINE_FEED,
        ) && line_content(others[i], true).len() > 0 by {
            assert(others[i] == lines[i + 1]);
        }
        lemma_split_head(others, empty_line, body);
        assert(stripped =~= seq![line_content(first, true)] + others.map_values(
            |l: Seq<u8>| line_content(l, true),
        ));
    }
}

/// Whether a header line is named `Status`.
pub open spec fn is_status_line(line: Seq<u8>) -> bool {
    valid_utf8(line) && line_name(decode_utf8(line)) == "Status"@
}

/// Header lines of which none is named `Status` leave the status code as it was.
pub proof fn lemma_status_kept(lines: Seq<Seq<u8>>, head: ResponseHeadView)
    requires
        head_of_lines(lines, head) is Ok,
        forall|i: int| 0 <= i < lines.len() ==> !is_status_line(#[trigger] lines[i]),
    ensures
        head_of_lines(lines, head)->Ok_0.status_code == head.status_code,
    decreases lines.len(),
{
    if lines.len() > 0 {
        assert(!is_status_line(lines[0]));
        let line = header_line_of(decode_utf8(lines[0]))->Ok_0;
        let others = lines.drop_first();
        assert forall|i: int| 0 <= i < others.len() implies !is_status_line(
            #[trigger] others[i],
        ) by {
            assert(others[i] == lines[i + 1]);
        }
        lemma_status_kept(others, head_with(head, line));
    }
}

/// A response whose header block has no line named `Status` has the default
/// status.
pub proof fn lemma_default_status(out: Seq<u8>)
    requires
        cgi_response_of(out) is Ok,
        forall|i: int|
            0 <= i < split_head(out).0.len() ==> !is_status_line(#[trigger] split_head(out).0[i]),
    ensures
        cgi_response_of(out)->Ok_0.status_code == DEFAULT_STATUS,
{
    lemma_status_kept(split_head(out).0, initial_head());
}

/// `String::from_utf8`: the bytes as a string where they are UTF-8, which
/// then holds the characters that the bytes encode; an error, here `None`,
/// where they are not.
#[verifier::external_body]
fn utf8_text(bytes: Vec<u8>) -> (text: Option<String>)
    ensures
        text is Some <==> valid_utf8(bytes@),
        text is Some ==> text->0@ == decode_utf8(bytes@),
{
    String::from_utf8(bytes).ok()
}

/// Reads the whole output of the CGI program: the header block up to the
/// first empty line, then the body, which is every byte behind that line.
pub fn parse_cgi_output(output: &[u8]) -> (response: Result<CgiResponse, CgiError>)
    ensures
        match response {
            Ok(r) => cgi_response_of(output@) == Ok::<CgiResponseView, CgiError>(r@),
            Err(e) => cgi_response_of(output@) == Err::<CgiResponseView, CgiError>(e),
        },
{
    let mut head = ResponseHead::new();
    let mut pos: usize = 0;
    assert(output@.skip(0) == output@);
    while pos < output.len()
        invariant
            pos <= output@.len(),
            response_from(output@.skip(pos as int), head@) == cgi_response_of(output@),
        decreases output@.len() - pos,
    {
        let ghost rest = output@.skip(pos as int);
        let end = find_byte(output, pos, LINE_FEED);
        let terminated = end < output.len();
        let next = if terminated {
            end + 1
        } else {
            end
        };
        let mut line_end = end;
        if terminated && end > pos && output[end - 1] == CARRIAGE_RETURN {
            line_end = end - 1;
        }
        proof {
            assert(rest.take(end - pos) == output@.subrange(pos as int, end as int));
            assert(line_content(rest.take(end - pos), terminated) == output@.subrange(
                pos as int,
                line_end as int,
            ));
            if terminated {
                assert(rest.skip(end - pos + 1) == output@.skip(next as int));
            } else {
                assert(output@.skip(next as int) == Seq::<u8>::empty());
            }
        }
        if line_end == pos {
            let body = slice_to_vec(slice_subrange(output, next, output.len()));
            assert(body@ == output@.skip(next as int));
            return Ok(CgiResponse { status_code: head.status_code, headers: head.headers, body });
        }
        let ghost line = output@.subrange(pos as int, line_end as int);
        let ghost tail = split_head(output@.skip(next as int)).0;
        proof {
            assert(split_head(rest).0 == seq![line] + tail);
            assert((seq![line] + tail)[0] == line);
            assert((seq![line] + tail).drop_first() == tail);
        }
        let bytes = slice_to_vec(slice_subrange(output, pos, line_end));
        match utf8_text(bytes) {
            None => {
                return Err(CgiError::InvalidUtf8);
            },
            Some(text) => {
                match parse_header_line(text.as_str()) {
                    Err(e) => {
                        return Err(e);
                    },
                    Ok(parsed) => {
                        head.apply(parsed);
                    },
                }
            },
        }
        pos = next;
    }
    assert(output@.skip(pos as int).len() == 0);
    Ok(CgiResponse { status_code: head.status_code, headers: head.headers, body: Vec::new() })
}

} // verus!
