//! The Focus API response framer.
//!
//! A response arrives as CRLF- or LF-terminated lines and ends with a
//! line starting with a single dot. Chunked transports may hand over any
//! prefix of that stream: framing then reports that more data is needed,
//! which is not an error.

use vstd::prelude::*;

verus! {

/// Error when parsing a Focus API response fails.
#[derive(Clone, Copy, Debug, PartialEq, Eq, Structural)]
pub enum ParseResponseError {
    /// Not yet enough data to frame a whole response.
    Incomplete,
    /// The data breaks the line structure of the protocol.
    Malformed,
}

impl ParseResponseError {
    /// What this outcome means, for a reader: that more data is needed is
    /// not a fault of the data, where a broken line structure is.
    pub open spec fn spec_message(self) -> Seq<char> {
        match self {
            ParseResponseError::Incomplete => "data is incomplete"@,
            ParseResponseError::Malformed => "failed to parse focus API response: expected lines ended by a line feed or by a carriage return and line feed, but a carriage return stands without a line feed"@,
        }
    }

    /// What this outcome means, for a reader.
    pub fn message(&self) -> (m: String)
        ensures
            m@ == self.spec_message(),
    {
        match self {
            ParseResponseError::Incomplete => "data is incomplete".to_owned(),
            ParseResponseError::Malformed => "failed to parse focus API response: expected lines ended by a line feed or by a carriage return and line feed, but a carriage return stands without a line feed".to_owned(),
        }
    }
}

/// String response from a Focus API command: the lines of the frame
/// joined by `\n`, without the terminating dot line.
#[derive(Clone, Debug, PartialEq, Eq)]
pub struct Response(pub String);

/// Outcome of framing, in specification form.
pub enum SpecFrame {
    /// The data ends before a whole frame is present.
    NeedMore,
    /// The data breaks the line structure.
    Malformed,
    /// A whole frame: the response text and the position after the
    /// terminating dot.
    Done(Seq<char>, int),
}

/// First position at or after `i` holding a line-ending character.
pub open spec fn spec_line_break(s: Seq<char>, i: int) -> int
    decreases s.len() - i,
    when 0 <= i
{
    if i >= s.len() || s[i] == '\r' || s[i] == '\n' {
        i
    } else {
        spec_line_break(s, i + 1)
    }
}

pub proof fn lemma_line_break_bounds(s: Seq<char>, i: int)
    requires
        0 <= i <= s.len(),
    ensures
        i <= spec_line_break(s, i) <= s.len(),
        spec_line_break(s, i) < s.len() ==> s[spec_line_break(s, i)] == '\r' || s[spec_line_break(
            s,
            i,
        )] == '\n',
        forall|k: int| i <= k < spec_line_break(s, i) ==> s[k] != '\r' && s[k] != '\n',
    decreases s.len() - i,
{
    if i < s.len() && s[i] != '\r' && s[i] != '\n' {
        lemma_line_break_bounds(s, i + 1);
    }
}

/// Reading one line at `i`: its content runs to the first line ending,
/// which is `\n` or `\r\n`. A missing ending needs more data; a `\r`
/// followed by anything else is malformed.
pub open spec fn spec_line_at(s: Seq<char>, i: int) -> SpecFrame {
    let e = spec_line_break(s, i);
    if e >= s.len() {
        SpecFrame::NeedMore
    } else if s[e] == '\n' {
        SpecFrame::Done(s.subrange(i, e), e + 1)
    } else if e + 1 >= s.len() {
        SpecFrame::NeedMore
    } else if s[e + 1] == '\n' {
        SpecFrame::Done(s.subrange(i, e), e + 2)
    } else {
        SpecFrame::Malformed
    }
}

pub proof fn lemma_line_advances(s: Seq<char>, i: int)
    requires
        0 <= i <= s.len(),
        spec_line_at(s, i) is Done,
    ensures
        i < spec_line_at(s, i)->Done_1 <= s.len(),
{
    lemma_line_break_bounds(s, i);
}

/// Framing after at least one line was read: a dot ends the frame;
/// every further line contributes `\n` and its content.
pub open spec fn spec_frame_rest(s: Seq<char>, i: int) -> SpecFrame
    decreases s.len() - i,
    when 0 <= i <= s.len()
    via spec_frame_rest_decreases
{
    if i >= s.len() {
        SpecFrame::NeedMore
    } else if s[i] == '.' {
        SpecFrame::Done(Seq::empty(), i + 1)
    } else {
        match spec_line_at(s, i) {
            SpecFrame::Done(c, j) => match spec_frame_rest(s, j) {
                SpecFrame::Done(rest, e) => SpecFrame::Done(seq!['\n'] + c + rest, e),
                other => other,
            },
            other => other,
        }
    }
}

#[via_fn]
proof fn spec_frame_rest_decreases(s: Seq<char>, i: int) {
    if 0 <= i < s.len() && s[i] != '.' && spec_line_at(s, i) is Done {
        lemma_line_advances(s, i);
    }
}

/// Framing one whole response: at least one line, then lines until one
/// starting with the terminating dot.
pub open spec fn spec_frame(s: Seq<char>) -> SpecFrame {
    match spec_line_at(s, 0) {
        SpecFrame::Done(c, j) => match spec_frame_rest(s, j) {
            SpecFrame::Done(rest, e) => SpecFrame::Done(c + rest, e),
            other => other,
        },
        other => other,
    }
}

/// Scans to the first line-ending character at or after `i`.
fn line_break(s: &str, i: usize) -> (e: usize)
    requires
        i <= s@.len(),
        s@.len() <= usize::MAX,
    ensures
        e == spec_line_break(s@, i as int),
{
    proof {
        lemma_line_break_bounds(s@, i as int);
    }
    let len = s.unicode_len();
    let mut e: usize = i;
    while e < len && s.get_char(e) != '\r' && s.get_char(e) != '\n'
        invariant
            i <= e <= len,
            len == s@.len(),
            e <= spec_line_break(s@, i as int),
            forall|k: int| i <= k < spec_line_break(s@, i as int) ==> s@[k] != '\r' && s@[k]
                != '\n',
            spec_line_break(s@, i as int) < s@.len() ==> s@[spec_line_break(s@, i as int)] == '\r'
                || s@[spec_line_break(s@, i as int)] == '\n',
            (e as int) < spec_line_break(s@, i as int) ==> s@[e as int] != '\r' && s@[e as int]
                != '\n',
        decreases len - e,
    {
        e = e + 1;
        proof {
            let b = spec_line_break(s@, i as int);
            assert(e as int <= b) by {
                if (e as int) > b {
                    assert(b <= e - 1 < s@.len());
                }
            }
        }
    }
    proof {
        let b = spec_line_break(s@, i as int);
        assert(e as int == b) by {
            if (e as int) < b {
                assert(s@[e as int] != '\r' && s@[e as int] != '\n');
            }
        }
    }
    e
}

/// Reads one line at `i`: yields the end of its content and the
/// position after its line ending.
fn read_line(s: &str, i: usize) -> (r: Result<(usize, usize), ParseResponseError>)
    requires
        i <= s@.len(),
        s@.len() <= usize::MAX,
    ensures
        match r {
            Ok((e, j)) => spec_line_at(s@, i as int) == SpecFrame::Done(
                s@.subrange(i as int, e as int),
                j as int,
            ) && i <= e <= s@.len() && i < j <= s@.len(),
            Err(ParseResponseError::Incomplete) => spec_line_at(s@, i as int) is NeedMore,
            Err(ParseResponseError::Malformed) => spec_line_at(s@, i as int) is Malformed,
        },
{
    let len = s.unicode_len();
    let e = line_break(s, i);
    proof {
        lemma_line_break_bounds(s@, i as int);
    }
    if e >= len {
        return Err(ParseResponseError::Incomplete);
    }
    if s.get_char(e) == '\n' {
        return Ok((e, e + 1));
    }
    if e + 1 >= len {
        return Err(ParseResponseError::Incomplete);
    }
    if s.get_char(e + 1) == '\n' {
        return Ok((e, e + 2));
    }
    Err(ParseResponseError::Malformed)
}

impl Response {
    /// Frames one response out of the data received so far. Yields the
    /// response and the position right after its terminating dot;
    /// [`ParseResponseError::Incomplete`] asks the caller to read more
    /// data and try again.
    pub fn parse(s: &str) -> (r: Result<(Response, usize), ParseResponseError>)
        requires
            s@.len() <= usize::MAX,
        ensures
            match r {
                Ok((resp, end)) => spec_frame(s@) == SpecFrame::Done(resp.0@, end as int),
                Err(ParseResponseError::Incomplete) => spec_frame(s@) is NeedMore,
                Err(ParseResponseError::Malformed) => spec_frame(s@) is Malformed,
            },
    {
        let len = s.unicode_len();
        let (e0, start) = match read_line(s, 0) {
            Ok(x) => x,
            Err(er) => {
                return Err(er);
            },
        };
        let mut text = String::new();
        text.append(s.substring_char(0, e0));
        let mut i = start;
        loop
            invariant
                i <= len,
                len == s@.len(),
                s@.len() <= usize::MAX,
                forall|rest: Seq<char>, e: int|
                    spec_frame_rest(s@, i as int) == SpecFrame::Done(rest, e) ==> spec_frame(s@)
                        == SpecFrame::Done(text@ + rest, e),
                spec_frame_rest(s@, i as int) is NeedMore ==> spec_frame(s@) is NeedMore,
                spec_frame_rest(s@, i as int) is Malformed ==> spec_frame(s@) is Malformed,
            decreases len - i,
        {
            if i < len && s.get_char(i) == '.' {
                proof {
                    assert(spec_frame_rest(s@, i as int) == SpecFrame::Done(
                        Seq::<char>::empty(),
                        i + 1,
                    ));
                    assert(text@ + Seq::<char>::empty() =~= text@);
                }
                return Ok((Response(text), i + 1));
            }
            if i >= len {
                return Err(ParseResponseError::Incomplete);
            }
            let (e, j) = match read_line(s, i) {
                Ok(x) => x,
                Err(er) => {
                    return Err(er);
                },
            };
            let ghost old_text = text@;
            let ghost c = s@.subrange(i as int, e as int);
            text.append("\n");
            text.append(s.substring_char(i, e));
            proof {
                reveal_strlit("\n");
                assert("\n"@ =~= seq!['\n']);
                assert(text@ =~= old_text + (seq!['\n'] + c));
                assert forall|rest: Seq<char>, en: int|
                    spec_frame_rest(s@, j as int) == SpecFrame::Done(rest, en) implies spec_frame(
                    s@,
                ) == SpecFrame::Done(text@ + rest, en) by {
                    assert(spec_frame_rest(s@, i as int) == SpecFrame::Done(
                        seq!['\n'] + c + rest,
                        en,
                    ));
                    assert(old_text + (seq!['\n'] + c + rest) =~= (old_text + (seq!['\n'] + c))
                        + rest);
                }
            }
            i = j;
        }
    }
}

} // verus!
