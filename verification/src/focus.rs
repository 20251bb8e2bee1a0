//! Command serialization and the error taxonomy of the Focus API, the
//! line-oriented text protocol the keyboard's firmware speaks.

pub mod superkeys;

use crate::response::ParseResponseError;
use vstd::prelude::*;

verus! {

/// Error returned when running commands.
#[derive(Clone, Debug, PartialEq, Eq)]
pub enum RunCommandError {
    /// The command could not be sent to the device.
    SendingCommand(String),
    /// No response could be received from the device.
    RecievingResponse(String),
    /// The response from the device could not be interpreted.
    UnexpectedResponse(ParseResponseError),
    /// The response stream completed before a response could be
    /// interpreted.
    ResponseStreamTerminatedPrematurely,
}

/// Error returned when running commands over a serial port.
#[derive(Clone, Debug, PartialEq, Eq)]
pub enum SerialPortRunCommandError {
    /// The command could not be sent to the device.
    SendingCommand(String),
    /// No response could be received from the device.
    RecievingResponse(String),
    /// The response from the device could not be interpreted.
    UnexpectedResponse(ParseResponseError),
    /// The response stream completed before a response could be
    /// interpreted.
    ResponseStreamTerminatedPrematurely,
}

impl SerialPortRunCommandError {
    /// The transport-independent form of this error.
    pub fn into_run_command_error(self) -> (r: RunCommandError)
        ensures
            r == (match self {
                SerialPortRunCommandError::SendingCommand(m) => RunCommandError::SendingCommand(m),
                SerialPortRunCommandError::RecievingResponse(m) => RunCommandError::RecievingResponse(
                    m,
                ),
                SerialPortRunCommandError::UnexpectedResponse(e) => RunCommandError::UnexpectedResponse(
                    e,
                ),
                SerialPortRunCommandError::ResponseStreamTerminatedPrematurely => RunCommandError::ResponseStreamTerminatedPrematurely,
            }),
    {
        match self {
            SerialPortRunCommandError::SendingCommand(m) => RunCommandError::SendingCommand(m),
            SerialPortRunCommandError::RecievingResponse(m) => RunCommandError::RecievingResponse(
                m,
            ),
            SerialPortRunCommandError::UnexpectedResponse(e) => RunCommandError::UnexpectedResponse(
                e,
            ),
            SerialPortRunCommandError::ResponseStreamTerminatedPrematurely => RunCommandError::ResponseStreamTerminatedPrematurely,
        }
    }
}

/// Error while getting the list of available commands supported by the
/// device.
#[derive(Clone, Debug, PartialEq, Eq)]
pub struct GetCommandsError(pub RunCommandError);

/// The serialized form of a command: its name, the data separated by one
/// space when there is any, and the ending newline.
pub open spec fn spec_serialize_command(command: Seq<char>, data: Option<Seq<char>>) -> Seq<char> {
    command + (match data {
        Some(d) => seq![' '] + d,
        None => Seq::empty(),
    }) + seq!['\n']
}

/// Serializes a command and its optional data for sending to the device.
pub fn serialize_command(command: &str, data: Option<&str>) -> (r: String)
    ensures
        r@ == spec_serialize_command(
            command@,
            match data {
                Some(d) => Some(d@),
                None => None,
            },
        ),
{
    proof {
        reveal_strlit(" ");
        reveal_strlit("\n");
    }
    let mut out = command.to_owned();
    match data {
        Some(d) => {
            out.append(" ");
            out.append(d);
            proof {
                assert(out@ =~= command@ + (seq![' '] + d@));
            }
        },
        None => {
            proof {
                assert(out@ =~= command@ + Seq::<char>::empty());
            }
        },
    }
    let ghost before = out@;
    out.append("\n");
    proof {
        assert(out@ =~= before + seq!['\n']);
    }
    out
}

/// First position at or after `i` holding a newline.
pub open spec fn spec_newline_break(s: Seq<char>, i: int) -> int
    decreases s.len() - i,
    when 0 <= i
{
    if i >= s.len() || s[i] == '\n' {
        i
    } else {
        spec_newline_break(s, i + 1)
    }
}

pub proof fn lemma_newline_break_bounds(s: Seq<char>, i: int)
    requires
        0 <= i <= s.len(),
    ensures
        i <= spec_newline_break(s, i) <= s.len(),
        spec_newline_break(s, i) < s.len() ==> s[spec_newline_break(s, i)] == '\n',
        forall|k: int| i <= k < spec_newline_break(s, i) ==> s[k] != '\n',
    decreases s.len() - i,
{
    if i < s.len() && s[i] != '\n' {
        lemma_newline_break_bounds(s, i + 1);
    }
}

/// One line of a response, with a trailing carriage return stripped.
pub open spec fn spec_line_piece(s: Seq<char>, i: int, e: int) -> Seq<char> {
    let piece = s.subrange(i, e);
    if piece.len() > 0 && piece.last() == '\r' {
        piece.drop_last()
    } else {
        piece
    }
}

/// The lines of a response, split at newlines, without a final empty
/// line and with trailing carriage returns stripped.
pub open spec fn spec_response_lines(s: Seq<char>, i: int) -> Seq<Seq<char>>
    decreases s.len() - i,
    when 0 <= i <= s.len()
    via spec_response_lines_decreases
{
    if i >= s.len() {
        Seq::empty()
    } else {
        let e = spec_newline_break(s, i);
        if e >= s.len() {
            seq![spec_line_piece(s, i, e)]
        } else {
            seq![spec_line_piece(s, i, e)] + spec_response_lines(s, e + 1)
        }
    }
}

#[via_fn]
proof fn spec_response_lines_decreases(s: Seq<char>, i: int) {
    if 0 <= i < s.len() {
        lemma_newline_break_bounds(s, i);
    }
}

/// Splits the response of the `help` command into the names of the
/// available commands, one per line.
pub fn commands_from_help(response: &str) -> (r: Vec<String>)
    requires
        response@.len() <= usize::MAX,
    ensures
        r@.map_values(|l: String| l@) == spec_response_lines(response@, 0),
{
    let len = response.unicode_len();
    let mut out: Vec<String> = Vec::new();
    let mut i: usize = 0;
    while i < len
        invariant
            i <= len,
            len == response@.len(),
            out@.map_values(|l: String| l@) + spec_response_lines(response@, i as int)
                == spec_response_lines(response@, 0),
            i > 0 ==> (i as int == len || response@[i - 1] == '\n'),
            i == 0 ==> out@.len() == 0,
        decreases len - i,
    {
        proof {
            lemma_newline_break_bounds(response@, i as int);
        }
        let ghost eg = spec_newline_break(response@, i as int);
        let mut e: usize = i;
        while e < len && response.get_char(e) != '\n'
            invariant
                i <= e <= len,
                len == response@.len(),
                e <= eg,
                eg == spec_newline_break(response@, i as int),
                i as int <= eg <= len,
                forall|k: int| i <= k < eg ==> response@[k] != '\n',
                eg < len ==> response@[eg] == '\n',
                (e as int) < eg ==> response@[e as int] != '\n',
            decreases len - e,
        {
            e = e + 1;
            proof {
                assert(e as int <= eg) by {
                    if (e as int) > eg {
                        assert(eg <= e - 1 < len);
                    }
                }
            }
        }
        proof {
            assert(e as int == eg) by {
                if (e as int) < eg {
                    assert(response@[e as int] != '\n');
                }
            }
        }
        let content_end = if e > i && response.get_char(e - 1) == '\r' {
            e - 1
        } else {
            e
        };
        let piece = s_to_string(response, i, content_end);
        proof {
            assert(piece@ =~= spec_line_piece(response@, i as int, e as int)) by {
                let p = response@.subrange(i as int, e as int);
                if p.len() > 0 && p.last() == '\r' {
                    assert(response@.subrange(i as int, content_end as int) =~= p.drop_last());
                } else {
                    assert(response@.subrange(i as int, content_end as int) =~= p);
                }
            }
        }
        let ghost old_lines = out@.map_values(|l: String| l@);
        out.push(piece);
        proof {
            assert(out@.map_values(|l: String| l@) =~= old_lines + seq![
                spec_line_piece(response@, i as int, e as int),
            ]);
            if (e as int) < len {
                assert(spec_response_lines(response@, i as int) =~= seq![
                    spec_line_piece(response@, i as int, e as int),
                ] + spec_response_lines(response@, e + 1 as int));
                assert((old_lines + seq![spec_line_piece(response@, i as int, e as int)])
                    + spec_response_lines(response@, e + 1 as int) =~= old_lines + (seq![
                    spec_line_piece(response@, i as int, e as int),
                ] + spec_response_lines(response@, e + 1 as int)));
            } else {
                assert(spec_response_lines(response@, i as int) =~= seq![
                    spec_line_piece(response@, i as int, e as int),
                ]);
                assert((old_lines + seq![spec_line_piece(response@, i as int, e as int)])
                    + Seq::<Seq<char>>::empty() =~= old_lines + seq![
                    spec_line_piece(response@, i as int, e as int),
                ]);
                assert(spec_response_lines(response@, len as int) =~= Seq::<Seq<char>>::empty());
            }
        }
        if e >= len {
            i = len;
        } else {
            i = e + 1;
        }
    }
    proof {
        assert(spec_response_lines(response@, len as int) =~= Seq::<Seq<char>>::empty());
        assert(out@.map_values(|l: String| l@) + Seq::<Seq<char>>::empty() =~= out@.map_values(
            |l: String| l@,
        ));
    }
    out
}

/// Copies the characters between two positions into an owned string.
fn s_to_string(s: &str, from: usize, to: usize) -> (r: String)
    requires
        from <= to <= s@.len(),
    ensures
        r@ == s@.subrange(from as int, to as int),
{
    s.substring_char(from, to).to_owned()
}

} // verus!
