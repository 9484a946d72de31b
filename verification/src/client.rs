//! The client-side interactive boundary's decisions: which lines become
//! outbound messages and which line ends the outbound production loop.
//!
//! The literal token `exit`, compared ignoring ASCII case, is the sentinel:
//! it terminates outbound production without sending a final message.

use vstd::prelude::*;

use crate::message::{models_of, Message, MessageModel};

verus! {

/// Whether a line is the exit sentinel: exactly the four letters of `exit`,
/// each in either ASCII case.
pub open spec fn spec_is_exit(s: Seq<char>) -> bool {
    &&& s.len() == 4
    &&& (s[0] == 'e' || s[0] == 'E')
    &&& (s[1] == 'x' || s[1] == 'X')
    &&& (s[2] == 'i' || s[2] == 'I')
    &&& (s[3] == 't' || s[3] == 'T')
}

/// Decide whether one input line is the exit sentinel.
pub fn is_exit_line(line: &str) -> (r: bool)
    ensures
        r == spec_is_exit(line@),
{
    if line.unicode_len() != 4 {
        return false;
    }
    let c0 = line.get_char(0);
    let c1 = line.get_char(1);
    let c2 = line.get_char(2);
    let c3 = line.get_char(3);
    (c0 == 'e' || c0 == 'E') && (c1 == 'x' || c1 == 'X') && (c2 == 'i' || c2 == 'I') && (c3 == 't'
        || c3 == 'T')
}

/// What the client does with one line of input.
#[derive(Debug, PartialEq, Eq)]
pub enum ClientAction {
    /// Send this message on the outbound direction.
    Send(Message),
    /// The line was the exit sentinel: stop producing, send nothing further.
    Quit,
}

/// The client's decision on one line: the sentinel quits; any other line
/// becomes a message carrying that line with the client's identity label.
pub fn client_line_step(line: &str, sender: &str) -> (r: ClientAction)
    ensures
        spec_is_exit(line@) ==> r == ClientAction::Quit,
        !spec_is_exit(line@) ==> (r matches ClientAction::Send(m) && m@ == (MessageModel {
            content: line@,
            sender: sender@,
        })),
{
    if is_exit_line(line) {
        ClientAction::Quit
    } else {
        ClientAction::Send(Message { content: line.to_owned(), sender: sender.to_owned() })
    }
}

/// The outbound messages a client produces from a sequence of input lines:
/// one message per line, in order, cut short at the first exit sentinel,
/// which itself produces nothing.
pub open spec fn client_plan(lines: Seq<Seq<char>>, sender: Seq<char>) -> Seq<MessageModel>
    decreases lines.len(),
{
    if lines.len() == 0 {
        Seq::empty()
    } else if spec_is_exit(lines[0]) {
        Seq::empty()
    } else {
        seq![MessageModel { content: lines[0], sender }] + client_plan(lines.drop_first(), sender)
    }
}

/// The views of a sequence of input lines.
pub open spec fn line_models(lines: Seq<String>) -> Seq<Seq<char>> {
    lines.map_values(|l: String| l@)
}

/// Produce the client's whole outbound direction from its input lines:
/// every line up to (and excluding) the first exit sentinel becomes a
/// message, in order, stamped with the client's label.
pub fn client_outbound(lines: &Vec<String>, sender: &str) -> (out: Vec<Message>)
    ensures
        models_of(out@) == client_plan(line_models(lines@), sender@),
{
    let mut out: Vec<Message> = Vec::new();
    let mut i: usize = 0;
    proof {
        assert(line_models(lines@).skip(0) =~= line_models(lines@));
        assert(models_of(out@) + client_plan(line_models(lines@).skip(0), sender@) =~= client_plan(
            line_models(lines@),
            sender@,
        ));
    }
    while i < lines.len()
        invariant
            i <= lines.len(),
            models_of(out@) + client_plan(line_models(lines@).skip(i as int), sender@)
                == client_plan(line_models(lines@), sender@),
        decreases lines.len() - i,
    {
        let ghost pre_out = out@;
        let ghost rest = line_models(lines@).skip(i as int);
        proof {
            assert(rest[0] == line_models(lines@)[i as int]);
            assert(rest.drop_first() =~= line_models(lines@).skip(i + 1));
        }
        match client_line_step(lines[i].as_str(), sender) {
            ClientAction::Quit => {
                proof {
                    assert(client_plan(rest, sender@) =~= Seq::<MessageModel>::empty());
                    assert(models_of(out@) =~= models_of(out@) + client_plan(rest, sender@));
                }
                return out;
            },
            ClientAction::Send(m) => {
                out.push(m);
                proof {
                    assert(models_of(out@) =~= models_of(pre_out).push(m@));
                    assert(client_plan(rest, sender@) == seq![m@] + client_plan(
                        rest.drop_first(),
                        sender@,
                    ));
                    assert(models_of(out@) + client_plan(rest.drop_first(), sender@)
                        =~= models_of(pre_out) + client_plan(rest, sender@));
                }
            },
        }
        i += 1;
    }
    proof {
        assert(line_models(lines@).skip(lines@.len() as int) =~= Seq::<Seq<char>>::empty());
        assert(models_of(out@) =~= models_of(out@) + client_plan(
            line_models(lines@).skip(lines@.len() as int),
            sender@,
        ));
    }
    out
}

/// The sentinel cuts the outbound direction: if some line is the exit
/// sentinel, no message beyond that line's position is ever produced.
pub proof fn lemma_sentinel_cuts(lines: Seq<Seq<char>>, sender: Seq<char>, i: int)
    requires
        0 <= i < lines.len(),
        spec_is_exit(lines[i]),
    ensures
        client_plan(lines, sender).len() <= i,
    decreases i,
{
    if i == 0 {
    } else if spec_is_exit(lines[0]) {
    } else {
        assert(lines.drop_first()[i - 1] == lines[i]);
        lemma_sentinel_cuts(lines.drop_first(), sender, i - 1);
    }
}

} // verus!
