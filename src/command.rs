use vstd::prelude::*;
use crate::frame::{Frame, FrameModel};

verus! {

/// Unicode's White_Space property, the set that `str::trim` removes.
pub open spec fn is_white_space(c: char) -> bool {
    let n = c as u32;
    (0x09 <= n <= 0x0d) || n == 0x20 || n == 0x85 || n == 0xa0 || n == 0x1680 || (0x2000 <= n
        <= 0x200a) || n == 0x2028 || n == 0x2029 || n == 0x202f || n == 0x205f || n == 0x3000
}

/// The text without its leading white space.
pub open spec fn trim_start(s: Seq<char>) -> Seq<char>
    decreases s.len(),
{
    if s.len() > 0 && is_white_space(s[0]) {
        trim_start(s.drop_first())
    } else {
        s
    }
}

/// The text without its trailing white space.
pub open spec fn trim_end(s: Seq<char>) -> Seq<char>
    decreases s.len(),
{
    if s.len() > 0 && is_white_space(s.last()) {
        trim_end(s.drop_last())
    } else {
        s
    }
}

/// The text with leading and trailing white space removed.
pub open spec fn trimmed(s: Seq<char>) -> Seq<char> {
    trim_end(trim_start(s))
}

/// The payload of the Ping that the `/ping` command sends: "PING" in ASCII.
pub open spec fn ping_payload() -> Seq<u8> {
    seq![0x50u8, 0x49u8, 0x4eu8, 0x47u8]
}

/// The frame that a console line stands for, once trimmed.
pub open spec fn frame_of_line(t: Seq<char>) -> FrameModel {
    if t == "/close"@ {
        FrameModel::Close(None)
    } else if t == "/ping"@ {
        FrameModel::Ping(ping_payload())
    } else {
        FrameModel::Text(t)
    }
}

/// A frame typed at the console, and whether it ends the input.
pub struct Command {
    pub close: bool,
    pub frame: Frame,
}

/// Relies on `str::trim`: the slice without leading and trailing characters
/// of the Unicode White_Space property.
#[verifier::external_body]
fn trim_line(line: &str) -> (r: &str)
    ensures
        r@ == trimmed(line@),
{
    line.trim()
}

/// The payload of the Ping that the `/ping` command sends.
pub fn ping_bytes() -> (r: Vec<u8>)
    ensures
        r@ == ping_payload(),
{
    let r: Vec<u8> = vec![0x50u8, 0x49u8, 0x4eu8, 0x47u8];
    assert(r@ =~= ping_payload());
    r
}

/// Maps a trimmed console line to its frame: `/close` closes and ends the
/// input, `/ping` pings, and any other text is sent as a Text frame.
pub fn command_of_trimmed(t: &str) -> (r: Command)
    ensures
        r.frame@ == frame_of_line(t@),
        r.close == (t@ == "/close"@),
{
    let text: String = t.to_owned();
    if text == "/close".to_owned() {
        Command { close: true, frame: Frame::Close(None) }
    } else if text == "/ping".to_owned() {
        Command { close: false, frame: Frame::Ping(ping_bytes()) }
    } else {
        Command { close: false, frame: Frame::Text(text) }
    }
}

/// Maps a line read from the console to the frame it stands for.
pub fn command_of_line(line: &str) -> (r: Command)
    ensures
        r.frame@ == frame_of_line(trimmed(line@)),
        r.close == (trimmed(line@) == "/close"@),
{
    command_of_trimmed(trim_line(line))
}

} // verus!
