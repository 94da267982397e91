//! The FTP layer: a UTF-8 control line. A line whose first
//! space-separated token consists only of decimal digits is a server
//! response of code and message; any other UTF-8 line is a client
//! command. Text is trimmed of surrounding whitespace.

use vstd::prelude::*;
use vstd::string::*;
use vstd::utf8::{valid_utf8, decode_utf8};
use crate::render::{utf8_to_string, chars_vec, chars_to_string};

verus! {

/// A decoded FTP line.
pub enum FtpPacket {
    /// A client command line.
    Command(String),
    /// A server response: numeric code and message.
    Response { code: String, message: String },
}

/// Whether a character is whitespace: the Unicode white-space set that
/// trimming removes.
pub open spec fn spec_is_ws(c: char) -> bool {
    ||| c == '\u{9}'
    ||| c == '\u{a}'
    ||| c == '\u{b}'
    ||| c == '\u{c}'
    ||| c == '\u{d}'
    ||| c == ' '
    ||| c == '\u{85}'
    ||| c == '\u{a0}'
    ||| c == '\u{1680}'
    ||| ('\u{2000}' <= c && c <= '\u{200a}')
    ||| c == '\u{2028}'
    ||| c == '\u{2029}'
    ||| c == '\u{202f}'
    ||| c == '\u{205f}'
    ||| c == '\u{3000}'
}

/// The text without leading whitespace.
pub open spec fn spec_trim_start(s: Seq<char>) -> Seq<char>
    decreases s.len(),
{
    if s.len() > 0 && spec_is_ws(s[0]) {
        spec_trim_start(s.drop_first())
    } else {
        s
    }
}

/// The text without trailing whitespace.
pub open spec fn spec_trim_end(s: Seq<char>) -> Seq<char>
    decreases s.len(),
{
    if s.len() > 0 && spec_is_ws(s[s.len() - 1]) {
        spec_trim_end(s.drop_last())
    } else {
        s
    }
}

/// The text without surrounding whitespace.
pub open spec fn spec_trim(s: Seq<char>) -> Seq<char> {
    spec_trim_end(spec_trim_start(s))
}

/// The index of the first space, if any.
pub open spec fn spec_find_space(s: Seq<char>, i: int) -> Option<int>
    recommends
        0 <= i <= s.len(),
    decreases s.len() - i,
{
    if i < 0 || i >= s.len() {
        None
    } else if s[i] == ' ' {
        Some(i)
    } else {
        spec_find_space(s, i + 1)
    }
}

/// Whether every character is a decimal digit.
pub open spec fn spec_all_digits(s: Seq<char>) -> bool {
    forall|i: int| 0 <= i < s.len() ==> '0' <= #[trigger] s[i] <= '9'
}

fn is_ws(c: char) -> (r: bool)
    ensures
        r == spec_is_ws(c),
{
    c == '\u{9}' || c == '\u{a}' || c == '\u{b}' || c == '\u{c}' || c == '\u{d}' || c == ' '
        || c == '\u{85}' || c == '\u{a0}' || c == '\u{1680}' || ('\u{2000}' <= c && c
        <= '\u{200a}') || c == '\u{2028}' || c == '\u{2029}' || c == '\u{202f}' || c == '\u{205f}'
        || c == '\u{3000}'
}

/// Trims a character sequence of surrounding whitespace; returns the
/// range that remains.
fn trim_chars(s: &[char]) -> (r: (usize, usize))
    ensures
        r.0 <= r.1 <= s@.len(),
        s@.subrange(r.0 as int, r.1 as int) == spec_trim(s@),
{
    let n = s.len();
    let mut from: usize = 0;
    proof {
        assert(s@.skip(0) =~= s@);
    }
    while from < n && is_ws(s[from])
        invariant
            from <= n,
            n == s@.len(),
            spec_trim_start(s@) == spec_trim_start(s@.skip(from as int)),
        decreases n - from,
    {
        proof {
            assert(s@.skip(from as int).drop_first() =~= s@.skip(from as int + 1));
        }
        from = from + 1;
    }
    proof {
        assert(spec_trim_start(s@.skip(from as int)) == s@.skip(from as int));
    }
    let mut to: usize = n;
    while to > from && is_ws(s[to - 1])
        invariant
            from <= to <= n,
            n == s@.len(),
            spec_trim_start(s@) == s@.skip(from as int),
            spec_trim_end(s@.skip(from as int)) == spec_trim_end(
                s@.subrange(from as int, to as int),
            ),
        decreases to,
    {
        proof {
            assert(s@.subrange(from as int, to as int).drop_last() =~= s@.subrange(
                from as int,
                to as int - 1,
            ));
            assert(s@.subrange(from as int, to as int).last() == s@[to as int - 1]);
        }
        to = to - 1;
    }
    proof {
        let t = s@.subrange(from as int, to as int);
        assert(spec_trim_end(t) == t) by {
            if t.len() > 0 && spec_is_ws(t[t.len() - 1]) {
                assert(t[t.len() - 1] == s@[to as int - 1]);
            }
        }
    }
    (from, to)
}

/// Decoder of the FTP layer.
pub struct FtpProcessor;

impl FtpProcessor {
    /// Creates the decoder.
    pub fn new() -> (p: FtpProcessor) {
        FtpProcessor
    }

    /// Decodes an FTP line. Succeeds exactly on valid UTF-8 payloads: a
    /// line whose first space-separated token is all digits becomes a
    /// response of that code and the trimmed remainder, and any other
    /// line becomes a command of the trimmed text.
    pub fn process(&self, payload: &[u8]) -> (r: Result<FtpPacket, String>)
        ensures
            r is Ok <==> valid_utf8(payload@),
            r matches Err(e) ==> e@ == "Failed to parse FTP packet"@,
            r matches Ok(p) ==> match p {
                FtpPacket::Response { code, message } => {
                    &&& spec_find_space(decode_utf8(payload@), 0) matches Some(sp)
                    &&& spec_all_digits(decode_utf8(payload@).subrange(0, sp))
                    &&& code@ == decode_utf8(payload@).subrange(0, sp)
                    &&& message@ == spec_trim(decode_utf8(payload@).skip(sp + 1))
                },
                FtpPacket::Command(text) => {
                    &&& (spec_find_space(decode_utf8(payload@), 0) matches Some(sp)
                        ==> !spec_all_digits(decode_utf8(payload@).subrange(0, sp)))
                    &&& text@ == spec_trim(decode_utf8(payload@))
                },
            },
    {
        let text = match utf8_to_string(payload) {
            None => {
                return Err(String::from_str("Failed to parse FTP packet"));
            },
            Some(t) => t,
        };
        let chars = chars_vec(text.as_str());
        let n = chars.len();
        let mut sp: usize = 0;
        let mut found = false;
        while sp < n && !found
            invariant
                sp <= n,
                n == chars@.len(),
                found ==> sp < n && chars@[sp as int] == ' ',
                !found ==> spec_find_space(chars@, 0) == spec_find_space(chars@, sp as int),
                found ==> spec_find_space(chars@, 0) == Some(sp as int),
            decreases n - sp, (if found {
                0int
            } else {
                1int
            }),
        {
            if chars[sp] == ' ' {
                found = true;
            } else {
                sp = sp + 1;
            }
        }
        if found {
            let mut digits = true;
            let mut k: usize = 0;
            while k < sp
                invariant
                    k <= sp,
                    sp <= n,
                    n == chars@.len(),
                    digits == (forall|q: int| 0 <= q < k ==> '0' <= #[trigger] chars@[q] <= '9'),
                decreases sp - k,
            {
                let c = chars[k];
                if c < '0' || c > '9' {
                    digits = false;
                }
                k = k + 1;
            }
            proof {
                if digits {
                    assert(spec_all_digits(chars@.subrange(0, sp as int))) by {
                        assert(forall|q: int|
                            0 <= q < sp ==> chars@.subrange(0, sp as int)[q] == chars@[q]);
                    }
                } else {
                    let w = choose|q: int| 0 <= q < sp && !('0' <= #[trigger] chars@[q] <= '9');
                    assert(chars@.subrange(0, sp as int)[w] == chars@[w]);
                    assert(!spec_all_digits(chars@.subrange(0, sp as int)));
                }
            }
            if digits {
                let code = chars_to_string(chars.as_slice(), 0, sp);
                let tail = &chars.as_slice()[sp + 1..n];
                proof {
                    assert(tail@ =~= chars@.skip(sp as int + 1));
                }
                let (f, t) = trim_chars(tail);
                let message = chars_to_string(tail, f, t);
                return Ok(FtpPacket::Response { code, message });
            }
        }
        let (f, t) = trim_chars(chars.as_slice());
        let cmd = chars_to_string(chars.as_slice(), f, t);
        Ok(FtpPacket::Command(cmd))
    }
}

impl FtpPacket {
    /// The command text, or the joined code and message of a response.
    pub fn get_command(&self) -> (s: String)
        ensures
            match self {
                FtpPacket::Command(cmd) => s@ == cmd@,
                FtpPacket::Response { code, message } => s@ == code@ + seq![' '] + message@,
            },
    {
        proof {
            reveal_strlit(" ");
        }
        match self {
            FtpPacket::Command(cmd) => cmd.clone(),
            FtpPacket::Response { code, message } => {
                let mut s = code.clone();
                s.append(" ");
                s.append(message.as_str());
                s
            },
        }
    }

    /// Whether this is a client command.
    pub fn is_command(&self) -> (r: bool)
        ensures
            r == (self is Command),
    {
        matches!(self, FtpPacket::Command(_))
    }

    /// Whether this is a server response.
    pub fn is_response(&self) -> (r: bool)
        ensures
            r == (self is Response),
    {
        matches!(self, FtpPacket::Response { .. })
    }
}

} // verus!
