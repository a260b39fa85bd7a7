//! The pseudo-terminal session core: the status of one interactive child,
//! the translation of keystrokes into the bytes written to the terminal
//! master, and the launcher state machine of one foreground process.
//!
//! Everything here decides; the actual terminal allocation, spawning,
//! writing, polling and killing are carried out by the runtime around the
//! library, which feeds the observed status and the next input back in.

use vstd::prelude::*;
use vstd::utf8::{
    encode_scalar, last_continuation_byte, leading_byte_width_1, leading_byte_width_2,
    leading_byte_width_3, leading_byte_width_4, second_last_continuation_byte,
    third_last_continuation_byte,
};

verus! {

/// The lifecycle of one pseudo-terminal child: it is `Running` from the
/// successful spawn until its exit is observed, then `Done` with its exit
/// status, exactly once.
#[derive(Clone, Copy, Debug, PartialEq, Eq, Structural)]
pub enum PTYStatus {
    Running { pid: u32 },
    Done { status: u32 },
}

impl Default for PTYStatus {
    /// Before a real process id is published the status reads as a running
    /// child with the placeholder id zero.
    fn default() -> (r: Self)
        ensures
            r == (PTYStatus::Running { pid: 0 }),
    {
        PTYStatus::Running { pid: 0 }
    }
}

/// One unit of terminal input while a session is captured.
#[derive(Clone, Copy, PartialEq, Eq, Structural)]
pub enum PtyInput {
    /// A typed character; the newline character is the Enter key.
    Char(char),
    Esc,
    Backspace,
    /// A function key by number.
    F(u8),
    Up,
    Down,
    Right,
    Left,
    /// A control-modified character.
    Ctrl(char),
    /// Any other terminal event.
    Other,
}

/// What the keystroke translator decided: bytes for the terminal master, or
/// that the event is not for the child at all.
pub enum PtyResponse {
    Write(Vec<u8>),
    Exit,
}

/// The escape-sequence code of one function key: F11 and F12 map to two
/// reserved codes, every other key to a fixed offset from its number.
pub open spec fn spec_fkey_code(n: u8) -> u8 {
    if n == 11 {
        133
    } else if n == 12 {
        134
    } else {
        n.wrapping_add(58)
    }
}

/// The bytes written to the terminal master for one unit of input, when the
/// input is forwarded to the child at all: printable characters pass through
/// as their UTF-8 encoding, Enter becomes a carriage return, Escape and
/// Backspace their single control bytes, arrow keys their ANSI cursor
/// sequences, and function keys an escape sequence each.
pub open spec fn spec_event_bytes(e: PtyInput) -> Option<Seq<u8>> {
    match e {
        PtyInput::Char(c) => if c == '\n' {
            Some(seq![13u8])
        } else {
            Some(encode_scalar(c as u32))
        },
        PtyInput::Esc => Some(seq![0x1bu8]),
        PtyInput::Backspace => Some(seq![0x8u8]),
        PtyInput::F(n) => Some(seq![0x1bu8, 0x0au8, spec_fkey_code(n)]),
        PtyInput::Up => Some(seq![0x1bu8, 0x5bu8, 0x41u8]),
        PtyInput::Down => Some(seq![0x1bu8, 0x5bu8, 0x42u8]),
        PtyInput::Right => Some(seq![0x1bu8, 0x5bu8, 0x43u8]),
        PtyInput::Left => Some(seq![0x1bu8, 0x5bu8, 0x44u8]),
        PtyInput::Ctrl(_) => None,
        PtyInput::Other => None,
    }
}

/// The UTF-8 encoding of one character.
pub fn utf8_encode_char(c: char) -> (r: Vec<u8>)
    ensures
        r@ == encode_scalar(c as u32),
{
    let v = c as u32;
    let mut r: Vec<u8> = Vec::new();
    if v <= 0x7F {
        r.push((v & 0x7F) as u8);
        proof {
            assert(r@ =~= seq![leading_byte_width_1(v)]);
        }
    } else if v <= 0x7FF {
        r.push(0xC0u8 | (((v >> 6u32) & 0x1F) as u8));
        r.push(0x80u8 | ((v & 0x3F) as u8));
        proof {
            assert(r@ =~= seq![leading_byte_width_2(v), last_continuation_byte(v)]);
        }
    } else if v <= 0xFFFF {
        r.push(0xE0u8 | (((v >> 12u32) & 0x0F) as u8));
        r.push(0x80u8 | (((v >> 6u32) & 0x3F) as u8));
        r.push(0x80u8 | ((v & 0x3F) as u8));
        proof {
            assert(r@ =~= seq![
                leading_byte_width_3(v),
                second_last_continuation_byte(v),
                last_continuation_byte(v),
            ]);
        }
    } else {
        r.push(0xF0u8 | (((v >> 18u32) & 0x07) as u8));
        r.push(0x80u8 | (((v >> 12u32) & 0x3F) as u8));
        r.push(0x80u8 | (((v >> 6u32) & 0x3F) as u8));
        r.push(0x80u8 | ((v & 0x3F) as u8));
        proof {
            assert(r@ =~= seq![
                leading_byte_width_4(v),
                third_last_continuation_byte(v),
                second_last_continuation_byte(v),
                last_continuation_byte(v),
            ]);
        }
    }
    r
}

/// Translates one unit of terminal input into the bytes to write to the
/// terminal master, or reports that the event is not for the child.
pub fn handle_terminal_event(event: &PtyInput) -> (r: PtyResponse)
    ensures
        match spec_event_bytes(*event) {
            Some(bs) => match r {
                PtyResponse::Write(b) => b@ == bs,
                PtyResponse::Exit => false,
            },
            None => r is Exit,
        },
{
    match event {
        PtyInput::Char(c) => {
            if *c == '\n' {
                let mut b: Vec<u8> = Vec::new();
                b.push(13);
                proof {
                    assert(b@ =~= seq![13u8]);
                }
                PtyResponse::Write(b)
            } else {
                PtyResponse::Write(utf8_encode_char(*c))
            }
        },
        PtyInput::Esc => {
            let mut b: Vec<u8> = Vec::new();
            b.push(0x1b);
            proof {
                assert(b@ =~= seq![0x1bu8]);
            }
            PtyResponse::Write(b)
        },
        PtyInput::Backspace => {
            let mut b: Vec<u8> = Vec::new();
            b.push(0x8);
            proof {
                assert(b@ =~= seq![0x8u8]);
            }
            PtyResponse::Write(b)
        },
        PtyInput::F(n) => {
            let code: u8 = if *n == 11 {
                133
            } else if *n == 12 {
                134
            } else {
                n.wrapping_add(58)
            };
            let mut b: Vec<u8> = Vec::new();
            b.push(0x1b);
            b.push(0x0a);
            b.push(code);
            proof {
                assert(b@ =~= seq![0x1bu8, 0x0au8, spec_fkey_code(*n)]);
            }
            PtyResponse::Write(b)
        },
        PtyInput::Up => {
            let mut b: Vec<u8> = Vec::new();
            b.push(0x1b);
            b.push(0x5b);
            b.push(0x41);
            proof {
                assert(b@ =~= seq![0x1bu8, 0x5bu8, 0x41u8]);
            }
            PtyResponse::Write(b)
        },
        PtyInput::Down => {
            let mut b: Vec<u8> = Vec::new();
            b.push(0x1b);
            b.push(0x5b);
            b.push(0x42);
            proof {
                assert(b@ =~= seq![0x1bu8, 0x5bu8, 0x42u8]);
            }
            PtyResponse::Write(b)
        },
        PtyInput::Right => {
            let mut b: Vec<u8> = Vec::new();
            b.push(0x1b);
            b.push(0x5b);
            b.push(0x43);
            proof {
                assert(b@ =~= seq![0x1bu8, 0x5bu8, 0x43u8]);
            }
            PtyResponse::Write(b)
        },
        PtyInput::Left => {
            let mut b: Vec<u8> = Vec::new();
            b.push(0x1b);
            b.push(0x5b);
            b.push(0x44);
            proof {
                assert(b@ =~= seq![0x1bu8, 0x5bu8, 0x44u8]);
            }
            PtyResponse::Write(b)
        },
        PtyInput::Ctrl(_) => PtyResponse::Exit,
        PtyInput::Other => PtyResponse::Exit,
    }
}

} // verus!
