//! The POSIX terminal model: attribute snapshots, raw-mode derivation, and
//! session toggles.
//!
//! Everything here is plain data and pure logic. The syscalls that read and
//! write the live device (`tcgetattr`, `tcsetattr`, `ioctl`) are left to the
//! embedding application, which feeds their results in and carries the
//! computed snapshots back out.

use vstd::prelude::*;
use vstd::string::StringExecFns;

verus! {

pub const STDOUT_BUFFER_SIZE: usize = 2048;

/// Number of slots in the control-character table.
pub const NCCS: usize = 32;

pub type Lflag = u32;

pub type Iflag = u32;

pub type Oflag = u32;

pub type Cflag = u32;

pub type SCharMap = [u8; NCCS];

pub type SChar = u8;

pub type TcFlow = i32;

pub type TcFlush = i32;

pub type TcSet = i32;

/// A capability value as a terminfo database would hold it.
pub enum Value {
    True,
    Int(i32),
    Str(Vec<u8>),
}

/// A typed view of one terminfo capability; implemented by users of the
/// capability store.
pub trait TermInfoValue<'a>: Sized {
    fn name() -> &'static str;

    fn from(value: Option<&'a Value>) -> Self;

    fn into(&self) -> Option<Value>;
}

/// Placeholder for a terminal-capability store.
#[derive(Debug, Clone, Eq, PartialEq, Structural)]
pub struct TermInfo {}

impl TermInfo {
    pub fn new() -> (r: Self)
        ensures
            r == (TermInfo {}),
    {
        Self {}
    }
}

// c_cc slots
pub const VINTR: SChar = 0;

pub const VQUIT: SChar = 1;

pub const VERASE: SChar = 2;

pub const VKILL: SChar = 3;

pub const VEOF: SChar = 4;

pub const VTIME: SChar = 5;

pub const VMIN: SChar = 6;

pub const VSWTC: SChar = 7;

pub const VSTART: SChar = 8;

pub const VSTOP: SChar = 9;

pub const VSUSP: SChar = 10;

pub const VEOL: SChar = 11;

pub const VREPRINT: SChar = 12;

pub const VDISCARD: SChar = 13;

pub const VWERASE: SChar = 14;

pub const VLNEXT: SChar = 15;

pub const VEOL2: SChar = 16;

// c_lflag bits
pub const ISIG: Lflag = 0o000001;

pub const ICANON: Lflag = 0o000002;

pub const XCASE: Lflag = 0o000004;

pub const ECHO: Lflag = 0o000010;

pub const ECHOE: Lflag = 0o000020;

pub const ECHOK: Lflag = 0o000040;

pub const ECHONL: Lflag = 0o000100;

pub const NOFLSH: Lflag = 0o000200;

pub const TOSTOP: Lflag = 0o000400;

pub const ECHOCTL: Lflag = 0o001000;

pub const ECHOPRT: Lflag = 0o002000;

pub const ECHOKE: Lflag = 0o004000;

pub const FLUSHO: Lflag = 0o010000;

pub const PENDIN: Lflag = 0o040000;

pub const IEXTEN: Lflag = 0o100000;

pub const EXTPROC: Lflag = 0o200000;

// c_oflag bits
pub const OPOST: Oflag = 0x00000001;

// c_iflag bits
pub const IXON: Iflag = 0o002000;

// tcflow actions
pub const TCOOFF: TcFlow = 0;

pub const TCOON: TcFlow = 1;

pub const TCIOFF: TcFlow = 2;

pub const TCION: TcFlow = 3;

// tcflush selectors
pub const TCIFLUSH: TcFlush = 0;

pub const TCOFLUSH: TcFlush = 1;

pub const TCIOFLUSH: TcFlush = 2;

// tcsetattr timing policies
pub const TCSANOW: TcSet = 0;

pub const TCSADRAIN: TcSet = 1;

pub const TCSAFLUSH: TcSet = 2;

/// One attribute snapshot as read from the device: the four flag groups, the
/// line discipline, the control-character table and the two line speeds.
#[derive(Debug, Copy, Clone)]
pub struct TermAttrs {
    pub c_iflags: Iflag,
    pub c_oflags: Oflag,
    pub c_cflags: Cflag,
    pub c_lflags: Lflag,
    pub c_line: u8,
    pub c_cc: SCharMap,
    pub c_ispeed: u32,
    pub c_ospeed: u32,
}

/// The local-flag group with the canonical-mode, echo and signal bits cleared.
pub open spec fn raw_lflags(l: Lflag) -> Lflag {
    l & !(ICANON | ECHO | ISIG)
}

/// The input-flag group with the software-flow-control bit cleared.
pub open spec fn raw_iflags(i: Iflag) -> Iflag {
    i & !IXON
}

/// The output-flag group with the post-processing bit cleared.
pub open spec fn raw_oflags(o: Oflag) -> Oflag {
    o & !OPOST
}

/// The bits named in the raw-mode derivation really are clear afterwards.
pub proof fn lemma_raw_flags_clear(l: Lflag, i: Iflag, o: Oflag)
    ensures
        raw_lflags(l) & ICANON == 0,
        raw_lflags(l) & ECHO == 0,
        raw_lflags(l) & ISIG == 0,
        raw_iflags(i) & IXON == 0,
        raw_oflags(o) & OPOST == 0,
{
    assert((l & !(0o2u32 | 0o10u32 | 0o1u32)) & 0o2u32 == 0) by (bit_vector);
    assert((l & !(0o2u32 | 0o10u32 | 0o1u32)) & 0o10u32 == 0) by (bit_vector);
    assert((l & !(0o2u32 | 0o10u32 | 0o1u32)) & 0o1u32 == 0) by (bit_vector);
    assert((i & !0o2000u32) & 0o2000u32 == 0) by (bit_vector);
    assert((o & !0x1u32) & 0x1u32 == 0) by (bit_vector);
}

/// The escape emitted on hiding the cursor.
pub open spec fn hide_cursor_seq() -> Seq<char> {
    seq!['\x1b', '[', '?', '2', '5', 'l']
}

/// The escape emitted on showing the cursor.
pub open spec fn show_cursor_seq() -> Seq<char> {
    seq!['\x1b', '[', '?', '2', '5', 'h']
}

/// The escape a cursor toggle emits, given the visibility before the toggle.
pub open spec fn cursor_escape(visible: bool) -> Seq<char> {
    if visible {
        hide_cursor_seq()
    } else {
        show_cursor_seq()
    }
}

/// The escapes emitted on entering the alternate buffer: enter, then clear.
pub open spec fn enter_alt_seq() -> Seq<char> {
    seq!['\x1b', '[', '?', '1', '0', '4', '9', 'h', '\x1b', '[', '2', 'J']
}

/// The escape emitted on leaving the alternate buffer.
pub open spec fn leave_alt_seq() -> Seq<char> {
    seq!['\x1b', '[', '?', '1', '0', '4', '9', 'l']
}

/// The escape an alternate-buffer toggle emits, given the state before it.
pub open spec fn alt_escape(active: bool) -> Seq<char> {
    if active {
        leave_alt_seq()
    } else {
        enter_alt_seq()
    }
}

/// A session's view of the terminal: a baseline attribute snapshot plus the
/// cursor-visibility and alternate-buffer booleans.
#[derive(Debug, Clone)]
#[verifier::ext_equal]
pub struct Terminal {
    pub term_name: String,
    pub info: TermInfo,
    pub c_iflags: Iflag,
    pub c_oflags: Oflag,
    pub c_cflags: Cflag,
    pub c_lflags: Lflag,
    pub c_cc: SCharMap,
    pub c_line: u8,
    pub c_ispeed: u32,
    pub c_ospeed: u32,
    pub alt_buffer: bool,
    pub cursor_visable: bool,
}

/// The attribute record the POSIX syscalls exchange; opaque here, packed and
/// unpacked only at the syscall boundary.
#[verifier::external_type_specification]
#[verifier::external_body]
pub struct ExTermios(libc::termios);

/// The state after one cursor toggle: only the visibility flag flips.
pub open spec fn cursor_toggled(t: Terminal) -> Terminal {
    Terminal { cursor_visable: !t.cursor_visable, ..t }
}

/// The state after one alternate-buffer toggle: only that flag flips.
pub open spec fn alt_toggled(t: Terminal) -> Terminal {
    Terminal { alt_buffer: !t.alt_buffer, ..t }
}

/// Toggling cursor visibility is an involution: two toggles return to the
/// original state, and the two escapes emitted are the hide and the show
/// sequence, one each, the one matching the starting state first.
pub proof fn lemma_toggle_cursor_involution(t: Terminal)
    ensures
        cursor_toggled(cursor_toggled(t)) == t,
        t.cursor_visable ==> cursor_escape(t.cursor_visable) == hide_cursor_seq()
            && cursor_escape(cursor_toggled(t).cursor_visable) == show_cursor_seq(),
        !t.cursor_visable ==> cursor_escape(t.cursor_visable) == show_cursor_seq()
            && cursor_escape(cursor_toggled(t).cursor_visable) == hide_cursor_seq(),
{
    assert(cursor_toggled(cursor_toggled(t)) =~= t);
}

impl Terminal {
    /// Builds the session state from a capture of the device, or, where the
    /// capture failed, from an all-zero snapshot. The terminal's name is
    /// taken as given; the cursor starts visible and the alternate buffer
    /// inactive.
    pub fn from_capture(term_name: String, attrs: Option<TermAttrs>) -> (r: Terminal)
        ensures
            r.term_name == term_name,
            r.info == (TermInfo {}),
            r.alt_buffer == false,
            r.cursor_visable == true,
            attrs is Some ==> {
                let a = attrs->Some_0;
                &&& r.c_iflags == a.c_iflags
                &&& r.c_oflags == a.c_oflags
                &&& r.c_cflags == a.c_cflags
                &&& r.c_lflags == a.c_lflags
                &&& r.c_line == a.c_line
                &&& r.c_cc == a.c_cc
                &&& r.c_ispeed == a.c_ispeed
                &&& r.c_ospeed == a.c_ospeed
            },
            attrs is None ==> {
                &&& r.c_iflags == 0
                &&& r.c_oflags == 0
                &&& r.c_cflags == 0
                &&& r.c_lflags == 0
                &&& r.c_line == 0
                &&& (forall|i: int| 0 <= i < NCCS ==> r.c_cc@[i] == 0)
                &&& r.c_ispeed == 0
                &&& r.c_ospeed == 0
            },
    {
        match attrs {
            Some(a) => Terminal {
                term_name: term_name,
                info: TermInfo::new(),
                c_iflags: a.c_iflags,
                c_oflags: a.c_oflags,
                c_cflags: a.c_cflags,
                c_lflags: a.c_lflags,
                c_cc: a.c_cc,
                c_line: a.c_line,
                c_ispeed: a.c_ispeed,
                c_ospeed: a.c_ospeed,
                alt_buffer: false,
                cursor_visable: true,
            },
            None => Terminal {
                term_name: term_name,
                info: TermInfo::new(),
                c_iflags: 0,
                c_oflags: 0,
                c_cflags: 0,
                c_lflags: 0,
                c_cc: [0u8; NCCS],
                c_line: 0,
                c_ispeed: 0,
                c_ospeed: 0,
                alt_buffer: false,
                cursor_visable: true,
            },
        }
    }

    /// The raw-mode variant of this snapshot: canonical-mode, echo and signal
    /// generation cleared in the local flags, software flow control cleared
    /// in the input flags, post-processing cleared in the output flags;
    /// everything else, the control-character table included, unchanged.
    pub fn raw_variant(&self) -> (r: Terminal)
        ensures
            r.c_lflags == raw_lflags(self.c_lflags),
            r.c_iflags == raw_iflags(self.c_iflags),
            r.c_oflags == raw_oflags(self.c_oflags),
            r.c_lflags & ICANON == 0,
            r.c_lflags & ECHO == 0,
            r.c_lflags & ISIG == 0,
            r.c_iflags & IXON == 0,
            r.c_oflags & OPOST == 0,
            r.c_cflags == self.c_cflags,
            r.c_cc == self.c_cc,
            r.c_line == self.c_line,
            r.c_ispeed == self.c_ispeed,
            r.c_ospeed == self.c_ospeed,
            r.term_name == self.term_name,
            r.info == self.info,
            r.alt_buffer == self.alt_buffer,
            r.cursor_visable == self.cursor_visable,
    {
        proof {
            lemma_raw_flags_clear(self.c_lflags, self.c_iflags, self.c_oflags);
        }
        Terminal {
            term_name: self.term_name.clone(),
            info: TermInfo::new(),
            c_iflags: self.c_iflags & !IXON,
            c_oflags: self.c_oflags & !OPOST,
            c_cflags: self.c_cflags,
            c_lflags: self.c_lflags & !(ICANON | ECHO | ISIG),
            c_cc: self.c_cc,
            c_line: self.c_line,
            c_ispeed: self.c_ispeed,
            c_ospeed: self.c_ospeed,
            alt_buffer: self.alt_buffer,
            cursor_visable: self.cursor_visable,
        }
    }

    /// The snapshot with each flag group overwritten where a replacement is
    /// supplied and kept where it is not; nothing else changes. This is the
    /// only partial-update path.
    pub fn with_flags(
        &self,
        lflags: Option<Lflag>,
        iflags: Option<Iflag>,
        oflags: Option<Oflag>,
        cflags: Option<Cflag>,
    ) -> (r: Terminal)
        ensures
            r.c_lflags == (match lflags {
                Some(f) => f,
                None => self.c_lflags,
            }),
            r.c_iflags == (match iflags {
                Some(f) => f,
                None => self.c_iflags,
            }),
            r.c_oflags == (match oflags {
                Some(f) => f,
                None => self.c_oflags,
            }),
            r.c_cflags == (match cflags {
                Some(f) => f,
                None => self.c_cflags,
            }),
            r.c_cc == self.c_cc,
            r.c_line == self.c_line,
            r.c_ispeed == self.c_ispeed,
            r.c_ospeed == self.c_ospeed,
            r.term_name == self.term_name,
            r.info == self.info,
            r.alt_buffer == self.alt_buffer,
            r.cursor_visable == self.cursor_visable,
    {
        Terminal {
            term_name: self.term_name.clone(),
            info: TermInfo::new(),
            c_iflags: match iflags {
                Some(f) => f,
                None => self.c_iflags,
            },
            c_oflags: match oflags {
                Some(f) => f,
                None => self.c_oflags,
            },
            c_cflags: match cflags {
                Some(f) => f,
                None => self.c_cflags,
            },
            c_lflags: match lflags {
                Some(f) => f,
                None => self.c_lflags,
            },
            c_cc: self.c_cc,
            c_line: self.c_line,
            c_ispeed: self.c_ispeed,
            c_ospeed: self.c_ospeed,
            alt_buffer: self.alt_buffer,
            cursor_visable: self.cursor_visable,
        }
    }

    /// Relies on libc::termios being a plain record of the same eight
    /// fields; this packs the snapshot into one for the caller to hand to
    /// tcsetattr.
    #[verifier::external_body]
    pub fn cast_to_termios(&self) -> libc::termios {
        libc::termios {
            c_cc: self.c_cc,
            c_cflag: self.c_cflags,
            c_lflag: self.c_lflags,
            c_iflag: self.c_iflags,
            c_oflag: self.c_oflags,
            c_line: self.c_line,
            c_ispeed: self.c_ispeed,
            c_ospeed: self.c_ospeed,
        }
    }

    /// Whether the session believes the cursor is visible.
    pub fn cursor_visable(&self) -> (r: bool)
        ensures
            r == self.cursor_visable,
    {
        self.cursor_visable
    }

    /// Whether the session believes the alternate buffer is active.
    pub fn alt_buffer(&self) -> (r: bool)
        ensures
            r == self.alt_buffer,
    {
        self.alt_buffer
    }

    /// Flips the cursor-visibility flag and hands back the escape to emit
    /// (hide when it was visible, show when it was not) together with the
    /// new flag value. Nothing else in the state changes.
    pub fn toggle_cursor_visable(&mut self) -> (r: (String, bool))
        ensures
            *final(self) == cursor_toggled(*old(self)),
            r.0@ == cursor_escape(old(self).cursor_visable),
            r.1 == final(self).cursor_visable,
    {
        proof {
            reveal_strlit("\x1b[?25l");
            reveal_strlit("\x1b[?25h");
        }
        let esc = if self.cursor_visable {
            String::from_str("\x1b[?25l")
        } else {
            String::from_str("\x1b[?25h")
        };
        self.cursor_visable = !self.cursor_visable;
        let v = self.cursor_visable;
        (esc, v)
    }

    /// Flips the alternate-buffer flag and hands back the escape to emit:
    /// enter-plus-clear when turning on, the symmetric leave sequence when
    /// turning off. Nothing else in the state changes.
    pub fn toggle_alt_buffer(&mut self) -> (r: (String, bool))
        ensures
            *final(self) == alt_toggled(*old(self)),
            r.0@ == alt_escape(old(self).alt_buffer),
            r.1 == final(self).alt_buffer,
    {
        proof {
            reveal_strlit("\x1b[?1049h\x1b[2J");
            reveal_strlit("\x1b[?1049l");
        }
        let esc = if self.alt_buffer {
            String::from_str("\x1b[?1049l")
        } else {
            String::from_str("\x1b[?1049h\x1b[2J")
        };
        self.alt_buffer = !self.alt_buffer;
        let v = self.alt_buffer;
        (esc, v)
    }
}

/// Validates a window-size report: the dimensions are returned only when both
/// are strictly positive.
pub fn term_size_from_cells(cols: u16, rows: u16) -> (r: Option<(u32, u32)>)
    ensures
        r is Some <==> (cols > 0 && rows > 0),
        r is Some ==> r->Some_0 == (cols as u32, rows as u32),
        r is Some ==> r->Some_0.0 > 0 && r->Some_0.1 > 0,
{
    if cols > 0 && rows > 0 {
        Some((cols as u32, rows as u32))
    } else {
        None
    }
}

} // verus!
