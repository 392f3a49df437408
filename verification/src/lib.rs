//! ANSI SGR color sequences and terminal line-discipline control.
//!
//! The `color` module renders color values to SGR escape strings; the `unix`
//! module models the terminal's attribute snapshot, derives raw-mode variants,
//! and tracks cursor/alternate-buffer session state. The actual syscalls that
//! read and write the device are left to the embedding application.

pub mod color;
pub mod unix;

pub use unix::{TermAttrs, TermInfo, TermInfoValue, Terminal, Value, term_size_from_cells};
pub use unix::{Cflag, Iflag, Lflag, Oflag, SChar, SCharMap, TcFlow, TcFlush, TcSet};
pub use unix::{
    ECHO, ECHOCTL, ECHOE, ECHOK, ECHOKE, ECHONL, ECHOPRT, EXTPROC, FLUSHO, ICANON, IEXTEN, ISIG,
    IXON, NCCS, NOFLSH, OPOST, PENDIN, STDOUT_BUFFER_SIZE, TOSTOP, XCASE,
};
pub use unix::{
    TCIFLUSH, TCIOFF, TCIOFLUSH, TCION, TCOFLUSH, TCOOFF, TCOON, TCSADRAIN, TCSAFLUSH, TCSANOW,
    VDISCARD, VEOF, VEOL, VEOL2, VERASE, VINTR, VKILL, VLNEXT, VMIN, VQUIT, VREPRINT, VSTART,
    VSTOP, VSUSP, VSWTC, VTIME,
};
