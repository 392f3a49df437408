use termctl::unix::{ECHO, ICANON, ISIG, IXON, NCCS, OPOST, TermAttrs, TermInfo, Terminal};
use termctl::term_size_from_cells;

fn sample_attrs() -> TermAttrs {
    let mut cc = [0u8; NCCS];
    for (i, slot) in cc.iter_mut().enumerate() {
        *slot = i as u8;
    }
    TermAttrs {
        c_iflags: IXON | 0o400,
        c_oflags: OPOST | 0x4,
        c_cflags: 0o277,
        c_lflags: ICANON | ECHO | ISIG | 0o100000,
        c_line: 0,
        c_cc: cc,
        c_ispeed: 15,
        c_ospeed: 15,
    }
}

#[test]
fn capture_failure_yields_zeroed_snapshot() {
    let t = Terminal::from_capture("xterm-256color".to_string(), None);
    assert_eq!(t.term_name, "xterm-256color");
    assert_eq!(t.info, TermInfo::new());
    assert_eq!(t.c_iflags, 0);
    assert_eq!(t.c_oflags, 0);
    assert_eq!(t.c_cflags, 0);
    assert_eq!(t.c_lflags, 0);
    assert_eq!(t.c_cc, [0u8; NCCS]);
    assert!(t.cursor_visable());
    assert!(!t.alt_buffer());
}

#[test]
fn capture_success_copies_every_field() {
    let a = sample_attrs();
    let t = Terminal::from_capture("vt100".to_string(), Some(a));
    assert_eq!(t.term_name, "vt100");
    assert_eq!(t.c_iflags, a.c_iflags);
    assert_eq!(t.c_oflags, a.c_oflags);
    assert_eq!(t.c_cflags, a.c_cflags);
    assert_eq!(t.c_lflags, a.c_lflags);
    assert_eq!(t.c_cc, a.c_cc);
    assert!(t.cursor_visable());
    assert!(!t.alt_buffer());
}

#[test]
fn raw_variant_clears_mode_bits() {
    let t = Terminal::from_capture("vt100".to_string(), Some(sample_attrs()));
    let raw = t.raw_variant();
    assert_eq!(raw.c_lflags & ICANON, 0);
    assert_eq!(raw.c_lflags & ECHO, 0);
    assert_eq!(raw.c_lflags & ISIG, 0);
    assert_eq!(raw.c_iflags & IXON, 0);
    assert_eq!(raw.c_oflags & OPOST, 0);
    // bits outside the raw masks survive
    assert_eq!(raw.c_lflags, 0o100000);
    assert_eq!(raw.c_iflags, 0o400);
    assert_eq!(raw.c_oflags, 0x4);
    assert_eq!(raw.c_cflags, t.c_cflags);
}

#[test]
fn raw_variant_keeps_control_characters() {
    let t = Terminal::from_capture("vt100".to_string(), Some(sample_attrs()));
    let raw = t.raw_variant();
    assert_eq!(raw.c_cc, t.c_cc);
    assert_eq!(raw.term_name, t.term_name);
}

#[test]
fn with_flags_overwrites_only_given_groups() {
    let t = Terminal::from_capture("vt100".to_string(), Some(sample_attrs()));
    let u = t.with_flags(Some(0), None, Some(0o17), None);
    assert_eq!(u.c_lflags, 0);
    assert_eq!(u.c_iflags, t.c_iflags);
    assert_eq!(u.c_oflags, 0o17);
    assert_eq!(u.c_cflags, t.c_cflags);
    assert_eq!(u.c_cc, t.c_cc);

    let v = t.with_flags(None, None, None, None);
    assert_eq!(v.c_lflags, t.c_lflags);
    assert_eq!(v.c_iflags, t.c_iflags);
    assert_eq!(v.c_oflags, t.c_oflags);
    assert_eq!(v.c_cflags, t.c_cflags);
}

#[test]
fn cursor_toggle_is_involution() {
    let mut t = Terminal::from_capture("vt100".to_string(), None);
    assert!(t.cursor_visable());
    let (esc1, vis1) = t.toggle_cursor_visable();
    assert_eq!(esc1, "\x1b[?25l");
    assert!(!vis1);
    let (esc2, vis2) = t.toggle_cursor_visable();
    assert_eq!(esc2, "\x1b[?25h");
    assert!(vis2);
    assert!(t.cursor_visable());
}

#[test]
fn alt_buffer_toggle_emits_symmetric_escapes() {
    let mut t = Terminal::from_capture("vt100".to_string(), None);
    assert!(!t.alt_buffer());
    let (enter, on) = t.toggle_alt_buffer();
    assert_eq!(enter, "\x1b[?1049h\x1b[2J");
    assert!(on);
    let (leave, off) = t.toggle_alt_buffer();
    assert_eq!(leave, "\x1b[?1049l");
    assert!(!off);
    assert!(!t.alt_buffer());
}

#[test]
fn term_size_rejects_zero_dimensions() {
    assert_eq!(term_size_from_cells(0, 0), None);
    assert_eq!(term_size_from_cells(0, 24), None);
    assert_eq!(term_size_from_cells(80, 0), None);
    assert_eq!(term_size_from_cells(80, 24), Some((80, 24)));
    assert_eq!(term_size_from_cells(1, 1), Some((1, 1)));
    assert_eq!(term_size_from_cells(65535, 65535), Some((65535, 65535)));
}

#[test]
fn cast_to_termios_carries_the_snapshot() {
    let t = Terminal::from_capture("vt100".to_string(), Some(sample_attrs()));
    let raw: libc::termios = t.cast_to_termios();
    assert_eq!(raw.c_iflag, t.c_iflags);
    assert_eq!(raw.c_oflag, t.c_oflags);
    assert_eq!(raw.c_cflag, t.c_cflags);
    assert_eq!(raw.c_lflag, t.c_lflags);
    assert_eq!(raw.c_cc, t.c_cc);
}
