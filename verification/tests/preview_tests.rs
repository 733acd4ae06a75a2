use ascope::preview::{
    build_iterm2_sequence, build_kitty_sequence, choose_protocol, passthrough_enabled,
    tmux_reports_sixel, wrap_escape_sequence, wrap_escape_sequence_sixel, TerminalEnv,
    TerminalProtocol,
};

fn env() -> TerminalEnv {
    TerminalEnv {
        in_tmux: false,
        tmux_native_sixel: false,
        tmux_passthrough: false,
        wezterm_pane: false,
        term_program: None,
        ghosty_resources_dir: false,
        ghosty_socket_dir: false,
        kitty_window_id: false,
        term: None,
        wt_session: false,
    }
}

#[test]
fn protocol_detection_order() {
    assert_eq!(choose_protocol(&env()), TerminalProtocol::HalfBlock);
    let mut e = env();
    e.term = Some("xterm-kitty".to_string());
    assert_eq!(choose_protocol(&e), TerminalProtocol::Kitty);
    e.term_program = Some("WezTerm".to_string());
    assert_eq!(choose_protocol(&e), TerminalProtocol::Iterm2);
    let mut t = env();
    t.in_tmux = true;
    t.term = Some("xterm-kitty".to_string());
    assert_eq!(choose_protocol(&t), TerminalProtocol::HalfBlock);
    t.tmux_passthrough = true;
    assert_eq!(choose_protocol(&t), TerminalProtocol::Kitty);
    t.tmux_native_sixel = true;
    assert_eq!(choose_protocol(&t), TerminalProtocol::Sixel);
    let mut f = env();
    f.term_program = Some("vscode".to_string());
    assert_eq!(choose_protocol(&f), TerminalProtocol::Sixel);
}

#[test]
fn tmux_answers_are_read() {
    assert!(passthrough_enabled(" On\n"));
    assert!(passthrough_enabled("all"));
    assert!(!passthrough_enabled("off"));
    assert!(tmux_reports_sixel("256,RGB,sixel,title"));
    assert!(!tmux_reports_sixel("256,RGB"));
}

#[test]
fn escape_sequences_are_framed() {
    assert_eq!(wrap_escape_sequence("X", false), "\x1b7X\x1b8");
    assert_eq!(wrap_escape_sequence("\x1bY", true), "\x1bPtmux;\x1b\x1b7\x1b\x1bY\x1b\x1b8\x1b\\");
    assert_eq!(wrap_escape_sequence_sixel("S", true, true), "\x1b7S\x1b8");
    assert_eq!(wrap_escape_sequence_sixel("S", true, false), "\x1bPtmux;\x1b\x1b7S\x1b\x1b8\x1b\\");
}

#[test]
fn iterm2_sequence_carries_base64() {
    let s = build_iterm2_sequence(b"hi", 4, 2, false);
    assert_eq!(s, "\x1b7\x1b]1337;File=inline=1;width=4;height=2;preserveAspectRatio=1:aGk=\x07\x1b8");
}

#[test]
fn kitty_sequence_is_chunked() {
    let small = build_kitty_sequence(b"hi", 3, 1, false);
    assert_eq!(small, "\x1b7\x1b_Ga=T,f=100,c=3,r=1,m=0;aGk=\x1b\\\x1b8");

    let bytes = vec![0u8; 3100];
    let big = build_kitty_sequence(&bytes, 10, 5, false);
    let payload = "A".repeat(4096);
    let rest = format!("{}==", "A".repeat(4134 - 4096));
    let expected = format!(
        "\x1b7\x1b_Ga=T,f=100,c=10,r=5,m=1;{}\x1b\\\x1b_Gm=0;{}\x1b\\\x1b8",
        payload, rest
    );
    assert_eq!(big, expected);
}

#[test]
fn image_payload_is_padded_standard_base64() {
    for (bytes, text) in [(&b"Man"[..], "TWFu"), (b"Ma", "TWE="), (b"M", "TQ=="), (b"\xfb\xff", "+/8=")] {
        let s = build_iterm2_sequence(bytes, 1, 1, false);
        assert!(s.contains(&format!(":{}\x07", text)), "{}", s);
    }
}
