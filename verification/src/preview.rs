use vstd::prelude::*;
use crate::text::{
    chars_of, contains_chars, contains_seq, decimal, lowercase, push_chars, push_decimal, push_str,
    string_of, to_lowercase, trim, trim_chars,
};

verus! {

/// The graphics protocol used to draw images in the terminal.
#[derive(Debug, Clone, Copy, PartialEq, Eq, Structural)]
pub enum TerminalProtocol {
    Kitty,
    Iterm2,
    Sixel,
    HalfBlock,
}

/// What the environment tells about the terminal the program runs in.
#[derive(Debug, Clone)]
pub struct TerminalEnv {
    /// `TMUX` is set.
    pub in_tmux: bool,
    /// tmux reports sixel among the client's terminal features.
    pub tmux_native_sixel: bool,
    /// tmux forwards escape sequences (`allow-passthrough` is on or all).
    pub tmux_passthrough: bool,
    /// `WEZTERM_PANE` is set.
    pub wezterm_pane: bool,
    /// The value of `TERM_PROGRAM`, if set.
    pub term_program: Option<String>,
    /// `GHOSTY_RESOURCES_DIR` is set.
    pub ghosty_resources_dir: bool,
    /// `GHOSTY_SOCKET_DIR` is set.
    pub ghosty_socket_dir: bool,
    /// `KITTY_WINDOW_ID` is set.
    pub kitty_window_id: bool,
    /// The value of `TERM`, if set.
    pub term: Option<String>,
    /// `WT_SESSION` is set.
    pub wt_session: bool,
}

/// Whether the optional variable is set to exactly `v`.
pub open spec fn var_is(s: Option<String>, v: Seq<char>) -> bool {
    match s {
        Some(t) => t@ == v,
        None => false,
    }
}

/// Whether the optional variable is set and contains `v`.
pub open spec fn var_contains(s: Option<String>, v: Seq<char>) -> bool {
    match s {
        Some(t) => contains_seq(t@, v),
        None => false,
    }
}

/// The protocol chosen for `env`: inside tmux, native sixel wins and a
/// closed passthrough forces half blocks; then WezTerm, Ghosty, Kitty,
/// iTerm2, Windows Terminal and the sixel terminals are tried in turn.
pub open spec fn protocol_for(env: TerminalEnv) -> TerminalProtocol {
    if env.in_tmux && env.tmux_native_sixel {
        TerminalProtocol::Sixel
    } else if env.in_tmux && !env.tmux_passthrough {
        TerminalProtocol::HalfBlock
    } else if env.wezterm_pane || var_is(env.term_program, "WezTerm"@) {
        TerminalProtocol::Iterm2
    } else if env.ghosty_resources_dir || env.ghosty_socket_dir || var_is(
        env.term_program,
        "Ghosty"@,
    ) {
        TerminalProtocol::Kitty
    } else if env.kitty_window_id || var_contains(env.term, "kitty"@) {
        TerminalProtocol::Kitty
    } else if var_is(env.term_program, "iTerm.app"@) {
        TerminalProtocol::Iterm2
    } else if env.wt_session {
        TerminalProtocol::Sixel
    } else if var_contains(env.term, "foot"@) || var_contains(env.term, "sixel"@) {
        TerminalProtocol::Sixel
    } else if var_is(env.term_program, "foot"@) || var_is(env.term_program, "Zellij"@) || var_is(
        env.term_program,
        "vscode"@,
    ) {
        TerminalProtocol::Sixel
    } else {
        TerminalProtocol::HalfBlock
    }
}

fn text_is(s: &Option<String>, v: &str) -> (r: bool)
    ensures
        r == var_is(*s, v@),
{
    match s {
        Some(t) => {
            let a = chars_of(t.as_str());
            let b = chars_of(v);
            crate::text::same_chars(&a, &b)
        },
        None => false,
    }
}

fn text_has(s: &Option<String>, v: &str) -> (r: bool)
    ensures
        r == var_contains(*s, v@),
{
    match s {
        Some(t) => {
            let a = chars_of(t.as_str());
            let b = chars_of(v);
            contains_chars(&a, &b)
        },
        None => false,
    }
}

/// Picks the graphics protocol for the terminal described by `env`.
pub fn choose_protocol(env: &TerminalEnv) -> (r: TerminalProtocol)
    ensures
        r == protocol_for(*env),
{
    if env.in_tmux && env.tmux_native_sixel {
        return TerminalProtocol::Sixel;
    }
    if env.in_tmux && !env.tmux_passthrough {
        return TerminalProtocol::HalfBlock;
    }
    if env.wezterm_pane || text_is(&env.term_program, "WezTerm") {
        return TerminalProtocol::Iterm2;
    }
    if env.ghosty_resources_dir || env.ghosty_socket_dir || text_is(&env.term_program, "Ghosty") {
        return TerminalProtocol::Kitty;
    }
    if env.kitty_window_id || text_has(&env.term, "kitty") {
        return TerminalProtocol::Kitty;
    }
    if text_is(&env.term_program, "iTerm.app") {
        return TerminalProtocol::Iterm2;
    }
    if env.wt_session {
        return TerminalProtocol::Sixel;
    }
    if text_has(&env.term, "foot") || text_has(&env.term, "sixel") {
        return TerminalProtocol::Sixel;
    }
    if text_is(&env.term_program, "foot") || text_is(&env.term_program, "Zellij") || text_is(
        &env.term_program,
        "vscode",
    ) {
        return TerminalProtocol::Sixel;
    }
    TerminalProtocol::HalfBlock
}

/// Whether the output of `tmux show-options -gqv allow-passthrough` turns
/// passthrough on: trimmed and lower-cased, it reads `on` or `all`.
pub fn passthrough_enabled(output: &str) -> (r: bool)
    ensures
        r == (lowercase(trim(output@)) == "on"@ || lowercase(trim(output@)) == "all"@),
{
    let t = trim_chars(&chars_of(output));
    let ts = string_of(&t);
    let low = chars_of(to_lowercase(ts.as_str()).as_str());
    let on = chars_of("on");
    let all = chars_of("all");
    crate::text::same_chars(&low, &on) || crate::text::same_chars(&low, &all)
}

/// Whether tmux's `client_termfeatures` output lists sixel.
pub fn tmux_reports_sixel(output: &str) -> (r: bool)
    ensures
        r == contains_seq(output@, "sixel"@),
{
    contains_chars(&chars_of(output), &chars_of("sixel"))
}

/// The characters of `s` with every escape character doubled, as tmux
/// passthrough wants them.
pub open spec fn double_escapes(s: Seq<char>) -> Seq<char>
    decreases s.len(),
{
    if s.len() == 0 {
        Seq::empty()
    } else if s.last() == '\x1b' {
        double_escapes(s.drop_last()) + seq!['\x1b', '\x1b']
    } else {
        double_escapes(s.drop_last()).push(s.last())
    }
}

/// `seq` between save-cursor and restore-cursor; with `passthrough`, also
/// wrapped in a tmux passthrough block with its escapes doubled.
pub open spec fn wrapped(seq: Seq<char>, passthrough: bool) -> Seq<char> {
    let inner = "\x1b7"@ + seq + "\x1b8"@;
    if passthrough {
        "\x1bPtmux;"@ + double_escapes(inner) + "\x1b\\"@
    } else {
        inner
    }
}

fn push_doubled(out: &mut Vec<char>, s: &Vec<char>)
    ensures
        final(out)@ == old(out)@ + double_escapes(s@),
{
    let mut i: usize = 0;
    let ghost start = out@;
    while i < s.len()
        invariant
            i <= s.len(),
            out@ == start + double_escapes(s@.subrange(0, i as int)),
        decreases s.len() - i,
    {
        let ghost pre = s@.subrange(0, i as int);
        assert(s@.subrange(0, i + 1).drop_last() =~= pre);
        if s[i] == '\x1b' {
            out.push('\x1b');
            out.push('\x1b');
        } else {
            out.push(s[i]);
        }
        i = i + 1;
        assert(out@ =~= start + double_escapes(s@.subrange(0, i as int)));
    }
    assert(s@.subrange(0, s.len() as int) =~= s@);
}

fn wrap_chars(seq: &Vec<char>, passthrough: bool) -> (r: String)
    ensures
        r@ == wrapped(seq@, passthrough),
{
    let mut inner: Vec<char> = Vec::new();
    push_str(&mut inner, "\x1b7");
    push_chars(&mut inner, seq);
    push_str(&mut inner, "\x1b8");
    if passthrough {
        let mut out: Vec<char> = Vec::new();
        push_str(&mut out, "\x1bPtmux;");
        push_doubled(&mut out, &inner);
        push_str(&mut out, "\x1b\\");
        string_of(&out)
    } else {
        string_of(&inner)
    }
}

/// Frames an escape sequence so the outer cursor does not move; inside tmux
/// it is sent through tmux's passthrough.
pub fn wrap_escape_sequence(seq: &str, in_tmux: bool) -> (r: String)
    ensures
        r@ == wrapped(seq@, in_tmux),
{
    wrap_chars(&chars_of(seq), in_tmux)
}

/// Frames a sixel sequence: tmux passthrough is used only when tmux runs and
/// does not draw sixels itself.
pub fn wrap_escape_sequence_sixel(seq: &str, in_tmux: bool, tmux_native_sixel: bool) -> (r: String)
    ensures
        r@ == wrapped(seq@, in_tmux && !tmux_native_sixel),
{
    wrap_chars(&chars_of(seq), in_tmux && !tmux_native_sixel)
}

/// The character of the standard base64 alphabet for the six bits `v`.
pub open spec fn base64_digit(v: int) -> char {
    if v < 26 {
        (65 + v) as char
    } else if v < 52 {
        (97 + v - 26) as char
    } else if v < 62 {
        (48 + v - 52) as char
    } else if v == 62 {
        '+'
    } else {
        '/'
    }
}

/// The standard (padded) base64 text of `bytes`: each group of three bytes
/// gives four characters of six bits each, and a last group of one or two
/// bytes is padded with `=`.
pub open spec fn base64_text(bytes: Seq<u8>) -> Seq<char>
    decreases bytes.len(),
{
    if bytes.len() == 0 {
        Seq::empty()
    } else if bytes.len() == 1 {
        let b0 = bytes[0] as int;
        seq![base64_digit(b0 / 4), base64_digit((b0 % 4) * 16), '=', '=']
    } else if bytes.len() == 2 {
        let b0 = bytes[0] as int;
        let b1 = bytes[1] as int;
        seq![base64_digit(b0 / 4), base64_digit((b0 % 4) * 16 + b1 / 16), base64_digit((b1 % 16) * 4), '=']
    } else {
        let b0 = bytes[0] as int;
        let b1 = bytes[1] as int;
        let b2 = bytes[2] as int;
        seq![
            base64_digit(b0 / 4),
            base64_digit((b0 % 4) * 16 + b1 / 16),
            base64_digit((b1 % 16) * 4 + b2 / 64),
            base64_digit(b2 % 64),
        ] + base64_text(bytes.subrange(3, bytes.len() as int))
    }
}

/// Calls `base64::engine::general_purpose::STANDARD.encode` (base64 crate):
/// the standard alphabet with padding, and the padded length that
/// `base64::encoded_len` computes. The inputs on which that length
/// overflows `usize`, where `encode` panics, are left out.
#[verifier::external_body]
fn encode_base64(bytes: &[u8]) -> (r: String)
    requires
        4 * ((bytes@.len() + 2) / 3) <= usize::MAX,
    ensures
        r@ == base64_text(bytes@),
        r@.len() == 4 * ((bytes@.len() + 2) / 3),
{
    base64::Engine::encode(&base64::engine::general_purpose::STANDARD, bytes)
}

/// The largest payload of one Kitty graphics chunk.
pub open spec fn kitty_chunk() -> nat {
    4096
}

/// The Kitty frames carrying `b` from `offset` on: the first frame names the
/// transmission and the cell size, each says with `m` whether more follow.
pub open spec fn kitty_frames(b: Seq<char>, cols: u16, rows: u16, offset: nat) -> Seq<char>
    decreases b.len() - offset,
{
    if offset >= b.len() {
        Seq::empty()
    } else {
        let end: nat = if offset + kitty_chunk() < b.len() {
            offset + kitty_chunk()
        } else {
            b.len()
        };
        let more = if end == b.len() {
            "0"@
        } else {
            "1"@
        };
        let head = if offset == 0 {
            "\x1b_Ga=T,f=100,c="@ + decimal(cols as nat) + ",r="@ + decimal(rows as nat) + ",m="@
                + more + ";"@
        } else {
            "\x1b_Gm="@ + more + ";"@
        };
        head + b.subrange(offset as int, end as int) + "\x1b\\"@ + kitty_frames(
            b,
            cols,
            rows,
            end,
        )
    }
}

/// The payloads of the Kitty frames carrying `b` from `offset` on: pieces of
/// at most 4096 characters, in order.
pub open spec fn kitty_chunks(b: Seq<char>, offset: nat) -> Seq<Seq<char>>
    decreases b.len() - offset,
{
    if offset >= b.len() {
        Seq::empty()
    } else {
        let end: nat = if offset + kitty_chunk() < b.len() {
            offset + kitty_chunk()
        } else {
            b.len()
        };
        seq![b.subrange(offset as int, end as int)] + kitty_chunks(b, end)
    }
}

/// One Kitty frame around `payload`: the first one names the transmission
/// and the cell size; `m=0` marks the last one.
pub open spec fn kitty_frame(payload: Seq<char>, first: bool, last: bool, cols: u16, rows: u16) -> Seq<char> {
    let more = if last {
        "0"@
    } else {
        "1"@
    };
    let head = if first {
        "\x1b_Ga=T,f=100,c="@ + decimal(cols as nat) + ",r="@ + decimal(rows as nat) + ",m="@ + more
            + ";"@
    } else {
        "\x1b_Gm="@ + more + ";"@
    };
    head + payload + "\x1b\\"@
}

/// The frames around the payloads `chunks`, the first of them first when `first`.
pub open spec fn frames_of(chunks: Seq<Seq<char>>, first: bool, cols: u16, rows: u16) -> Seq<char>
    decreases chunks.len(),
{
    if chunks.len() == 0 {
        Seq::empty()
    } else {
        kitty_frame(chunks[0], first, chunks.len() == 1, cols, rows) + frames_of(
            chunks.drop_first(),
            false,
            cols,
            rows,
        )
    }
}

proof fn lemma_frames_chunked(b: Seq<char>, cols: u16, rows: u16, offset: nat)
    requires
        offset <= b.len(),
    ensures
        kitty_frames(b, cols, rows, offset) == frames_of(kitty_chunks(b, offset), offset == 0, cols, rows),
        kitty_chunks(b, offset).flatten() == b.subrange(offset as int, b.len() as int),
        forall|i: int|
            0 <= i < kitty_chunks(b, offset).len() ==> 0 < (#[trigger] kitty_chunks(b, offset)[i]).len() <= kitty_chunk(),
    decreases b.len() - offset,
{
    if offset < b.len() {
        let end: nat = if offset + kitty_chunk() < b.len() {
            offset + kitty_chunk()
        } else {
            b.len()
        };
        lemma_frames_chunked(b, cols, rows, end);
        let cs = kitty_chunks(b, offset);
        let rest = kitty_chunks(b, end);
        assert(cs.drop_first() =~= rest);
        assert(cs[0] == b.subrange(offset as int, end as int));
        assert(rest.len() == 0 <==> end == b.len()) by {
            if end < b.len() {
                assert(rest.len() > 0);
            }
        }
        assert(b.subrange(offset as int, end as int) + b.subrange(end as int, b.len() as int) =~= b.subrange(
            offset as int,
            b.len() as int,
        ));
        assert forall|i: int| 0 <= i < cs.len() implies 0 < (#[trigger] cs[i]).len() <= kitty_chunk() by {
            if i > 0 {
                assert(cs[i] == rest[i - 1]);
            }
        }
    } else {
        assert(b.subrange(offset as int, b.len() as int) =~= Seq::<char>::empty());
    }
}

/// The Kitty sequence carries the encoded image intact: it is the frames
/// around pieces of at most 4096 characters (none empty) that put together
/// give the base64 text, with `m=0` on the last frame only.
pub proof fn lemma_kitty_payload(bytes: Seq<u8>, cols: u16, rows: u16, in_tmux: bool)
    ensures
        kitty_sequence(bytes, cols, rows, in_tmux) == wrapped(
            frames_of(kitty_chunks(base64_text(bytes), 0), true, cols, rows),
            in_tmux,
        ),
        kitty_chunks(base64_text(bytes), 0).flatten() == base64_text(bytes),
        forall|i: int|
            0 <= i < kitty_chunks(base64_text(bytes), 0).len() ==> 0 < (#[trigger] kitty_chunks(
                base64_text(bytes),
                0,
            )[i]).len() <= kitty_chunk(),
{
    let b = base64_text(bytes);
    lemma_frames_chunked(b, cols, rows, 0);
    assert(b.subrange(0, b.len() as int) =~= b);
}

/// The Kitty graphics sequence for an image whose encoded bytes are `bytes`.
pub open spec fn kitty_sequence(bytes: Seq<u8>, cols: u16, rows: u16, in_tmux: bool) -> Seq<char> {
    wrapped(kitty_frames(base64_text(bytes), cols, rows, 0), in_tmux)
}

fn push_kitty_frames(out: &mut Vec<char>, b: &Vec<char>, cols: u16, rows: u16)
    ensures
        final(out)@ == old(out)@ + kitty_frames(b@, cols, rows, 0),
{
    let total = b.len();
    let mut offset: usize = 0;
    let ghost start = out@;
    while offset < total
        invariant
            offset <= total,
            total == b.len(),
            start + kitty_frames(b@, cols, rows, 0) == out@ + kitty_frames(
                b@,
                cols,
                rows,
                offset as nat,
            ),
        decreases total - offset,
    {
        let end: usize = if total - offset > 4096 {
            offset + 4096
        } else {
            total
        };
        let ghost before = out@;
        let is_last = end == total;
        if offset == 0 {
            push_str(out, "\x1b_Ga=T,f=100,c=");
            push_decimal(out, cols as u64);
            push_str(out, ",r=");
            push_decimal(out, rows as u64);
            push_str(out, ",m=");
        } else {
            push_str(out, "\x1b_Gm=");
        }
        if is_last {
            push_str(out, "0");
        } else {
            push_str(out, "1");
        }
        push_str(out, ";");
        let mut k: usize = offset;
        let ghost mid = out@;
        while k < end
            invariant
                offset <= k <= end,
                end <= b.len(),
                out@ == mid + b@.subrange(offset as int, k as int),
            decreases end - k,
        {
            out.push(b[k]);
            k = k + 1;
            assert(out@ =~= mid + b@.subrange(offset as int, k as int));
        }
        push_str(out, "\x1b\\");
        proof {
            let more = if end == total {
                "0"@
            } else {
                "1"@
            };
            let head = if offset == 0 {
                "\x1b_Ga=T,f=100,c="@ + decimal(cols as nat) + ",r="@ + decimal(rows as nat)
                    + ",m="@ + more + ";"@
            } else {
                "\x1b_Gm="@ + more + ";"@
            };
            assert(mid == before + head);
            assert(out@ == before + (head + b@.subrange(offset as int, end as int) + "\x1b\\"@));
            assert(kitty_frames(b@, cols, rows, offset as nat) == head + b@.subrange(
                offset as int,
                end as int,
            ) + "\x1b\\"@ + kitty_frames(b@, cols, rows, end as nat));
        }
        offset = end;
    }
}

/// Builds the Kitty graphics escape sequence for the encoded image `img_bytes`,
/// sent in chunks of at most 4096 base64 characters.
pub fn build_kitty_sequence(img_bytes: &[u8], cols: u16, rows: u16, in_tmux: bool) -> (r: String)
    requires
        4 * ((img_bytes@.len() + 2) / 3) <= usize::MAX,
    ensures
        r@ == kitty_sequence(img_bytes@, cols, rows, in_tmux),
{
    let b64 = chars_of(encode_base64(img_bytes).as_str());
    let mut frames: Vec<char> = Vec::new();
    push_kitty_frames(&mut frames, &b64, cols, rows);
    wrap_chars(&frames, in_tmux)
}

/// The iTerm2 inline-image sequence for an image whose encoded bytes are `bytes`.
pub open spec fn iterm2_sequence(bytes: Seq<u8>, cols: u16, rows: u16, in_tmux: bool) -> Seq<char> {
    wrapped(
        "\x1b]1337;File=inline=1;width="@ + decimal(cols as nat) + ";height="@ + decimal(
            rows as nat,
        ) + ";preserveAspectRatio=1:"@ + base64_text(bytes) + "\x07"@,
        in_tmux,
    )
}

/// Builds the iTerm2 inline-image escape sequence for the encoded image `img_bytes`.
pub fn build_iterm2_sequence(img_bytes: &[u8], cols: u16, rows: u16, in_tmux: bool) -> (r: String)
    requires
        4 * ((img_bytes@.len() + 2) / 3) <= usize::MAX,
    ensures
        r@ == iterm2_sequence(img_bytes@, cols, rows, in_tmux),
{
    let b64 = encode_base64(img_bytes);
    let mut seq: Vec<char> = Vec::new();
    push_str(&mut seq, "\x1b]1337;File=inline=1;width=");
    push_decimal(&mut seq, cols as u64);
    push_str(&mut seq, ";height=");
    push_decimal(&mut seq, rows as u64);
    push_str(&mut seq, ";preserveAspectRatio=1:");
    push_str(&mut seq, b64.as_str());
    push_str(&mut seq, "\x07");
    wrap_chars(&seq, in_tmux)
}

/// A pixel's red, green and blue.
pub type Rgb = (u8, u8, u8);

/// The pixel at column `x` of row `y` of an image `w` pixels wide, stored
/// row after row.
pub open spec fn pixel_at(px: Seq<Rgb>, w: nat, x: nat, y: nat) -> Rgb {
    px[(y * w + x) as int]
}

/// The half-block cell at column `x` of text row `r`: the upper pixel (row
/// `2r`) and the lower one (row `2r + 1`, black below the image).
pub open spec fn half_block_cell(px: Seq<Rgb>, w: nat, h: nat, x: nat, r: nat) -> (Rgb, Rgb) {
    (
        pixel_at(px, w, x, 2 * r),
        if 2 * r + 1 < h {
            pixel_at(px, w, x, 2 * r + 1)
        } else {
            (0u8, 0u8, 0u8)
        },
    )
}

proof fn lemma_pixel_index(w: nat, h: nat, x: nat, y: nat)
    by (nonlinear_arith)
    requires
        x < w,
        y < h,
    ensures
        y * w + x < w * h,
{
}

/// Pairs the rows of an image `w` by `h` pixels (stored row after row) into
/// text rows of half-block cells: upper and lower pixel of each cell.
pub fn half_block_rows(px: &Vec<Rgb>, w: usize, h: usize) -> (rows: Vec<Vec<(Rgb, Rgb)>>)
    requires
        px.len() == w * h,
    ensures
        rows.len() == (h + 1) / 2,
        forall|r: int| 0 <= r < rows.len() ==> (#[trigger] rows@[r]).len() == w,
        forall|r: int, x: int|
            0 <= r < rows.len() && 0 <= x < w ==> #[trigger] rows@[r]@[x] == half_block_cell(
                px@,
                w as nat,
                h as nat,
                x as nat,
                r as nat,
            ),
{
    let mut rows: Vec<Vec<(Rgb, Rgb)>> = Vec::new();
    let n: usize = h / 2 + h % 2;
    let mut r: usize = 0;
    while r < n
        invariant
            px.len() == w * h,
            n == h / 2 + h % 2,
            r <= n,
            rows.len() == r,
            forall|k: int| 0 <= k < rows.len() ==> (#[trigger] rows@[k]).len() == w,
            forall|k: int, x: int|
                0 <= k < rows.len() && 0 <= x < w ==> #[trigger] rows@[k]@[x] == half_block_cell(
                    px@,
                    w as nat,
                    h as nat,
                    x as nat,
                    k as nat,
                ),
        decreases n - r,
    {
        let y: usize = r + r;
        let mut row: Vec<(Rgb, Rgb)> = Vec::new();
        let mut x: usize = 0;
        while x < w
            invariant
                px.len() == w * h,
                y < h,
                y == 2 * r,
                x <= w,
                row.len() == x,
                forall|c: int| 0 <= c < x ==> #[trigger] row@[c] == half_block_cell(
                    px@,
                    w as nat,
                    h as nat,
                    c as nat,
                    r as nat,
                ),
            decreases w - x,
        {
            proof {
                lemma_pixel_index(w as nat, h as nat, x as nat, y as nat);
                if y + 1 < h {
                    lemma_pixel_index(w as nat, h as nat, x as nat, (y + 1) as nat);
                }
            }
            let top = px[y * w + x];
            let bottom = if y + 1 < h {
                px[(y + 1) * w + x]
            } else {
                (0u8, 0u8, 0u8)
            };
            row.push((top, bottom));
            x = x + 1;
        }
        rows.push(row);
        r = r + 1;
    }
    rows
}

} // verus!
