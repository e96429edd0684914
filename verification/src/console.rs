//! Console sinks: the trait the kernel logs through, and the consoles that
//! implement it, among them a framebuffer text console with a built-in font.
use vstd::prelude::*;
use vstd::string::{StringExecFns, StringSliceAdditionalSpecFns};
use crate::bootinfo::{FramebufferFormat, NovaBootInfoV1};

verus! {

/// How severe a log line is.
#[derive(Clone, Copy, Debug, PartialEq, Eq, Structural)]
pub enum LogLevel {
    Trace,
    Debug,
    Info,
    Warn,
    Error,
}

impl LogLevel {
    pub open spec fn spec_str(self) -> Seq<char> {
        match self {
            LogLevel::Trace => "trace"@,
            LogLevel::Debug => "debug"@,
            LogLevel::Info => "info"@,
            LogLevel::Warn => "warn"@,
            LogLevel::Error => "error"@,
        }
    }

    /// The level's name.
    pub fn as_str(self) -> (r: &'static str)
        ensures
            r@ == self.spec_str(),
    {
        match self {
            LogLevel::Trace => "trace",
            LogLevel::Debug => "debug",
            LogLevel::Info => "info",
            LogLevel::Warn => "warn",
            LogLevel::Error => "error",
        }
    }
}

/// The text a log call writes: `[level] message` and a newline.
pub open spec fn log_text(level: LogLevel, message: Seq<char>) -> Seq<char> {
    seq!['['] + level.spec_str() + seq![']', ' '] + message + seq!['\n']
}

/// Somewhere text can be written.
pub trait ConsoleSink {
    /// Everything written to the sink so far.
    spec fn written(&self) -> Seq<char>;

    /// Writes `s`.
    fn write_str(&mut self, s: &str)
        ensures
            final(self).written() == old(self).written() + s@,
    ;

    /// Writes `s` and a newline.
    fn write_line(&mut self, s: &str)
        ensures
            final(self).written() == old(self).written() + s@ + seq!['\n'],
    {
        self.write_str(s);
        proof {
            reveal_strlit("\n");
        }
        self.write_str("\n");
    }

    /// Writes `[level] message` and a newline.
    fn log(&mut self, level: LogLevel, message: &str)
        ensures
            final(self).written() == old(self).written() + log_text(level, message@),
    {
        proof {
            reveal_strlit("[");
            reveal_strlit("] ");
            reveal_strlit("\n");
        }
        self.write_str("[");
        self.write_str(level.as_str());
        self.write_str("] ");
        self.write_line(message);
        assert(final(self).written() =~= old(self).written() + log_text(level, message@));
    }
}

/// A console that keeps what is written to it as text.
pub struct TextConsole {
    text: String,
}

impl TextConsole {
    /// A console holding nothing.
    pub fn new() -> (r: Self)
        ensures
            r.written() == Seq::<char>::empty(),
    {
        TextConsole { text: String::new() }
    }

    /// Everything written so far.
    pub fn as_str(&self) -> (r: &str)
        ensures
            r@ == self.written(),
    {
        self.text.as_str()
    }
}

impl ConsoleSink for TextConsole {
    closed spec fn written(&self) -> Seq<char> {
        self.text@
    }

    fn write_str(&mut self, s: &str) {
        self.text.append(s);
    }
}

/// A console that discards what is written to it.
pub struct NullConsole {
    log: Ghost<Seq<char>>,
}

impl NullConsole {
    /// A console that has been given nothing.
    pub fn new() -> (r: Self)
        ensures
            r.written() == Seq::<char>::empty(),
    {
        NullConsole { log: Ghost(Seq::empty()) }
    }
}

impl ConsoleSink for NullConsole {
    closed spec fn written(&self) -> Seq<char> {
        self.log@
    }

    fn write_str(&mut self, s: &str) {
        self.log = Ghost(self.log@ + s@);
    }
}

/// The debug trace console. Off the target it has no UART, and the text goes
/// nowhere.
pub struct TraceConsole {
    log: Ghost<Seq<char>>,
}

impl TraceConsole {
    /// A trace console that has been given nothing.
    pub fn new() -> (r: Self)
        ensures
            r.written() == Seq::<char>::empty(),
    {
        TraceConsole { log: Ghost(Seq::empty()) }
    }
}

impl ConsoleSink for TraceConsole {
    closed spec fn written(&self) -> Seq<char> {
        self.log@
    }

    fn write_str(&mut self, s: &str) {
        self.log = Ghost(self.log@ + s@);
    }
}

// ---------------------------------------------------------------------------
// The framebuffer console
// ---------------------------------------------------------------------------

pub const GLYPH_WIDTH: usize = 5;
pub const GLYPH_HEIGHT: usize = 7;
pub const GLYPH_ADVANCE_X: usize = 6;
pub const GLYPH_ADVANCE_Y: usize = 8;
pub const MARGIN_X: usize = 1;
pub const MARGIN_Y: usize = 1;

/// The five-column rows of a character's glyph; anything outside the font
/// draws as `?`.
pub open spec fn spec_glyph_rows(byte: u8) -> Seq<u8> {
    match byte {
        65 => seq![0x0Eu8, 0x11u8, 0x11u8, 0x1Fu8, 0x11u8, 0x11u8, 0x11u8],
        66 => seq![0x1Eu8, 0x11u8, 0x11u8, 0x1Eu8, 0x11u8, 0x11u8, 0x1Eu8],
        67 => seq![0x0Eu8, 0x11u8, 0x10u8, 0x10u8, 0x10u8, 0x11u8, 0x0Eu8],
        68 => seq![0x1Eu8, 0x11u8, 0x11u8, 0x11u8, 0x11u8, 0x11u8, 0x1Eu8],
        69 => seq![0x1Fu8, 0x10u8, 0x10u8, 0x1Eu8, 0x10u8, 0x10u8, 0x1Fu8],
        70 => seq![0x1Fu8, 0x10u8, 0x10u8, 0x1Eu8, 0x10u8, 0x10u8, 0x10u8],
        71 => seq![0x0Eu8, 0x11u8, 0x10u8, 0x17u8, 0x11u8, 0x11u8, 0x0Fu8],
        72 => seq![0x11u8, 0x11u8, 0x11u8, 0x1Fu8, 0x11u8, 0x11u8, 0x11u8],
        73 => seq![0x0Eu8, 0x04u8, 0x04u8, 0x04u8, 0x04u8, 0x04u8, 0x0Eu8],
        74 => seq![0x01u8, 0x01u8, 0x01u8, 0x01u8, 0x11u8, 0x11u8, 0x0Eu8],
        75 => seq![0x11u8, 0x12u8, 0x14u8, 0x18u8, 0x14u8, 0x12u8, 0x11u8],
        76 => seq![0x10u8, 0x10u8, 0x10u8, 0x10u8, 0x10u8, 0x10u8, 0x1Fu8],
        77 => seq![0x11u8, 0x1Bu8, 0x15u8, 0x15u8, 0x11u8, 0x11u8, 0x11u8],
        78 => seq![0x11u8, 0x11u8, 0x19u8, 0x15u8, 0x13u8, 0x11u8, 0x11u8],
        79 => seq![0x0Eu8, 0x11u8, 0x11u8, 0x11u8, 0x11u8, 0x11u8, 0x0Eu8],
        80 => seq![0x1Eu8, 0x11u8, 0x11u8, 0x1Eu8, 0x10u8, 0x10u8, 0x10u8],
        81 => seq![0x0Eu8, 0x11u8, 0x11u8, 0x11u8, 0x15u8, 0x12u8, 0x0Du8],
        82 => seq![0x1Eu8, 0x11u8, 0x11u8, 0x1Eu8, 0x14u8, 0x12u8, 0x11u8],
        83 => seq![0x0Fu8, 0x10u8, 0x10u8, 0x0Eu8, 0x01u8, 0x01u8, 0x1Eu8],
        84 => seq![0x1Fu8, 0x04u8, 0x04u8, 0x04u8, 0x04u8, 0x04u8, 0x04u8],
        85 => seq![0x11u8, 0x11u8, 0x11u8, 0x11u8, 0x11u8, 0x11u8, 0x0Eu8],
        86 => seq![0x11u8, 0x11u8, 0x11u8, 0x11u8, 0x11u8, 0x0Au8, 0x04u8],
        87 => seq![0x11u8, 0x11u8, 0x11u8, 0x15u8, 0x15u8, 0x15u8, 0x0Au8],
        88 => seq![0x11u8, 0x11u8, 0x0Au8, 0x04u8, 0x0Au8, 0x11u8, 0x11u8],
        89 => seq![0x11u8, 0x11u8, 0x0Au8, 0x04u8, 0x04u8, 0x04u8, 0x04u8],
        90 => seq![0x1Fu8, 0x01u8, 0x02u8, 0x04u8, 0x08u8, 0x10u8, 0x1Fu8],
        48 => seq![0x0Eu8, 0x11u8, 0x13u8, 0x15u8, 0x19u8, 0x11u8, 0x0Eu8],
        49 => seq![0x04u8, 0x0Cu8, 0x04u8, 0x04u8, 0x04u8, 0x04u8, 0x0Eu8],
        50 => seq![0x0Eu8, 0x11u8, 0x01u8, 0x02u8, 0x04u8, 0x08u8, 0x1Fu8],
        51 => seq![0x1Eu8, 0x01u8, 0x01u8, 0x06u8, 0x01u8, 0x01u8, 0x1Eu8],
        52 => seq![0x02u8, 0x06u8, 0x0Au8, 0x12u8, 0x1Fu8, 0x02u8, 0x02u8],
        53 => seq![0x1Fu8, 0x10u8, 0x10u8, 0x1Eu8, 0x01u8, 0x01u8, 0x1Eu8],
        54 => seq![0x0Eu8, 0x10u8, 0x10u8, 0x1Eu8, 0x11u8, 0x11u8, 0x0Eu8],
        55 => seq![0x1Fu8, 0x01u8, 0x02u8, 0x04u8, 0x08u8, 0x08u8, 0x08u8],
        56 => seq![0x0Eu8, 0x11u8, 0x11u8, 0x0Eu8, 0x11u8, 0x11u8, 0x0Eu8],
        57 => seq![0x0Eu8, 0x11u8, 0x11u8, 0x0Fu8, 0x01u8, 0x01u8, 0x0Eu8],
        91 => seq![0x0Eu8, 0x08u8, 0x08u8, 0x08u8, 0x08u8, 0x08u8, 0x0Eu8],
        93 => seq![0x0Eu8, 0x02u8, 0x02u8, 0x02u8, 0x02u8, 0x02u8, 0x0Eu8],
        45 => seq![0x00u8, 0x00u8, 0x00u8, 0x1Fu8, 0x00u8, 0x00u8, 0x00u8],
        59 => seq![0x00u8, 0x04u8, 0x00u8, 0x00u8, 0x04u8, 0x04u8, 0x08u8],
        63 => seq![0x0Eu8, 0x11u8, 0x01u8, 0x02u8, 0x04u8, 0x00u8, 0x04u8],
        32 => seq![0x00u8, 0x00u8, 0x00u8, 0x00u8, 0x00u8, 0x00u8, 0x00u8],
        _ => seq![0x0Eu8, 0x11u8, 0x01u8, 0x02u8, 0x04u8, 0x00u8, 0x04u8],
    }
}

/// The glyph rows of a character.
pub fn glyph_rows(byte: u8) -> (r: [u8; 7])
    ensures
        r@ == spec_glyph_rows(byte),
{
    let r: [u8; 7] = match byte {
        65 => [0x0Eu8, 0x11u8, 0x11u8, 0x1Fu8, 0x11u8, 0x11u8, 0x11u8],
        66 => [0x1Eu8, 0x11u8, 0x11u8, 0x1Eu8, 0x11u8, 0x11u8, 0x1Eu8],
        67 => [0x0Eu8, 0x11u8, 0x10u8, 0x10u8, 0x10u8, 0x11u8, 0x0Eu8],
        68 => [0x1Eu8, 0x11u8, 0x11u8, 0x11u8, 0x11u8, 0x11u8, 0x1Eu8],
        69 => [0x1Fu8, 0x10u8, 0x10u8, 0x1Eu8, 0x10u8, 0x10u8, 0x1Fu8],
        70 => [0x1Fu8, 0x10u8, 0x10u8, 0x1Eu8, 0x10u8, 0x10u8, 0x10u8],
        71 => [0x0Eu8, 0x11u8, 0x10u8, 0x17u8, 0x11u8, 0x11u8, 0x0Fu8],
        72 => [0x11u8, 0x11u8, 0x11u8, 0x1Fu8, 0x11u8, 0x11u8, 0x11u8],
        73 => [0x0Eu8, 0x04u8, 0x04u8, 0x04u8, 0x04u8, 0x04u8, 0x0Eu8],
        74 => [0x01u8, 0x01u8, 0x01u8, 0x01u8, 0x11u8, 0x11u8, 0x0Eu8],
        75 => [0x11u8, 0x12u8, 0x14u8, 0x18u8, 0x14u8, 0x12u8, 0x11u8],
        76 => [0x10u8, 0x10u8, 0x10u8, 0x10u8, 0x10u8, 0x10u8, 0x1Fu8],
        77 => [0x11u8, 0x1Bu8, 0x15u8, 0x15u8, 0x11u8, 0x11u8, 0x11u8],
        78 => [0x11u8, 0x11u8, 0x19u8, 0x15u8, 0x13u8, 0x11u8, 0x11u8],
        79 => [0x0Eu8, 0x11u8, 0x11u8, 0x11u8, 0x11u8, 0x11u8, 0x0Eu8],
        80 => [0x1Eu8, 0x11u8, 0x11u8, 0x1Eu8, 0x10u8, 0x10u8, 0x10u8],
        81 => [0x0Eu8, 0x11u8, 0x11u8, 0x11u8, 0x15u8, 0x12u8, 0x0Du8],
        82 => [0x1Eu8, 0x11u8, 0x11u8, 0x1Eu8, 0x14u8, 0x12u8, 0x11u8],
        83 => [0x0Fu8, 0x10u8, 0x10u8, 0x0Eu8, 0x01u8, 0x01u8, 0x1Eu8],
        84 => [0x1Fu8, 0x04u8, 0x04u8, 0x04u8, 0x04u8, 0x04u8, 0x04u8],
        85 => [0x11u8, 0x11u8, 0x11u8, 0x11u8, 0x11u8, 0x11u8, 0x0Eu8],
        86 => [0x11u8, 0x11u8, 0x11u8, 0x11u8, 0x11u8, 0x0Au8, 0x04u8],
        87 => [0x11u8, 0x11u8, 0x11u8, 0x15u8, 0x15u8, 0x15u8, 0x0Au8],
        88 => [0x11u8, 0x11u8, 0x0Au8, 0x04u8, 0x0Au8, 0x11u8, 0x11u8],
        89 => [0x11u8, 0x11u8, 0x0Au8, 0x04u8, 0x04u8, 0x04u8, 0x04u8],
        90 => [0x1Fu8, 0x01u8, 0x02u8, 0x04u8, 0x08u8, 0x10u8, 0x1Fu8],
        48 => [0x0Eu8, 0x11u8, 0x13u8, 0x15u8, 0x19u8, 0x11u8, 0x0Eu8],
        49 => [0x04u8, 0x0Cu8, 0x04u8, 0x04u8, 0x04u8, 0x04u8, 0x0Eu8],
        50 => [0x0Eu8, 0x11u8, 0x01u8, 0x02u8, 0x04u8, 0x08u8, 0x1Fu8],
        51 => [0x1Eu8, 0x01u8, 0x01u8, 0x06u8, 0x01u8, 0x01u8, 0x1Eu8],
        52 => [0x02u8, 0x06u8, 0x0Au8, 0x12u8, 0x1Fu8, 0x02u8, 0x02u8],
        53 => [0x1Fu8, 0x10u8, 0x10u8, 0x1Eu8, 0x01u8, 0x01u8, 0x1Eu8],
        54 => [0x0Eu8, 0x10u8, 0x10u8, 0x1Eu8, 0x11u8, 0x11u8, 0x0Eu8],
        55 => [0x1Fu8, 0x01u8, 0x02u8, 0x04u8, 0x08u8, 0x08u8, 0x08u8],
        56 => [0x0Eu8, 0x11u8, 0x11u8, 0x0Eu8, 0x11u8, 0x11u8, 0x0Eu8],
        57 => [0x0Eu8, 0x11u8, 0x11u8, 0x0Fu8, 0x01u8, 0x01u8, 0x0Eu8],
        91 => [0x0Eu8, 0x08u8, 0x08u8, 0x08u8, 0x08u8, 0x08u8, 0x0Eu8],
        93 => [0x0Eu8, 0x02u8, 0x02u8, 0x02u8, 0x02u8, 0x02u8, 0x0Eu8],
        45 => [0x00u8, 0x00u8, 0x00u8, 0x1Fu8, 0x00u8, 0x00u8, 0x00u8],
        59 => [0x00u8, 0x04u8, 0x00u8, 0x00u8, 0x04u8, 0x04u8, 0x08u8],
        63 => [0x0Eu8, 0x11u8, 0x01u8, 0x02u8, 0x04u8, 0x00u8, 0x04u8],
        32 => [0x00u8, 0x00u8, 0x00u8, 0x00u8, 0x00u8, 0x00u8, 0x00u8],
        _ => [0x0Eu8, 0x11u8, 0x01u8, 0x02u8, 0x04u8, 0x00u8, 0x04u8],
    };
    assert(r@ =~= spec_glyph_rows(byte));
    r
}

/// The characters the font draws: capital letters, digits, `[`, `]`, `-`,
/// `;`, `?` and the space.
pub open spec fn in_font(c: u8) -> bool {
    (65 <= c <= 90) || (48 <= c <= 57) || c == 91 || c == 93 || c == 45 || c == 59 || c == 63 || c == 32
}

/// A glyph's seven rows read as one number, five bits a row.
pub open spec fn glyph_bitmap(rows: Seq<u8>) -> int {
    rows[0] + 32 * (rows[1] + 32 * (rows[2] + 32 * (rows[3] + 32 * (rows[4] + 32 * (rows[5] + 32 * rows[6] as int)))))
}

/// Every glyph is seven rows five pixels wide; no two characters of the font
/// share a glyph, so each draws distinguishably; the space is blank and every
/// other character of the font sets some pixel; a character outside the font
/// draws as `?`.
pub proof fn lemma_font_glyphs(a: u8, b: u8)
    ensures
        spec_glyph_rows(a).len() == 7,
        forall|i: int| 0 <= i < 7 ==> #[trigger] spec_glyph_rows(a)[i] < 32,
        in_font(a) && in_font(b) && a != b ==> spec_glyph_rows(a) != spec_glyph_rows(b),
        (a == 32) == (in_font(a) && glyph_bitmap(spec_glyph_rows(a)) == 0),
        !in_font(a) ==> spec_glyph_rows(a) == spec_glyph_rows(63),
{
    if in_font(a) && in_font(b) && a != b && spec_glyph_rows(a) == spec_glyph_rows(b) {
        assert(glyph_bitmap(spec_glyph_rows(a)) == glyph_bitmap(spec_glyph_rows(b)));
    }
}

/// Lower-case ASCII letters draw as upper case.
pub open spec fn spec_normalize_ascii(byte: u8) -> u8 {
    if 97 <= byte <= 122 { (byte - 32) as u8 } else { byte }
}

/// Maps lower-case ASCII letters to upper case.
pub fn normalize_ascii(byte: u8) -> (r: u8)
    ensures
        r == spec_normalize_ascii(byte),
{
    if byte >= 97 && byte <= 122 { byte - 32 } else { byte }
}

/// The foreground colour of a format.
pub fn foreground_color(format: FramebufferFormat) -> (r: u32)
    ensures
        r == 0x00FF_FFFF,
{
    0x00FF_FFFF
}

/// The background colour of a format.
pub fn background_color(format: FramebufferFormat) -> (r: u32)
    ensures
        r == 0,
{
    0
}

/// The pixels and cursor of a framebuffer console.
pub struct FbState {
    pub pixels: Seq<u32>,
    pub cx: int,
    pub cy: int,
}

/// The geometry and colours a framebuffer console draws with.
pub struct FbGeometry {
    pub width: int,
    pub height: int,
    pub stride: int,
    pub fg: u32,
    pub bg: u32,
}

/// `p` with pixel `idx` set to `c`, where `idx` lies in the buffer.
pub open spec fn put_pixel(p: Seq<u32>, idx: int, c: u32) -> Seq<u32> {
    if 0 <= idx < p.len() { p.update(idx, c) } else { p }
}

/// The visible area painted in the background colour, the cursor home.
pub open spec fn fb_clear(g: FbGeometry, s: FbState) -> FbState {
    FbState {
        pixels: Seq::new(s.pixels.len(), |i: int| if i < g.stride * g.height && i % g.stride < g.width { g.bg } else { s.pixels[i] }),
        cx: 1,
        cy: 1,
    }
}

/// Cursor to the start of the next line, clearing the screen when that
/// line does not fit.
pub open spec fn fb_newline(g: FbGeometry, s: FbState) -> FbState {
    let s1 = FbState { cx: 1, cy: s.cy + 8, ..s };
    if s1.cy + 7 > g.height { fb_clear(g, s1) } else { s1 }
}

/// The colour of column `c` of a glyph row.
pub open spec fn glyph_color(g: FbGeometry, bits: u8, c: int) -> u32 {
    if bits & (1u8 << ((4 - c) as u8)) != 0u8 { g.fg } else { g.bg }
}

/// The first `k` pixels of a glyph drawn at the cursor, row by row.
pub open spec fn glyph_drawn(g: FbGeometry, s: FbState, rows: Seq<u8>, k: nat) -> Seq<u32>
    decreases k,
{
    if k == 0 {
        s.pixels
    } else {
        let j = (k - 1) as nat;
        let r = j / 5;
        let c = j % 5;
        put_pixel(glyph_drawn(g, s, rows, j), (s.cy + r) * g.stride + s.cx + c, glyph_color(g, rows[r as int], c as int))
    }
}

/// One printable character: wrap when it does not fit the line, clear when
/// the line does not fit the screen, draw, advance.
pub open spec fn fb_put_char(g: FbGeometry, s: FbState, byte: u8) -> FbState {
    let s1 = if s.cx + 5 > g.width { fb_newline(g, s) } else { s };
    let s2 = if s1.cy + 7 > g.height { fb_clear(g, s1) } else { s1 };
    let drawn = glyph_drawn(g, s2, spec_glyph_rows(spec_normalize_ascii(byte)), 35);
    FbState { pixels: drawn, cx: s2.cx + 6, cy: s2.cy }
}

/// One byte: newline, carriage return, a tab as four spaces, or a character.
pub open spec fn fb_write_byte(g: FbGeometry, s: FbState, byte: u8) -> FbState {
    if byte == 10 {
        fb_newline(g, s)
    } else if byte == 13 {
        FbState { cx: 1, ..s }
    } else if byte == 9 {
        fb_put_char(g, fb_put_char(g, fb_put_char(g, fb_put_char(g, s, 32), 32), 32), 32)
    } else {
        fb_put_char(g, s, byte)
    }
}

/// Bytes written one after the other.
pub open spec fn fb_write_bytes(g: FbGeometry, s: FbState, bytes: Seq<u8>) -> FbState
    decreases bytes.len(),
{
    if bytes.len() == 0 {
        s
    } else {
        fb_write_byte(g, fb_write_bytes(g, s, bytes.drop_last()), bytes.last())
    }
}

/// A boot record's framebuffer can be drawn into a buffer of `len` pixels:
/// a known format, a non-empty screen, a stride that covers a row, a buffer
/// large enough, and a geometry well inside the address space.
pub open spec fn boot_info_framebuffer_usable(b: NovaBootInfoV1, len: nat) -> bool {
    &&& b.framebuffer_width != 0 && b.framebuffer_height != 0
    &&& b.framebuffer_stride >= b.framebuffer_width
    &&& b.framebuffer_format != FramebufferFormat::Unknown
    &&& b.framebuffer_stride * b.framebuffer_height <= len
    &&& b.framebuffer_width + 64 <= usize::MAX && b.framebuffer_height + 64 <= usize::MAX
}

/// The geometry a boot record's framebuffer is drawn with: white on black.
pub open spec fn boot_info_framebuffer_geometry(b: NovaBootInfoV1) -> FbGeometry {
    FbGeometry {
        width: b.framebuffer_width as int,
        height: b.framebuffer_height as int,
        stride: b.framebuffer_stride as int,
        fg: 0x00FF_FFFF,
        bg: 0,
    }
}

/// A text console drawn into a framebuffer's pixels.
pub struct FramebufferConsole {
    pixels: Vec<u32>,
    width: usize,
    height: usize,
    stride: usize,
    cursor_x: usize,
    cursor_y: usize,
    foreground: u32,
    background: u32,
    log: Ghost<Seq<char>>,
}

impl FramebufferConsole {
    /// Geometry in bounds, buffer large enough, cursor near the screen.
    pub closed spec fn wf(&self) -> bool {
        &&& self.geom_ok()
        &&& self.cursor_x <= self.width + 7
        &&& self.cursor_y <= self.height + 8
    }

    /// Geometry in bounds and a buffer large enough for it.
    pub closed spec fn geom_ok(&self) -> bool {
        &&& 0 < self.width <= self.stride
        &&& 0 < self.height
        &&& self.width + 64 <= usize::MAX
        &&& self.height + 64 <= usize::MAX
        &&& self.stride * self.height <= self.pixels@.len()
    }

    /// The console's geometry and colours.
    pub closed spec fn geometry(&self) -> FbGeometry {
        FbGeometry {
            width: self.width as int,
            height: self.height as int,
            stride: self.stride as int,
            fg: self.foreground,
            bg: self.background,
        }
    }

    /// The console's pixels and cursor.
    pub closed spec fn state(&self) -> FbState {
        FbState { pixels: self.pixels@, cx: self.cursor_x as int, cy: self.cursor_y as int }
    }

    /// A console over `pixels` for a framebuffer of the given geometry, with
    /// the screen cleared. There is none for an empty or unknown geometry or
    /// a buffer too small for it.
    pub fn new(pixels: Vec<u32>, width: u32, height: u32, stride: u32, format: FramebufferFormat) -> (r: Option<Self>)
        ensures
            r is Some <==> (width != 0 && height != 0 && stride >= width && format != FramebufferFormat::Unknown
                && stride * height <= pixels@.len() && width + 64 <= usize::MAX && height + 64 <= usize::MAX),
            r matches Some(c) ==> c.wf() && c.written() == Seq::<char>::empty() && c.geometry() == (FbGeometry {
                width: width as int,
                height: height as int,
                stride: stride as int,
                fg: 0x00FF_FFFF,
                bg: 0,
            }) && c.state() == fb_clear(c.geometry(), FbState { pixels: pixels@, cx: 1, cy: 1 }),
    {
        if width == 0 || height == 0 || stride < width {
            return None;
        }
        match format {
            FramebufferFormat::Unknown => {
                return None;
            },
            _ => {},
        }
        let w = width as usize;
        let h = height as usize;
        let st = stride as usize;
        if w > usize::MAX - 64 || h > usize::MAX - 64 {
            return None;
        }
        let available = pixels.len();
        let need = match st.checked_mul(h) {
            Some(n) => n,
            None => return None,
        };
        if available < need {
            return None;
        }
        let mut console = FramebufferConsole {
            pixels,
            width: w,
            height: h,
            stride: st,
            cursor_x: MARGIN_X,
            cursor_y: MARGIN_Y,
            foreground: foreground_color(format),
            background: background_color(format),
            log: Ghost(Seq::empty()),
        };
        console.clear();
        Some(console)
    }

    /// A console over `pixels` for the framebuffer a boot record describes.
    pub fn from_boot_info(boot_info: &NovaBootInfoV1, pixels: Vec<u32>) -> (r: Option<Self>)
        ensures
            r is Some <==> boot_info_framebuffer_usable(*boot_info, pixels@.len()),
            r matches Some(c) ==> c.wf() && c.written() == Seq::<char>::empty() && c.geometry()
                == boot_info_framebuffer_geometry(*boot_info) && c.state() == fb_clear(
                c.geometry(),
                FbState { pixels: pixels@, cx: 1, cy: 1 },
            ),
    {
        Self::new(
            pixels,
            boot_info.framebuffer_width,
            boot_info.framebuffer_height,
            boot_info.framebuffer_stride,
            boot_info.framebuffer_format,
        )
    }

    /// The pixels.
    pub fn pixels(&self) -> (r: &[u32])
        ensures
            r@ == self.state().pixels,
    {
        self.pixels.as_slice()
    }

    fn clear(&mut self)
        requires
            old(self).geom_ok(),
        ensures
            final(self).wf(),
            final(self).geometry() == old(self).geometry(),
            final(self).log == old(self).log,
            final(self).state() == fb_clear(old(self).geometry(), old(self).state()),
    {
        let ghost p0 = self.pixels@;
        let _len = self.pixels.len();
        let limit = self.stride * self.height;
        let mut i: usize = 0;
        while i < limit
            invariant
                0 <= i <= limit,
                limit == self.stride * self.height,
                limit <= self.pixels@.len(),
                self.geom_ok(),
                self.geometry() == old(self).geometry(),
                self.log == old(self).log,
                self.pixels@.len() == p0.len(),
                0 < self.width <= self.stride,
                forall|j: int| 0 <= j < p0.len() ==> self.pixels@[j] == (if j < i && j % (self.stride as int) < self.width {
                    self.background
                } else {
                    p0[j]
                }),
            decreases limit - i,
        {
            if i % self.stride < self.width {
                self.pixels.set(i, self.background);
            }
            i = i + 1;
        }
        self.cursor_x = MARGIN_X;
        self.cursor_y = MARGIN_Y;
        assert(self.state().pixels =~= fb_clear(old(self).geometry(), old(self).state()).pixels);
    }

    fn newline(&mut self)
        requires
            old(self).wf(),
        ensures
            final(self).wf(),
            final(self).geometry() == old(self).geometry(),
            final(self).log == old(self).log,
            final(self).state() == fb_newline(old(self).geometry(), old(self).state()),
    {
        self.cursor_x = MARGIN_X;
        self.cursor_y = self.cursor_y + GLYPH_ADVANCE_Y;
        if self.cursor_y + GLYPH_HEIGHT > self.height {
            self.clear();
        }
    }

    fn write_pixel(&mut self, x: usize, y: usize, color: u32)
        requires
            old(self).wf(),
        ensures
            final(self).wf(),
            final(self).geometry() == old(self).geometry(),
            final(self).log == old(self).log,
            final(self).state() == (FbState {
                pixels: put_pixel(old(self).state().pixels, y * old(self).stride + x, color),
                ..old(self).state()
            }),
    {
        let _len = self.pixels.len();
        let row = match y.checked_mul(self.stride) {
            Some(v) => v,
            None => return,
        };
        let index = match row.checked_add(x) {
            Some(v) => v,
            None => return,
        };
        if index < self.pixels.len() {
            self.pixels.set(index, color);
        }
    }

    fn draw_glyph(&mut self, rows: [u8; 7])
        requires
            old(self).wf(),
        ensures
            final(self).wf(),
            final(self).geometry() == old(self).geometry(),
            final(self).log == old(self).log,
            final(self).state() == (FbState {
                pixels: glyph_drawn(old(self).geometry(), old(self).state(), rows@, 35),
                ..old(self).state()
            }),
    {
        let ghost s0 = self.state();
        let ghost g = self.geometry();
        let mut k: usize = 0;
        while k < 35
            invariant
                0 <= k <= 35,
                self.wf(),
                self.geometry() == g,
                self.log == old(self).log,
                self.cursor_x == s0.cx && self.cursor_y == s0.cy,
                self.pixels@ == glyph_drawn(g, s0, rows@, k as nat),
            decreases 35 - k,
        {
            let r = k / 5;
            let c = k % 5;
            let bits = rows[r];
            let mask: u8 = 1u8 << ((4 - c) as u8);
            let color = if bits & mask != 0 { self.foreground } else { self.background };
            self.write_pixel(self.cursor_x + c, self.cursor_y + r, color);
            k = k + 1;
        }
    }

    fn put_char(&mut self, byte: u8)
        requires
            old(self).wf(),
        ensures
            final(self).wf(),
            final(self).geometry() == old(self).geometry(),
            final(self).log == old(self).log,
            final(self).state() == fb_put_char(old(self).geometry(), old(self).state(), byte),
    {
        if self.cursor_x + GLYPH_WIDTH > self.width {
            self.newline();
        }
        if self.cursor_y + GLYPH_HEIGHT > self.height {
            self.clear();
        }
        self.draw_glyph(glyph_rows(normalize_ascii(byte)));
        self.cursor_x = self.cursor_x + GLYPH_ADVANCE_X;
    }

    fn write_byte(&mut self, byte: u8)
        requires
            old(self).wf(),
        ensures
            final(self).wf(),
            final(self).geometry() == old(self).geometry(),
            final(self).log == old(self).log,
            final(self).state() == fb_write_byte(old(self).geometry(), old(self).state(), byte),
    {
        if byte == 10 {
            self.newline();
        } else if byte == 13 {
            self.cursor_x = MARGIN_X;
        } else if byte == 9 {
            self.put_char(32);
            self.put_char(32);
            self.put_char(32);
            self.put_char(32);
        } else {
            self.put_char(byte);
        }
    }

    /// Draws the bytes of `s`.
    pub fn write_text(&mut self, s: &str)
        requires
            old(self).wf(),
        ensures
            final(self).wf(),
            final(self).geometry() == old(self).geometry(),
            final(self).written() == old(self).written() + s@,
            final(self).state() == fb_write_bytes(old(self).geometry(), old(self).state(), s.spec_bytes()),
    {
        let bytes = s.as_bytes();
        let ghost s0 = self.state();
        let ghost g = self.geometry();
        let mut i: usize = 0;
        while i < bytes.len()
            invariant
                0 <= i <= bytes@.len(),
                self.wf(),
                self.geometry() == g,
                self.log == old(self).log,
                self.state() == fb_write_bytes(g, s0, bytes@.subrange(0, i as int)),
            decreases bytes@.len() - i,
        {
            self.write_byte(bytes[i]);
            proof {
                assert(bytes@.subrange(0, i + 1).drop_last() =~= bytes@.subrange(0, i as int));
            }
            i = i + 1;
        }
        assert(bytes@.subrange(0, bytes@.len() as int) =~= bytes@);
        self.log = Ghost(self.log@ + s@);
    }
}

impl ConsoleSink for FramebufferConsole {
    closed spec fn written(&self) -> Seq<char> {
        self.log@
    }

    /// Draws `s` where the console is well formed; one that is not is never
    /// made by the constructors.
    fn write_str(&mut self, s: &str)
        ensures
            final(self).geometry() == old(self).geometry(),
            old(self).wf() ==> final(self).wf() && final(self).state() == fb_write_bytes(
                old(self).geometry(),
                old(self).state(),
                s.spec_bytes(),
            ),
            !old(self).wf() ==> final(self).state() == old(self).state(),
    {
        if self.is_well_formed() {
            self.write_text(s);
        } else {
            self.log = Ghost(self.log@ + s@);
        }
    }
}

impl FramebufferConsole {
    /// Whether the console's geometry and cursor are in bounds.
    pub fn is_well_formed(&self) -> (r: bool)
        ensures
            r == self.wf(),
    {
        let len = self.pixels.len();
        let fits = match self.stride.checked_mul(self.height) {
            Some(n) => n <= len,
            None => false,
        };
        self.width > 0 && self.width <= self.stride && self.height > 0 && self.width <= usize::MAX - 64
            && self.height <= usize::MAX - 64 && fits && self.cursor_x <= self.width + 7 && self.cursor_y
            <= self.height + 8
    }
}

/// The boot console: the trace console, and the framebuffer when there is one.
pub struct BootConsole {
    framebuffer: Option<FramebufferConsole>,
    trace: TraceConsole,
}

impl BootConsole {
    /// The framebuffer console it also draws into, if any.
    pub closed spec fn framebuffer(&self) -> Option<FramebufferConsole> {
        self.framebuffer
    }

    /// A boot console over an optional framebuffer console.
    pub fn new(framebuffer: Option<FramebufferConsole>) -> (r: Self)
        ensures
            r.written() == Seq::<char>::empty(),
            r.framebuffer() == framebuffer,
    {
        BootConsole { framebuffer, trace: TraceConsole::new() }
    }

    /// The boot console for a boot record, drawing into `pixels` when the
    /// record describes a usable framebuffer.
    pub fn from_boot_info(boot_info: &NovaBootInfoV1, pixels: Vec<u32>) -> (r: Self)
        ensures
            r.written() == Seq::<char>::empty(),
            r.framebuffer() is Some <==> boot_info_framebuffer_usable(*boot_info, pixels@.len()),
            r.framebuffer() matches Some(c) ==> c.wf() && c.written() == Seq::<char>::empty() && c.geometry()
                == boot_info_framebuffer_geometry(*boot_info) && c.state() == fb_clear(
                c.geometry(),
                FbState { pixels: pixels@, cx: 1, cy: 1 },
            ),
    {
        BootConsole::new(FramebufferConsole::from_boot_info(boot_info, pixels))
    }
}

impl ConsoleSink for BootConsole {
    closed spec fn written(&self) -> Seq<char> {
        self.trace.written()
    }

    /// Writes to the trace console and draws into the framebuffer, if any.
    fn write_str(&mut self, s: &str)
        ensures
            match old(self).framebuffer() {
                None => final(self).framebuffer() is None,
                Some(c) => final(self).framebuffer() matches Some(d) && d.geometry() == c.geometry() && (c.wf()
                    ==> d.wf() && d.state() == fb_write_bytes(c.geometry(), c.state(), s.spec_bytes())),
            },
    {
        self.trace.write_str(s);
        match &mut self.framebuffer {
            Some(fb) => fb.write_str(s),
            None => {},
        }
    }
}


/// A logger that writes through a borrowed sink.
pub struct ConsoleLogger<'a, C: ConsoleSink> {
    pub sink: &'a mut C,
}

impl<'a, C: ConsoleSink> ConsoleLogger<'a, C> {
    /// A logger over `sink`.
    pub fn new(sink: &'a mut C) -> (r: Self)
        ensures
            *r.sink == *old(sink),
            *final(sink) == *final(r.sink),
    {
        ConsoleLogger { sink }
    }

    /// Logs `message` at `level` to the sink.
    pub fn log(&mut self, level: LogLevel, message: &str)
        ensures
            final(self).sink.written() == old(self).sink.written() + log_text(level, message@),
            *final(final(self).sink) == *final(old(self).sink),
    {
        self.sink.log(level, message);
    }
}

} // verus!
