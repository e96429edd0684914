use novaos::bootinfo::FramebufferFormat;
use novaos::console::{ConsoleLogger, ConsoleSink, FramebufferConsole, LogLevel, NullConsole, TextConsole};

fn nonzero_region(pixels: &[u32], stride: usize, origin_x: usize, origin_y: usize, width: usize, height: usize) -> usize {
    let mut count = 0;
    for y in origin_y..(origin_y + height) {
        for x in origin_x..(origin_x + width) {
            if pixels[(y * stride) + x] != 0 {
                count += 1;
            }
        }
    }
    count
}

#[test]
fn framebuffer_console_rejects_unknown_format() {
    let pixels = vec![0u32; 64];
    assert!(FramebufferConsole::new(pixels, 8, 8, 8, FramebufferFormat::Unknown).is_none());
}

#[test]
fn framebuffer_console_rejects_short_buffer() {
    assert!(FramebufferConsole::new(vec![0u32; 63], 8, 8, 8, FramebufferFormat::Rgbx8888).is_none());
    assert!(FramebufferConsole::new(vec![0u32; 64], 9, 8, 8, FramebufferFormat::Rgbx8888).is_none());
}

#[test]
fn framebuffer_console_writes_pixels_on_multiple_lines() {
    let pixels = vec![0u32; 32 * 16];
    let mut console = FramebufferConsole::new(pixels, 32, 16, 32, FramebufferFormat::Rgbx8888).expect("framebuffer console");

    console.write_str("A\nB");

    assert!(nonzero_region(console.pixels(), 32, 0, 0, 8, 8) > 0);
    assert!(nonzero_region(console.pixels(), 32, 0, 8, 8, 8) > 0);
}

#[test]
fn framebuffer_console_draws_exact_glyph_pixels() {
    let mut console = FramebufferConsole::new(vec![7u32; 16 * 9], 16, 9, 16, FramebufferFormat::Bgrx8888).expect("console");
    assert!(console.pixels().iter().all(|p| *p == 0));
    console.write_str("-");
    let fg = 0x00FF_FFFF;
    for x in 1..6 {
        assert_eq!(console.pixels()[4 * 16 + x], fg);
    }
    assert_eq!(console.pixels()[3 * 16 + 1], 0);
}

#[test]
fn framebuffer_console_normalizes_lowercase_to_uppercase() {
    let mut lower = FramebufferConsole::new(vec![0u32; 32 * 8], 32, 8, 32, FramebufferFormat::Rgbx8888).expect("lower framebuffer console");
    let mut upper = FramebufferConsole::new(vec![0u32; 32 * 8], 32, 8, 32, FramebufferFormat::Rgbx8888).expect("upper framebuffer console");

    lower.write_str("a");
    upper.write_str("A");

    assert_eq!(lower.pixels(), upper.pixels());
}

#[test]
fn text_console_records_lines_and_logs() {
    let mut console = TextConsole::new();
    console.write_line("hello");
    console.log(LogLevel::Warn, "careful");
    assert_eq!(console.as_str(), "hello\n[warn] careful\n");
    assert_eq!(LogLevel::Error.as_str(), "error");
    let mut null = NullConsole::new();
    null.write_str("ignored");
}

#[test]
fn console_logger_writes_through_its_sink() {
    let mut console = TextConsole::new();
    {
        let mut logger = ConsoleLogger::new(&mut console);
        logger.log(LogLevel::Warn, "boot info marker is not set");
        logger.log(LogLevel::Info, "ready");
    }
    assert_eq!(console.as_str(), "[warn] boot info marker is not set\n[info] ready\n");
}
