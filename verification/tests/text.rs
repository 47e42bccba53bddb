use texture_upload::process::{push_text, ProcessManager, CHUNK_SIZE};
use texture_upload::text_render::{
    glyph_origin, key_code_to_char, Key, TextRender, BASELINE, GLYPH_ADVANCE,
};

#[test]
fn letters_type_themselves() {
    assert_eq!(key_code_to_char(Key::A), 'a');
    assert_eq!(key_code_to_char(Key::B), 'b');
    assert_eq!(key_code_to_char(Key::C), 'c');
    assert_eq!(key_code_to_char(Key::D), 'd');
    assert_eq!(key_code_to_char(Key::E), 'e');
    assert_eq!(key_code_to_char(Key::F), 'f');
    assert_eq!(key_code_to_char(Key::G), 'g');
    assert_eq!(key_code_to_char(Key::H), 'h');
    assert_eq!(key_code_to_char(Key::I), 'i');
    assert_eq!(key_code_to_char(Key::J), 'j');
    assert_eq!(key_code_to_char(Key::K), 'k');
    assert_eq!(key_code_to_char(Key::L), 'l');
    assert_eq!(key_code_to_char(Key::M), 'm');
    assert_eq!(key_code_to_char(Key::N), 'n');
    assert_eq!(key_code_to_char(Key::O), 'o');
    assert_eq!(key_code_to_char(Key::Q), 'q');
    assert_eq!(key_code_to_char(Key::R), 'r');
    assert_eq!(key_code_to_char(Key::S), 's');
    assert_eq!(key_code_to_char(Key::U), 'u');
    assert_eq!(key_code_to_char(Key::V), 'v');
    assert_eq!(key_code_to_char(Key::X), 'x');
    assert_eq!(key_code_to_char(Key::Y), 'y');
    assert_eq!(key_code_to_char(Key::Z), 'z');
}

#[test]
fn odd_keys() {
    assert_eq!(key_code_to_char(Key::P), 'q');
    assert_eq!(key_code_to_char(Key::T), 'q');
    assert_eq!(key_code_to_char(Key::W), '*');
    assert_eq!(key_code_to_char(Key::Other), '*');
}

#[test]
fn new_text_view_is_empty() {
    let t = TextRender::new(640, 480);
    assert!(t.buffer.is_empty());
    assert_eq!((t.canvas_width, t.canvas_height), (640, 480));
    assert!(t.process.outgoing.is_empty());
    assert!(t.process.incoming.is_empty());
    assert_eq!(t.glyph_count(), 0);
    assert_eq!(t.glyph(0), None);
}

#[test]
fn key_press_is_shown_and_sent() {
    let mut t = TextRender::new(10, 10);
    t.update(Some(Key::H));
    t.update(None);
    t.update(Some(Key::I));
    assert_eq!(t.buffer, vec!['h', 'i']);
    assert_eq!(t.process.outgoing, vec!['h', 'i']);
    assert!(t.process.incoming.is_empty());
    assert_eq!(t.glyph_count(), 2);
    assert_eq!(t.glyph(1), Some('i'));
    assert_eq!(t.glyph(2), None);
}

#[test]
fn refresh_shows_what_the_process_printed() {
    let mut t = TextRender::new(10, 10);
    t.update(Some(Key::A));
    t.process.receive("PS ");
    t.process.receive("C:\\>");
    let resized = t.refresh(10, 10);
    assert!(!resized);
    assert_eq!(t.buffer, vec!['a', 'P', 'S', ' ', 'C', ':', '\\', '>']);
    assert!(t.process.incoming.is_empty());
    assert_eq!(t.process.outgoing, vec!['a']);
    let again = t.refresh(10, 10);
    assert!(!again);
    assert_eq!(t.buffer.len(), 8);
}

#[test]
fn refresh_follows_the_image_size() {
    let mut t = TextRender::new(10, 10);
    assert!(t.refresh(20, 10));
    assert_eq!((t.canvas_width, t.canvas_height), (20, 10));
    assert!(t.refresh(20, 11));
    assert_eq!((t.canvas_width, t.canvas_height), (20, 11));
    assert!(!t.refresh(20, 11));
}

#[test]
fn glyphs_advance_by_twelve_pixels() {
    assert_eq!(GLYPH_ADVANCE, 12);
    assert_eq!(BASELINE, 32);
    assert_eq!(glyph_origin(0), Some((0, 32)));
    assert_eq!(glyph_origin(1), Some((12, 32)));
    assert_eq!(glyph_origin(10), Some((120, 32)));
    assert_eq!(glyph_origin(usize::MAX), None);
}

#[test]
fn push_text_appends_characters() {
    let mut queue = vec!['x'];
    push_text(&mut queue, "a\u{f1}\u{2192}");
    assert_eq!(queue, vec!['x', 'a', '\u{f1}', '\u{2192}']);
    push_text(&mut queue, "");
    assert_eq!(queue.len(), 4);
}

#[test]
fn process_queues_keep_order() {
    let mut p = ProcessManager::new();
    p.write("ls");
    p.write("\n");
    p.receive("ab");
    p.receive("cd");
    assert_eq!(p.read(), vec!['a', 'b', 'c', 'd']);
    assert_eq!(p.read(), Vec::<char>::new());
    assert_eq!(p.take_outgoing(), vec!['l', 's', '\n']);
    assert_eq!(p.take_outgoing(), Vec::<char>::new());
    p.receive("e");
    assert_eq!(p.read(), vec!['e']);
}

#[test]
fn reader_takes_ten_bytes_at_a_time() {
    assert_eq!(CHUNK_SIZE, 10);
}
