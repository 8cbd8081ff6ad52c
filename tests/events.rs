use sdl::event::{
    Event, Iter, BUTTON_LEFT, RECORD_LEN, TAG_BUTTON_DOWN, TAG_BUTTON_UP, TAG_KEY_DOWN,
    TAG_KEY_UP, TAG_QUIT, TAG_TEXT_INPUT, TAG_WINDOW,
};
use sdl::key::{Mod, MOD_LCTRL, MOD_LSHIFT};
use sdl::lock::Lock;
use sdl::window;
use sdl::Library;
use std::time::{Duration, Instant};

fn record(tag: u32) -> Vec<u8> {
    let mut r = vec![0u8; RECORD_LEN];
    r[0..4].copy_from_slice(&tag.to_le_bytes());
    r
}

fn put_u32(r: &mut Vec<u8>, at: usize, v: u32) {
    r[at..at + 4].copy_from_slice(&v.to_le_bytes());
}

fn put_i32(r: &mut Vec<u8>, at: usize, v: i32) {
    r[at..at + 4].copy_from_slice(&v.to_le_bytes());
}

fn window_record(wid: u32, sub: u8, d1: i32, d2: i32) -> Vec<u8> {
    let mut r = record(TAG_WINDOW);
    put_u32(&mut r, 8, wid);
    r[12] = sub;
    put_i32(&mut r, 16, d1);
    put_i32(&mut r, 20, d2);
    r
}

#[test]
fn quit_tag_decodes_to_quit() {
    assert_eq!(Event::decode(&record(TAG_QUIT)), Event::Quit);
}

#[test]
fn unknown_tag_decodes_to_unrecognized() {
    assert_eq!(Event::decode(&record(0xFFFF)), Event::Unrecognized(0xFFFF));
    assert_eq!(Event::decode(&record(0)), Event::Unrecognized(0));
    assert_eq!(Event::decode(&record(u32::MAX)), Event::Unrecognized(u32::MAX));
}

#[test]
fn every_small_tag_decodes_without_failing() {
    for tag in 0u32..0x1000 {
        let e = Event::decode(&record(tag));
        let known = [
            TAG_QUIT,
            TAG_WINDOW,
            TAG_KEY_DOWN,
            TAG_KEY_UP,
            TAG_TEXT_INPUT,
            TAG_BUTTON_DOWN,
            TAG_BUTTON_UP,
        ];
        if !known.contains(&tag) {
            assert_eq!(e, Event::Unrecognized(tag));
        }
    }
}

#[test]
fn window_resize_carries_its_size() {
    let e = Event::decode(&window_record(7, window::SUB_RESIZED, 640, 480));
    assert_eq!(e, Event::Window(7, window::Event::Resized([640, 480])));
    let e = Event::decode(&window_record(7, window::SUB_MOVED, -5, 12));
    assert_eq!(e, Event::Window(7, window::Event::Moved([-5, 12])));
}

#[test]
fn window_focus_gained_and_lost_differ() {
    let gained = Event::decode(&window_record(3, window::SUB_FOCUS_GAINED, 0, 0));
    let lost = Event::decode(&window_record(3, window::SUB_FOCUS_LOST, 0, 0));
    assert_eq!(gained, Event::Window(3, window::Event::KeyboardFocus(true)));
    assert_eq!(lost, Event::Window(3, window::Event::KeyboardFocus(false)));
    let enter = Event::decode(&window_record(3, window::SUB_ENTER, 0, 0));
    assert_eq!(enter, Event::Window(3, window::Event::PointerFocus(true)));
}

#[test]
fn unknown_window_sub_tag_decodes_to_unrecognized() {
    let e = Event::decode(&window_record(9, 200, 1, 2));
    assert_eq!(e, Event::Window(9, window::Event::Unrecognized(200)));
    let e = Event::decode(&window_record(9, 0, 1, 2));
    assert_eq!(e, Event::Window(9, window::Event::Unrecognized(0)));
}

#[test]
fn key_down_and_up() {
    let mut r = record(TAG_KEY_DOWN);
    put_u32(&mut r, 8, 2);
    r[13] = 1;
    put_u32(&mut r, 16, 4);
    put_i32(&mut r, 20, 97);
    r[24] = 0x41;
    r[25] = 0x80;
    match Event::decode(&r) {
        Event::Keyboard { wid, state, repeat, sym } => {
            assert_eq!(wid, 2);
            assert!(state);
            assert!(repeat);
            assert_eq!(sym.scan, 4);
            assert_eq!(sym.sym, 97);
            assert_eq!(sym.mod_.bits(), MOD_LSHIFT | MOD_LCTRL);
            assert_eq!(sym.mod_, Mod::from_bits_truncate(0x8041));
            assert_eq!(sym.x, None);
        }
        e => panic!("not a keyboard event: {:?}", e),
    }
    r[0..4].copy_from_slice(&TAG_KEY_UP.to_le_bytes());
    r[13] = 0;
    match Event::decode(&r) {
        Event::Keyboard { state, repeat, .. } => {
            assert!(!state);
            assert!(!repeat);
        }
        e => panic!("not a keyboard event: {:?}", e),
    }
}

#[test]
fn pointer_button() {
    let mut r = record(TAG_BUTTON_UP);
    put_u32(&mut r, 8, 5);
    r[16] = BUTTON_LEFT;
    put_i32(&mut r, 20, 100);
    put_i32(&mut r, 24, -3);
    match Event::decode(&r) {
        Event::Pointer { wid, state, pos, button } => {
            assert_eq!(wid, 5);
            assert!(!state);
            assert_eq!(pos, [100, -3]);
            assert_eq!(button.raw(), BUTTON_LEFT);
        }
        e => panic!("not a pointer event: {:?}", e),
    }
}

#[test]
fn text_input_copies_its_bytes() {
    let mut r = record(TAG_TEXT_INPUT);
    put_u32(&mut r, 8, 1);
    r[12..15].copy_from_slice(b"abc");
    r[43] = 0xff;
    match Event::decode(&r) {
        Event::Text { wid, text } => {
            assert_eq!(wid, 1);
            assert_eq!(&text[0..3], b"abc");
            assert_eq!(text[3], 0);
            assert_eq!(text[31], 0xff);
        }
        e => panic!("not a text event: {:?}", e),
    }
}

#[test]
fn stamp_is_the_second_word() {
    let mut r = record(TAG_QUIT);
    put_u32(&mut r, 4, 123456);
    assert_eq!(Event::stamp(&r), 123456);
}

#[test]
fn empty_queue_pull_returns_nothing_at_once() {
    let lock = Lock::new();
    let lib = Library::new(&lock).ok().unwrap().finish(0, b"").ok().unwrap();
    let video = lib.video(0, b"").ok().unwrap();
    let mut it: Iter = video.events(false);
    assert!(!it.waits());
    let empty = vec![0u8; RECORD_LEN];
    let start = Instant::now();
    assert!(it.next_from(0, &empty).is_none());
    assert!(start.elapsed() < Duration::from_millis(1));
}

#[test]
fn pull_with_a_record_yields_event_and_stamp() {
    let lock = Lock::new();
    let lib = Library::new(&lock).ok().unwrap().finish(0, b"").ok().unwrap();
    let video = lib.video(0, b"").ok().unwrap();
    let mut it = video.events(true);
    assert!(it.waits());
    let mut r = record(TAG_QUIT);
    put_u32(&mut r, 4, 42);
    assert_eq!(it.next_from(1, &r), Some((Event::Quit, 42)));
    assert_eq!(it.next_from(-1, &r), None);
}
