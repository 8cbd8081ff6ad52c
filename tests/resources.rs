use sdl::lock::Lock;
use sdl::ptr::{Destructor, DropPtr};
use sdl::video::{
    Color, PixelsMut, PixelsRef, RendererFlags, Surface, Window, WindowFlags, WindowPos,
    RENDERER_ACCELERATED, RENDERER_PRESENTVSYNC, WINDOWPOS_CENTERED, WINDOWPOS_UNDEFINED,
    WINDOW_FULLSCREEN, WINDOW_FULLSCREEN_DESKTOP, WINDOW_RESIZABLE,
};
use sdl::{Error, Library, Ptr, IN_USE_MESSAGE, MAX_ERR_LENGTH};

#[test]
fn second_library_is_refused_while_first_lives() {
    let lock = Lock::new();
    let first = Library::new(&lock).ok().unwrap().finish(0, b"").ok().unwrap();
    match Library::new(&lock) {
        Err(e) => {
            assert_eq!(e.message(), IN_USE_MESSAGE.as_bytes());
            assert!(e == Error::in_use());
        }
        Ok(_) => panic!("a second library was admitted"),
    }
    drop(first);
    assert!(Library::new(&lock).is_ok());
}

#[test]
fn lock_admits_one_guard_at_a_time() {
    let lock = Lock::new();
    let g = lock.lock();
    assert!(g.is_some());
    assert!(lock.lock().is_none());
    drop(g);
    assert!(lock.lock().is_some());
}

#[test]
fn failed_initialization_frees_the_lock() {
    let lock = Lock::new();
    let start = Library::new(&lock).ok().unwrap();
    match start.finish(-1, b"no display") {
        Err(e) => assert_eq!(e.message(), b"no display"),
        Ok(_) => panic!("a failed initialization gave a library"),
    }
    assert!(Library::new(&lock).is_ok());
}

#[test]
fn from_attempt_without_guard_is_in_use() {
    match Library::from_attempt(None) {
        Err(e) => assert_eq!(e.message(), b"SDL already in use"),
        Ok(_) => panic!("admitted without a guard"),
    }
}

#[test]
fn video_status_is_checked() {
    let lock = Lock::new();
    let lib = Library::new(&lock).ok().unwrap().finish(0, b"").ok().unwrap();
    assert!(lib.video(0, b"").is_ok());
    match lib.video(-1, b"video failed") {
        Err(e) => assert_eq!(e.message(), b"video failed"),
        Ok(_) => panic!("a negative status gave a video subsystem"),
    }
}

#[test]
fn error_is_cut_to_its_bound() {
    let long = vec![b'x'; 3000];
    let e = Error::from_bytes(&long);
    assert_eq!(e.message().len(), MAX_ERR_LENGTH - 1);
    let exact = vec![b'y'; MAX_ERR_LENGTH - 1];
    assert_eq!(Error::from_bytes(&exact).message(), &exact[..]);
    let edge = vec![b'z'; MAX_ERR_LENGTH];
    assert_eq!(Error::from_bytes(&edge).message().len(), MAX_ERR_LENGTH - 1);
    assert_eq!(Error::from_bytes(b"").message(), b"");
    assert_eq!(Error::from_str("bad").message(), b"bad");
    assert!(Error::from_str("a") != Error::from_str("b"));
    assert!(Error::from_str("a") == Error::from_bytes(b"a"));
}

#[test]
fn status_check() {
    assert!(Error::check(0, b"x").is_ok());
    assert!(Error::check(5, b"x").is_ok());
    match Error::check(-1, b"render failed") {
        Err(e) => assert_eq!(e.message(), b"render failed"),
        Ok(()) => panic!("a negative status passed"),
    }
}

#[test]
fn null_handle_gives_no_pointer() {
    assert!(Ptr::<Window>::new(0).is_none());
    let p = Ptr::<Window>::new(0x1000).unwrap();
    assert_eq!(p.handle(), 0x1000);
    assert_eq!(p.get().handle(), 0x1000);
    assert_eq!(p.release(), (Destructor::DestroyWindow, 0x1000));
}

#[test]
fn each_kind_has_its_destructor() {
    let lock = Lock::new();
    let lib = Library::new(&lock).ok().unwrap().finish(0, b"").ok().unwrap();
    let video = lib.video(0, b"").ok().unwrap();
    let mut win = video.new_window(0x10, b"").ok().unwrap();
    let surf = video.new_rgb_surface(0x20, b"").ok().unwrap();
    {
        let ren = win.get_mut().new_renderer(0x30, b"").ok().unwrap();
        let tex = ren.get().new_texture_from_surface(surf.get(), 0x40, b"").ok().unwrap();
        assert_eq!(tex.release(), (Destructor::DestroyTexture, 0x40));
        assert_eq!(ren.release(), (Destructor::DestroyRenderer, 0x30));
    }
    assert_eq!(surf.release(), (Destructor::FreeSurface, 0x20));
    assert_eq!(win.release(), (Destructor::DestroyWindow, 0x10));
}

#[test]
fn failed_factories_report_the_diagnostic() {
    let lock = Lock::new();
    let lib = Library::new(&lock).ok().unwrap().finish(0, b"").ok().unwrap();
    let video = lib.video(0, b"").ok().unwrap();
    match video.new_window(0, b"no window") {
        Err(e) => assert_eq!(e.message(), b"no window"),
        Ok(_) => panic!("a null window was owned"),
    }
    match video.new_rgb_surface(0, b"no surface") {
        Err(e) => assert_eq!(e.message(), b"no surface"),
        Ok(_) => panic!("a null surface was owned"),
    }
    let mut win = video.new_window(0x10, b"").ok().unwrap();
    match win.get_mut().new_renderer(0, b"no renderer") {
        Err(e) => assert_eq!(e.message(), b"no renderer"),
        Ok(_) => panic!("a null renderer was owned"),
    }
}

#[test]
fn surface_stays_usable_after_texture_is_made() {
    let lock = Lock::new();
    let lib = Library::new(&lock).ok().unwrap().finish(0, b"").ok().unwrap();
    let video = lib.video(0, b"").ok().unwrap();
    let mut buf: Vec<u8> = (0u8..24).collect();
    let before = buf.clone();
    let data = PixelsMut::from_raw_parts(&mut buf, [2, 3], 32, 8);
    assert_eq!(data.size(), [2, 3]);
    assert_eq!(data.pitch(), 8);
    assert_eq!(data.depth(), 32);
    let surf = video.new_rgb_surface_from(data, 0x50, b"").ok().unwrap();
    let mut win = video.new_window(0x10, b"").ok().unwrap();
    let ren = win.get_mut().new_renderer(0x30, b"").ok().unwrap();
    let tex = ren.get().new_texture_from_surface(surf.get(), 0x40, b"").ok().unwrap();
    assert_eq!(surf.handle(), 0x50);
    assert_eq!(surf.get().handle(), 0x50);
    assert_eq!(tex.handle(), 0x40);
    drop(tex);
    drop(ren);
    drop(surf);
    assert_eq!(buf, before);
    let mut view = PixelsRef::from_raw_parts(&buf, [2, 3], 32, 8);
    assert_eq!(view.raw_bytes(), &before[..]);
}

#[test]
fn pixel_rows_follow_the_pitch() {
    let buf: Vec<u8> = (0u8..30).collect();
    let mut view = PixelsRef::from_raw_parts(&buf, [2, 3], 32, 8);
    assert_eq!(view.raw_bytes().len(), 24);
    let rows = view.rows();
    assert_eq!(rows.len(), 3);
    assert_eq!(rows[0], &buf[0..8]);
    assert_eq!(rows[1], &buf[8..16]);
    assert_eq!(rows[2], &buf[16..24]);
}

#[test]
fn pixel_rows_can_be_written() {
    let mut buf = vec![0u8; 12];
    {
        let mut view = PixelsMut::from_raw_parts(&mut buf, [1, 3], 32, 4);
        let mut rows = view.rows();
        assert_eq!(rows.len(), 3);
        rows[1][0] = 9;
        rows[2][3] = 7;
    }
    assert_eq!(buf, vec![0, 0, 0, 0, 9, 0, 0, 0, 0, 0, 0, 7]);
    let mut view = PixelsMut::from_raw_parts(&mut buf, [1, 2], 32, 4);
    view.raw_bytes()[0] = 1;
    assert_eq!(buf[0], 1);
}

#[test]
fn empty_pixel_view() {
    let buf: Vec<u8> = Vec::new();
    let mut view = PixelsRef::from_raw_parts(&buf, [0, 0], 32, 4);
    assert!(view.raw_bytes().is_empty());
    assert!(view.rows().is_empty());
}

#[test]
fn window_positions() {
    assert_eq!(WindowPos::Centered.to_int(), WINDOWPOS_CENTERED);
    assert_eq!(WindowPos::Undefined.to_int(), WINDOWPOS_UNDEFINED);
    assert_eq!(WindowPos::At(-40).to_int(), -40);
    assert_eq!(WINDOWPOS_CENTERED, 0x2FFF0000);
}

#[test]
fn flag_sets_combine_by_union() {
    let f = WindowFlags::from_bits(WINDOW_RESIZABLE).union(WindowFlags::from_bits(WINDOW_FULLSCREEN));
    assert_eq!(f.bits(), 0x21);
    assert!(f.contains(WindowFlags::from_bits(WINDOW_RESIZABLE)));
    assert!(!f.contains(WindowFlags::from_bits(WINDOW_FULLSCREEN_DESKTOP)));
    assert!(f.contains(WindowFlags::empty()));
    let r = RendererFlags::from_bits(RENDERER_ACCELERATED).union(RendererFlags::from_bits(RENDERER_PRESENTVSYNC));
    assert_eq!(r.bits(), 6);
    assert_eq!(RendererFlags::empty().bits(), 0);
}

#[test]
fn driver_index_defaults_to_first() {
    assert_eq!(Window::driver_index(None), -1);
    assert_eq!(Window::driver_index(Some(2)), 2);
}

#[test]
fn kinds_and_colors() {
    assert_eq!(<Surface as DropPtr>::destructor(), Destructor::FreeSurface);
    let c = Color { r: 1, g: 2, b: 3, a: 255 };
    assert_eq!(c, Color { r: 1, g: 2, b: 3, a: 255 });
}
