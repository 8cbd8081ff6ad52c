//! The video subsystem and the resources that hang from it: windows, their
//! renderers and textures, and surfaces.
use std::marker::PhantomData;
use vstd::prelude::*;
use crate::ptr::{Destructor, DropPtr, Ptr};
use crate::ptr::private::Sealed;
use crate::{bounded, Error};

verus! {

/// Proof that the native video subsystem is initialized; it cannot outlive
/// the `Library` that it was had from, and takes no room.
pub struct Video<'a> {
    life: PhantomData<&'a ()>,
}

/// What a factory returns for the native result `created`: a null handle
/// is a failure with the diagnostic `diagnostic`; any other is owned by
/// the result.
pub open spec fn adopted<'b, A: DropPtr>(
    created: usize,
    diagnostic: Seq<u8>,
    r: Result<Ptr<'b, A>, Error>,
) -> bool {
    &&& r is Ok <==> created != 0
    &&& r is Ok ==> r->Ok_0.spec_handle() == created
    &&& r is Err ==> r->Err_0@ == bounded(diagnostic)
}

/// Owns the native result `created` of a factory, or reports its failure.
fn adopt<'b, A: DropPtr>(created: usize, diagnostic: &[u8]) -> (r: Result<Ptr<'b, A>, Error>)
    ensures
        adopted(created, diagnostic@, r),
{
    match Ptr::new(created) {
        Some(p) => Ok(p),
        None => Err(Error::from_bytes(diagnostic)),
    }
}

impl<'a> Video<'a> {
    pub(crate) fn new() -> (r: Video<'a>) {
        Video { life: PhantomData }
    }

    /// Owns the window that the native call created (`created`), which
    /// cannot outlive the library; a null handle is a failure with
    /// `diagnostic`.
    pub fn new_window(&self, created: usize, diagnostic: &[u8]) -> (r: Result<
        Ptr<'a, Window>,
        Error,
    >)
        ensures
            adopted(created, diagnostic@, r),
    {
        adopt(created, diagnostic)
    }

    /// Owns the surface that the native call created (`created`); a null
    /// handle is a failure with `diagnostic`.
    pub fn new_rgb_surface(&self, created: usize, diagnostic: &[u8]) -> (r: Result<
        Ptr<'a, Surface>,
        Error,
    >)
        ensures
            adopted(created, diagnostic@, r),
    {
        adopt(created, diagnostic)
    }

    /// Owns the surface that the native call created over the pixels of
    /// `data`, which stay borrowed for as long as the surface lives; a null
    /// handle is a failure with `diagnostic`.
    pub fn new_rgb_surface_from(
        &self,
        data: PixelsMut<'a>,
        created: usize,
        diagnostic: &[u8],
    ) -> (r: Result<Ptr<'a, Surface>, Error>)
        ensures
            adopted(created, diagnostic@, r),
    {
        adopt(created, diagnostic)
    }
}

/// A native window.
pub struct Window {
    handle: usize,
}

impl Window {
    #[verifier::type_invariant]
    closed spec fn inv(self) -> bool {
        self.handle != 0
    }
}

impl Sealed for Window {

}

impl DropPtr for Window {
    open spec fn spec_destructor() -> Destructor {
        Destructor::DestroyWindow
    }

    closed spec fn spec_handle(&self) -> usize {
        self.handle
    }

    fn from_handle(handle: usize) -> (r: Window) {
        Window { handle }
    }

    fn handle(&self) -> (r: usize) {
        proof {
            use_type_invariant(self);
        }
        self.handle
    }

    fn destructor() -> (r: Destructor) {
        Destructor::DestroyWindow
    }
}

/// A native renderer drawing into one window.
pub struct Renderer {
    handle: usize,
}

impl Renderer {
    #[verifier::type_invariant]
    closed spec fn inv(self) -> bool {
        self.handle != 0
    }
}

impl Sealed for Renderer {

}

impl DropPtr for Renderer {
    open spec fn spec_destructor() -> Destructor {
        Destructor::DestroyRenderer
    }

    closed spec fn spec_handle(&self) -> usize {
        self.handle
    }

    fn from_handle(handle: usize) -> (r: Renderer) {
        Renderer { handle }
    }

    fn handle(&self) -> (r: usize) {
        proof {
            use_type_invariant(self);
        }
        self.handle
    }

    fn destructor() -> (r: Destructor) {
        Destructor::DestroyRenderer
    }
}

/// A native texture, owned by the renderer that made it.
pub struct Texture {
    handle: usize,
}

impl Texture {
    #[verifier::type_invariant]
    closed spec fn inv(self) -> bool {
        self.handle != 0
    }
}

impl Sealed for Texture {

}

impl DropPtr for Texture {
    open spec fn spec_destructor() -> Destructor {
        Destructor::DestroyTexture
    }

    closed spec fn spec_handle(&self) -> usize {
        self.handle
    }

    fn from_handle(handle: usize) -> (r: Texture) {
        Texture { handle }
    }

    fn handle(&self) -> (r: usize) {
        proof {
            use_type_invariant(self);
        }
        self.handle
    }

    fn destructor() -> (r: Destructor) {
        Destructor::DestroyTexture
    }
}

/// A native pixel surface, owned by nobody but its `Ptr`.
pub struct Surface {
    handle: usize,
}

impl Surface {
    #[verifier::type_invariant]
    closed spec fn inv(self) -> bool {
        self.handle != 0
    }
}

impl Sealed for Surface {

}

impl DropPtr for Surface {
    open spec fn spec_destructor() -> Destructor {
        Destructor::FreeSurface
    }

    closed spec fn spec_handle(&self) -> usize {
        self.handle
    }

    fn from_handle(handle: usize) -> (r: Surface) {
        Surface { handle }
    }

    fn handle(&self) -> (r: usize) {
        proof {
            use_type_invariant(self);
        }
        self.handle
    }

    fn destructor() -> (r: Destructor) {
        Destructor::FreeSurface
    }
}

impl Window {
    /// The native index of the rendering driver asked for; none asks for
    /// the first that supports the flags.
    pub fn driver_index(ix: Option<i32>) -> (r: i32)
        ensures
            r == match ix {
                Some(i) => i,
                None => -1i32,
            },
    {
        match ix {
            Some(i) => i,
            None => -1,
        }
    }

    /// Owns the renderer that the native call created (`created`) for this
    /// window; it cannot outlive the borrow of the window. A null handle is
    /// a failure with `diagnostic`.
    pub fn new_renderer(&mut self, created: usize, diagnostic: &[u8]) -> (r: Result<
        Ptr<'_, Renderer>,
        Error,
    >)
        ensures
            adopted(created, diagnostic@, r),
            *final(self) == *old(self),
    {
        adopt(created, diagnostic)
    }
}

impl Renderer {
    /// Owns the texture that the native call created from `surf`; the
    /// surface is only read, and stays owned and usable by its own `Ptr`.
    /// A null handle is a failure with `diagnostic`.
    pub fn new_texture_from_surface(
        &self,
        surf: &Surface,
        created: usize,
        diagnostic: &[u8],
    ) -> (r: Result<Ptr<'_, Texture>, Error>)
        ensures
            adopted(created, diagnostic@, r),
    {
        adopt(created, diagnostic)
    }
}

/// Read access to the pixels of a surface: `size[1]` rows of `pitch`
/// bytes each, `depth` bits per pixel.
pub struct PixelsRef<'a> {
    bytes: &'a [u8],
    size: [i32; 2],
    depth: i32,
    pitch: i32,
}

/// The shape that a pixel view needs of its bytes: `h` rows of `pitch`
/// bytes fit in `len` bytes.
pub open spec fn fits(len: int, h: i32, pitch: i32) -> bool {
    0 <= pitch && 0 <= h && pitch * h <= len
}

impl<'a> PixelsRef<'a> {
    #[verifier::type_invariant]
    closed spec fn inv(self) -> bool {
        fits(self.bytes@.len() as int, self.size[1], self.pitch)
    }

    /// All the bytes of the view, row after row.
    pub closed spec fn spec_bytes(&self) -> Seq<u8> {
        self.bytes@.take(self.pitch * self.size[1])
    }

    pub closed spec fn spec_pitch(&self) -> i32 {
        self.pitch
    }

    pub closed spec fn spec_size(&self) -> Seq<i32> {
        self.size@
    }

    pub closed spec fn spec_depth(&self) -> i32 {
        self.depth
    }

    /// A view of `size[1]` rows of `pitch` bytes at the start of `bytes`.
    pub fn from_raw_parts(bytes: &'a [u8], size: [i32; 2], depth: i32, pitch: i32) -> (r: Self)
        requires
            fits(bytes@.len() as int, size[1], pitch),
        ensures
            r.spec_bytes() == bytes@.take(pitch * size[1]),
            r.spec_size() == size@,
            r.spec_depth() == depth,
            r.spec_pitch() == pitch,
    {
        PixelsRef { bytes, size, depth, pitch }
    }

    /// The rows of the view, in order, each `pitch` bytes long.
    pub fn rows(&mut self) -> (r: Vec<&'a [u8]>)
        requires
            old(self).spec_pitch() > 0,
        ensures
            *final(self) == *old(self),
            r@.len() == old(self).spec_size()[1],
            forall|i: int|
                0 <= i < r@.len() ==> #[trigger] r@[i]@ == old(self).spec_bytes().subrange(
                    i * old(self).spec_pitch(),
                    (i + 1) * old(self).spec_pitch(),
                ),
    {
        proof {
            use_type_invariant(&*self);
        }
        let p = self.pitch as usize;
        let h = self.size[1] as usize;
        let all = self.raw_bytes();
        let n = all.len();
        assert(all@.len() == 0 * p + (h - 0) * p) by (nonlinear_arith)
            requires
                all@.len() == p * h,
        ;
        let mut r: Vec<&'a [u8]> = Vec::new();
        let mut i: usize = 0;
        while i < h
            invariant
                p == self.spec_pitch(),
                h == self.spec_size()[1],
                all@ == self.spec_bytes(),
                all@.len() == i * p + (h - i) * p,
                n == all@.len(),
                i <= h,
                r@.len() == i,
                forall|k: int|
                    0 <= k < i ==> #[trigger] r@[k]@ == all@.subrange(k * p, (k + 1) * p),
            decreases h - i,
        {
            assert((i + 1) * p == i * p + p && (h - i) * p == p + (h - (i + 1)) * p)
                by (nonlinear_arith);
            assert(0 <= (h - (i + 1)) * p) by (nonlinear_arith)
                requires
                    i < h,
            ;
            r.push(&all[i * p..(i + 1) * p]);
            i += 1;
        }
        r
    }

    /// All the bytes of the view, row after row.
    pub fn raw_bytes(&self) -> (r: &'a [u8])
        ensures
            r@ == self.spec_bytes(),
            r@.len() == self.spec_pitch() * self.spec_size()[1],
    {
        proof {
            use_type_invariant(self);
        }
        let len = self.bytes.len();
        let p = self.pitch as usize;
        let h = self.size[1] as usize;
        assert(p * h <= len) by (nonlinear_arith)
            requires
                p == self.pitch,
                h == self.size[1],
                self.pitch * self.size[1] <= len,
        ;
        let n = p * h;
        &self.bytes[0..n]
    }
}

/// Write access to the pixels of a surface: `size[1]` rows of `pitch`
/// bytes each, `depth` bits per pixel.
pub struct PixelsMut<'a> {
    bytes: &'a mut [u8],
    size: [i32; 2],
    depth: i32,
    pitch: i32,
}

impl<'a> PixelsMut<'a> {
    /// The bytes hold every row of the view.
    pub closed spec fn wf(&self) -> bool {
        fits(self.bytes@.len() as int, self.size[1], self.pitch)
    }

    /// All the bytes of the view, row after row.
    pub closed spec fn spec_bytes(&self) -> Seq<u8> {
        self.bytes@.take(self.pitch * self.size[1])
    }

    pub closed spec fn spec_pitch(&self) -> i32 {
        self.pitch
    }

    pub closed spec fn spec_size(&self) -> Seq<i32> {
        self.size@
    }

    pub closed spec fn spec_depth(&self) -> i32 {
        self.depth
    }

    /// A view of `size[1]` rows of `pitch` bytes at the start of `bytes`.
    pub fn from_raw_parts(bytes: &'a mut [u8], size: [i32; 2], depth: i32, pitch: i32) -> (r: Self)
        requires
            fits(old(bytes)@.len() as int, size[1], pitch),
        ensures
            r.spec_bytes() == old(bytes)@.take(pitch * size[1]),
            r.spec_size() == size@,
            r.spec_depth() == depth,
            r.spec_pitch() == pitch,
            r.wf(),
    {
        PixelsMut { bytes, size, depth, pitch }
    }

    /// Width and height in pixels.
    pub fn size(&self) -> (r: [i32; 2])
        ensures
            r@ == self.spec_size(),
    {
        self.size
    }

    /// Bits per pixel.
    pub fn depth(&self) -> (r: i32)
        ensures
            r == self.spec_depth(),
    {
        self.depth
    }

    /// Bytes per row.
    pub fn pitch(&self) -> (r: i32)
        ensures
            r == self.spec_pitch(),
    {
        self.pitch
    }

    /// The rows of the view, in order, each `pitch` bytes long, for
    /// writing.
    pub fn rows(&mut self) -> (r: Vec<&mut [u8]>)
        requires
            old(self).wf(),
            old(self).spec_pitch() > 0,
        ensures
            r@.len() == old(self).spec_size()[1],
            forall|i: int|
                0 <= i < r@.len() ==> #[trigger] r@[i]@ == old(self).spec_bytes().subrange(
                    i * old(self).spec_pitch(),
                    (i + 1) * old(self).spec_pitch(),
                ),
    {
        let p = self.pitch as usize;
        let h = self.size[1] as usize;
        let ghost all = self.spec_bytes();
        proof {
            assert(all.len() == self.pitch * self.size[1]);
            assert(h * p == self.pitch * self.size[1]) by (nonlinear_arith)
                requires
                    p == self.pitch,
                    h == self.size[1],
            ;
        }
        let mut rest = self.raw_bytes();
        let mut r: Vec<&mut [u8]> = Vec::new();
        let mut i: usize = 0;
        while i < h
            invariant
                all.len() == h * p,
                p > 0,
                i <= h,
                r@.len() == i,
                rest@ == all.subrange(i * p, h * p),
                forall|k: int| 0 <= k < i ==> #[trigger] r@[k]@ == all.subrange(k * p, (k + 1) * p),
            decreases h - i,
        {
            assert(i * p + p <= h * p && (i + 1) * p == i * p + p) by (nonlinear_arith)
                requires
                    i < h,
            ;
            let (row, tail) = rest.split_at_mut(p);
            r.push(row);
            rest = tail;
            i += 1;
        }
        r
    }

    /// All the bytes of the view, row after row, for writing.
    pub fn raw_bytes(&mut self) -> (r: &mut [u8])
        requires
            old(self).wf(),
        ensures
            r@ == old(self).spec_bytes(),
    {
        let len = self.bytes.len();
        let p = self.pitch as usize;
        let h = self.size[1] as usize;
        assert(p * h <= len) by (nonlinear_arith)
            requires
                p == self.pitch,
                h == self.size[1],
                self.pitch * self.size[1] <= len,
        ;
        let n = p * h;
        let (head, _tail) = self.bytes.split_at_mut(n);
        head
    }
}

pub const WINDOW_FULLSCREEN: u32 = 0x1;
pub const WINDOW_OPENGL: u32 = 0x2;
pub const WINDOW_SHOWN: u32 = 0x4;
pub const WINDOW_HIDDEN: u32 = 0x8;
pub const WINDOW_BORDERLESS: u32 = 0x10;
pub const WINDOW_RESIZABLE: u32 = 0x20;
pub const WINDOW_MINIMIZED: u32 = 0x40;
pub const WINDOW_MAXIMIZED: u32 = 0x80;
pub const WINDOW_INPUT_GRABBED: u32 = 0x100;
pub const WINDOW_INPUT_FOCUS: u32 = 0x200;
pub const WINDOW_MOUSE_FOCUS: u32 = 0x400;
pub const WINDOW_FOREIGN: u32 = 0x800;
pub const WINDOW_FULLSCREEN_DESKTOP: u32 = 0x1001;
pub const WINDOW_ALLOW_HIGHDPI: u32 = 0x2000;
pub const WINDOW_MOUSE_CAPTURE: u32 = 0x4000;
pub const WINDOW_ALWAYS_ON_TOP: u32 = 0x8000;
pub const WINDOW_SKIP_TASKBAR: u32 = 0x10000;
pub const WINDOW_UTILITY: u32 = 0x20000;
pub const WINDOW_TOOLTIP: u32 = 0x40000;
pub const WINDOW_POPUP_MENU: u32 = 0x80000;
pub const WINDOW_VULKAN: u32 = 0x10000000;

/// Options of window creation. Each bit enables one behaviour at creation; sets combine by union.
#[derive(Clone, Copy, Debug, PartialEq, Eq, Structural, Hash)]
pub struct WindowFlags {
    bits: u32,
}

impl WindowFlags {
    pub closed spec fn spec_bits(&self) -> u32 {
        self.bits
    }

    /// The set with exactly the bits of `bits`.
    pub fn from_bits(bits: u32) -> (r: WindowFlags)
        ensures
            r.spec_bits() == bits,
    {
        WindowFlags { bits }
    }

    /// The empty set.
    pub fn empty() -> (r: WindowFlags)
        ensures
            r.spec_bits() == 0,
    {
        WindowFlags { bits: 0 }
    }

    /// The raw bits, as the native call takes them.
    pub fn bits(&self) -> (r: u32)
        ensures
            r == self.spec_bits(),
    {
        self.bits
    }

    /// Whether every bit of `other` is in `self`.
    pub fn contains(&self, other: WindowFlags) -> (r: bool)
        ensures
            r == (self.spec_bits() & other.spec_bits() == other.spec_bits()),
    {
        self.bits & other.bits == other.bits
    }

    /// The bits in either set.
    pub fn union(&self, other: WindowFlags) -> (r: WindowFlags)
        ensures
            r.spec_bits() == self.spec_bits() | other.spec_bits(),
    {
        WindowFlags { bits: self.bits | other.bits }
    }
}

pub const RENDERER_SOFTWARE: u32 = 0x1;
pub const RENDERER_ACCELERATED: u32 = 0x2;
pub const RENDERER_PRESENTVSYNC: u32 = 0x4;
pub const RENDERER_TARGETTEXTURE: u32 = 0x8;

/// Options of renderer creation. Each bit enables one behaviour at creation; sets combine by union.
#[derive(Clone, Copy, Debug, PartialEq, Eq, Structural, Hash)]
pub struct RendererFlags {
    bits: u32,
}

impl RendererFlags {
    pub closed spec fn spec_bits(&self) -> u32 {
        self.bits
    }

    /// The set with exactly the bits of `bits`.
    pub fn from_bits(bits: u32) -> (r: RendererFlags)
        ensures
            r.spec_bits() == bits,
    {
        RendererFlags { bits }
    }

    /// The empty set.
    pub fn empty() -> (r: RendererFlags)
        ensures
            r.spec_bits() == 0,
    {
        RendererFlags { bits: 0 }
    }

    /// The raw bits, as the native call takes them.
    pub fn bits(&self) -> (r: u32)
        ensures
            r == self.spec_bits(),
    {
        self.bits
    }

    /// Whether every bit of `other` is in `self`.
    pub fn contains(&self, other: RendererFlags) -> (r: bool)
        ensures
            r == (self.spec_bits() & other.spec_bits() == other.spec_bits()),
    {
        self.bits & other.bits == other.bits
    }

    /// The bits in either set.
    pub fn union(&self, other: RendererFlags) -> (r: RendererFlags)
        ensures
            r.spec_bits() == self.spec_bits() | other.spec_bits(),
    {
        RendererFlags { bits: self.bits | other.bits }
    }
}

/// A rectangle: the position of its corner and its size.
#[derive(Clone, Copy, Debug, PartialEq, Eq, Hash)]
pub struct Rect {
    pub pos: [i32; 2],
    pub size: [i32; 2],
}

/// A drawing colour, one byte per channel.
#[derive(Clone, Copy, Debug, PartialEq, Eq, Structural, Hash)]
pub struct Color {
    pub r: u8,
    pub g: u8,
    pub b: u8,
    pub a: u8,
}

pub const WINDOWPOS_CENTERED: i32 = 0x2FFF0000;
pub const WINDOWPOS_UNDEFINED: i32 = 0x1FFF0000;

/// Where a window is placed on one axis.
#[derive(Clone, Copy, Debug, PartialEq, Eq, Structural, Hash)]
pub enum WindowPos {
    Centered,
    Undefined,
    At(i32),
}

impl WindowPos {
    pub open spec fn spec_to_int(self) -> i32 {
        match self {
            WindowPos::Centered => WINDOWPOS_CENTERED,
            WindowPos::Undefined => WINDOWPOS_UNDEFINED,
            WindowPos::At(n) => n,
        }
    }

    /// The native coordinate of this placement.
    pub fn to_int(self) -> (r: i32)
        ensures
            r == self.spec_to_int(),
    {
        match self {
            WindowPos::Centered => WINDOWPOS_CENTERED,
            WindowPos::Undefined => WINDOWPOS_UNDEFINED,
            WindowPos::At(n) => n,
        }
    }
}

} // verus!
