//! A safety layer over a handle-based native multimedia library: owning
//! handles, the window / renderer / texture / surface hierarchy, a
//! process-wide admission guard and a total decoder of native event records.
//!
//! The library makes no native call itself. Each operation that needs one
//! takes what the native call returned (a handle, a status, the last
//! diagnostic) and decides what it means; the caller makes the call with
//! the arguments that the library computes.
use vstd::prelude::*;
use vstd::string::StringSliceAdditionalSpecFns;
use crate::lock::{Guard, Lock};

pub mod event;
pub mod key;
pub mod lock;
pub mod ptr;
pub mod video;

pub mod window;

pub use ptr::Ptr;
pub use video::Video;


verus! {

/// The longest diagnostic, terminator included, that an `Error` keeps.
pub const MAX_ERR_LENGTH: usize = 1024;

/// The diagnostic of the error that refuses a second live `Library`.
pub const IN_USE_MESSAGE: &'static str = "SDL already in use";

/// `s` cut to the bound that an `Error` keeps.
pub open spec fn bounded(s: Seq<u8>) -> Seq<u8> {
    if s.len() < MAX_ERR_LENGTH {
        s
    } else {
        s.take(MAX_ERR_LENGTH - 1)
    }
}

/// A failure of the native layer, with its diagnostic message cut to
/// `MAX_ERR_LENGTH - 1` bytes.
#[derive(Clone, Debug)]
pub struct Error {
    msg: Vec<u8>,
}

impl View for Error {
    type V = Seq<u8>;

    closed spec fn view(&self) -> Seq<u8> {
        self.msg@
    }
}

impl PartialEq for Error {
    fn eq(&self, other: &Error) -> (r: bool)
        ensures
            r == (self@ == other@),
    {
        let a = self.msg.as_slice();
        let b = other.msg.as_slice();
        if a.len() != b.len() {
            return false;
        }
        let mut i: usize = 0;
        while i < a.len()
            invariant
                a@ == self@,
                b@ == other@,
                a@.len() == b@.len(),
                i <= a@.len(),
                forall|j: int| 0 <= j < i ==> a@[j] == b@[j],
            decreases a@.len() - i,
        {
            if a[i] != b[i] {
                return false;
            }
            i += 1;
        }
        assert(a@ =~= b@);
        true
    }
}

impl vstd::std_specs::cmp::PartialEqSpecImpl for Error {
    open spec fn obeys_eq_spec() -> bool {
        true
    }

    open spec fn eq_spec(&self, other: &Error) -> bool {
        self@ == other@
    }
}

impl Eq for Error {

}

impl Error {
    /// The error whose diagnostic is `s`, cut to the bound.
    pub fn from_bytes(s: &[u8]) -> (r: Error)
        ensures
            r@ == bounded(s@),
    {
        let n: usize = if s.len() < MAX_ERR_LENGTH {
            s.len()
        } else {
            MAX_ERR_LENGTH - 1
        };
        let mut msg: Vec<u8> = Vec::new();
        let mut i: usize = 0;
        while i < n
            invariant
                n <= s@.len(),
                n == bounded(s@).len(),
                i <= n,
                msg@ =~= s@.take(i as int),
            decreases n - i,
        {
            msg.push(s[i]);
            i += 1;
        }
        assert(msg@ =~= bounded(s@));
        Error { msg }
    }

    /// The error whose diagnostic is the bytes of `s`, cut to the bound.
    pub fn from_str(s: &str) -> (r: Error)
        ensures
            r@ == bounded(s.spec_bytes()),
    {
        Error::from_bytes(s.as_bytes())
    }

    /// The error that refuses a second live `Library`; it comes from no
    /// native call.
    pub fn in_use() -> (r: Error)
        ensures
            r@ == bounded(IN_USE_MESSAGE.spec_bytes()),
    {
        Error::from_str(IN_USE_MESSAGE)
    }

    /// The diagnostic message.
    pub fn message(&self) -> (r: &[u8])
        ensures
            r@ == self@,
    {
        self.msg.as_slice()
    }

    /// Reads a native status: a negative one is a failure whose diagnostic
    /// is `diagnostic`, any other is success.
    pub fn check(status: i32, diagnostic: &[u8]) -> (r: Result<(), Error>)
        ensures
            r is Ok <==> status >= 0,
            r is Err ==> r->Err_0@ == bounded(diagnostic@),
    {
        if status < 0 {
            Err(Error::from_bytes(diagnostic))
        } else {
            Ok(())
        }
    }
}

/// The native library, initialized and held by this process alone. Its
/// guard frees the process-wide lock when it is dropped.
pub struct Library<'a> {
    guard: Guard<'a>,
}

/// A library whose process-wide lock is held and whose native
/// initialization is under way.
pub struct Startup<'a> {
    guard: Guard<'a>,
}

impl<'a> Library<'a> {
    /// The lock that this library holds.
    pub closed spec fn held(&self) -> Lock {
        self.guard.held()
    }

    /// Starts a library: takes `lock`, which admits one live library at a
    /// time. Where another holds it, fails with the in-use error, and the
    /// native library must not be touched. On success the caller
    /// initializes the native library and hands its status to
    /// `Startup::finish`.
    pub fn new(lock: &'a Lock) -> (r: Result<Startup<'a>, Error>)
        ensures
            r is Ok ==> r->Ok_0.held() == *lock,
            r is Err ==> r->Err_0@ == bounded(IN_USE_MESSAGE.spec_bytes()),
    {
        Library::from_attempt(lock.lock())
    }

    /// The decision of `new` once the lock was tried: without a guard, the
    /// in-use error; with one, a start that holds it.
    pub fn from_attempt(acquired: Option<Guard<'a>>) -> (r: Result<Startup<'a>, Error>)
        ensures
            r is Ok <==> acquired is Some,
            r is Ok ==> r->Ok_0.held() == acquired->Some_0.held(),
            r is Err ==> r->Err_0@ == bounded(IN_USE_MESSAGE.spec_bytes()),
    {
        match acquired {
            Some(guard) => Ok(Startup { guard }),
            None => Err(Error::in_use()),
        }
    }

    /// Reads the status of the native video initialization: the video
    /// subsystem is available, borrowing this library, unless the status is
    /// negative.
    pub fn video(&self, status: i32, diagnostic: &[u8]) -> (r: Result<Video<'_>, Error>)
        ensures
            r is Ok <==> status >= 0,
            r is Err ==> r->Err_0@ == bounded(diagnostic@),
    {
        if status < 0 {
            Err(Error::from_bytes(diagnostic))
        } else {
            Ok(Video::new())
        }
    }
}

impl<'a> Startup<'a> {
    /// The lock that this start holds.
    pub closed spec fn held(&self) -> Lock {
        self.guard.held()
    }

    /// Reads the status of the native initialization. On success the
    /// library is live and keeps the lock; on failure the lock is freed and
    /// the diagnostic returned.
    pub fn finish(self, status: i32, diagnostic: &[u8]) -> (r: Result<Library<'a>, Error>)
        ensures
            r is Ok <==> status >= 0,
            r is Ok ==> r->Ok_0.held() == self.held(),
            r is Err ==> r->Err_0@ == bounded(diagnostic@),
    {
        if status < 0 {
            Err(Error::from_bytes(diagnostic))
        } else {
            Ok(Library { guard: self.guard })
        }
    }
}

} // verus!
