//! The window interface.
//!
//! A capability contract implemented by all window backends, and the
//! null backend: a failsafe that stores its state and does nothing
//! observable.

use vstd::prelude::*;
use vstd::string::StringExecFns;
use crate::vec2::Vec2;

verus! {

/// This is the window interface trait.
///
/// It is implemented by all window backends.  A backend exposes three
/// abstract properties — position, size and title — and each getter and
/// setter is specified against exactly those.
pub trait WindowInterface: Sized {
    /// The position this backend currently reports.
    spec fn spec_position(&self) -> Vec2;

    /// The size this backend currently reports.
    spec fn spec_size(&self) -> Vec2;

    /// The title this backend currently reports.
    spec fn spec_title(&self) -> Seq<char>;

    /// Whether this backend's initialization cannot fail.
    spec fn init_infallible(&self) -> bool;

    /// Gets the current position of the window.
    fn get_position(&self) -> (r: Vec2)
        ensures
            r == self.spec_position(),
    ;

    /// Gets the current size of the window.
    fn get_size(&self) -> (r: Vec2)
        ensures
            r == self.spec_size(),
    ;

    /// Gets the window title.
    fn get_title(&self) -> (r: String)
        ensures
            r@ == self.spec_title(),
    ;

    /// Sets the position of the window, leaving size and title alone.
    fn set_position(&mut self, position: Vec2)
        ensures
            final(self).spec_position() == position,
            final(self).spec_size() == old(self).spec_size(),
            final(self).spec_title() == old(self).spec_title(),
            final(self).init_infallible() == old(self).init_infallible(),
    ;

    /// Sets the size of the window, leaving position and title alone.
    fn set_size(&mut self, size: Vec2)
        ensures
            final(self).spec_size() == size,
            final(self).spec_position() == old(self).spec_position(),
            final(self).spec_title() == old(self).spec_title(),
            final(self).init_infallible() == old(self).init_infallible(),
    ;

    /// Sets the window title, leaving position and size alone.
    fn set_title(&mut self, title: String)
        ensures
            final(self).spec_title() == title@,
            final(self).spec_position() == old(self).spec_position(),
            final(self).spec_size() == old(self).spec_size(),
            final(self).init_infallible() == old(self).init_infallible(),
    ;

    /// Initializes the window.  Returns an error string on failure;
    /// a backend that declares itself infallible must succeed.
    fn initialize(&self) -> (r: Result<(), &'static str>)
        ensures
            self.init_infallible() ==> r is Ok,
    ;

    /// Releases the window, and all of its resources.  Idempotent; no
    /// observable result.
    fn release(&self);
}

/// This is the null window interface.
///
/// It is used as a failsafe if other backends fail.  It can also be
/// considered a reference implementation of the trait.
pub struct WindowInterfaceNull {
    position: Vec2,
    size: Vec2,
    title: String,
}

impl WindowInterfaceNull {
    /// Creates a null window: zero position and size, empty title.
    pub fn new() -> (r: WindowInterfaceNull)
        ensures
            r.spec_position() == Vec2::zero_spec(),
            r.spec_size() == Vec2::zero_spec(),
            r.spec_title() == Seq::<char>::empty(),
    {
        WindowInterfaceNull { position: Vec2::new(), size: Vec2::new(), title: String::new() }
    }
}

impl WindowInterface for WindowInterfaceNull {
    closed spec fn spec_position(&self) -> Vec2 {
        self.position
    }

    closed spec fn spec_size(&self) -> Vec2 {
        self.size
    }

    closed spec fn spec_title(&self) -> Seq<char> {
        self.title@
    }

    open spec fn init_infallible(&self) -> bool {
        true
    }

    fn get_position(&self) -> (r: Vec2) {
        self.position
    }

    fn get_size(&self) -> (r: Vec2) {
        self.size
    }

    fn get_title(&self) -> (r: String) {
        self.title.clone()
    }

    fn set_position(&mut self, position: Vec2) {
        self.position = position;
    }

    fn set_size(&mut self, size: Vec2) {
        self.size = size;
    }

    fn set_title(&mut self, title: String) {
        self.title = title;
    }

    fn initialize(&self) -> (r: Result<(), &'static str>) {
        Result::Ok(())
    }

    fn release(&self) {
    }
}

} // verus!
