use std::sync::Arc;

use vstd::prelude::*;
use winit::error::OsError;
use winit::event_loop::EventLoop;
use winit::window::Window;

verus! {

/// Whether `s` holds a NUL character. A window title must not: platform window titles are
/// C strings.
pub fn contains_nul(s: &str) -> (r: bool)
    ensures
        r == s@.contains('\0'),
{
    broadcast use vstd::string::axiom_spec_iter;

    let mut found = false;
    for c in it: s.chars()
        invariant
            it.seq() == s@,
            found == s@.take(it.index() as int).contains('\0'),
    {
        let ghost i = it.index() as int;
        let ghost before = s@.take(i);
        proof {
            assert(c == s@[i]);
            assert(s@.take(i + 1) =~= before.push(c));
        }
        if c == '\0' {
            found = true;
        }
        proof {
            let after = before.push(c);
            if c == '\0' {
                assert(after[i] == '\0');
            } else if after.contains('\0') {
                let j = choose|j: int| 0 <= j < after.len() && after[j] == '\0';
                assert(before[j] == '\0');
            }
            if before.contains('\0') {
                let j = choose|j: int| 0 <= j < before.len() && before[j] == '\0';
                assert(after[j] == '\0');
            }
        }
    }
    proof {
        assert(s@.take(s@.len() as int) =~= s@);
    }
    found
}

#[verifier::external_type_specification]
#[verifier::external_body]
#[verifier::reject_recursive_types(T)]
pub struct ExEventLoop<T: 'static>(EventLoop<T>);

#[verifier::external_type_specification]
#[verifier::external_body]
pub struct ExWindow(Window);

#[verifier::external_type_specification]
#[verifier::external_body]
pub struct ExOsError(OsError);

/// Why the window could not be opened.
#[derive(Clone, Copy, Debug, PartialEq, Eq, Structural)]
pub enum WindowError {
    /// The platform refused the window.
    Window,
    /// The title holds a NUL character, which no platform title can carry.
    NulInTitle,
}

/// Relies on winit's `EventLoop::create_window` with the default attributes titled `title`.
/// On X11 winit panics on a title with a NUL character, so such a title is left out.
#[verifier::external_body]
#[allow(deprecated)]
fn open_window(event_loop: &EventLoop<()>, title: &str) -> (r: Result<Window, OsError>)
    requires
        !title@.contains('\0'),
{
    event_loop.create_window(Window::default_attributes().with_title(title))
}

/// The platform event loop together with the one window it drives.
pub struct EventLoopWrapper {
    pub event_loop: EventLoop<()>,
    pub window: Arc<Window>,
}

impl EventLoopWrapper {
    /// Opens a window titled `title` on `event_loop`, which the caller opened (winit allows
    /// that on the main thread only). A title with a NUL character is refused before the
    /// platform is asked.
    pub fn new(title: &str, event_loop: EventLoop<()>) -> (r: Result<Self, WindowError>)
        ensures
            title@.contains('\0') <==> r == Err::<Self, WindowError>(WindowError::NulInTitle),
    {
        if contains_nul(title) {
            return Err(WindowError::NulInTitle);
        }
        match open_window(&event_loop, title) {
            Ok(w) => Ok(EventLoopWrapper { event_loop, window: Arc::new(w) }),
            Err(_) => Err(WindowError::Window),
        }
    }
}

} // verus!
