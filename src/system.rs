//! What the operating system reports about the foreground window, its
//! process and its keyboard layout, turned into checked values; and the
//! request that switches a window's layout.
use vstd::prelude::*;
use vstd::utf8::*;
use crate::locale::{LayoutId, locale_chars};

verus! {

/// Why the foreground application could not be resolved.
#[derive(Clone, Copy, Debug, PartialEq, Eq, Structural)]
pub enum QueryError {
    /// No window has focus, or it went away while being resolved.
    NoForegroundWindow,
    /// The owning process cannot be opened for querying.
    ProcessAccessDenied,
    /// The process's executable path could not be read whole.
    PathUnavailable,
}

/// Why a keyboard layout could not be read.
#[derive(Clone, Copy, Debug, PartialEq, Eq, Structural)]
pub enum LayoutQueryError {
    /// The system gave a null layout handle.
    InvalidLayoutHandle,
    /// More layouts are installed than the enumeration's capacity.
    EnumerationOverflow,
}

/// Why a layout switch could not be requested.
#[derive(Clone, Copy, Debug, PartialEq, Eq, Structural)]
pub enum SwitchError {
    /// The system could not load the layout.
    LayoutLoadFailed,
    /// The change request could not be posted to the window.
    MessageDeliveryFailed,
}

/// A top-level window, by the system's handle value.
#[derive(Clone, Copy, Debug, PartialEq, Eq, Structural)]
pub struct WindowHandle {
    pub raw: usize,
}

/// The resolved foreground application: the top-level owner of the focused
/// window, the window's input thread, and the executable path of its process.
pub struct Foreground {
    pub window: WindowHandle,
    pub thread: u32,
    pub path: String,
}

/// How many layout handles the enumeration reserves room for.
pub const LAYOUT_CAPACITY: usize = 100;

/// The window a switch request goes to: the top-level owner of the focused
/// window. A null handle at either step means that no window has focus.
pub open spec fn window_of(foreground: usize, root_owner: usize) -> Result<WindowHandle, QueryError> {
    if foreground == 0 || root_owner == 0 {
        Err(QueryError::NoForegroundWindow)
    } else {
        Ok(WindowHandle { raw: root_owner })
    }
}

/// The input thread of the focused window; a null window or a zero thread
/// id means that no window has focus.
pub open spec fn thread_of(foreground: usize, thread: u32) -> Result<u32, QueryError> {
    if foreground == 0 || thread == 0 {
        Err(QueryError::NoForegroundWindow)
    } else {
        Ok(thread)
    }
}

/// The executable path read into a buffer: the first `len` bytes, as UTF-8.
pub open spec fn path_of(opened: bool, buffer: Seq<u8>, len: nat) -> Result<Seq<char>, QueryError> {
    if !opened {
        Err(QueryError::ProcessAccessDenied)
    } else if len == 0 || len >= buffer.len() || !valid_utf8(buffer.take(len as int)) {
        Err(QueryError::PathUnavailable)
    } else {
        Ok(decode_utf8(buffer.take(len as int)))
    }
}

/// The layout named by a layout handle: its low 16 bits.
pub open spec fn layout_of_handle(handle: usize) -> Result<LayoutId, LayoutQueryError> {
    if handle == 0 {
        Err(LayoutQueryError::InvalidLayoutHandle)
    } else {
        Ok(LayoutId { code: (handle % 0x1_0000) as u16 })
    }
}

/// Checks the focused window and finds its top-level owner.
pub fn get_window(foreground: usize, root_owner: usize) -> (r: Result<WindowHandle, QueryError>)
    ensures
        r == window_of(foreground, root_owner),
{
    if foreground == 0 || root_owner == 0 {
        Err(QueryError::NoForegroundWindow)
    } else {
        Ok(WindowHandle { raw: root_owner })
    }
}

/// Checks the focused window and gives its input thread.
pub fn get_foreground_process_thread_id(foreground: usize, thread: u32) -> (r: Result<u32, QueryError>)
    ensures
        r == thread_of(foreground, thread),
{
    if foreground == 0 || thread == 0 {
        Err(QueryError::NoForegroundWindow)
    } else {
        Ok(thread)
    }
}

/// Relies on String::from_utf8: succeeds exactly on valid UTF-8, and the
/// string then holds the characters that the bytes encode.
#[verifier::external_body]
fn utf8_to_string(bytes: Vec<u8>) -> (r: Option<String>)
    ensures
        match r {
            Some(s) => valid_utf8(bytes@) && s@ == decode_utf8(bytes@),
            None => !valid_utf8(bytes@),
        },
{
    String::from_utf8(bytes).ok()
}

/// The executable path of the foreground process, from whether the process
/// could be opened and the buffer that the path was read into (`len` bytes of
/// it filled). A path that is empty, fills the whole buffer (so may be cut
/// short) or is not UTF-8 is unavailable.
pub fn active_window_app_path(opened: bool, buffer: &Vec<u8>, len: usize) -> (r: Result<String, QueryError>)
    ensures
        match r {
            Ok(s) => path_of(opened, buffer@, len as nat) == Ok::<Seq<char>, QueryError>(s@),
            Err(e) => path_of(opened, buffer@, len as nat) == Err::<Seq<char>, QueryError>(e),
        },
{
    if !opened {
        return Err(QueryError::ProcessAccessDenied);
    }
    if len == 0 || len >= buffer.len() {
        return Err(QueryError::PathUnavailable);
    }
    let mut bytes: Vec<u8> = Vec::new();
    let mut i: usize = 0;
    while i < len
        invariant
            i <= len < buffer@.len(),
            bytes@ =~= buffer@.take(i as int),
        decreases len - i,
    {
        bytes.push(buffer[i]);
        i = i + 1;
    }
    match utf8_to_string(bytes) {
        Some(s) => Ok(s),
        None => Err(QueryError::PathUnavailable),
    }
}

/// The foreground application from the pieces the system reported: the
/// focused window, its top-level owner, its input thread, and the result of
/// reading its process's path. The first failure wins, in that order.
pub fn resolve_foreground(
    foreground: usize,
    root_owner: usize,
    thread: u32,
    path: Result<String, QueryError>,
) -> (r: Result<Foreground, QueryError>)
    ensures
        match (window_of(foreground, root_owner), thread_of(foreground, thread), path) {
            (Err(e), _, _) => r == Err::<Foreground, QueryError>(e),
            (Ok(_), Err(e), _) => r == Err::<Foreground, QueryError>(e),
            (Ok(_), Ok(_), Err(e)) => r == Err::<Foreground, QueryError>(e),
            (Ok(w), Ok(t), Ok(p)) => r matches Ok(fg) && fg.window == w && fg.thread == t
                && fg.path@ == p@,
        },
{
    let window = match get_window(foreground, root_owner) {
        Ok(w) => w,
        Err(e) => return Err(e),
    };
    let tid = match get_foreground_process_thread_id(foreground, thread) {
        Ok(t) => t,
        Err(e) => return Err(e),
    };
    match path {
        Ok(p) => Ok(Foreground { window, thread: tid, path: p }),
        Err(e) => Err(e),
    }
}

/// The layout named by the handle the system gives for an input thread.
pub fn current_langid(handle: usize) -> (r: Result<LayoutId, LayoutQueryError>)
    ensures
        r == layout_of_handle(handle),
{
    if handle == 0 {
        Err(LayoutQueryError::InvalidLayoutHandle)
    } else {
        Ok(LayoutId { code: (handle % 0x1_0000) as u16 })
    }
}

/// The installed layouts, from the number the system reports and the handles
/// it wrote into a buffer of `capacity` entries. More installed, or more
/// handles, than fit is an overflow; otherwise a null handle among them is an
/// error. A success never holds more than `capacity` layouts.
pub fn get_current_langs(installed: usize, capacity: usize, handles: &Vec<usize>) -> (r: Result<
    Vec<LayoutId>,
    LayoutQueryError,
>)
    ensures
        (installed > capacity || handles@.len() > capacity) ==> r == Err::<
            Vec<LayoutId>,
            LayoutQueryError,
        >(LayoutQueryError::EnumerationOverflow),
        installed <= capacity && handles@.len() <= capacity && (exists|i: int|
            0 <= i < handles@.len() && handles@[i] == 0) ==> r == Err::<
            Vec<LayoutId>,
            LayoutQueryError,
        >(LayoutQueryError::InvalidLayoutHandle),
        installed <= capacity && handles@.len() <= capacity && (forall|i: int|
            0 <= i < handles@.len() ==> handles@[i] != 0) ==> (r matches Ok(v) && v@.len()
            == handles@.len() && v@.len() <= capacity && forall|i: int|
            0 <= i < handles@.len() ==> layout_of_handle(handles@[i]) == Ok::<
                LayoutId,
                LayoutQueryError,
            >(#[trigger] v@[i])),
{
    if installed > capacity || handles.len() > capacity {
        return Err(LayoutQueryError::EnumerationOverflow);
    }
    let mut layouts: Vec<LayoutId> = Vec::new();
    let mut i: usize = 0;
    while i < handles.len()
        invariant
            installed <= capacity,
            handles@.len() <= capacity,
            i <= handles@.len(),
            layouts@.len() == i,
            forall|k: int| 0 <= k < i ==> handles@[k] != 0,
            forall|k: int|
                0 <= k < i ==> layout_of_handle(handles@[k]) == Ok::<LayoutId, LayoutQueryError>(
                    #[trigger] layouts@[k],
                ),
        decreases handles.len() - i,
    {
        match current_langid(handles[i]) {
            Ok(l) => layouts.push(l),
            Err(e) => {
                assert(forall|k: int| 0 <= k < handles@.len() ==> handles@[k] != 0 ==> k != i);
                return Err(e);
            },
        }
        i = i + 1;
    }
    Ok(layouts)
}

/// A request to switch a window's layout: the layout, and its locale string
/// for loading it.
pub struct SwitchRequest {
    pub window: WindowHandle,
    pub layout: LayoutId,
    pub locale: String,
}

/// The request that switches `window` to `layout`.
pub fn change_lang(window: WindowHandle, layout: LayoutId) -> (r: SwitchRequest)
    ensures
        r.window == window,
        r.layout == layout,
        r.locale@ == locale_chars(layout.code as nat),
{
    SwitchRequest { window, layout, locale: layout.locale_string() }
}

/// Checks the handle the system gave for loading a layout; null means that it
/// could not load it.
pub fn check_loaded_layout(handle: usize) -> (r: Result<usize, SwitchError>)
    ensures
        handle == 0 ==> r == Err::<usize, SwitchError>(SwitchError::LayoutLoadFailed),
        handle != 0 ==> r == Ok::<usize, SwitchError>(handle),
{
    if handle == 0 {
        Err(SwitchError::LayoutLoadFailed)
    } else {
        Ok(handle)
    }
}

/// The outcome of posting the change request to the window.
pub fn check_delivery(posted: bool) -> (r: Result<(), SwitchError>)
    ensures
        posted ==> r is Ok,
        !posted ==> r == Err::<(), SwitchError>(SwitchError::MessageDeliveryFailed),
{
    if posted {
        Ok(())
    } else {
        Err(SwitchError::MessageDeliveryFailed)
    }
}

} // verus!
