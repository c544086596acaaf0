//! Trusted access to the platform clipboard.
//!
//! Every function here wraps one clipboard operation of an outside crate.
//! What the clipboard holds is shared, asynchronous state that other
//! programs change at will, so no contract can pin the values that come
//! back; the verified logic around these wrappers is written to hold for
//! every outcome. A failure to read existing contents is reported as empty
//! contents rather than an error, since a restricted clipboard should not
//! block writing a secret; a failure to acquire a context is fatal.

use vstd::prelude::*;
use vstd::utf8::valid_utf8;
use copypasta_ext::prelude::ClipboardProvider;
use crate::errors::DeliveryError;

verus! {

/// Clipboard contents, as read through the X11 context that keeps set
/// contents alive in a fork.
///
/// Relies on `copypasta_ext::x11_fork::ClipboardContext`: `new` connects to
/// the display server, `get_contents` reads the current clipboard text.
#[verifier::external_body]
pub fn get() -> (r: Result<String, DeliveryError>)
    ensures
        r matches Err(e) ==> e == DeliveryError::ClipboardUnavailable,
{
    let mut ctx = match copypasta_ext::x11_fork::ClipboardContext::new() {
        Ok(c) => c,
        Err(_) => return Err(DeliveryError::ClipboardUnavailable),
    };
    Ok(ctx.get_contents().unwrap_or_default())
}

/// Set clipboard contents through the X11 context that keeps set contents
/// alive in a fork.
///
/// Relies on `copypasta_ext::x11_fork::ClipboardContext::set_contents`,
/// which hands the text to a forked selection owner, and on
/// `core::str::from_utf8`, which succeeds exactly on valid UTF-8.
#[verifier::external_body]
pub fn set(data: &[u8]) -> (r: Result<(), DeliveryError>)
    ensures
        r is Ok ==> valid_utf8(data@),
        r matches Err(e) ==> (e == DeliveryError::EncodingError <==> !valid_utf8(data@)),
        r matches Err(e) ==> e == DeliveryError::EncodingError || e
            == DeliveryError::ClipboardUnavailable,
{
    let text = match core::str::from_utf8(data) {
        Ok(t) => t,
        Err(_) => return Err(DeliveryError::EncodingError),
    };
    let mut ctx = match copypasta_ext::x11_fork::ClipboardContext::new() {
        Ok(c) => c,
        Err(_) => return Err(DeliveryError::ClipboardUnavailable),
    };
    match ctx.set_contents(text.to_owned()) {
        Ok(()) => Ok(()),
        Err(_) => Err(DeliveryError::ClipboardUnavailable),
    }
}

/// Relies on `copypasta_ext::wayland_bin::WaylandBinClipboardContext`:
/// reads the clipboard through the `wl-paste` helper binary.
#[verifier::external_body]
pub fn wayland_get() -> (r: Result<String, DeliveryError>)
    ensures
        r matches Err(e) ==> e == DeliveryError::ClipboardUnavailable,
{
    let mut ctx = match copypasta_ext::wayland_bin::WaylandBinClipboardContext::new() {
        Ok(c) => c,
        Err(_) => return Err(DeliveryError::ClipboardUnavailable),
    };
    Ok(ctx.get_contents().unwrap_or_default())
}

/// Relies on `copypasta_ext::wayland_bin::WaylandBinClipboardContext`:
/// writes the clipboard through the `wl-copy` helper binary.
#[verifier::external_body]
pub fn wayland_set(text: &str) -> (r: Result<(), DeliveryError>)
    ensures
        r matches Err(e) ==> e == DeliveryError::ClipboardUnavailable,
{
    let mut ctx = match copypasta_ext::wayland_bin::WaylandBinClipboardContext::new() {
        Ok(c) => c,
        Err(_) => return Err(DeliveryError::ClipboardUnavailable),
    };
    match ctx.set_contents(text.to_owned()) {
        Ok(()) => Ok(()),
        Err(_) => Err(DeliveryError::ClipboardUnavailable),
    }
}

/// Relies on `copypasta_ext::x11_bin::X11BinClipboardContext`: reads the
/// clipboard through the `xclip` or `xsel` helper binary.
#[verifier::external_body]
pub fn x11bin_get() -> (r: Result<String, DeliveryError>)
    ensures
        r matches Err(e) ==> e == DeliveryError::ClipboardUnavailable,
{
    let mut ctx = match copypasta_ext::x11_bin::X11BinClipboardContext::new() {
        Ok(c) => c,
        Err(_) => return Err(DeliveryError::ClipboardUnavailable),
    };
    Ok(ctx.get_contents().unwrap_or_default())
}

/// Relies on `copypasta_ext::x11_bin::X11BinClipboardContext`: writes the
/// clipboard through the `xclip` or `xsel` helper binary.
#[verifier::external_body]
pub fn x11bin_set(text: &str) -> (r: Result<(), DeliveryError>)
    ensures
        r matches Err(e) ==> e == DeliveryError::ClipboardUnavailable,
{
    let mut ctx = match copypasta_ext::x11_bin::X11BinClipboardContext::new() {
        Ok(c) => c,
        Err(_) => return Err(DeliveryError::ClipboardUnavailable),
    };
    match ctx.set_contents(text.to_owned()) {
        Ok(()) => Ok(()),
        Err(_) => Err(DeliveryError::ClipboardUnavailable),
    }
}

/// Relies on `copypasta::ClipboardContext::set_contents`: the in-process
/// native clipboard, used only by the blocking fallback.
#[verifier::external_body]
pub fn native_set(text: &str) -> (r: Result<(), DeliveryError>)
    ensures
        r matches Err(e) ==> e == DeliveryError::ClipboardUnavailable,
{
    let mut ctx = match copypasta_ext::copypasta::ClipboardContext::new() {
        Ok(c) => c,
        Err(_) => return Err(DeliveryError::ClipboardUnavailable),
    };
    match ctx.set_contents(text.to_owned()) {
        Ok(()) => Ok(()),
        Err(_) => Err(DeliveryError::ClipboardUnavailable),
    }
}

/// Relies on `copypasta_ext::display::DisplayServer::select`: best-effort
/// runtime detection of the display server from the environment; the
/// result may be wrong and nothing here depends on it being right.
#[verifier::external_body]
pub fn is_wayland() -> (r: bool)
{
    copypasta_ext::display::DisplayServer::select() == copypasta_ext::display::DisplayServer::Wayland
}

/// An X11 clipboard connection of the `x11_clipboard` crate, used by the
/// persistent-ownership setter worker.
#[verifier::external_type_specification]
#[verifier::external_body]
pub struct ExX11Clipboard(x11_clipboard::Clipboard);

/// Relies on `x11_clipboard::Clipboard::new`: connects to the X server.
#[verifier::external_body]
pub fn x11_open() -> (r: Result<x11_clipboard::Clipboard, DeliveryError>)
    ensures
        r matches Err(e) ==> e == DeliveryError::ClipboardUnavailable,
{
    match x11_clipboard::Clipboard::new() {
        Ok(c) => Ok(c),
        Err(_) => Err(DeliveryError::ClipboardUnavailable),
    }
}

/// Relies on `x11_clipboard::Clipboard::store`: takes ownership of the
/// clipboard selection with the given bytes as its UTF-8 contents.
#[verifier::external_body]
pub fn x11_store(clip: &x11_clipboard::Clipboard, data: &[u8]) -> (r: Result<(), DeliveryError>)
    ensures
        r matches Err(e) ==> e == DeliveryError::ClipboardUnavailable,
{
    match clip.store(clip.setter.atoms.clipboard, clip.setter.atoms.utf8_string, data) {
        Ok(()) => Ok(()),
        Err(_) => Err(DeliveryError::ClipboardUnavailable),
    }
}

/// Relies on `x11_clipboard::Clipboard::load_wait`: blocks until another
/// process takes over the clipboard selection, then returns what that new
/// owner provides.
#[verifier::external_body]
pub fn x11_load_wait(clip: &x11_clipboard::Clipboard) -> (r: Result<Vec<u8>, DeliveryError>)
    ensures
        r matches Err(e) ==> e == DeliveryError::ClipboardUnavailable,
{
    match clip.load_wait(
        clip.getter.atoms.clipboard,
        clip.getter.atoms.utf8_string,
        clip.getter.atoms.property,
    ) {
        Ok(v) => Ok(v),
        Err(_) => Err(DeliveryError::ClipboardUnavailable),
    }
}

} // verus!
