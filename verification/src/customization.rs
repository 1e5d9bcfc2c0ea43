//! The attachment of a customized frame to one window.
//!
//! The embedding program installs and removes the interception of the
//! window's messages and tells the attachment how that went. The attachment
//! keeps the frame's configuration and says, whenever the frame is to be
//! applied again, what the window manager and the compositor are to be
//! given.

use crate::options::{Margins, WindowFrame};
use crate::util::{PlatformMargins, Rect};
use vstd::prelude::*;

verus! {

/// The platform refused to install or to remove the interception of a
/// window's messages; `code` is the result code it gave.
#[derive(Debug, Clone, Copy, PartialEq, Eq, Structural)]
pub struct AttachError {
    pub code: i32,
}

/// What is handed to the platform to apply a frame: the position and size
/// for which the window manager is told that the frame changed, and the
/// insets by which the compositor extends the frame into the client area.
#[derive(Debug, Clone, Copy, PartialEq, Eq, Structural)]
pub struct FrameUpdate {
    pub x: i32,
    pub y: i32,
    pub width: i32,
    pub height: i32,
    pub inset: PlatformMargins,
}

impl FrameUpdate {
    /// `rect` is the rectangle of a window at this update's position and
    /// of its size.
    pub open spec fn covers(self, rect: Rect) -> bool {
        &&& rect.left == self.x
        &&& rect.top == self.y
        &&& rect.right == self.x + self.width
        &&& rect.bottom == self.y + self.height
    }
}

/// The update for a window that has the rectangle `rect`: the window keeps
/// its position and size, and the compositor gets the margins as they are.
pub open spec fn frame_update_spec(rect: Rect, extend_frame: Margins) -> FrameUpdate
    recommends
        rect.has_size(),
{
    FrameUpdate {
        x: rect.left,
        y: rect.top,
        width: rect.width() as i32,
        height: rect.height() as i32,
        inset: extend_frame.to_win32_spec(),
    }
}

/// Computes what is handed to the platform to apply `options` to a window
/// that has the rectangle `rect`.
pub fn frame_update(rect: Rect, options: &WindowFrame) -> (update: FrameUpdate)
    requires
        rect.has_size(),
    ensures
        update == frame_update_spec(rect, options.extend_frame),
        update.covers(rect),
{
    FrameUpdate {
        x: rect.left,
        y: rect.top,
        width: rect.right - rect.left,
        height: rect.bottom - rect.top,
        inset: options.extend_frame.to_win32(),
    }
}

/// Applying a frame leaves the window where it is, so applying it again
/// with the same margins hands the platform the same update: a window that
/// has taken the position and size of an update has the rectangle that the
/// update was computed from, and the update computed from that rectangle is
/// the same.
pub proof fn lemma_frame_update_is_idempotent(rect: Rect, after: Rect, extend_frame: Margins)
    requires
        rect.has_size(),
        frame_update_spec(rect, extend_frame).covers(after),
    ensures
        after == rect,
        frame_update_spec(after, extend_frame) == frame_update_spec(rect, extend_frame),
{
}

/// A customized frame and the window it belongs to.
pub struct WindowCustomization {
    handle: isize,
    subclass_id: usize,
    options: WindowFrame,
    is_set: bool,
}

/// What an attachment holds.
pub struct WindowCustomizationView {
    /// The window's handle.
    pub handle: isize,
    /// The identifier under which the interception is installed.
    pub subclass_id: usize,
    /// The frame's configuration.
    pub options: WindowFrame,
    /// Whether the interception is installed.
    pub is_set: bool,
}

impl View for WindowCustomization {
    type V = WindowCustomizationView;

    closed spec fn view(&self) -> WindowCustomizationView {
        WindowCustomizationView {
            handle: self.handle,
            subclass_id: self.subclass_id,
            options: self.options,
            is_set: self.is_set,
        }
    }
}

/// Exclusive access to the frame of an attachment, for a batch of changes
/// that is applied to the window once, when the access ends.
pub struct WindowFrameMut<'a> {
    pub customization: &'a mut WindowCustomization,
}

impl WindowCustomization {
    /// An attachment under the identifier 1, not yet installed.
    pub fn new(handle: isize, options: WindowFrame) -> (customization: Self)
        ensures
            customization@ == (WindowCustomizationView {
                handle,
                subclass_id: 1,
                options,
                is_set: false,
            }),
    {
        Self::with_id(handle, options, 1)
    }

    /// An attachment under the identifier `subclass_id`, not yet installed.
    pub fn with_id(handle: isize, options: WindowFrame, subclass_id: usize) -> (customization: Self)
        ensures
            customization@ == (WindowCustomizationView {
                handle,
                subclass_id,
                options,
                is_set: false,
            }),
    {
        Self { handle, subclass_id, options, is_set: false }
    }

    /// The window's handle.
    pub fn handle(&self) -> (handle: isize)
        ensures
            handle == self@.handle,
    {
        self.handle
    }

    /// The identifier under which the interception is installed.
    pub fn subclass_id(&self) -> (subclass_id: usize)
        ensures
            subclass_id == self@.subclass_id,
    {
        self.subclass_id
    }

    /// The frame's configuration.
    pub fn options(&self) -> (options: &WindowFrame)
        ensures
            *options == self@.options,
    {
        &self.options
    }

    /// Whether the interception is installed. An attachment that is given
    /// up while it is installed has to be removed first.
    pub fn is_set(&self) -> (is_set: bool)
        ensures
            is_set == self@.is_set,
    {
        self.is_set
    }

    /// Takes note of how installing the interception went. After a success
    /// the attachment is set and the frame is to be applied: the result is
    /// the update for the window's rectangle `rect`. After a refusal nothing
    /// changes and the error is handed on.
    pub fn set(
        &mut self,
        installed: Result<(), AttachError>,
        rect: Rect,
    ) -> (outcome: Result<FrameUpdate, AttachError>)
        requires
            installed is Ok ==> rect.has_size(),
        ensures
            installed is Ok ==> final(self)@ == (WindowCustomizationView {
                is_set: true,
                ..old(self)@
            }),
            installed is Ok ==> outcome == Ok::<FrameUpdate, AttachError>(
                frame_update_spec(rect, old(self)@.options.extend_frame),
            ),
            installed is Err ==> final(self)@ == old(self)@,
            installed matches Err(error) ==> outcome == Err::<FrameUpdate, AttachError>(error),
    {
        match installed {
            Ok(()) => {
                self.is_set = true;
                Ok(frame_update(rect, &self.options))
            },
            Err(error) => Err(error),
        }
    }

    /// Takes note of how removing the interception went. After a success
    /// the attachment is no longer set. After a refusal nothing changes and
    /// the error is handed on.
    pub fn remove(&mut self, removed: Result<(), AttachError>) -> (outcome: Result<(), AttachError>)
        ensures
            outcome == removed,
            removed is Ok ==> final(self)@ == (WindowCustomizationView {
                is_set: false,
                ..old(self)@
            }),
            removed is Err ==> final(self)@ == old(self)@,
    {
        if removed.is_ok() {
            self.is_set = false;
        }
        removed
    }

    /// Computes what is handed to the platform to apply the frame to the
    /// window, which has the rectangle `rect`.
    pub fn update(&self, rect: Rect) -> (update: FrameUpdate)
        requires
            rect.has_size(),
        ensures
            update == frame_update_spec(rect, self@.options.extend_frame),
            update.covers(rect),
    {
        frame_update(rect, &self.options)
    }

    /// Opens the frame for changes. What the changes leave is what the
    /// attachment holds afterwards.
    pub fn edit(&mut self) -> (access: WindowFrameMut<'_>)
        ensures
            *access.customization == *old(self),
            *final(self) == *final(access.customization),
    {
        WindowFrameMut { customization: self }
    }
}

impl<'a> WindowFrameMut<'a> {
    /// The frame as it is now.
    pub fn get(&self) -> (frame: &WindowFrame)
        ensures
            *frame == old(self.customization)@.options,
    {
        &self.customization.options
    }

    /// The frame, to be changed in place. Nothing else of the attachment
    /// changes.
    pub fn frame(&mut self) -> (frame: &mut WindowFrame)
        ensures
            *frame == old(self).customization@.options,
            final(self).customization@ == (WindowCustomizationView {
                options: *final(frame),
                ..old(self).customization@
            }),
            *final(final(self).customization) == *final(old(self).customization),
    {
        &mut self.customization.options
    }

    /// Ends the access and computes what is handed to the platform to apply
    /// the frame as the changes left it to the window, which has the
    /// rectangle `rect`.
    pub fn commit(self, rect: Rect) -> (update: FrameUpdate)
        requires
            rect.has_size(),
        ensures
            update == frame_update_spec(rect, old(self.customization)@.options.extend_frame),
            update.covers(rect),
            *final(self.customization) == *old(self.customization),
    {
        frame_update(rect, &self.customization.options)
    }
}

} // verus!
