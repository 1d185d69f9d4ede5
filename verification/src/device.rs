//! The channel to the kernel device: which request it makes next, and what it keeps
//! of each outcome.

use crate::keyboard::Key;
use crate::mouse::MouseButton;
use crate::util::{object_attributes_length, InitializeObjectAttributes, ObjectAttributes};
use crate::wire::{
    keyboard_record, mouse_record, KeyboardIO, MouseIO, KEYBOARD_IOCTL, KEYBOARD_IO_LEN,
    MOUSE_IOCTL, MOUSE_IO_LEN,
};
use vstd::prelude::*;
use vstd::string::*;

verus! {

/// The two instance paths under which the device may surface, in the order in which
/// an open tries them.
#[derive(Clone, Copy, Debug, PartialEq, Eq, Structural)]
pub enum DevicePath {
    First,
    Second,
}

impl DevicePath {
    /// The path that an open tries first.
    pub open spec fn first() -> DevicePath {
        DevicePath::First
    }

    /// The path that an open tries after this one has failed, if there is one.
    pub open spec fn next(self) -> Option<DevicePath> {
        match self {
            DevicePath::First => Some(DevicePath::Second),
            DevicePath::Second => None,
        }
    }

    /// The path as text.
    pub open spec fn name(self) -> Seq<char> {
        match self {
            DevicePath::First => "\\??\\ROOT#SYSTEM#0001#{1abc05c0-c378-41b9-9cef-df1aba82b015}"@,
            DevicePath::Second => "\\??\\ROOT#SYSTEM#0002#{1abc05c0-c378-41b9-9cef-df1aba82b015}"@,
        }
    }

    /// The path as the operating system takes it: in UTF-16, with a closing zero.
    pub open spec fn wide(self) -> Seq<u16> {
        Seq::new(self.name().len(), |i: int| self.name()[i] as u16).push(0u16)
    }

    /// The path as text.
    pub fn as_str(self) -> (name: &'static str)
        ensures
            name@ == self.name(),
            name.is_ascii(),
    {
        match self {
            DevicePath::First => {
                let name = "\\??\\ROOT#SYSTEM#0001#{1abc05c0-c378-41b9-9cef-df1aba82b015}";
                proof {
                    reveal_strlit("\\??\\ROOT#SYSTEM#0001#{1abc05c0-c378-41b9-9cef-df1aba82b015}");
                }
                name
            },
            DevicePath::Second => {
                let name = "\\??\\ROOT#SYSTEM#0002#{1abc05c0-c378-41b9-9cef-df1aba82b015}";
                proof {
                    reveal_strlit("\\??\\ROOT#SYSTEM#0002#{1abc05c0-c378-41b9-9cef-df1aba82b015}");
                }
                name
            },
        }
    }

    /// The path as the operating system takes it: in UTF-16, with a closing zero.
    pub fn to_wide(self) -> (wide: Vec<u16>)
        ensures
            wide@ == self.wide(),
    {
        let name = self.as_str();
        let len = name.unicode_len();
        let mut wide: Vec<u16> = Vec::new();
        let mut i: usize = 0;
        while i < len
            invariant
                i <= len,
                len == name@.len(),
                name.is_ascii(),
                name@ == self.name(),
                wide@ == Seq::new(i as nat, |k: int| self.name()[k] as u16),
            decreases len - i,
        {
            let unit = name.get_ascii(i);
            wide.push(unit as u16);
            i = i + 1;
        }
        wide.push(0u16);
        wide
    }
}

/// The handle of a channel that is closed.
pub const NULL_HANDLE: usize = 0;

/// `windows_sys::Win32::Foundation::STATUS_SUCCESS`, the status of a request that
/// succeeded: zero.
#[verifier::external_body]
fn status_success() -> (status: i32)
    ensures
        status == 0,
{
    windows_sys::Win32::Foundation::STATUS_SUCCESS
}

/// `windows_sys::Win32::Foundation::GENERIC_WRITE`, the right to write: bit 30.
#[verifier::external_body]
fn generic_write() -> (access: u32)
    ensures
        access == 0x4000_0000,
{
    windows_sys::Win32::Foundation::GENERIC_WRITE
}

/// `windows_sys::Win32::Storage::FileSystem::SYNCHRONIZE`, the right to wait on the
/// handle: bit 20.
#[verifier::external_body]
fn synchronize() -> (access: u32)
    ensures
        access == 0x0010_0000,
{
    windows_sys::Win32::Storage::FileSystem::SYNCHRONIZE
}

/// `windows_sys::Win32::Storage::FileSystem::FILE_ATTRIBUTE_NORMAL`, no other
/// attribute set: 128.
#[verifier::external_body]
fn file_attribute_normal() -> (attributes: u32)
    ensures
        attributes == 0x80,
{
    windows_sys::Win32::Storage::FileSystem::FILE_ATTRIBUTE_NORMAL
}

/// `windows_sys::Win32::Storage::FileSystem::FILE_SHARE_NONE`, no sharing: zero.
#[verifier::external_body]
fn file_share_none() -> (share: u32)
    ensures
        share == 0,
{
    windows_sys::Win32::Storage::FileSystem::FILE_SHARE_NONE
}

/// `windows_sys::Wdk::Storage::FileSystem::FILE_OPEN_IF`, open the object if it
/// exists: 3.
#[verifier::external_body]
fn file_open_if() -> (disposition: u32)
    ensures
        disposition == 3,
{
    windows_sys::Wdk::Storage::FileSystem::FILE_OPEN_IF
}

/// `windows_sys::Wdk::Storage::FileSystem::FILE_NON_DIRECTORY_FILE`, the object is no
/// directory: 64.
#[verifier::external_body]
fn file_non_directory_file() -> (options: u32)
    ensures
        options == 0x40,
{
    windows_sys::Wdk::Storage::FileSystem::FILE_NON_DIRECTORY_FILE
}

/// `windows_sys::Wdk::Storage::FileSystem::FILE_SYNCHRONOUS_IO_NONALERT`, every
/// operation on the handle waits for its end and cannot be alerted: 32.
#[verifier::external_body]
fn file_synchronous_io_nonalert() -> (options: u32)
    ensures
        options == 0x20,
{
    windows_sys::Wdk::Storage::FileSystem::FILE_SYNCHRONOUS_IO_NONALERT
}

/// A request to open the device under one of its paths.
#[derive(Debug)]
pub struct CreateFile {
    /// The path that the request tries.
    pub path: DevicePath,
    /// The access asked for.
    pub desired_access: u32,
    /// The attributes record, which names the object.
    pub object_attributes: ObjectAttributes,
    /// The file attributes.
    pub file_attributes: u32,
    /// The sharing allowed to others.
    pub share_access: u32,
    /// What to do if the object exists, and if it does not.
    pub create_disposition: u32,
    /// The options of the open.
    pub create_options: u32,
}

impl CreateFile {
    /// The one request that opens the device under `path`: write and synchronize
    /// access, no sharing, normal attributes, open if it exists, not a directory,
    /// synchronous I/O without alerts; the object named by the path alone.
    pub open spec fn opens(self, path: DevicePath) -> bool {
        &&& self.path == path
        &&& self.desired_access == 0x4010_0000
        &&& self.object_attributes.Length == object_attributes_length()
        &&& self.object_attributes.RootDirectory == NULL_HANDLE
        &&& self.object_attributes.ObjectName@ == path.wide()
        &&& self.object_attributes.Attributes == 0
        &&& self.object_attributes.SecurityDescriptor == 0
        &&& self.object_attributes.SecurityQualityOfService == 0
        &&& self.file_attributes == 0x80
        &&& self.share_access == 0
        &&& self.create_disposition == 3
        &&& self.create_options == 0x60
    }
}

/// A device-control request: a record for the device, and no output buffer.
#[derive(Debug)]
pub struct IoControl {
    /// The handle that the request goes to.
    pub handle: usize,
    /// The control code, which tells the kind of record.
    pub io_control_code: u32,
    /// The record.
    pub input_buffer: Vec<u8>,
}

/// Where an open stands after one of its requests has come back.
#[derive(Clone, Copy, Debug, PartialEq, Eq, Structural)]
pub enum Probe {
    /// The request succeeded: the channel is open and no other path is tried.
    Opened,
    /// The request failed: this path is to be tried next.
    Retry(DevicePath),
    /// The request failed and no path is left: the device is absent, or of a version
    /// that this crate cannot talk to.
    NotFound,
}

/// What follows the request for `path` once it has come back with `status`.
pub open spec fn probe_step(path: DevicePath, status: i32) -> Probe {
    if status == 0 {
        Probe::Opened
    } else {
        match path.next() {
            Some(next) => Probe::Retry(next),
            None => Probe::NotFound,
        }
    }
}

/// What the channel asks for after a control request has failed.
#[derive(Clone, Copy, Debug, PartialEq, Eq, Structural)]
pub struct Reopen {
    /// The handle to close first, if the channel held one.
    pub stale: Option<usize>,
    /// The path with which the one new open begins.
    pub path: DevicePath,
}

/// What is said of a device that no path opened.
pub open spec fn not_found() -> Seq<char> {
    "Device not found. Consider to download Logitech G HUB 2021.11.1775"@
}

/// The channel to the device. It holds the handle of the open device, or
/// [`NULL_HANDLE`].
#[derive(Debug)]
pub struct Device {
    filehandle: usize,
}

impl Device {
    /// The handle that the channel holds.
    pub closed spec fn handle(self) -> usize {
        self.filehandle
    }

    /// The channel after a close.
    pub closed spec fn after_close(self) -> Device {
        Device { filehandle: NULL_HANDLE }
    }

    /// The handle that a close hands out to be closed.
    pub open spec fn close_request(self) -> Option<usize> {
        if self.handle() != NULL_HANDLE {
            Some(self.handle())
        } else {
            None
        }
    }

    /// The channel after the request of an open has come back with `status` and
    /// `handle`.
    pub closed spec fn after_attempt(self, status: i32, handle: usize) -> Device {
        if status == 0 {
            Device { filehandle: handle }
        } else {
            self
        }
    }

    /// A closed channel.
    pub fn new() -> (device: Self)
        ensures
            device.handle() == NULL_HANDLE,
    {
        Device { filehandle: NULL_HANDLE }
    }

    /// The handle that the channel holds.
    pub fn filehandle(&self) -> (handle: usize)
        ensures
            handle == self.handle(),
    {
        self.filehandle
    }

    /// Whether the channel holds a handle.
    pub fn is_open(&self) -> (open: bool)
        ensures
            open == (self.handle() != NULL_HANDLE),
    {
        self.filehandle != NULL_HANDLE
    }

    /// Accepts a channel that an open has left open, and refuses one that it has not.
    pub fn try_new(device: Device) -> (result: Result<Self, &'static str>)
        ensures
            result is Ok <==> device.handle() != NULL_HANDLE,
            result matches Ok(accepted) ==> accepted == device,
            result matches Err(message) ==> message@ == not_found(),
    {
        if !device.is_open() {
            return Err("Device not found. Consider to download Logitech G HUB 2021.11.1775");
        }
        Ok(device)
    }

    /// Whether a request that came back with `status` succeeded.
    pub fn succeeded(status: i32) -> (success: bool)
        ensures
            success == (status == 0),
    {
        status == status_success()
    }

    /// The request that sends a mouse command through the channel.
    pub fn call_mouse(&self, button: MouseButton, x: i8, y: i8, wheel: i8) -> (request: IoControl)
        ensures
            request.handle == self.handle(),
            request.io_control_code == MOUSE_IOCTL,
            request.input_buffer@ == mouse_record(button.code(), x, y, wheel),
            request.input_buffer@.len() == MOUSE_IO_LEN,
            request.input_buffer@[4] == 0,
    {
        let inputbuffer = MouseIO::new(u8::from(button), x, y, wheel);
        IoControl {
            handle: self.filehandle,
            io_control_code: MOUSE_IOCTL,
            input_buffer: inputbuffer.to_bytes(),
        }
    }

    /// The request that sends a keyboard command through the channel.
    pub fn call_keyboard(
        &self,
        button1: Key,
        button2: Key,
        button3: Key,
        button4: Key,
        button5: Key,
        button6: Key,
    ) -> (request: IoControl)
        ensures
            request.handle == self.handle(),
            request.io_control_code == KEYBOARD_IOCTL,
            request.input_buffer@ == keyboard_record(
                button1.code(),
                button2.code(),
                button3.code(),
                button4.code(),
                button5.code(),
                button6.code(),
            ),
            request.input_buffer@.len() == KEYBOARD_IO_LEN,
            request.input_buffer@[0] == 0,
            request.input_buffer@[1] == 0,
    {
        let inputbuffer = KeyboardIO::new(
            u8::from(button1),
            u8::from(button2),
            u8::from(button3),
            u8::from(button4),
            u8::from(button5),
            u8::from(button6),
        );
        IoControl {
            handle: self.filehandle,
            io_control_code: KEYBOARD_IOCTL,
            input_buffer: inputbuffer.to_bytes(),
        }
    }

    /// Takes the status with which a control request came back. A request that
    /// succeeded leaves the channel as it is. After one that failed the channel is
    /// closed, and asks for its old handle to be closed and for one new open; the
    /// command that failed is not sent again.
    pub fn completed(&mut self, status: i32) -> (recovery: Option<Reopen>)
        ensures
            status == 0 ==> recovery is None && *final(self) == *old(self),
            status != 0 ==> recovery == Some(
                Reopen { stale: old(self).close_request(), path: DevicePath::first() },
            ) && *final(self) == old(self).after_close() && final(self).handle() == NULL_HANDLE,
    {
        if Device::succeeded(status) {
            return None;
        }
        let stale = self.close();
        Some(Reopen { stale, path: self.open() })
    }

    /// Begins an open: the path to try first.
    pub fn open(&self) -> (path: DevicePath)
        ensures
            path == DevicePath::first(),
    {
        DevicePath::First
    }

    /// The request that tries to open the device under `path`.
    pub fn device_initialize(path: DevicePath) -> (request: CreateFile)
        ensures
            request.opens(path),
    {
        let mut attr = ObjectAttributes {
            Length: 0,
            RootDirectory: NULL_HANDLE,
            ObjectName: Vec::new(),
            Attributes: 0,
            SecurityDescriptor: 0,
            SecurityQualityOfService: 0,
        };
        InitializeObjectAttributes(&mut attr, path.to_wide(), 0, NULL_HANDLE, 0);
        let access = generic_write() | synchronize();
        let options = file_non_directory_file() | file_synchronous_io_nonalert();
        assert(0x4000_0000u32 | 0x0010_0000u32 == 0x4010_0000u32) by (bit_vector);
        assert(0x40u32 | 0x20u32 == 0x60u32) by (bit_vector);
        CreateFile {
            path,
            desired_access: access,
            object_attributes: attr,
            file_attributes: file_attribute_normal(),
            share_access: file_share_none(),
            create_disposition: file_open_if(),
            create_options: options,
        }
    }

    /// Takes the outcome of the request for `path`. On success the channel keeps
    /// `handle` and the open is over. On failure the channel stays closed, and the
    /// next path is tried if there is one.
    pub fn opened(&mut self, path: DevicePath, status: i32, handle: usize) -> (probe: Probe)
        requires
            old(self).handle() == NULL_HANDLE,
        ensures
            probe == probe_step(path, status),
            *final(self) == old(self).after_attempt(status, handle),
            status == 0 ==> final(self).handle() == handle,
            status != 0 ==> final(self).handle() == NULL_HANDLE,
    {
        if Device::succeeded(status) {
            self.filehandle = handle;
            return Probe::Opened;
        }
        match path {
            DevicePath::First => Probe::Retry(DevicePath::Second),
            DevicePath::Second => Probe::NotFound,
        }
    }

    /// Closes the channel: hands out the handle to close, if the channel holds one,
    /// and holds none from then on.
    pub fn close(&mut self) -> (stale: Option<usize>)
        ensures
            stale == old(self).close_request(),
            *final(self) == old(self).after_close(),
            final(self).handle() == NULL_HANDLE,
    {
        if self.filehandle != NULL_HANDLE {
            let stale = self.filehandle;
            self.filehandle = NULL_HANDLE;
            return Some(stale);
        }
        None
    }
}

/// How many paths an open may still try after `path`.
pub open spec fn paths_after(path: DevicePath) -> nat {
    match path {
        DevicePath::First => 1,
        DevicePath::Second => 0,
    }
}

/// The paths that an open requests, in order, when it begins with `path` and the
/// request for each path comes back with the status and handle that `outcome_of` gives.
pub open spec fn attempts(path: DevicePath, outcome_of: spec_fn(DevicePath) -> (i32, usize)) -> Seq<
    DevicePath,
>
    decreases paths_after(path),
{
    match probe_step(path, outcome_of(path).0) {
        Probe::Retry(next) => if paths_after(next) < paths_after(path) {
            seq![path] + attempts(next, outcome_of)
        } else {
            seq![path]
        },
        _ => seq![path],
    }
}

/// How such an open ends: with [`Probe::Opened`] or with [`Probe::NotFound`].
pub open spec fn open_result(path: DevicePath, outcome_of: spec_fn(DevicePath) -> (i32, usize)) -> Probe
    decreases paths_after(path),
{
    match probe_step(path, outcome_of(path).0) {
        Probe::Retry(next) => if paths_after(next) < paths_after(path) {
            open_result(next, outcome_of)
        } else {
            Probe::NotFound
        },
        end => end,
    }
}

impl Device {
    /// The channel after such an open.
    pub open spec fn after_open(
        self,
        path: DevicePath,
        outcome_of: spec_fn(DevicePath) -> (i32, usize),
    ) -> Device
        decreases paths_after(path),
    {
        let device = self.after_attempt(outcome_of(path).0, outcome_of(path).1);
        match probe_step(path, outcome_of(path).0) {
            Probe::Retry(next) => if paths_after(next) < paths_after(path) {
                device.after_open(next, outcome_of)
            } else {
                device
            },
            _ => device,
        }
    }

    /// An open of a closed channel requests the first path before the second. It ends
    /// open on the first path that succeeds, with the handle of that request, and
    /// requests no path after it. It ends closed, with the device not found, if and
    /// only if both paths fail.
    pub proof fn open_tries_paths_in_order(self, outcome_of: spec_fn(DevicePath) -> (i32, usize))
        requires
            self.handle() == NULL_HANDLE,
        ensures
            attempts(DevicePath::first(), outcome_of)[0] == DevicePath::First,
            outcome_of(DevicePath::First).0 == 0 ==> {
                &&& attempts(DevicePath::first(), outcome_of) == seq![DevicePath::First]
                &&& open_result(DevicePath::first(), outcome_of) == Probe::Opened
                &&& self.after_open(DevicePath::first(), outcome_of).handle() == outcome_of(
                    DevicePath::First,
                ).1
            },
            outcome_of(DevicePath::First).0 != 0 ==> attempts(DevicePath::first(), outcome_of)
                == seq![DevicePath::First, DevicePath::Second],
            outcome_of(DevicePath::First).0 != 0 && outcome_of(DevicePath::Second).0 == 0 ==> {
                &&& open_result(DevicePath::first(), outcome_of) == Probe::Opened
                &&& self.after_open(DevicePath::first(), outcome_of).handle() == outcome_of(
                    DevicePath::Second,
                ).1
            },
            outcome_of(DevicePath::First).0 != 0 && outcome_of(DevicePath::Second).0 != 0 ==> {
                &&& open_result(DevicePath::first(), outcome_of) == Probe::NotFound
                &&& self.after_open(DevicePath::first(), outcome_of).handle() == NULL_HANDLE
            },
    {
        reveal_with_fuel(attempts, 3);
        reveal_with_fuel(open_result, 3);
        reveal_with_fuel(Device::after_open, 3);
        assert(seq![DevicePath::First] + seq![DevicePath::Second] =~= seq![
            DevicePath::First,
            DevicePath::Second,
        ]);
    }

    /// A close leaves the channel without a handle, whatever it held. A second close
    /// hands out no handle to close and changes nothing.
    pub proof fn close_twice(self)
        ensures
            self.after_close().handle() == NULL_HANDLE,
            self.after_close().close_request() is None,
            self.after_close().after_close() == self.after_close(),
    {
    }

    /// After a control request has failed, the one open that follows leaves the
    /// channel either closed or with the handle of a request that succeeded.
    pub proof fn reopen_is_best_effort(self, outcome_of: spec_fn(DevicePath) -> (i32, usize))
        ensures
            open_result(DevicePath::first(), outcome_of) == Probe::NotFound ==> self.after_close().after_open(
                DevicePath::first(),
                outcome_of,
            ).handle() == NULL_HANDLE,
            open_result(DevicePath::first(), outcome_of) == Probe::Opened ==> exists|path: DevicePath|
                outcome_of(path).0 == 0 && self.after_close().after_open(
                    DevicePath::first(),
                    outcome_of,
                ).handle() == (#[trigger] outcome_of(path)).1,
    {
        self.after_close().open_tries_paths_in_order(outcome_of);
        if outcome_of(DevicePath::First).0 == 0 {
            assert(outcome_of(DevicePath::First).0 == 0);
        } else if outcome_of(DevicePath::Second).0 == 0 {
            assert(outcome_of(DevicePath::Second).0 == 0);
        }
    }
}

} // verus!
