//! The file handle: one native file context and its life cycle.
//!
//! A handle starts unopened, is opened on a path, exchanges packets with
//! the file while it is open, and is closed. The methods here decide which
//! native call may be made in which state; packets are exchanged only
//! through a handle that is open.
use vstd::prelude::*;
use vstd::string::{StringExecFns, StringSliceAdditionalSpecFns};
use crate::error::{Error, XmpError};
use crate::filetype::FileType;
use crate::flags::close::CloseFlags;
use crate::flags::decoded;
use crate::flags::format::FormatOptionFlags;
use crate::flags::open::OpenFlags;
use crate::reply::failure;
use crate::text::{has_nul, CText};
use crate::xmp::Xmp;
use crate::xmpstring::XmpString;

verus! {

/// Where a packet lies in its file, as the native side reports it.
#[derive(Clone, Copy, Debug, PartialEq, Eq, Structural)]
pub struct XmpPacketInfo {
    /// The offset of the packet in the file, in bytes.
    pub offset: i64,
    /// The length of the packet, in bytes.
    pub length: i32,
    /// The size of the padding, in bytes.
    pub pad_size: i32,
    /// The character form of the packet.
    pub char_form: u8,
    /// Whether the packet may be written.
    pub writeable: bool,
    /// Whether the packet has its wrapper.
    pub has_wrapper: bool,
    /// Filler.
    pub pad: u8,
}

/// The packet information of a file.
#[derive(Clone, Copy, Debug, PartialEq, Eq, Structural)]
pub struct PacketInfo(pub XmpPacketInfo);

impl Default for PacketInfo {
    /// The information of no packet: every field zero or false.
    fn default() -> (r: PacketInfo)
        ensures
            r == PacketInfo(
                XmpPacketInfo {
                    offset: 0,
                    length: 0,
                    pad_size: 0,
                    char_form: 0,
                    writeable: false,
                    has_wrapper: false,
                    pad: 0,
                },
            ),
    {
        PacketInfo(
            XmpPacketInfo {
                offset: 0,
                length: 0,
                pad_size: 0,
                char_form: 0,
                writeable: false,
                has_wrapper: false,
                pad: 0,
            },
        )
    }
}

/// Where a file handle is in its life.
#[derive(Clone, Copy, Debug, PartialEq, Eq, Structural)]
pub enum FileState {
    /// Not bound to a path yet.
    Unopened,
    /// Bound to a path; packets can be exchanged.
    Open,
    /// Closed; the path is let go.
    Closed,
}

/// A native call that creates a file context and opens a path with it.
#[derive(Debug)]
pub struct OpenNewCall {
    /// The path of the file.
    pub path: CText,
    /// The raw open options.
    pub options: u32,
}

/// A native call that opens a path with a file context.
#[derive(Debug)]
pub struct OpenCall {
    /// The file context.
    pub file: usize,
    /// The path of the file.
    pub path: CText,
    /// The raw open options.
    pub options: u32,
}

/// A native call that closes a file context.
#[derive(Clone, Copy, Debug, PartialEq, Eq, Structural)]
pub struct CloseCall {
    /// The file context.
    pub file: usize,
    /// The raw close options, handed on as they are.
    pub options: u32,
}

/// A native call that concerns a file context and a packet object.
#[derive(Clone, Copy, Debug, PartialEq, Eq, Structural)]
pub struct PutCall {
    /// The file context.
    pub file: usize,
    /// The packet.
    pub xmp: usize,
}

/// A native call that concerns a file context and a serialised packet.
#[derive(Debug)]
pub struct PutPacketCall {
    /// The file context.
    pub file: usize,
    /// The serialised packet.
    pub packet: CText,
    /// The length of the serialised packet, without its terminator.
    pub len: usize,
}

/// A file handle: the owner of one native file context.
#[derive(Debug)]
pub struct XmpFile {
    handle: usize,
    state: FileState,
}

impl XmpFile {
    /// The address of the native file context; zero for a null handle.
    pub closed spec fn handle(&self) -> usize {
        self.handle
    }

    /// Where the handle is in its life.
    pub closed spec fn state(&self) -> FileState {
        self.state
    }

    /// Whether packets can be exchanged through a handle at `handle` in the
    /// state `state`: it is not null and it is open.
    pub open spec fn grants(handle: usize, state: FileState) -> bool {
        handle != 0 && state == FileState::Open
    }

    /// Whether packets can be exchanged through the handle.
    pub open spec fn is_usable(&self) -> bool {
        Self::grants(self.handle(), self.state())
    }

    /// The state after the native side has answered a request to open: open
    /// if it succeeded, and as before if not.
    pub open spec fn after_open(state: FileState, ok: bool) -> FileState {
        if ok {
            FileState::Open
        } else {
            state
        }
    }

    /// The state after the native side has answered a request to close:
    /// closed if it succeeded, and as before if not.
    pub open spec fn after_close(state: FileState, ok: bool) -> FileState {
        if ok {
            FileState::Closed
        } else {
            state
        }
    }

    /// Adopts the file context that the native constructor handed out. The
    /// handle is unopened.
    pub fn new(handle: usize) -> (r: XmpFile)
        ensures
            r.handle() == handle,
            r.state() == FileState::Unopened,
    {
        XmpFile { handle, state: FileState::Unopened }
    }

    /// Prepares creating a handle and opening `path` with it in one step.
    /// A path with a zero byte in it is a bad parameter.
    pub fn open_new(path: &[u8], options: OpenFlags) -> (r: Result<OpenNewCall, Error>)
        ensures
            r.is_ok() <==> !has_nul(path@),
            r matches Ok(c) ==> c.path@ == path@.push(0u8) && c.options == options@,
            r matches Err(e) ==> e == Error(XmpError::BadParam),
    {
        match CText::from_bytes(path) {
            Ok(path) => Ok(OpenNewCall { path, options: options.bits() }),
            Err(e) => Err(e),
        }
    }

    /// Reads the outcome of creating and opening in one step: either an
    /// open handle or the error; a null handle never reaches the caller.
    pub fn new_from_file(handle: usize, last_error: i32) -> (r: Result<XmpFile, Error>)
        ensures
            handle != 0 ==> r.is_ok() && r.unwrap().handle() == handle && r.unwrap().state()
                == FileState::Open,
            handle == 0 ==> r.is_err() && r.unwrap_err() == failure(last_error),
    {
        match crate::reply::handle(handle, last_error) {
            Ok(h) => Ok(XmpFile { handle: h, state: FileState::Open }),
            Err(e) => Err(e),
        }
    }

    /// Prepares opening `path`. A null handle is a bad object; a path with
    /// a zero byte in it is a bad parameter.
    pub fn open(&mut self, path: &[u8], options: OpenFlags) -> (r: Result<OpenCall, Error>)
        ensures
            *final(self) == *old(self),
            r.is_ok() <==> old(self).handle() != 0 && !has_nul(path@),
            r matches Ok(c) ==> {
                &&& c.file == old(self).handle()
                &&& c.path@ == path@.push(0u8)
                &&& c.options == options@
            },
            r matches Err(e) ==> e == Error(
                if old(self).handle() == 0 {
                    XmpError::BadObject
                } else {
                    XmpError::BadParam
                },
            ),
    {
        if self.is_null() {
            return Err(Error(XmpError::BadObject));
        }
        match CText::from_bytes(path) {
            Ok(path) => Ok(OpenCall { file: self.handle, path, options: options.bits() }),
            Err(e) => Err(e),
        }
    }

    /// Reads the outcome of opening: on success the handle is open, on
    /// failure it stays as it was.
    pub fn opened(&mut self, ok: bool, last_error: i32) -> (r: Result<(), Error>)
        ensures
            final(self).handle() == old(self).handle(),
            final(self).state() == Self::after_open(old(self).state(), ok),
            ok ==> r == Ok::<(), Error>(()),
            !ok ==> r == Err::<(), Error>(failure(last_error)),
    {
        if ok {
            self.state = FileState::Open;
        }
        crate::reply::check(ok, last_error)
    }

    /// Prepares closing the handle. A null handle is a bad object. The
    /// options reach the native side as they are.
    pub fn close(&mut self, options: CloseFlags) -> (r: Result<CloseCall, Error>)
        ensures
            *final(self) == *old(self),
            old(self).handle() != 0 ==> r == Ok::<CloseCall, Error>(
                CloseCall { file: old(self).handle(), options: options@ },
            ),
            old(self).handle() == 0 ==> r == Err::<CloseCall, Error>(Error(XmpError::BadObject)),
    {
        if self.is_null() {
            return Err(Error(XmpError::BadObject));
        }
        Ok(CloseCall { file: self.handle, options: options.bits() })
    }

    /// Reads the outcome of closing: on success the handle is closed, on
    /// failure it stays as it was.
    pub fn closed(&mut self, ok: bool, last_error: i32) -> (r: Result<(), Error>)
        ensures
            final(self).handle() == old(self).handle(),
            final(self).state() == Self::after_close(old(self).state(), ok),
            ok ==> r == Ok::<(), Error>(()),
            !ok ==> r == Err::<(), Error>(failure(last_error)),
    {
        if ok {
            self.state = FileState::Closed;
        }
        crate::reply::check(ok, last_error)
    }

    /// Whether the handle is null.
    pub fn is_null(&self) -> (r: bool)
        ensures
            r == (self.handle() == 0),
    {
        self.handle == 0
    }

    /// Whether the handle is open.
    pub fn is_open(&self) -> (r: bool)
        ensures
            r == self.is_usable(),
    {
        self.handle != 0 && self.state == FileState::Open
    }

    /// The file context to exchange a packet with, or a bad-object error
    /// for a handle that is null or not open.
    pub fn usable(&self) -> (r: Result<usize, Error>)
        ensures
            self.is_usable() ==> r == Ok::<usize, Error>(self.handle()),
            !self.is_usable() ==> r == Err::<usize, Error>(Error(XmpError::BadObject)),
    {
        if self.is_open() {
            Ok(self.handle)
        } else {
            Err(Error(XmpError::BadObject))
        }
    }

    /// Prepares fetching the packet of the file as a new packet object.
    pub fn get_new_xmp(&self) -> (r: Result<usize, Error>)
        ensures
            self.is_usable() ==> r == Ok::<usize, Error>(self.handle()),
            !self.is_usable() ==> r == Err::<usize, Error>(Error(XmpError::BadObject)),
    {
        self.usable()
    }

    /// Prepares fetching the packet of the file into an empty packet
    /// object, which the caller creates only if this succeeds.
    pub fn get_xmp(&self) -> (r: Result<usize, Error>)
        ensures
            self.is_usable() ==> r == Ok::<usize, Error>(self.handle()),
            !self.is_usable() ==> r == Err::<usize, Error>(Error(XmpError::BadObject)),
    {
        self.usable()
    }

    /// Prepares fetching the packet of the file in serialised form, with
    /// its packet information.
    pub fn get_xmp_xmpstring(&self) -> (r: Result<usize, Error>)
        ensures
            self.is_usable() ==> r == Ok::<usize, Error>(self.handle()),
            !self.is_usable() ==> r == Err::<usize, Error>(Error(XmpError::BadObject)),
    {
        self.usable()
    }

    /// Prepares asking whether `xmp` can be put into the file. Where there
    /// is no call to make, because the handle is not usable or the packet
    /// is null, the answer is no.
    pub fn can_put_xmp(&self, xmp: &Xmp) -> (r: Option<PutCall>)
        ensures
            self.is_usable() && xmp@ != 0 ==> r == Some(PutCall { file: self.handle(), xmp: xmp@ }),
            !(self.is_usable() && xmp@ != 0) ==> r.is_none(),
    {
        if !self.is_open() || xmp.is_null() {
            return None;
        }
        Some(PutCall { file: self.handle, xmp: xmp.as_ptr() })
    }

    /// What asking about a serialised packet returns: the call, unless the
    /// handle is not usable or the packet holds a zero byte.
    pub open spec fn asks_about(r: Option<PutPacketCall>, file: &XmpFile, packet: Seq<u8>) -> bool {
        &&& r.is_some() <==> file.is_usable() && !has_nul(packet)
        &&& r matches Some(c) ==> {
            &&& c.file == file.handle()
            &&& c.packet@ == packet.push(0u8)
            &&& c.len == packet.len()
        }
    }

    fn ask_about(&self, packet: &[u8]) -> (r: Option<PutPacketCall>)
        ensures
            Self::asks_about(r, self, packet@),
    {
        if !self.is_open() {
            return None;
        }
        match CText::from_bytes(packet) {
            Ok(text) => Some(PutPacketCall { file: self.handle, packet: text, len: packet.len() }),
            Err(_) => None,
        }
    }

    /// Prepares asking whether a serialised packet, held in a string of the
    /// native side, can be put into the file. For a null string the answer
    /// is no.
    pub fn can_put_xmp_xmpstring(&self, xmp_packet: &XmpString) -> (r: Option<PutPacketCall>)
        ensures
            xmp_packet@.is_none() ==> r.is_none(),
            xmp_packet@.is_some() ==> Self::asks_about(r, self, xmp_packet.spec_bytes()),
    {
        if xmp_packet.is_null() {
            return None;
        }
        self.ask_about(xmp_packet.as_bytes())
    }

    /// Prepares asking whether a serialised packet can be put into the
    /// file.
    pub fn can_put_xmp_str(&self, xmp_packet: &str) -> (r: Option<PutPacketCall>)
        ensures
            Self::asks_about(r, self, xmp_packet.spec_bytes()),
    {
        self.ask_about(xmp_packet.as_bytes())
    }

    /// Prepares putting `xmp` into the file. A handle that is not usable,
    /// or a null packet, is a bad object.
    pub fn put_xmp(&mut self, xmp: &Xmp) -> (r: Result<PutCall, Error>)
        ensures
            *final(self) == *old(self),
            old(self).is_usable() && xmp@ != 0 ==> r == Ok::<PutCall, Error>(
                PutCall { file: old(self).handle(), xmp: xmp@ },
            ),
            !(old(self).is_usable() && xmp@ != 0) ==> r == Err::<PutCall, Error>(
                Error(XmpError::BadObject),
            ),
    {
        if !self.is_open() || xmp.is_null() {
            return Err(Error(XmpError::BadObject));
        }
        Ok(PutCall { file: self.handle, xmp: xmp.as_ptr() })
    }

    /// Prepares asking for the path, the open options, the format and the
    /// handler's capabilities of the file. For a handle that is not usable
    /// there is no call to make, and the answer is no.
    pub fn get_file_info(&self) -> (r: Option<usize>)
        ensures
            self.is_usable() ==> r == Some(self.handle()),
            !self.is_usable() ==> r.is_none(),
    {
        if self.is_open() {
            Some(self.handle)
        } else {
            None
        }
    }

    /// Reads what the native side wrote about the file. The path is added
    /// to `file_path`; the two masks are decoded, a mask with a bit that
    /// has no name giving the empty set; the format is named by its code.
    /// The result says whether the native call succeeded.
    pub fn file_info(
        ok: bool,
        path: &XmpString,
        raw_options: u32,
        format_code: u32,
        raw_handler_flags: u32,
        file_path: &mut String,
        options: &mut OpenFlags,
        format: &mut FileType,
        handler_flags: &mut FormatOptionFlags,
    ) -> (r: bool)
        ensures
            r == ok,
            final(file_path)@ == old(file_path)@ + XmpString::text_of(path@),
            *final(options) == OpenFlags::spec_decode(raw_options),
            final(options)@ == decoded(raw_options, OpenFlags::known()),
            *final(format) == FileType::spec_from_code(format_code as int),
            *final(handler_flags) == FormatOptionFlags::spec_decode(raw_handler_flags),
            final(handler_flags)@ == decoded(raw_handler_flags, FormatOptionFlags::known()),
    {
        *options = OpenFlags::decode(raw_options);
        *handler_flags = FormatOptionFlags::decode(raw_handler_flags);
        *format = FileType::from_code(format_code);
        let text = path.to_string();
        file_path.append(text.as_str());
        ok
    }

    /// Prepares asking for the format of the file at `path`, which needs no
    /// handle. For a path with a zero byte in it there is no call to make:
    /// no file has such a path, and its format is unknown.
    pub fn check_file_format(path: &[u8]) -> (r: Option<CText>)
        ensures
            r.is_some() <==> !has_nul(path@),
            r matches Some(t) ==> t@ == path@.push(0u8),
    {
        match CText::from_bytes(path) {
            Ok(t) => Some(t),
            Err(_) => None,
        }
    }

    /// Reads the capabilities of a format's handler, which needs no handle:
    /// the decoded mask on success, the error otherwise.
    pub fn get_format_info(ok: bool, raw_options: u32, last_error: i32) -> (r: Result<
        FormatOptionFlags,
        Error,
    >)
        ensures
            ok ==> r == Ok::<FormatOptionFlags, Error>(FormatOptionFlags::spec_decode(raw_options)),
            ok ==> r.unwrap()@ == decoded(raw_options, FormatOptionFlags::known()),
            !ok ==> r == Err::<FormatOptionFlags, Error>(failure(last_error)),
    {
        crate::reply::outcome(ok, FormatOptionFlags::decode(raw_options), last_error)
    }

    /// Gives the handle up. The result is the file context to free, if
    /// there is one; whatever state the handle was in, its context is freed
    /// once and a null handle frees nothing.
    pub fn release(self) -> (r: Option<usize>)
        ensures
            self.handle() == 0 ==> r.is_none(),
            self.handle() != 0 ==> r == Some(self.handle()),
    {
        if self.handle == 0 {
            None
        } else {
            Some(self.handle)
        }
    }
}

/// Packets are exchanged only between a successful open and the next
/// successful close. A handle that was never opened grants nothing; a
/// successful open makes any handle but a null one usable; a successful
/// close ends that; and a failed open or close leaves everything as it was.
pub proof fn lemma_life_cycle(handle: usize, state: FileState)
    ensures
        !XmpFile::grants(handle, FileState::Unopened),
        XmpFile::grants(handle, XmpFile::after_open(state, true)) <==> handle != 0,
        !XmpFile::grants(handle, XmpFile::after_close(state, true)),
        XmpFile::grants(handle, XmpFile::after_open(state, false)) == XmpFile::grants(
            handle,
            state,
        ),
        XmpFile::grants(handle, XmpFile::after_close(state, false)) == XmpFile::grants(
            handle,
            state,
        ),
{
}

} // verus!
