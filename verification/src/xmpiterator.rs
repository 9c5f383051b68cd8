//! The property iterator: one native cursor over a packet.
//!
//! A walk is forward only and happens once. When the native cursor has
//! reported the end, the iterator is exhausted for good: it asks for no
//! further record and yields none.
use vstd::prelude::*;
use crate::error::{Error, XmpError};
use crate::flags::decoded;
use crate::flags::iter::IterFlags;
use crate::flags::prop::PropFlags;
use crate::flags::skip::IterSkipFlags;
use crate::text::{has_nul, CText};
use crate::xmp::Xmp;
use crate::xmpstring::XmpString;

verus! {

/// A native call that creates a cursor over a packet.
#[derive(Debug)]
pub struct IterCall {
    /// The packet. The cursor only refers to it; the packet has to outlive
    /// the cursor.
    pub xmp: usize,
    /// The schema to walk; empty for all.
    pub schema: CText,
    /// The property to walk; empty for all.
    pub name: CText,
    /// The raw walk options.
    pub options: u32,
}

/// A native call that makes a cursor leave out part of the walk.
#[derive(Clone, Copy, Debug, PartialEq, Eq, Structural)]
pub struct SkipCall {
    /// The cursor.
    pub iter: usize,
    /// The raw skip options.
    pub options: u32,
}

/// One record of a walk.
#[derive(Debug, PartialEq)]
pub struct IteratorValue {
    /// The schema of the property.
    pub schema: XmpString,
    /// The name of the property.
    pub name: XmpString,
    /// The value of the property.
    pub value: XmpString,
    /// The options of the property.
    pub option: PropFlags,
}

impl IteratorValue {
    /// A record of three empty strings and no options.
    pub fn new() -> (r: IteratorValue)
        ensures
            r.schema@ == Some(Seq::<u8>::empty()),
            r.name@ == Some(Seq::<u8>::empty()),
            r.value@ == Some(Seq::<u8>::empty()),
            r.option@ == 0u32,
    {
        IteratorValue {
            schema: XmpString::new(),
            name: XmpString::new(),
            value: XmpString::new(),
            option: PropFlags::empty(),
        }
    }
}

impl Default for IteratorValue {
    /// A record of three empty strings and no options.
    fn default() -> (r: IteratorValue)
        ensures
            r.schema@ == Some(Seq::<u8>::empty()),
            r.name@ == Some(Seq::<u8>::empty()),
            r.value@ == Some(Seq::<u8>::empty()),
            r.option@ == 0u32,
    {
        IteratorValue::new()
    }
}

/// An iterator over the properties of a packet: the owner of one native
/// cursor.
///
/// The iterator borrows its packet: the packet outlives it, and nothing
/// changes the packet while the walk goes on.
#[derive(Debug)]
pub struct XmpIterator<'a> {
    handle: usize,
    exhausted: bool,
    packet: &'a Xmp,
}

impl<'a> XmpIterator<'a> {
    /// The address of the native cursor; zero for a null iterator.
    pub closed spec fn handle(&self) -> usize {
        self.handle
    }

    /// The address of the packet that the cursor walks.
    pub closed spec fn packet(&self) -> usize {
        self.packet@
    }

    /// Whether the native cursor has reported the end of the walk.
    pub closed spec fn is_exhausted(&self) -> bool {
        self.exhausted
    }

    /// Whether the iterator is exhausted after a reply of the native
    /// cursor: it stays so if it was, and becomes so when the cursor
    /// reports the end.
    pub open spec fn exhausted_after(exhausted: bool, ok: bool) -> bool {
        exhausted || !ok
    }

    /// Prepares creating a cursor over `xmp`, limited to a schema and to a
    /// property of it where these are not empty. A filter with a zero byte
    /// in it is a bad parameter.
    pub fn new(xmp: &'a Xmp, schema: &[u8], name: &[u8], propsbits: IterFlags) -> (r: Result<
        IterCall,
        Error,
    >)
        ensures
            r.is_ok() <==> !has_nul(schema@) && !has_nul(name@),
            r matches Ok(c) ==> {
                &&& c.xmp == xmp@
                &&& c.schema@ == schema@.push(0u8)
                &&& c.name@ == name@.push(0u8)
                &&& c.options == propsbits@
            },
            r matches Err(e) ==> e == Error(XmpError::BadParam),
    {
        let schema = match CText::from_bytes(schema) {
            Ok(t) => t,
            Err(e) => {
                return Err(e);
            },
        };
        let name = match CText::from_bytes(name) {
            Ok(t) => t,
            Err(e) => {
                return Err(e);
            },
        };
        Ok(IterCall { xmp: xmp.as_ptr(), schema, name, options: propsbits.bits() })
    }

    /// Adopts the cursor that the native constructor handed out for a walk
    /// of `xmp`. The walk has not begun.
    pub fn from_native(xmp: &'a Xmp, handle: usize) -> (r: XmpIterator<'a>)
        ensures
            r.handle() == handle,
            r.packet() == xmp@,
            !r.is_exhausted(),
    {
        XmpIterator { handle, exhausted: false, packet: xmp }
    }

    /// Whether the iterator is null.
    pub fn is_null(&self) -> (r: bool)
        ensures
            r == (self.handle() == 0),
    {
        self.handle == 0
    }

    /// The address of the native cursor.
    pub fn as_ptr(&self) -> (r: usize)
        ensures
            r == self.handle(),
    {
        self.handle
    }

    /// Prepares leaving out what `option` names: the subtree below the
    /// current node, or that and the node's remaining siblings. For a null
    /// iterator there is no call to make, and nothing was skipped.
    pub fn skip(&mut self, option: IterSkipFlags) -> (r: Option<SkipCall>)
        ensures
            *final(self) == *old(self),
            old(self).handle() != 0 ==> r == Some(
                SkipCall { iter: old(self).handle(), options: option@ },
            ),
            old(self).handle() == 0 ==> r.is_none(),
    {
        if self.is_null() {
            return None;
        }
        Some(SkipCall { iter: self.handle, options: option.bits() })
    }

    /// Prepares asking the cursor for the next record. For an iterator that
    /// is null or exhausted there is no call to make: the walk is over.
    pub fn next(&mut self) -> (r: Option<usize>)
        ensures
            *final(self) == *old(self),
            old(self).handle() != 0 && !old(self).is_exhausted() ==> r == Some(old(self).handle()),
            old(self).handle() == 0 || old(self).is_exhausted() ==> r.is_none(),
    {
        if self.handle == 0 || self.exhausted {
            None
        } else {
            Some(self.handle)
        }
    }

    /// Reads the reply of the cursor. On success the record is made of the
    /// three strings that the cursor filled and of its options, decoded
    /// from their raw mask. When the cursor reports the end, the iterator
    /// is exhausted, and an exhausted iterator yields no record.
    pub fn yielded(
        &mut self,
        ok: bool,
        schema: XmpString,
        name: XmpString,
        value: XmpString,
        raw_option: u32,
    ) -> (r: Option<IteratorValue>)
        ensures
            final(self).handle() == old(self).handle(),
            final(self).packet() == old(self).packet(),
            final(self).is_exhausted() == Self::exhausted_after(old(self).is_exhausted(), ok),
            !final(self).is_exhausted() ==> r == Some(
                IteratorValue { schema, name, value, option: PropFlags::spec_decode(raw_option) },
            ),
            !final(self).is_exhausted() ==> r.unwrap().option@ == decoded(
                raw_option,
                PropFlags::known(),
            ),
            final(self).is_exhausted() ==> r.is_none(),
    {
        if self.exhausted || !ok {
            self.exhausted = true;
            return None;
        }
        Some(IteratorValue { schema, name, value, option: PropFlags::decode(raw_option) })
    }

    /// Gives the iterator up. The result is the cursor to free, if there is
    /// one.
    pub fn release(self) -> (r: Option<usize>)
        ensures
            self.handle() == 0 ==> r.is_none(),
            self.handle() != 0 ==> r == Some(self.handle()),
    {
        if self.handle == 0 {
            None
        } else {
            Some(self.handle)
        }
    }
}

/// An exhausted iterator stays exhausted: after the cursor has once
/// reported the end, no sequence of later replies, whatever they say,
/// brings the walk back.
pub proof fn lemma_exhaustion_is_final(exhausted: bool, later: Seq<bool>)
    ensures
        later.fold_left(
            XmpIterator::exhausted_after(exhausted, false),
            |e: bool, ok: bool| XmpIterator::exhausted_after(e, ok),
        ),
    decreases later.len(),
{
    if later.len() > 0 {
        lemma_exhaustion_is_final(exhausted, later.drop_last());
    }
}

} // verus!
