//! The metadata packet: one native XMP object and the calls made on it.
//!
//! Every operation on a packet is one native call. A method here decides
//! whether that call may be made and with what arguments; the caller makes
//! it and reads its outcome with the functions of [`crate::reply`].
use vstd::prelude::*;
use vstd::string::StringSliceAdditionalSpecFns;
use crate::datetime::{DateTime, XmpDateTime};
use crate::error::{Error, XmpError};
use crate::flags::prop::PropFlags;
use crate::flags::serial::SerialFlags;
use crate::reply::failure;
use crate::text::{has_nul, CText};

verus! {

/// A native call that names one property of a packet.
#[derive(Debug)]
pub struct PropertyCall {
    /// The packet.
    pub xmp: usize,
    /// The namespace URI of the property.
    pub schema: CText,
    /// The name of the property.
    pub name: CText,
}

impl PropertyCall {
    /// Whether the call names the property `name` of `schema` in the packet
    /// at `xmp`, each text closed by its terminator.
    pub open spec fn is_for(&self, xmp: usize, schema: Seq<u8>, name: Seq<u8>) -> bool {
        &&& self.xmp == xmp
        &&& self.schema@ == schema.push(0u8)
        &&& self.name@ == name.push(0u8)
    }
}

/// A native call that gives a property a value of type `V`.
#[derive(Debug)]
pub struct SetPropertyCall<V> {
    /// The property.
    pub target: PropertyCall,
    /// The value.
    pub value: V,
    /// The raw option mask.
    pub options: u32,
}

/// A native call that reads one item of an array property.
#[derive(Debug)]
pub struct ArrayItemCall {
    /// The array property.
    pub target: PropertyCall,
    /// The index of the item.
    pub index: i32,
}

/// A native call that writes one item of an array property.
#[derive(Debug)]
pub struct SetArrayItemCall {
    /// The array property.
    pub target: PropertyCall,
    /// The index of the item.
    pub index: i32,
    /// The value of the item.
    pub value: CText,
    /// The raw option mask of the item.
    pub options: u32,
}

/// A native call that appends an item to an array property.
#[derive(Debug)]
pub struct AppendArrayItemCall {
    /// The array property.
    pub target: PropertyCall,
    /// The raw option mask of the array, used if it has to be created.
    pub array_options: u32,
    /// The value of the item.
    pub value: CText,
    /// The raw option mask of the item.
    pub item_options: u32,
}

/// A native call that names one language alternative of a property.
#[derive(Debug)]
pub struct LocalizedCall {
    /// The property.
    pub target: PropertyCall,
    /// The generic language.
    pub generic_lang: CText,
    /// The specific language.
    pub specific_lang: CText,
}

impl LocalizedCall {
    /// Whether the call names the alternative of the given languages of the
    /// property `name` of `schema` in the packet at `xmp`.
    pub open spec fn is_for(
        &self,
        xmp: usize,
        schema: Seq<u8>,
        name: Seq<u8>,
        generic_lang: Seq<u8>,
        specific_lang: Seq<u8>,
    ) -> bool {
        &&& self.target.is_for(xmp, schema, name)
        &&& self.generic_lang@ == generic_lang.push(0u8)
        &&& self.specific_lang@ == specific_lang.push(0u8)
    }
}

/// A native call that writes one language alternative of a property.
#[derive(Debug)]
pub struct SetLocalizedCall {
    /// The alternative.
    pub target: LocalizedCall,
    /// The text.
    pub value: CText,
    /// The raw option mask.
    pub options: u32,
}

/// A native call that serialises a packet.
#[derive(Clone, Copy, Debug, PartialEq, Eq, Structural)]
pub struct SerializeCall {
    /// The packet.
    pub xmp: usize,
    /// The raw option mask.
    pub options: u32,
    /// The padding, in bytes.
    pub padding: u32,
}

/// A native call that serialises a packet with a layout of the caller's.
#[derive(Debug)]
pub struct FormatCall {
    /// The packet, the options and the padding.
    pub base: SerializeCall,
    /// The text that ends a line.
    pub newline: CText,
    /// The text of one indentation step.
    pub tab: CText,
    /// The number of indentation steps to start from.
    pub indent: i32,
}

/// What has to be done to clone a packet.
#[derive(Debug)]
pub enum CloneStep {
    /// Nothing: the clone of a null packet is this null packet.
    Done(Xmp),
    /// Copy the native object at `source` and adopt the copy.
    Copy { source: usize },
}

/// A metadata packet: the owner of one native XMP object.
///
/// The packet is null when the native side could not hand out an object.
/// A packet cannot be copied; its clone is a deep copy made by the native
/// side, which the packet only asks for.
#[derive(Debug)]
pub struct Xmp {
    handle: usize,
}

impl Xmp {
    /// The address of the native object; zero for a null packet.
    pub closed spec fn view(&self) -> usize {
        self.handle
    }

    /// Adopts the object that the native constructor handed out.
    pub fn new(handle: usize) -> (r: Xmp)
        ensures
            r@ == handle,
    {
        Xmp { handle }
    }

    /// Reads the outcome of constructing a packet from a buffer: a null
    /// handle means that the native parser refused the buffer.
    pub fn from_buffer(handle: usize, last_error: i32) -> (r: Result<Xmp, Error>)
        ensures
            handle != 0 ==> r.is_ok() && r.unwrap()@ == handle,
            handle == 0 ==> r.is_err() && r.unwrap_err() == failure(last_error),
    {
        match crate::reply::handle(handle, last_error) {
            Ok(h) => Ok(Xmp { handle: h }),
            Err(e) => Err(e),
        }
    }

    /// The object to parse a buffer into. A null packet cannot take one.
    pub fn parse(&mut self) -> (r: usize)
        requires
            old(self)@ != 0,
        ensures
            r == old(self)@,
            final(self)@ == old(self)@,
    {
        self.handle
    }

    /// Prepares serialising the packet. A null packet is a bad object.
    pub fn serialize(&self, options: SerialFlags, padding: u32) -> (r: Result<SerializeCall, Error>)
        ensures
            self@ != 0 ==> r == Ok::<SerializeCall, Error>(
                SerializeCall { xmp: self@, options: options@, padding },
            ),
            self@ == 0 ==> r == Err::<SerializeCall, Error>(Error(XmpError::BadObject)),
    {
        if self.is_null() {
            return Err(Error(XmpError::BadObject));
        }
        Ok(SerializeCall { xmp: self.handle, options: options.bits(), padding })
    }

    /// Prepares serialising the packet with the caller's line end and
    /// indentation. A null packet is a bad object; a text with a zero byte
    /// in it is a bad parameter.
    pub fn serialize_and_format(
        &self,
        options: SerialFlags,
        padding: u32,
        newline: &str,
        tab: &str,
        indent: i32,
    ) -> (r: Result<FormatCall, Error>)
        ensures
            r.is_ok() <==> self@ != 0 && !has_nul(newline.spec_bytes()) && !has_nul(
                tab.spec_bytes(),
            ),
            r matches Ok(c) ==> {
                &&& c.base == (SerializeCall { xmp: self@, options: options@, padding })
                &&& c.newline@ == newline.spec_bytes().push(0u8)
                &&& c.tab@ == tab.spec_bytes().push(0u8)
                &&& c.indent == indent
            },
            r matches Err(e) ==> e == Error(
                if self@ == 0 {
                    XmpError::BadObject
                } else {
                    XmpError::BadParam
                },
            ),
    {
        let base = match self.serialize(options, padding) {
            Ok(b) => b,
            Err(e) => {
                return Err(e);
            },
        };
        let newline = match CText::encode(newline) {
            Ok(t) => t,
            Err(e) => {
                return Err(e);
            },
        };
        let tab = match CText::encode(tab) {
            Ok(t) => t,
            Err(e) => {
                return Err(e);
            },
        };
        Ok(FormatCall { base, newline, tab, indent })
    }

    /// What a method that names a property returns: the call for that
    /// property, or a bad-parameter error exactly when the schema or the
    /// name holds a zero byte.
    pub open spec fn names_property(
        r: Result<PropertyCall, Error>,
        xmp: usize,
        schema: Seq<u8>,
        name: Seq<u8>,
    ) -> bool {
        &&& r.is_ok() <==> !has_nul(schema) && !has_nul(name)
        &&& r matches Ok(c) ==> c.is_for(xmp, schema, name)
        &&& r matches Err(e) ==> e == Error(XmpError::BadParam)
    }

    /// What a method that names a language alternative returns: the call
    /// for it, or a bad-parameter error exactly when one of the four texts
    /// holds a zero byte.
    pub open spec fn names_alternative(
        r: Result<LocalizedCall, Error>,
        xmp: usize,
        schema: Seq<u8>,
        name: Seq<u8>,
        generic_lang: Seq<u8>,
        specific_lang: Seq<u8>,
    ) -> bool {
        &&& r.is_ok() <==> !has_nul(schema) && !has_nul(name) && !has_nul(generic_lang)
            && !has_nul(specific_lang)
        &&& r matches Ok(c) ==> c.is_for(xmp, schema, name, generic_lang, specific_lang)
        &&& r matches Err(e) ==> e == Error(XmpError::BadParam)
    }

    /// Encodes the schema and the name of a property of this packet.
    pub fn property(&self, schema: &str, name: &str) -> (r: Result<PropertyCall, Error>)
        ensures
            Self::names_property(r, self@, schema.spec_bytes(), name.spec_bytes()),
    {
        let schema = match CText::encode(schema) {
            Ok(t) => t,
            Err(e) => {
                return Err(e);
            },
        };
        let name = match CText::encode(name) {
            Ok(t) => t,
            Err(e) => {
                return Err(e);
            },
        };
        Ok(PropertyCall { xmp: self.handle, schema, name })
    }

    /// Encodes the schema, the name and the two languages of a language
    /// alternative of a property of this packet.
    pub fn alternative(
        &self,
        schema: &str,
        name: &str,
        gen_lang: &str,
        spec_lang: &str,
    ) -> (r: Result<LocalizedCall, Error>)
        ensures
            Self::names_alternative(
                r,
                self@,
                schema.spec_bytes(),
                name.spec_bytes(),
                gen_lang.spec_bytes(),
                spec_lang.spec_bytes(),
            ),
    {
        let target = match self.property(schema, name) {
            Ok(t) => t,
            Err(e) => {
                return Err(e);
            },
        };
        let generic_lang = match CText::encode(gen_lang) {
            Ok(t) => t,
            Err(e) => {
                return Err(e);
            },
        };
        let specific_lang = match CText::encode(spec_lang) {
            Ok(t) => t,
            Err(e) => {
                return Err(e);
            },
        };
        Ok(LocalizedCall { target, generic_lang, specific_lang })
    }

    /// Prepares reading a property as a string.
    pub fn get_property(&self, schema: &str, name: &str) -> (r: Result<PropertyCall, Error>)
        ensures
            Self::names_property(r, self@, schema.spec_bytes(), name.spec_bytes()),
    {
        self.property(schema, name)
    }

    /// Prepares reading a property as a date.
    pub fn get_property_date(&self, schema: &str, name: &str) -> (r: Result<PropertyCall, Error>)
        ensures
            Self::names_property(r, self@, schema.spec_bytes(), name.spec_bytes()),
    {
        self.property(schema, name)
    }

    /// Prepares reading a property as a floating-point number.
    pub fn get_property_float(&self, schema: &str, name: &str) -> (r: Result<PropertyCall, Error>)
        ensures
            Self::names_property(r, self@, schema.spec_bytes(), name.spec_bytes()),
    {
        self.property(schema, name)
    }

    /// Prepares reading a property as a boolean.
    pub fn get_property_bool(&self, schema: &str, name: &str) -> (r: Result<PropertyCall, Error>)
        ensures
            Self::names_property(r, self@, schema.spec_bytes(), name.spec_bytes()),
    {
        self.property(schema, name)
    }

    /// Prepares reading a property as a 32-bit integer.
    pub fn get_property_i32(&self, schema: &str, name: &str) -> (r: Result<PropertyCall, Error>)
        ensures
            Self::names_property(r, self@, schema.spec_bytes(), name.spec_bytes()),
    {
        self.property(schema, name)
    }

    /// Prepares reading a property as a 64-bit integer.
    pub fn get_property_i64(&self, schema: &str, name: &str) -> (r: Result<PropertyCall, Error>)
        ensures
            Self::names_property(r, self@, schema.spec_bytes(), name.spec_bytes()),
    {
        self.property(schema, name)
    }

    /// Prepares reading the item at `index` of an array property.
    pub fn get_array_item(&self, schema: &str, name: &str, index: i32) -> (r: Result<
        ArrayItemCall,
        Error,
    >)
        ensures
            r.is_ok() <==> !has_nul(schema.spec_bytes()) && !has_nul(name.spec_bytes()),
            r matches Ok(c) ==> c.index == index && c.target.is_for(
                self@,
                schema.spec_bytes(),
                name.spec_bytes(),
            ),
            r matches Err(e) ==> e == Error(XmpError::BadParam),
    {
        match self.property(schema, name) {
            Ok(target) => Ok(ArrayItemCall { target, index }),
            Err(e) => Err(e),
        }
    }

    /// Prepares giving a property a value that needs no encoding. The value
    /// and the options reach the native side as they are.
    pub fn set_property_value<V>(
        &mut self,
        schema: &str,
        name: &str,
        value: V,
        optionbits: PropFlags,
    ) -> (r: Result<SetPropertyCall<V>, Error>)
        ensures
            final(self)@ == old(self)@,
            r.is_ok() <==> !has_nul(schema.spec_bytes()) && !has_nul(name.spec_bytes()),
            r matches Ok(c) ==> {
                &&& c.target.is_for(old(self)@, schema.spec_bytes(), name.spec_bytes())
                &&& c.value == value
                &&& c.options == optionbits@
            },
            r matches Err(e) ==> e == Error(XmpError::BadParam),
    {
        match self.property(schema, name) {
            Ok(target) => Ok(SetPropertyCall { target, value, options: optionbits.bits() }),
            Err(e) => Err(e),
        }
    }

    /// Prepares giving a property a string value.
    pub fn set_property(
        &mut self,
        schema: &str,
        name: &str,
        value: &str,
        optionbits: PropFlags,
    ) -> (r: Result<SetPropertyCall<CText>, Error>)
        ensures
            final(self)@ == old(self)@,
            r.is_ok() <==> !has_nul(schema.spec_bytes()) && !has_nul(name.spec_bytes())
                && !has_nul(value.spec_bytes()),
            r matches Ok(c) ==> {
                &&& c.target.is_for(old(self)@, schema.spec_bytes(), name.spec_bytes())
                &&& c.value@ == value.spec_bytes().push(0u8)
                &&& c.options == optionbits@
            },
            r matches Err(e) ==> e == Error(XmpError::BadParam),
    {
        let target = match self.property(schema, name) {
            Ok(t) => t,
            Err(e) => {
                return Err(e);
            },
        };
        match CText::encode(value) {
            Ok(value) => Ok(SetPropertyCall { target, value, options: optionbits.bits() }),
            Err(e) => Err(e),
        }
    }

    /// Prepares giving a property a date value.
    pub fn set_property_date(
        &mut self,
        schema: &str,
        name: &str,
        value: &DateTime,
        optionbits: PropFlags,
    ) -> (r: Result<SetPropertyCall<XmpDateTime>, Error>)
        ensures
            final(self)@ == old(self)@,
            r.is_ok() <==> !has_nul(schema.spec_bytes()) && !has_nul(name.spec_bytes()),
            r matches Ok(c) ==> {
                &&& c.target.is_for(old(self)@, schema.spec_bytes(), name.spec_bytes())
                &&& c.value == value@
                &&& c.options == optionbits@
            },
            r matches Err(e) ==> e == Error(XmpError::BadParam),
    {
        self.set_property_value(schema, name, value.record(), optionbits)
    }

    /// Prepares giving a property a boolean value.
    pub fn set_property_bool(
        &mut self,
        schema: &str,
        name: &str,
        value: bool,
        optionbits: PropFlags,
    ) -> (r: Result<SetPropertyCall<bool>, Error>)
        ensures
            final(self)@ == old(self)@,
            r.is_ok() <==> !has_nul(schema.spec_bytes()) && !has_nul(name.spec_bytes()),
            r matches Ok(c) ==> {
                &&& c.target.is_for(old(self)@, schema.spec_bytes(), name.spec_bytes())
                &&& c.value == value
                &&& c.options == optionbits@
            },
            r matches Err(e) ==> e == Error(XmpError::BadParam),
    {
        self.set_property_value(schema, name, value, optionbits)
    }

    /// Prepares giving a property a 32-bit integer value.
    pub fn set_property_i32(
        &mut self,
        schema: &str,
        name: &str,
        value: i32,
        optionbits: PropFlags,
    ) -> (r: Result<SetPropertyCall<i32>, Error>)
        ensures
            final(self)@ == old(self)@,
            r.is_ok() <==> !has_nul(schema.spec_bytes()) && !has_nul(name.spec_bytes()),
            r matches Ok(c) ==> {
                &&& c.target.is_for(old(self)@, schema.spec_bytes(), name.spec_bytes())
                &&& c.value == value
                &&& c.options == optionbits@
            },
            r matches Err(e) ==> e == Error(XmpError::BadParam),
    {
        self.set_property_value(schema, name, value, optionbits)
    }

    /// Prepares giving a property a 64-bit integer value.
    pub fn set_property_i64(
        &mut self,
        schema: &str,
        name: &str,
        value: i64,
        optionbits: PropFlags,
    ) -> (r: Result<SetPropertyCall<i64>, Error>)
        ensures
            final(self)@ == old(self)@,
            r.is_ok() <==> !has_nul(schema.spec_bytes()) && !has_nul(name.spec_bytes()),
            r matches Ok(c) ==> {
                &&& c.target.is_for(old(self)@, schema.spec_bytes(), name.spec_bytes())
                &&& c.value == value
                &&& c.options == optionbits@
            },
            r matches Err(e) ==> e == Error(XmpError::BadParam),
    {
        self.set_property_value(schema, name, value, optionbits)
    }

    /// Prepares writing the item at `index` of an array property.
    pub fn set_array_item(
        &mut self,
        schema: &str,
        name: &str,
        index: i32,
        value: &str,
        item_options: PropFlags,
    ) -> (r: Result<SetArrayItemCall, Error>)
        ensures
            final(self)@ == old(self)@,
            r.is_ok() <==> !has_nul(schema.spec_bytes()) && !has_nul(name.spec_bytes())
                && !has_nul(value.spec_bytes()),
            r matches Ok(c) ==> {
                &&& c.target.is_for(old(self)@, schema.spec_bytes(), name.spec_bytes())
                &&& c.index == index
                &&& c.value@ == value.spec_bytes().push(0u8)
                &&& c.options == item_options@
            },
            r matches Err(e) ==> e == Error(XmpError::BadParam),
    {
        let target = match self.property(schema, name) {
            Ok(t) => t,
            Err(e) => {
                return Err(e);
            },
        };
        match CText::encode(value) {
            Ok(value) => Ok(
                SetArrayItemCall { target, index, value, options: item_options.bits() },
            ),
            Err(e) => Err(e),
        }
    }

    /// Prepares appending an item to an array property. The array options
    /// say of what form the array is if it has to be created.
    pub fn append_array_item(
        &mut self,
        schema: &str,
        name: &str,
        array_options: PropFlags,
        value: &str,
        item_options: PropFlags,
    ) -> (r: Result<AppendArrayItemCall, Error>)
        ensures
            final(self)@ == old(self)@,
            r.is_ok() <==> !has_nul(schema.spec_bytes()) && !has_nul(name.spec_bytes())
                && !has_nul(value.spec_bytes()),
            r matches Ok(c) ==> {
                &&& c.target.is_for(old(self)@, schema.spec_bytes(), name.spec_bytes())
                &&& c.array_options == array_options@
                &&& c.value@ == value.spec_bytes().push(0u8)
                &&& c.item_options == item_options@
            },
            r matches Err(e) ==> e == Error(XmpError::BadParam),
    {
        let target = match self.property(schema, name) {
            Ok(t) => t,
            Err(e) => {
                return Err(e);
            },
        };
        match CText::encode(value) {
            Ok(value) => Ok(
                AppendArrayItemCall {
                    target,
                    array_options: array_options.bits(),
                    value,
                    item_options: item_options.bits(),
                },
            ),
            Err(e) => Err(e),
        }
    }

    /// Prepares deleting a property.
    pub fn delete_property(&mut self, schema: &str, name: &str) -> (r: Result<PropertyCall, Error>)
        ensures
            final(self)@ == old(self)@,
            Self::names_property(r, old(self)@, schema.spec_bytes(), name.spec_bytes()),
    {
        self.property(schema, name)
    }

    /// Prepares asking whether a property exists. The question cannot fail:
    /// where there is no call to make, because the schema or the name holds
    /// a zero byte, the answer is no.
    pub fn has_property(&self, schema: &str, name: &str) -> (r: Option<PropertyCall>)
        ensures
            r.is_some() <==> !has_nul(schema.spec_bytes()) && !has_nul(name.spec_bytes()),
            r matches Some(c) ==> c.is_for(self@, schema.spec_bytes(), name.spec_bytes()),
    {
        match self.property(schema, name) {
            Ok(c) => Some(c),
            Err(_) => None,
        }
    }

    /// Prepares reading the text of a property in a language. Which
    /// alternative matches the two languages is for the native side to say.
    pub fn get_localized_text(
        &self,
        schema: &str,
        name: &str,
        gen_lang: &str,
        spec_lang: &str,
    ) -> (r: Result<LocalizedCall, Error>)
        ensures
            Self::names_alternative(
                r,
                self@,
                schema.spec_bytes(),
                name.spec_bytes(),
                gen_lang.spec_bytes(),
                spec_lang.spec_bytes(),
            ),
    {
        self.alternative(schema, name, gen_lang, spec_lang)
    }

    /// Prepares writing the text of a property in a language.
    pub fn set_localized_text(
        &mut self,
        schema: &str,
        name: &str,
        gen_lang: &str,
        spec_lang: &str,
        value: &str,
        propbits: PropFlags,
    ) -> (r: Result<SetLocalizedCall, Error>)
        ensures
            final(self)@ == old(self)@,
            r.is_ok() <==> !has_nul(schema.spec_bytes()) && !has_nul(name.spec_bytes())
                && !has_nul(gen_lang.spec_bytes()) && !has_nul(spec_lang.spec_bytes())
                && !has_nul(value.spec_bytes()),
            r matches Ok(c) ==> {
                &&& c.target.is_for(
                    old(self)@,
                    schema.spec_bytes(),
                    name.spec_bytes(),
                    gen_lang.spec_bytes(),
                    spec_lang.spec_bytes(),
                )
                &&& c.value@ == value.spec_bytes().push(0u8)
                &&& c.options == propbits@
            },
            r matches Err(e) ==> e == Error(XmpError::BadParam),
    {
        let target = match self.alternative(schema, name, gen_lang, spec_lang) {
            Ok(t) => t,
            Err(e) => {
                return Err(e);
            },
        };
        match CText::encode(value) {
            Ok(value) => Ok(SetLocalizedCall { target, value, options: propbits.bits() }),
            Err(e) => Err(e),
        }
    }

    /// Prepares deleting the text of a property in a language.
    pub fn delete_localized_text(
        &mut self,
        schema: &str,
        name: &str,
        gen_lang: &str,
        spec_lang: &str,
    ) -> (r: Result<LocalizedCall, Error>)
        ensures
            final(self)@ == old(self)@,
            Self::names_alternative(
                r,
                old(self)@,
                schema.spec_bytes(),
                name.spec_bytes(),
                gen_lang.spec_bytes(),
                spec_lang.spec_bytes(),
            ),
    {
        self.alternative(schema, name, gen_lang, spec_lang)
    }

    /// Whether the packet is null.
    pub fn is_null(&self) -> (r: bool)
        ensures
            r == (self@ == 0),
    {
        self.handle == 0
    }

    /// The address of the native object, for calls that only read it.
    pub fn as_ptr(&self) -> (r: usize)
        ensures
            r == self@,
    {
        self.handle
    }

    /// The address of the native object, for calls that change it.
    pub fn as_mut_ptr(&mut self) -> (r: usize)
        ensures
            r == old(self)@,
            final(self)@ == old(self)@,
    {
        self.handle
    }

    /// What has to be done to clone the packet. The clone of a null packet
    /// is a null packet, not an error; any other packet is copied by the
    /// native side.
    pub fn clone_step(&self) -> (r: CloneStep)
        ensures
            self@ == 0 ==> (r matches CloneStep::Done(x) && x@ == 0),
            self@ != 0 ==> (r matches CloneStep::Copy { source } && source == self@),
    {
        if self.is_null() {
            CloneStep::Done(Xmp { handle: 0 })
        } else {
            CloneStep::Copy { source: self.handle }
        }
    }

    /// Gives the packet up. The result is the native object to free, if
    /// there is one: as the packet is gone after this, no object is freed
    /// twice, and for a null packet nothing is freed at all.
    pub fn release(self) -> (r: Option<usize>)
        ensures
            self@ == 0 ==> r.is_none(),
            self@ != 0 ==> r == Some(self@),
    {
        if self.handle == 0 {
            None
        } else {
            Some(self.handle)
        }
    }
}

impl vstd::std_specs::convert::FromSpecImpl<usize> for Xmp {
    open spec fn obeys_from_spec() -> bool {
        true
    }

    open spec fn from_spec(handle: usize) -> Xmp {
        Xmp::spec_adopt(handle)
    }
}

impl Xmp {
    /// The packet that owns the native object at `handle`.
    pub closed spec fn spec_adopt(handle: usize) -> Xmp {
        Xmp { handle }
    }
}

impl From<usize> for Xmp {
    /// Adopts a native object; the packet owns it from here on.
    fn from(handle: usize) -> (r: Xmp)
        ensures
            r@ == handle,
    {
        Xmp { handle }
    }
}

} // verus!
