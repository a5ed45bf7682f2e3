//! The runtime class records, mirrored from foreign memory. The foreign
//! layout encodes inheritance by struct prefixing: each level's record starts
//! with its base level's full data. Here each level nests its base inline in
//! `_super`, and one record of the object table carries the data of its most
//! derived level; projecting a record to a base level is the layout-preserving
//! reinterpretation the foreign code performs by pointer cast.
use vstd::prelude::*;

use crate::fname::FName;
use crate::tarray::TArray;
use crate::ueptr;

verus! {

/// An address held inside a record, naming another record of the object
/// table at its base level. Record fields carry these plain addresses; the
/// typed [`ueptr`] view is put on at the API boundary.
#[derive(Clone, Copy, PartialEq, Eq, Structural, Debug)]
pub struct ObjRef {
    pub addr: usize,
}

/// An address naming a record that extends `UField`.
#[derive(Clone, Copy, PartialEq, Eq, Structural, Debug)]
pub struct FieldRef {
    pub addr: usize,
}

/// An address naming a record that extends `UStruct`.
#[derive(Clone, Copy, PartialEq, Eq, Structural, Debug)]
pub struct StructRef {
    pub addr: usize,
}

/// An address naming a `UClass` record.
#[derive(Clone, Copy, PartialEq, Eq, Structural, Debug)]
pub struct ClassRef {
    pub addr: usize,
}

/// An address naming a record that extends `UProperty`.
#[derive(Clone, Copy, PartialEq, Eq, Structural, Debug)]
pub struct PropRef {
    pub addr: usize,
}

/// An address naming a `UEnum` record.
#[derive(Clone, Copy, PartialEq, Eq, Structural, Debug)]
pub struct EnumRef {
    pub addr: usize,
}

impl ObjRef {
    /// The typed view of this address.
    pub fn ptr(self) -> (r: ueptr<UObject>)
        ensures
            r.spec_addr() == self.addr,
    {
        ueptr::new(self.addr)
    }

    /// Records the address a typed reference carries.
    pub fn of(p: ueptr<UObject>) -> (r: ObjRef)
        ensures
            r.addr == p.spec_addr(),
    {
        ObjRef { addr: p.ptr() }
    }
}

impl FieldRef {
    /// The typed view of this address.
    pub fn ptr(self) -> (r: ueptr<UField>)
        ensures
            r.spec_addr() == self.addr,
    {
        ueptr::new(self.addr)
    }

    /// Records the address a typed reference carries.
    pub fn of(p: ueptr<UField>) -> (r: FieldRef)
        ensures
            r.addr == p.spec_addr(),
    {
        FieldRef { addr: p.ptr() }
    }
}

impl StructRef {
    /// The typed view of this address.
    pub fn ptr(self) -> (r: ueptr<UStruct>)
        ensures
            r.spec_addr() == self.addr,
    {
        ueptr::new(self.addr)
    }

    /// Records the address a typed reference carries.
    pub fn of(p: ueptr<UStruct>) -> (r: StructRef)
        ensures
            r.addr == p.spec_addr(),
    {
        StructRef { addr: p.ptr() }
    }
}

impl ClassRef {
    /// The typed view of this address.
    pub fn ptr(self) -> (r: ueptr<UClass>)
        ensures
            r.spec_addr() == self.addr,
    {
        ueptr::new(self.addr)
    }

    /// Records the address a typed reference carries.
    pub fn of(p: ueptr<UClass>) -> (r: ClassRef)
        ensures
            r.addr == p.spec_addr(),
    {
        ClassRef { addr: p.ptr() }
    }
}

impl PropRef {
    /// The typed view of this address.
    pub fn ptr(self) -> (r: ueptr<UProperty>)
        ensures
            r.spec_addr() == self.addr,
    {
        ueptr::new(self.addr)
    }

    /// Records the address a typed reference carries.
    pub fn of(p: ueptr<UProperty>) -> (r: PropRef)
        ensures
            r.addr == p.spec_addr(),
    {
        PropRef { addr: p.ptr() }
    }
}

impl EnumRef {
    /// The typed view of this address.
    pub fn ptr(self) -> (r: ueptr<UEnum>)
        ensures
            r.spec_addr() == self.addr,
    {
        ueptr::new(self.addr)
    }

    /// Records the address a typed reference carries.
    pub fn of(p: ueptr<UEnum>) -> (r: EnumRef)
        ensures
            r.addr == p.spec_addr(),
    {
        EnumRef { addr: p.ptr() }
    }
}

/// The universal base record: flags, an interned name, a containment
/// back-reference, and the runtime class describing this object.
pub struct UObject {
    pub ObjectFlags: u64,
    pub ObjectInternalInteger: i32,
    pub Outer: Option<ObjRef>,
    pub Name: FName,
    pub Class: ClassRef,
}

pub struct UField {
    pub _super: UObject,
    pub Next: Option<FieldRef>,
}

pub struct UStruct {
    pub _super: UField,
    pub SuperStruct: Option<StructRef>,
    pub Childern: Option<FieldRef>,
    pub PropertySize: u32,
}

pub struct UState {
    pub _super: UStruct,
}

pub struct UClass {
    pub _super: UState,
}

pub struct UScriptStruct {
    pub _super: UStruct,
}

pub struct UFunction {
    pub _super: UStruct,
    pub FunctionFlags: u64,
    pub iNative: u16,
    pub RepOffset: u16,
    pub FriendlyName: FName,
    pub OperatorPrecedence: u8,
    pub NumParms: u8,
    pub ParmsSize: u16,
    pub ReturnValueOffset: u32,
}

pub struct UConst {
    pub _super: UField,
    pub Value: String,
}

pub struct UEnum {
    pub _super: UField,
    pub Names: TArray<FName>,
}

/// The property flag marking a function parameter.
pub const PROPERTY_FLAG_PARM: u64 = 0x80;

/// The property flag marking the return value among a function's parameters.
pub const PROPERTY_FLAG_RETURN_PARM: u64 = 0x400;

pub struct UProperty {
    pub _super: UField,
    pub ArrayDim: u32,
    pub ElementSize: u32,
    pub PropertyFlags: u64,
    pub PropertySize: u32,
    pub Offset: u32,
}

pub struct UBoolProperty {
    pub _super: UProperty,
    pub BitMask: u64,
}

pub struct UByteProperty {
    pub _super: UProperty,
    pub Enum: EnumRef,
}

pub struct UIntProperty {
    pub _super: UProperty,
}

pub struct UFloatProperty {
    pub _super: UProperty,
}

pub struct UQWordProperty {
    pub _super: UProperty,
}

pub struct UStrProperty {
    pub _super: UProperty,
}

pub struct UNameProperty {
    pub _super: UProperty,
}

pub struct UDelegateProperty {
    pub _super: UProperty,
}

pub struct UObjectProperty {
    pub _super: UProperty,
    pub PropertyClass: ClassRef,
}

pub struct UClassProperty {
    pub _super: UObjectProperty,
    pub MetaClass: ClassRef,
}

pub struct UComponentProperty {
    pub _super: UObjectProperty,
}

pub struct UInterfaceProperty {
    pub _super: UProperty,
    pub InterfaceClass: ClassRef,
}

pub struct UArrayProperty {
    pub _super: UProperty,
    pub Inner: PropRef,
}

pub struct UMapProperty {
    pub _super: UProperty,
    pub Key: PropRef,
    pub Value: PropRef,
}

pub struct UStructProperty {
    pub _super: UProperty,
    pub Struct: StructRef,
}

/// One slot of the mirrored object table: the full record of a runtime
/// object, at its most derived level.
pub enum ObjectRecord {
    Object(UObject),
    Field(UField),
    Struct(UStruct),
    State(UState),
    Class(UClass),
    ScriptStruct(UScriptStruct),
    Function(UFunction),
    Const(UConst),
    Enum(UEnum),
    Property(UProperty),
    BoolProperty(UBoolProperty),
    ByteProperty(UByteProperty),
    IntProperty(UIntProperty),
    FloatProperty(UFloatProperty),
    QWordProperty(UQWordProperty),
    StrProperty(UStrProperty),
    NameProperty(UNameProperty),
    DelegateProperty(UDelegateProperty),
    ObjectProperty(UObjectProperty),
    ClassProperty(UClassProperty),
    ComponentProperty(UComponentProperty),
    InterfaceProperty(UInterfaceProperty),
    ArrayProperty(UArrayProperty),
    MapProperty(UMapProperty),
    StructProperty(UStructProperty),
}

/// The property level of a record, where the record extends `UProperty`.
pub open spec fn spec_as_property(rec: ObjectRecord) -> Option<UProperty> {
    match rec {
        ObjectRecord::Property(p) => Some(p),
        ObjectRecord::BoolProperty(p) => Some(p._super),
        ObjectRecord::ByteProperty(p) => Some(p._super),
        ObjectRecord::IntProperty(p) => Some(p._super),
        ObjectRecord::FloatProperty(p) => Some(p._super),
        ObjectRecord::QWordProperty(p) => Some(p._super),
        ObjectRecord::StrProperty(p) => Some(p._super),
        ObjectRecord::NameProperty(p) => Some(p._super),
        ObjectRecord::DelegateProperty(p) => Some(p._super),
        ObjectRecord::ObjectProperty(p) => Some(p._super),
        ObjectRecord::ClassProperty(p) => Some(p._super._super),
        ObjectRecord::ComponentProperty(p) => Some(p._super._super),
        ObjectRecord::InterfaceProperty(p) => Some(p._super),
        ObjectRecord::ArrayProperty(p) => Some(p._super),
        ObjectRecord::MapProperty(p) => Some(p._super),
        ObjectRecord::StructProperty(p) => Some(p._super),
        _ => None,
    }
}

/// The struct level of a record, where the record extends `UStruct`.
pub open spec fn spec_as_struct(rec: ObjectRecord) -> Option<UStruct> {
    match rec {
        ObjectRecord::Struct(s) => Some(s),
        ObjectRecord::State(s) => Some(s._super),
        ObjectRecord::Class(c) => Some(c._super._super),
        ObjectRecord::ScriptStruct(s) => Some(s._super),
        ObjectRecord::Function(f) => Some(f._super),
        _ => None,
    }
}

/// The field level of a record, where the record extends `UField`.
pub open spec fn spec_as_field(rec: ObjectRecord) -> Option<UField> {
    match spec_as_property(rec) {
        Some(p) => Some(p._super),
        None => match spec_as_struct(rec) {
            Some(s) => Some(s._super),
            None => match rec {
                ObjectRecord::Field(f) => Some(f),
                ObjectRecord::Const(c) => Some(c._super),
                ObjectRecord::Enum(e) => Some(e._super),
                _ => None,
            },
        },
    }
}

/// The base level of a record: every record extends `UObject`.
pub open spec fn spec_as_object(rec: ObjectRecord) -> UObject {
    match spec_as_field(rec) {
        Some(f) => f._super,
        None => match rec {
            ObjectRecord::Object(o) => o,
            _ => spec_as_field(rec)->0._super,
        },
    }
}

impl ObjectRecord {
    /// The property level, where this record extends `UProperty`.
    pub fn as_property(&self) -> (r: Option<&UProperty>)
        ensures
            (match r {
                Some(p) => spec_as_property(*self) == Some(*p),
                None => spec_as_property(*self) is None,
            }),
    {
        match self {
            ObjectRecord::Property(p) => Some(p),
            ObjectRecord::BoolProperty(p) => Some(&p._super),
            ObjectRecord::ByteProperty(p) => Some(&p._super),
            ObjectRecord::IntProperty(p) => Some(&p._super),
            ObjectRecord::FloatProperty(p) => Some(&p._super),
            ObjectRecord::QWordProperty(p) => Some(&p._super),
            ObjectRecord::StrProperty(p) => Some(&p._super),
            ObjectRecord::NameProperty(p) => Some(&p._super),
            ObjectRecord::DelegateProperty(p) => Some(&p._super),
            ObjectRecord::ObjectProperty(p) => Some(&p._super),
            ObjectRecord::ClassProperty(p) => Some(&p._super._super),
            ObjectRecord::ComponentProperty(p) => Some(&p._super._super),
            ObjectRecord::InterfaceProperty(p) => Some(&p._super),
            ObjectRecord::ArrayProperty(p) => Some(&p._super),
            ObjectRecord::MapProperty(p) => Some(&p._super),
            ObjectRecord::StructProperty(p) => Some(&p._super),
            _ => None,
        }
    }

    /// The struct level, where this record extends `UStruct`.
    pub fn as_struct(&self) -> (r: Option<&UStruct>)
        ensures
            (match r {
                Some(s) => spec_as_struct(*self) == Some(*s),
                None => spec_as_struct(*self) is None,
            }),
    {
        match self {
            ObjectRecord::Struct(s) => Some(s),
            ObjectRecord::State(s) => Some(&s._super),
            ObjectRecord::Class(c) => Some(&c._super._super),
            ObjectRecord::ScriptStruct(s) => Some(&s._super),
            ObjectRecord::Function(f) => Some(&f._super),
            _ => None,
        }
    }

    /// The field level, where this record extends `UField`.
    pub fn as_field(&self) -> (r: Option<&UField>)
        ensures
            (match r {
                Some(f) => spec_as_field(*self) == Some(*f),
                None => spec_as_field(*self) is None,
            }),
    {
        match self {
            ObjectRecord::Property(p) => Some(&p._super),
            ObjectRecord::BoolProperty(p) => Some(&p._super._super),
            ObjectRecord::ByteProperty(p) => Some(&p._super._super),
            ObjectRecord::IntProperty(p) => Some(&p._super._super),
            ObjectRecord::FloatProperty(p) => Some(&p._super._super),
            ObjectRecord::QWordProperty(p) => Some(&p._super._super),
            ObjectRecord::StrProperty(p) => Some(&p._super._super),
            ObjectRecord::NameProperty(p) => Some(&p._super._super),
            ObjectRecord::DelegateProperty(p) => Some(&p._super._super),
            ObjectRecord::ObjectProperty(p) => Some(&p._super._super),
            ObjectRecord::ClassProperty(p) => Some(&p._super._super._super),
            ObjectRecord::ComponentProperty(p) => Some(&p._super._super._super),
            ObjectRecord::InterfaceProperty(p) => Some(&p._super._super),
            ObjectRecord::ArrayProperty(p) => Some(&p._super._super),
            ObjectRecord::MapProperty(p) => Some(&p._super._super),
            ObjectRecord::StructProperty(p) => Some(&p._super._super),
            ObjectRecord::Struct(s) => Some(&s._super),
            ObjectRecord::State(s) => Some(&s._super._super),
            ObjectRecord::Class(c) => Some(&c._super._super._super),
            ObjectRecord::ScriptStruct(s) => Some(&s._super._super),
            ObjectRecord::Function(f) => Some(&f._super._super),
            ObjectRecord::Field(f) => Some(f),
            ObjectRecord::Const(c) => Some(&c._super),
            ObjectRecord::Enum(e) => Some(&e._super),
            ObjectRecord::Object(_) => None,
        }
    }

    /// The base level: every record extends `UObject`.
    pub fn as_object(&self) -> (r: &UObject)
        ensures
            *r == spec_as_object(*self),
    {
        match self {
            ObjectRecord::Object(o) => o,
            ObjectRecord::Property(p) => &p._super._super,
            ObjectRecord::BoolProperty(p) => &p._super._super._super,
            ObjectRecord::ByteProperty(p) => &p._super._super._super,
            ObjectRecord::IntProperty(p) => &p._super._super._super,
            ObjectRecord::FloatProperty(p) => &p._super._super._super,
            ObjectRecord::QWordProperty(p) => &p._super._super._super,
            ObjectRecord::StrProperty(p) => &p._super._super._super,
            ObjectRecord::NameProperty(p) => &p._super._super._super,
            ObjectRecord::DelegateProperty(p) => &p._super._super._super,
            ObjectRecord::ObjectProperty(p) => &p._super._super._super,
            ObjectRecord::ClassProperty(p) => &p._super._super._super._super,
            ObjectRecord::ComponentProperty(p) => &p._super._super._super._super,
            ObjectRecord::InterfaceProperty(p) => &p._super._super._super,
            ObjectRecord::ArrayProperty(p) => &p._super._super._super,
            ObjectRecord::MapProperty(p) => &p._super._super._super,
            ObjectRecord::StructProperty(p) => &p._super._super._super,
            ObjectRecord::Struct(s) => &s._super._super,
            ObjectRecord::State(s) => &s._super._super._super,
            ObjectRecord::Class(c) => &c._super._super._super._super,
            ObjectRecord::ScriptStruct(s) => &s._super._super._super,
            ObjectRecord::Function(f) => &f._super._super._super,
            ObjectRecord::Field(f) => &f._super,
            ObjectRecord::Const(c) => &c._super._super,
            ObjectRecord::Enum(e) => &e._super._super,
        }
    }
}

} // verus!
