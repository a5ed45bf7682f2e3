//! The closed set of runtime type tags: each record type carries its
//! compile-time-known package and name, under which its runtime class record
//! is registered in the object table, and a projection picking its level out
//! of a full record. The projection is the layout-preserving reinterpretation
//! that the foreign code performs by pointer cast; here it is total only on
//! the record shapes that actually extend the tag's level.
use vstd::prelude::*;

use crate::gtables::GlobalTables;
use crate::ueptr;
use crate::records::{ObjectRecord, spec_as_field, spec_as_object, spec_as_property,
    spec_as_struct};
use crate::records::{UArrayProperty, UBoolProperty, UByteProperty, UClass, UClassProperty,
    UComponentProperty, UConst, UDelegateProperty, UEnum, UField, UFloatProperty, UFunction,
    UIntProperty, UInterfaceProperty, UMapProperty, UNameProperty, UObject, UObjectProperty,
    UProperty, UQWordProperty, UScriptStruct, UState, UStrProperty, UStruct, UStructProperty};

verus! {

/// The textual key a type tag's runtime class record is registered under.
pub open spec fn spec_class_key<T: StaticClass + ?Sized>() -> Seq<char> {
    "Class "@ + T::spec_package() + "::"@ + T::spec_name()
}

/// A runtime type tag: a type whose runtime class record is registered in
/// the object table under the fixed key `"Class <package>::<name>"`.
pub trait StaticClass {
    spec fn spec_package() -> Seq<char>;

    spec fn spec_name() -> Seq<char>;

    /// The package half of the registration key.
    fn unreal_package() -> (s: &'static str)
        ensures
            s@ == Self::spec_package(),
    ;

    /// The name half of the registration key.
    fn unreal_name() -> (s: &'static str)
        ensures
            s@ == Self::spec_name(),
    ;

}

/// Resolves the class record registered for a tag, by its fixed textual
/// key; `None` when the snapshot holds no such registration.
pub fn StaticClass<T: StaticClass + ?Sized>(g: &GlobalTables) -> (r: Option<
    ueptr<crate::records::UClass>,
>)
    requires
        g.wf(),
    ensures
        (match r {
            Some(p) => crate::records::UObject::spec_find_class(*g, spec_class_key::<T>()) == Some(
                p.spec_addr() as int,
            ),
            None => crate::records::UObject::spec_find_class(*g, spec_class_key::<T>()) is None,
        }),
{
    let mut key = String::from_str("Class ");
    key.append(T::unreal_package());
    key.append("::");
    key.append(T::unreal_name());
    proof {
        assert(key@ =~= spec_class_key::<T>());
    }
    crate::records::UObject::FindClass(g, key.as_str())
}

/// A record level that can be projected out of a full object record.
pub trait UnrealObject: StaticClass + Sized {
    /// Which records hold this level, and the level's data inside them.
    spec fn spec_project(rec: ObjectRecord) -> Option<Self>;

    /// Picks this level out of a record, exactly where the record's shape
    /// extends it.
    fn project(rec: &ObjectRecord) -> (r: Option<&Self>)
        ensures
            (match r {
                Some(v) => Self::spec_project(*rec) == Some(*v),
                None => Self::spec_project(*rec) is None,
            }),
    ;
}

impl StaticClass for UObject {
    open spec fn spec_package() -> Seq<char> {
        "Core"@
    }

    open spec fn spec_name() -> Seq<char> {
        "Object"@
    }

    fn unreal_package() -> (s: &'static str) {
        "Core"
    }

    fn unreal_name() -> (s: &'static str) {
        "Object"
    }
}

impl UnrealObject for UObject {
    open spec fn spec_project(rec: ObjectRecord) -> Option<UObject> {
        Some(spec_as_object(rec))
    }

    fn project(rec: &ObjectRecord) -> (r: Option<&UObject>) {
        Some(rec.as_object())
    }
}

impl StaticClass for UField {
    open spec fn spec_package() -> Seq<char> {
        "Core"@
    }

    open spec fn spec_name() -> Seq<char> {
        "Field"@
    }

    fn unreal_package() -> (s: &'static str) {
        "Core"
    }

    fn unreal_name() -> (s: &'static str) {
        "Field"
    }
}

impl UnrealObject for UField {
    open spec fn spec_project(rec: ObjectRecord) -> Option<UField> {
        spec_as_field(rec)
    }

    fn project(rec: &ObjectRecord) -> (r: Option<&UField>) {
        rec.as_field()
    }
}

impl StaticClass for UStruct {
    open spec fn spec_package() -> Seq<char> {
        "Core"@
    }

    open spec fn spec_name() -> Seq<char> {
        "Struct"@
    }

    fn unreal_package() -> (s: &'static str) {
        "Core"
    }

    fn unreal_name() -> (s: &'static str) {
        "Struct"
    }
}

impl UnrealObject for UStruct {
    open spec fn spec_project(rec: ObjectRecord) -> Option<UStruct> {
        spec_as_struct(rec)
    }

    fn project(rec: &ObjectRecord) -> (r: Option<&UStruct>) {
        rec.as_struct()
    }
}

impl StaticClass for UState {
    open spec fn spec_package() -> Seq<char> {
        "Core"@
    }

    open spec fn spec_name() -> Seq<char> {
        "State"@
    }

    fn unreal_package() -> (s: &'static str) {
        "Core"
    }

    fn unreal_name() -> (s: &'static str) {
        "State"
    }
}

impl UnrealObject for UState {
    open spec fn spec_project(rec: ObjectRecord) -> Option<UState> {
        match rec {
            ObjectRecord::State(s) => Some(s),
            ObjectRecord::Class(c) => Some(c._super),
            _ => None,
        }
    }

    fn project(rec: &ObjectRecord) -> (r: Option<&UState>) {
        match rec {
            ObjectRecord::State(s) => Some(s),
            ObjectRecord::Class(c) => Some(&c._super),
            _ => None,
        }
    }
}

impl StaticClass for UClass {
    open spec fn spec_package() -> Seq<char> {
        "Core"@
    }

    open spec fn spec_name() -> Seq<char> {
        "Class"@
    }

    fn unreal_package() -> (s: &'static str) {
        "Core"
    }

    fn unreal_name() -> (s: &'static str) {
        "Class"
    }
}

impl UnrealObject for UClass {
    open spec fn spec_project(rec: ObjectRecord) -> Option<UClass> {
        match rec {
            ObjectRecord::Class(c) => Some(c),
            _ => None,
        }
    }

    fn project(rec: &ObjectRecord) -> (r: Option<&UClass>) {
        match rec {
            ObjectRecord::Class(c) => Some(c),
            _ => None,
        }
    }
}

impl StaticClass for UScriptStruct {
    open spec fn spec_package() -> Seq<char> {
        "Core"@
    }

    open spec fn spec_name() -> Seq<char> {
        "ScriptStruct"@
    }

    fn unreal_package() -> (s: &'static str) {
        "Core"
    }

    fn unreal_name() -> (s: &'static str) {
        "ScriptStruct"
    }
}

impl UnrealObject for UScriptStruct {
    open spec fn spec_project(rec: ObjectRecord) -> Option<UScriptStruct> {
        match rec {
            ObjectRecord::ScriptStruct(s) => Some(s),
            _ => None,
        }
    }

    fn project(rec: &ObjectRecord) -> (r: Option<&UScriptStruct>) {
        match rec {
            ObjectRecord::ScriptStruct(s) => Some(s),
            _ => None,
        }
    }
}

impl StaticClass for UFunction {
    open spec fn spec_package() -> Seq<char> {
        "Core"@
    }

    open spec fn spec_name() -> Seq<char> {
        "Function"@
    }

    fn unreal_package() -> (s: &'static str) {
        "Core"
    }

    fn unreal_name() -> (s: &'static str) {
        "Function"
    }
}

impl UnrealObject for UFunction {
    open spec fn spec_project(rec: ObjectRecord) -> Option<UFunction> {
        match rec {
            ObjectRecord::Function(f) => Some(f),
            _ => None,
        }
    }

    fn project(rec: &ObjectRecord) -> (r: Option<&UFunction>) {
        match rec {
            ObjectRecord::Function(f) => Some(f),
            _ => None,
        }
    }
}

impl StaticClass for UConst {
    open spec fn spec_package() -> Seq<char> {
        "Core"@
    }

    open spec fn spec_name() -> Seq<char> {
        "Const"@
    }

    fn unreal_package() -> (s: &'static str) {
        "Core"
    }

    fn unreal_name() -> (s: &'static str) {
        "Const"
    }
}

impl UnrealObject for UConst {
    open spec fn spec_project(rec: ObjectRecord) -> Option<UConst> {
        match rec {
            ObjectRecord::Const(c) => Some(c),
            _ => None,
        }
    }

    fn project(rec: &ObjectRecord) -> (r: Option<&UConst>) {
        match rec {
            ObjectRecord::Const(c) => Some(c),
            _ => None,
        }
    }
}

impl StaticClass for UEnum {
    open spec fn spec_package() -> Seq<char> {
        "Core"@
    }

    open spec fn spec_name() -> Seq<char> {
        "Enum"@
    }

    fn unreal_package() -> (s: &'static str) {
        "Core"
    }

    fn unreal_name() -> (s: &'static str) {
        "Enum"
    }
}

impl UnrealObject for UEnum {
    open spec fn spec_project(rec: ObjectRecord) -> Option<UEnum> {
        match rec {
            ObjectRecord::Enum(e) => Some(e),
            _ => None,
        }
    }

    fn project(rec: &ObjectRecord) -> (r: Option<&UEnum>) {
        match rec {
            ObjectRecord::Enum(e) => Some(e),
            _ => None,
        }
    }
}

impl StaticClass for UProperty {
    open spec fn spec_package() -> Seq<char> {
        "Core"@
    }

    open spec fn spec_name() -> Seq<char> {
        "Property"@
    }

    fn unreal_package() -> (s: &'static str) {
        "Core"
    }

    fn unreal_name() -> (s: &'static str) {
        "Property"
    }
}

impl UnrealObject for UProperty {
    open spec fn spec_project(rec: ObjectRecord) -> Option<UProperty> {
        spec_as_property(rec)
    }

    fn project(rec: &ObjectRecord) -> (r: Option<&UProperty>) {
        rec.as_property()
    }
}

impl StaticClass for UBoolProperty {
    open spec fn spec_package() -> Seq<char> {
        "Core"@
    }

    open spec fn spec_name() -> Seq<char> {
        "BoolProperty"@
    }

    fn unreal_package() -> (s: &'static str) {
        "Core"
    }

    fn unreal_name() -> (s: &'static str) {
        "BoolProperty"
    }
}

impl UnrealObject for UBoolProperty {
    open spec fn spec_project(rec: ObjectRecord) -> Option<UBoolProperty> {
        match rec {
            ObjectRecord::BoolProperty(p) => Some(p),
            _ => None,
        }
    }

    fn project(rec: &ObjectRecord) -> (r: Option<&UBoolProperty>) {
        match rec {
            ObjectRecord::BoolProperty(p) => Some(p),
            _ => None,
        }
    }
}

impl StaticClass for UByteProperty {
    open spec fn spec_package() -> Seq<char> {
        "Core"@
    }

    open spec fn spec_name() -> Seq<char> {
        "ByteProperty"@
    }

    fn unreal_package() -> (s: &'static str) {
        "Core"
    }

    fn unreal_name() -> (s: &'static str) {
        "ByteProperty"
    }
}

impl UnrealObject for UByteProperty {
    open spec fn spec_project(rec: ObjectRecord) -> Option<UByteProperty> {
        match rec {
            ObjectRecord::ByteProperty(p) => Some(p),
            _ => None,
        }
    }

    fn project(rec: &ObjectRecord) -> (r: Option<&UByteProperty>) {
        match rec {
            ObjectRecord::ByteProperty(p) => Some(p),
            _ => None,
        }
    }
}

impl StaticClass for UIntProperty {
    open spec fn spec_package() -> Seq<char> {
        "Core"@
    }

    open spec fn spec_name() -> Seq<char> {
        "IntProperty"@
    }

    fn unreal_package() -> (s: &'static str) {
        "Core"
    }

    fn unreal_name() -> (s: &'static str) {
        "IntProperty"
    }
}

impl UnrealObject for UIntProperty {
    open spec fn spec_project(rec: ObjectRecord) -> Option<UIntProperty> {
        match rec {
            ObjectRecord::IntProperty(p) => Some(p),
            _ => None,
        }
    }

    fn project(rec: &ObjectRecord) -> (r: Option<&UIntProperty>) {
        match rec {
            ObjectRecord::IntProperty(p) => Some(p),
            _ => None,
        }
    }
}

impl StaticClass for UFloatProperty {
    open spec fn spec_package() -> Seq<char> {
        "Core"@
    }

    open spec fn spec_name() -> Seq<char> {
        "FloatProperty"@
    }

    fn unreal_package() -> (s: &'static str) {
        "Core"
    }

    fn unreal_name() -> (s: &'static str) {
        "FloatProperty"
    }
}

impl UnrealObject for UFloatProperty {
    open spec fn spec_project(rec: ObjectRecord) -> Option<UFloatProperty> {
        match rec {
            ObjectRecord::FloatProperty(p) => Some(p),
            _ => None,
        }
    }

    fn project(rec: &ObjectRecord) -> (r: Option<&UFloatProperty>) {
        match rec {
            ObjectRecord::FloatProperty(p) => Some(p),
            _ => None,
        }
    }
}

impl StaticClass for UQWordProperty {
    open spec fn spec_package() -> Seq<char> {
        "Core"@
    }

    open spec fn spec_name() -> Seq<char> {
        "QWordProperty"@
    }

    fn unreal_package() -> (s: &'static str) {
        "Core"
    }

    fn unreal_name() -> (s: &'static str) {
        "QWordProperty"
    }
}

impl UnrealObject for UQWordProperty {
    open spec fn spec_project(rec: ObjectRecord) -> Option<UQWordProperty> {
        match rec {
            ObjectRecord::QWordProperty(p) => Some(p),
            _ => None,
        }
    }

    fn project(rec: &ObjectRecord) -> (r: Option<&UQWordProperty>) {
        match rec {
            ObjectRecord::QWordProperty(p) => Some(p),
            _ => None,
        }
    }
}

impl StaticClass for UStrProperty {
    open spec fn spec_package() -> Seq<char> {
        "Core"@
    }

    open spec fn spec_name() -> Seq<char> {
        "StrProperty"@
    }

    fn unreal_package() -> (s: &'static str) {
        "Core"
    }

    fn unreal_name() -> (s: &'static str) {
        "StrProperty"
    }
}

impl UnrealObject for UStrProperty {
    open spec fn spec_project(rec: ObjectRecord) -> Option<UStrProperty> {
        match rec {
            ObjectRecord::StrProperty(p) => Some(p),
            _ => None,
        }
    }

    fn project(rec: &ObjectRecord) -> (r: Option<&UStrProperty>) {
        match rec {
            ObjectRecord::StrProperty(p) => Some(p),
            _ => None,
        }
    }
}

impl StaticClass for UNameProperty {
    open spec fn spec_package() -> Seq<char> {
        "Core"@
    }

    open spec fn spec_name() -> Seq<char> {
        "NameProperty"@
    }

    fn unreal_package() -> (s: &'static str) {
        "Core"
    }

    fn unreal_name() -> (s: &'static str) {
        "NameProperty"
    }
}

impl UnrealObject for UNameProperty {
    open spec fn spec_project(rec: ObjectRecord) -> Option<UNameProperty> {
        match rec {
            ObjectRecord::NameProperty(p) => Some(p),
            _ => None,
        }
    }

    fn project(rec: &ObjectRecord) -> (r: Option<&UNameProperty>) {
        match rec {
            ObjectRecord::NameProperty(p) => Some(p),
            _ => None,
        }
    }
}

impl StaticClass for UDelegateProperty {
    open spec fn spec_package() -> Seq<char> {
        "Core"@
    }

    open spec fn spec_name() -> Seq<char> {
        "DelegateProperty"@
    }

    fn unreal_package() -> (s: &'static str) {
        "Core"
    }

    fn unreal_name() -> (s: &'static str) {
        "DelegateProperty"
    }
}

impl UnrealObject for UDelegateProperty {
    open spec fn spec_project(rec: ObjectRecord) -> Option<UDelegateProperty> {
        match rec {
            ObjectRecord::DelegateProperty(p) => Some(p),
            _ => None,
        }
    }

    fn project(rec: &ObjectRecord) -> (r: Option<&UDelegateProperty>) {
        match rec {
            ObjectRecord::DelegateProperty(p) => Some(p),
            _ => None,
        }
    }
}

impl StaticClass for UObjectProperty {
    open spec fn spec_package() -> Seq<char> {
        "Core"@
    }

    open spec fn spec_name() -> Seq<char> {
        "ObjectProperty"@
    }

    fn unreal_package() -> (s: &'static str) {
        "Core"
    }

    fn unreal_name() -> (s: &'static str) {
        "ObjectProperty"
    }
}

impl UnrealObject for UObjectProperty {
    open spec fn spec_project(rec: ObjectRecord) -> Option<UObjectProperty> {
        match rec {
            ObjectRecord::ObjectProperty(p) => Some(p),
            ObjectRecord::ClassProperty(p) => Some(p._super),
            ObjectRecord::ComponentProperty(p) => Some(p._super),
            _ => None,
        }
    }

    fn project(rec: &ObjectRecord) -> (r: Option<&UObjectProperty>) {
        match rec {
            ObjectRecord::ObjectProperty(p) => Some(p),
            ObjectRecord::ClassProperty(p) => Some(&p._super),
            ObjectRecord::ComponentProperty(p) => Some(&p._super),
            _ => None,
        }
    }
}

impl StaticClass for UClassProperty {
    open spec fn spec_package() -> Seq<char> {
        "Core"@
    }

    open spec fn spec_name() -> Seq<char> {
        "ClassProperty"@
    }

    fn unreal_package() -> (s: &'static str) {
        "Core"
    }

    fn unreal_name() -> (s: &'static str) {
        "ClassProperty"
    }
}

impl UnrealObject for UClassProperty {
    open spec fn spec_project(rec: ObjectRecord) -> Option<UClassProperty> {
        match rec {
            ObjectRecord::ClassProperty(p) => Some(p),
            _ => None,
        }
    }

    fn project(rec: &ObjectRecord) -> (r: Option<&UClassProperty>) {
        match rec {
            ObjectRecord::ClassProperty(p) => Some(p),
            _ => None,
        }
    }
}

impl StaticClass for UComponentProperty {
    open spec fn spec_package() -> Seq<char> {
        "Core"@
    }

    open spec fn spec_name() -> Seq<char> {
        "ComponentProperty"@
    }

    fn unreal_package() -> (s: &'static str) {
        "Core"
    }

    fn unreal_name() -> (s: &'static str) {
        "ComponentProperty"
    }
}

impl UnrealObject for UComponentProperty {
    open spec fn spec_project(rec: ObjectRecord) -> Option<UComponentProperty> {
        match rec {
            ObjectRecord::ComponentProperty(p) => Some(p),
            _ => None,
        }
    }

    fn project(rec: &ObjectRecord) -> (r: Option<&UComponentProperty>) {
        match rec {
            ObjectRecord::ComponentProperty(p) => Some(p),
            _ => None,
        }
    }
}

impl StaticClass for UInterfaceProperty {
    open spec fn spec_package() -> Seq<char> {
        "Core"@
    }

    open spec fn spec_name() -> Seq<char> {
        "InterfaceProperty"@
    }

    fn unreal_package() -> (s: &'static str) {
        "Core"
    }

    fn unreal_name() -> (s: &'static str) {
        "InterfaceProperty"
    }
}

impl UnrealObject for UInterfaceProperty {
    open spec fn spec_project(rec: ObjectRecord) -> Option<UInterfaceProperty> {
        match rec {
            ObjectRecord::InterfaceProperty(p) => Some(p),
            _ => None,
        }
    }

    fn project(rec: &ObjectRecord) -> (r: Option<&UInterfaceProperty>) {
        match rec {
            ObjectRecord::InterfaceProperty(p) => Some(p),
            _ => None,
        }
    }
}

impl StaticClass for UArrayProperty {
    open spec fn spec_package() -> Seq<char> {
        "Core"@
    }

    open spec fn spec_name() -> Seq<char> {
        "ArrayProperty"@
    }

    fn unreal_package() -> (s: &'static str) {
        "Core"
    }

    fn unreal_name() -> (s: &'static str) {
        "ArrayProperty"
    }
}

impl UnrealObject for UArrayProperty {
    open spec fn spec_project(rec: ObjectRecord) -> Option<UArrayProperty> {
        match rec {
            ObjectRecord::ArrayProperty(p) => Some(p),
            _ => None,
        }
    }

    fn project(rec: &ObjectRecord) -> (r: Option<&UArrayProperty>) {
        match rec {
            ObjectRecord::ArrayProperty(p) => Some(p),
            _ => None,
        }
    }
}

impl StaticClass for UMapProperty {
    open spec fn spec_package() -> Seq<char> {
        "Core"@
    }

    open spec fn spec_name() -> Seq<char> {
        "MapProperty"@
    }

    fn unreal_package() -> (s: &'static str) {
        "Core"
    }

    fn unreal_name() -> (s: &'static str) {
        "MapProperty"
    }
}

impl UnrealObject for UMapProperty {
    open spec fn spec_project(rec: ObjectRecord) -> Option<UMapProperty> {
        match rec {
            ObjectRecord::MapProperty(p) => Some(p),
            _ => None,
        }
    }

    fn project(rec: &ObjectRecord) -> (r: Option<&UMapProperty>) {
        match rec {
            ObjectRecord::MapProperty(p) => Some(p),
            _ => None,
        }
    }
}

impl StaticClass for UStructProperty {
    open spec fn spec_package() -> Seq<char> {
        "Core"@
    }

    open spec fn spec_name() -> Seq<char> {
        "StructProperty"@
    }

    fn unreal_package() -> (s: &'static str) {
        "Core"
    }

    fn unreal_name() -> (s: &'static str) {
        "StructProperty"
    }
}

impl UnrealObject for UStructProperty {
    open spec fn spec_project(rec: ObjectRecord) -> Option<UStructProperty> {
        match rec {
            ObjectRecord::StructProperty(p) => Some(p),
            _ => None,
        }
    }

    fn project(rec: &ObjectRecord) -> (r: Option<&UStructProperty>) {
        match rec {
            ObjectRecord::StructProperty(p) => Some(p),
            _ => None,
        }
    }
}

} // verus!
