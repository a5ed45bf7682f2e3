//! Classifying a runtime property into its closed set of display types, and
//! the owned description of one property. Classification tests the property
//! against each known subtype in a fixed priority order; that order is itself
//! the tie-break contract, since a subtype can satisfy several tests.
use vstd::prelude::*;

use crate::gtables::GlobalTables;
use crate::records::{UArrayProperty, UBoolProperty, UByteProperty, UClassProperty,
    UDelegateProperty, UFloatProperty, UIntProperty, UInterfaceProperty, UMapProperty,
    UNameProperty, UObjectProperty, UProperty, UQWordProperty, UStrProperty, UStructProperty};
use crate::records::UObject;
use crate::ueptr;

verus! {

/// A machine-native scalar kind.
pub enum NativeProperty {
    U8,
    I32,
    U64,
    F32,
    Bool,
}

/// A struct-like kind: a well-known runtime struct, or a named one.
pub enum StructProperty {
    FName,
    FString,
    FScriptDelegate,
    FStruct(String),
}

/// A pointer kind, carrying the referenced type's name.
pub enum PointerProperty {
    UObject(String),
    UClass(String),
    UInterface(String),
}

/// A container kind, carrying its element classification(s).
pub enum TemplateProperty {
    TArray(Box<PropertyType>),
    TMap { key: Box<PropertyType>, val: Box<PropertyType> },
}

/// The closed classification of a runtime property.
pub enum PropertyType {
    Native(NativeProperty),
    Struct(StructProperty),
    Pointer(PointerProperty),
    Template(TemplateProperty),
    Unknown,
}

/// The display name of a classification.
pub open spec fn spec_type_string(t: PropertyType) -> Seq<char>
    decreases t,
{
    match t {
        PropertyType::Native(NativeProperty::U8) => "u8"@,
        PropertyType::Native(NativeProperty::I32) => "i32"@,
        PropertyType::Native(NativeProperty::U64) => "u64"@,
        PropertyType::Native(NativeProperty::F32) => "f32"@,
        PropertyType::Native(NativeProperty::Bool) => "bool"@,
        PropertyType::Struct(StructProperty::FName) => "FName"@,
        PropertyType::Struct(StructProperty::FString) => "FString"@,
        PropertyType::Struct(StructProperty::FScriptDelegate) => "FScriptDelegate"@,
        PropertyType::Struct(StructProperty::FStruct(name)) => name@,
        PropertyType::Template(TemplateProperty::TArray(inner)) => "TArray<"@ + spec_type_string(
            *inner,
        ) + ">"@,
        PropertyType::Template(TemplateProperty::TMap { key, val }) => "TMap<"@ + spec_type_string(
            *key,
        ) + ", "@ + spec_type_string(*val) + ">"@,
        PropertyType::Pointer(PointerProperty::UObject(name)) => "*mut "@ + name@,
        PropertyType::Pointer(PointerProperty::UClass(name)) => "*mut "@ + name@,
        PropertyType::Pointer(PointerProperty::UInterface(name)) => "*mut "@ + name@,
        PropertyType::Unknown => "Unknown"@,
    }
}

impl PropertyType {
    /// The display name of this classification, containers spelling out
    /// their element classifications.
    pub fn type_string(&self) -> (r: String)
        ensures
            r@ == spec_type_string(*self),
        decreases *self,
    {
        match self {
            PropertyType::Native(NativeProperty::U8) => String::from_str("u8"),
            PropertyType::Native(NativeProperty::I32) => String::from_str("i32"),
            PropertyType::Native(NativeProperty::U64) => String::from_str("u64"),
            PropertyType::Native(NativeProperty::F32) => String::from_str("f32"),
            PropertyType::Native(NativeProperty::Bool) => String::from_str("bool"),
            PropertyType::Struct(StructProperty::FName) => String::from_str("FName"),
            PropertyType::Struct(StructProperty::FString) => String::from_str("FString"),
            PropertyType::Struct(StructProperty::FScriptDelegate) => String::from_str(
                "FScriptDelegate",
            ),
            PropertyType::Struct(StructProperty::FStruct(name)) => name.clone(),
            PropertyType::Template(TemplateProperty::TArray(inner)) => {
                let mut s = String::from_str("TArray<");
                let i = inner.type_string();
                s.append(i.as_str());
                s.append(">");
                proof {
                    assert(s@ =~= spec_type_string(*self));
                }
                s
            },
            PropertyType::Template(TemplateProperty::TMap { key, val }) => {
                let mut s = String::from_str("TMap<");
                let k = key.type_string();
                s.append(k.as_str());
                s.append(", ");
                let v = val.type_string();
                s.append(v.as_str());
                s.append(">");
                proof {
                    assert(s@ =~= spec_type_string(*self));
                }
                s
            },
            PropertyType::Pointer(PointerProperty::UObject(name)) => {
                let mut s = String::from_str("*mut ");
                s.append(name.as_str());
                proof {
                    assert(s@ =~= spec_type_string(*self));
                }
                s
            },
            PropertyType::Pointer(PointerProperty::UClass(name)) => {
                let mut s = String::from_str("*mut ");
                s.append(name.as_str());
                proof {
                    assert(s@ =~= spec_type_string(*self));
                }
                s
            },
            PropertyType::Pointer(PointerProperty::UInterface(name)) => {
                let mut s = String::from_str("*mut ");
                s.append(name.as_str());
                proof {
                    assert(s@ =~= spec_type_string(*self));
                }
                s
            },
            PropertyType::Unknown => String::from_str("Unknown"),
        }
    }
}

/// The classification of the property at `a`: each known subtype is tested
/// in a fixed priority order — native scalars, then struct-like kinds, then
/// containers (which recurse into their element properties, bounded by
/// `fuel`), then pointers — falling back to `Unknown` where no test matches
/// or a nested reference does not resolve.
pub open spec fn spec_uetype(g: GlobalTables, a: int, fuel: nat) -> PropertyType
    decreases fuel,
{
    if UObject::spec_is_a::<UBoolProperty>(g, a) {
        PropertyType::Native(NativeProperty::Bool)
    } else if UObject::spec_is_a::<UByteProperty>(g, a) {
        PropertyType::Native(NativeProperty::U8)
    } else if UObject::spec_is_a::<UIntProperty>(g, a) {
        PropertyType::Native(NativeProperty::I32)
    } else if UObject::spec_is_a::<UFloatProperty>(g, a) {
        PropertyType::Native(NativeProperty::F32)
    } else if UObject::spec_is_a::<UQWordProperty>(g, a) {
        PropertyType::Native(NativeProperty::U64)
    } else if UObject::spec_is_a::<UNameProperty>(g, a) {
        PropertyType::Struct(StructProperty::FName)
    } else if UObject::spec_is_a::<UStrProperty>(g, a) {
        PropertyType::Struct(StructProperty::FString)
    } else if UObject::spec_is_a::<UStructProperty>(g, a) {
        match g.spec_get::<UStructProperty>(a) {
            Some(sp) => match g.spec_obj_name(sp.Struct.addr as int) {
                Some(name) => PropertyType::Struct(StructProperty::FStruct(name)),
                None => PropertyType::Unknown,
            },
            None => PropertyType::Unknown,
        }
    } else if UObject::spec_is_a::<UDelegateProperty>(g, a) {
        PropertyType::Struct(StructProperty::FScriptDelegate)
    } else if UObject::spec_is_a::<UArrayProperty>(g, a) {
        match g.spec_get::<UArrayProperty>(a) {
            Some(ap) => if fuel == 0 {
                PropertyType::Unknown
            } else {
                PropertyType::Template(
                    TemplateProperty::TArray(
                        Box::new(spec_uetype(g, ap.Inner.addr as int, (fuel - 1) as nat)),
                    ),
                )
            },
            None => PropertyType::Unknown,
        }
    } else if UObject::spec_is_a::<UMapProperty>(g, a) {
        match g.spec_get::<UMapProperty>(a) {
            Some(mp) => if fuel == 0 {
                PropertyType::Unknown
            } else {
                PropertyType::Template(
                    TemplateProperty::TMap {
                        key: Box::new(spec_uetype(g, mp.Key.addr as int, (fuel - 1) as nat)),
                        val: Box::new(spec_uetype(g, mp.Value.addr as int, (fuel - 1) as nat)),
                    },
                )
            },
            None => PropertyType::Unknown,
        }
    } else if UObject::spec_is_a::<UObjectProperty>(g, a) {
        match g.spec_get::<UObjectProperty>(a) {
            Some(op) => match g.spec_obj_name(op.PropertyClass.addr as int) {
                Some(name) => PropertyType::Pointer(PointerProperty::UObject(name)),
                None => PropertyType::Unknown,
            },
            None => PropertyType::Unknown,
        }
    } else if UObject::spec_is_a::<UClassProperty>(g, a) {
        match g.spec_get::<UClassProperty>(a) {
            Some(cp) => match g.spec_obj_name(cp.MetaClass.addr as int) {
                Some(name) => PropertyType::Pointer(PointerProperty::UClass(name)),
                None => PropertyType::Unknown,
            },
            None => PropertyType::Unknown,
        }
    } else if UObject::spec_is_a::<UInterfaceProperty>(g, a) {
        match g.spec_get::<UInterfaceProperty>(a) {
            Some(ip) => match g.spec_obj_name(ip.InterfaceClass.addr as int) {
                Some(name) => PropertyType::Pointer(PointerProperty::UInterface(name)),
                None => PropertyType::Unknown,
            },
            None => PropertyType::Unknown,
        }
    } else {
        PropertyType::Unknown
    }
}

pub(crate) fn uetype_fueled(g: &GlobalTables, p: ueptr<UProperty>, fuel: usize) -> (r:
    PropertyType)
    requires
        g.wf(),
    ensures
        r == spec_uetype(*g, p.spec_addr() as int, fuel as nat),
    decreases fuel,
{
    let q: ueptr<UObject> = p.ptr_cast();
    if UObject::IsA::<UBoolProperty>(g, q) {
        PropertyType::Native(NativeProperty::Bool)
    } else if UObject::IsA::<UByteProperty>(g, q) {
        PropertyType::Native(NativeProperty::U8)
    } else if UObject::IsA::<UIntProperty>(g, q) {
        PropertyType::Native(NativeProperty::I32)
    } else if UObject::IsA::<UFloatProperty>(g, q) {
        PropertyType::Native(NativeProperty::F32)
    } else if UObject::IsA::<UQWordProperty>(g, q) {
        PropertyType::Native(NativeProperty::U64)
    } else if UObject::IsA::<UNameProperty>(g, q) {
        PropertyType::Struct(StructProperty::FName)
    } else if UObject::IsA::<UStrProperty>(g, q) {
        PropertyType::Struct(StructProperty::FString)
    } else if UObject::IsA::<UStructProperty>(g, q) {
        match g.get::<UStructProperty>(p.ptr_cast()) {
            Some(sp) => match g.obj_name(sp.Struct.ptr().ptr_cast()) {
                Some(name) => PropertyType::Struct(StructProperty::FStruct(name)),
                None => PropertyType::Unknown,
            },
            None => PropertyType::Unknown,
        }
    } else if UObject::IsA::<UDelegateProperty>(g, q) {
        PropertyType::Struct(StructProperty::FScriptDelegate)
    } else if UObject::IsA::<UArrayProperty>(g, q) {
        match g.get::<UArrayProperty>(p.ptr_cast()) {
            Some(ap) => if fuel == 0 {
                PropertyType::Unknown
            } else {
                let inner = uetype_fueled(g, ap.Inner.ptr(), fuel - 1);
                PropertyType::Template(TemplateProperty::TArray(Box::new(inner)))
            },
            None => PropertyType::Unknown,
        }
    } else if UObject::IsA::<UMapProperty>(g, q) {
        match g.get::<UMapProperty>(p.ptr_cast()) {
            Some(mp) => if fuel == 0 {
                PropertyType::Unknown
            } else {
                let key = uetype_fueled(g, mp.Key.ptr(), fuel - 1);
                let val = uetype_fueled(g, mp.Value.ptr(), fuel - 1);
                PropertyType::Template(
                    TemplateProperty::TMap { key: Box::new(key), val: Box::new(val) },
                )
            },
            None => PropertyType::Unknown,
        }
    } else if UObject::IsA::<UObjectProperty>(g, q) {
        match g.get::<UObjectProperty>(p.ptr_cast()) {
            Some(op) => match g.obj_name(op.PropertyClass.ptr().ptr_cast()) {
                Some(name) => PropertyType::Pointer(PointerProperty::UObject(name)),
                None => PropertyType::Unknown,
            },
            None => PropertyType::Unknown,
        }
    } else if UObject::IsA::<UClassProperty>(g, q) {
        match g.get::<UClassProperty>(p.ptr_cast()) {
            Some(cp) => match g.obj_name(cp.MetaClass.ptr().ptr_cast()) {
                Some(name) => PropertyType::Pointer(PointerProperty::UClass(name)),
                None => PropertyType::Unknown,
            },
            None => PropertyType::Unknown,
        }
    } else if UObject::IsA::<UInterfaceProperty>(g, q) {
        match g.get::<UInterfaceProperty>(p.ptr_cast()) {
            Some(ip) => match g.obj_name(ip.InterfaceClass.ptr().ptr_cast()) {
                Some(name) => PropertyType::Pointer(PointerProperty::UInterface(name)),
                None => PropertyType::Unknown,
            },
            None => PropertyType::Unknown,
        }
    } else {
        PropertyType::Unknown
    }
}

/// The owned description of one runtime property: its name, byte offset and
/// classification, copied out of foreign memory at construction.
pub struct ReflectionProperty {
    pub property: ueptr<UProperty>,
    pub name: String,
    pub uetype: PropertyType,
    pub offset: usize,
}

/// Whether `rp` describes the property at address `a` exactly: a reference
/// carrying that address, the property's interned name and byte offset, and
/// its classification under the fixed priority order.
pub open spec fn spec_rp_matches_addr(g: GlobalTables, a: int, rp: ReflectionProperty) -> bool {
    &&& rp.property.spec_addr() as int == a
    &&& match g.spec_get::<UProperty>(a) {
        Some(prop) => rp.offset == prop.Offset as usize,
        None => false,
    }
    &&& g.spec_obj_name(a) == Some(rp.name)
    &&& rp.uetype == spec_uetype(g, a, g.fuel())
}

/// Whether the property at `a` can be described at all: its record and its
/// name both resolve.
pub open spec fn spec_rp_buildable(g: GlobalTables, a: int) -> bool {
    g.spec_get::<UProperty>(a) is Some && g.spec_obj_name(a) is Some
}

/// Whether `rp` describes the property at `p` exactly.
pub open spec fn spec_reflection_property_matches(
    g: GlobalTables,
    p: ueptr<UProperty>,
    rp: ReflectionProperty,
) -> bool {
    &&& rp.property == p
    &&& spec_rp_matches_addr(g, p.spec_addr() as int, rp)
}

impl ReflectionProperty {
    /// Describes the property at `p`: `None` exactly when the reference or
    /// the property's name does not resolve in the snapshot.
    pub fn new(g: &GlobalTables, p: ueptr<UProperty>) -> (r: Option<ReflectionProperty>)
        requires
            g.wf(),
        ensures
            (match r {
                Some(rp) => spec_reflection_property_matches(*g, p, rp),
                None => g.spec_get::<UProperty>(p.spec_addr() as int) is None || g.spec_obj_name(
                    p.spec_addr() as int,
                ) is None,
            }),
    {
        let prop = match g.get::<UProperty>(p) {
            Some(prop) => prop,
            None => {
                return None;
            },
        };
        let offset = prop.Offset as usize;
        let name = match g.obj_name(p.ptr_cast()) {
            Some(name) => name,
            None => {
                return None;
            },
        };
        let fuel = g.obj_count();
        let uetype = uetype_fueled(g, p, fuel);
        Some(ReflectionProperty { property: p, name, uetype, offset })
    }
}

/// Property classification is deterministic: any two descriptions of the
/// same property reference, built from the same snapshot, are identical —
/// the classification trees included.
pub proof fn lemma_reflection_property_deterministic(
    g: GlobalTables,
    p: ueptr<UProperty>,
    r1: ReflectionProperty,
    r2: ReflectionProperty,
)
    requires
        spec_reflection_property_matches(g, p, r1),
        spec_reflection_property_matches(g, p, r2),
    ensures
        r1 == r2,
{
}

} // verus!
