use sandbox_sdk::fname::{FName, FNameEntry};
use sandbox_sdk::gtables::GlobalTables;
use sandbox_sdk::records::{ClassRef, FieldRef, ObjRef, ObjectRecord, PropRef, StructRef,
    UArrayProperty, UBoolProperty, UClass, UClassProperty, UField, UFunction, UIntProperty,
    UObject, UObjectProperty, UProperty, UScriptStruct, UState, UStruct, PROPERTY_FLAG_PARM,
    PROPERTY_FLAG_RETURN_PARM};
use sandbox_sdk::reflection::class::ReflectionClass;
use sandbox_sdk::reflection::function::{ReflectionFunction, ReflectionParam, ReflectionRetVal};
use sandbox_sdk::reflection::property::{NativeProperty, PointerProperty, PropertyType,
    ReflectionProperty, StructProperty, TemplateProperty};
use sandbox_sdk::reflection::strct::ReflectionStruct;
use sandbox_sdk::tags::StaticClass;
use sandbox_sdk::tarray::TArray;
use sandbox_sdk::ueptr;

fn base(idx: i32, name: i32, outer: Option<usize>, class: usize) -> UObject {
    UObject {
        ObjectFlags: 0,
        ObjectInternalInteger: idx,
        Outer: outer.map(|a| ObjRef { addr: a }),
        Name: FName::new(name, 0),
        Class: ClassRef { addr: class },
    }
}

fn class_rec(
    idx: i32,
    name: i32,
    outer: Option<usize>,
    sup: Option<usize>,
    children: Option<usize>,
) -> ObjectRecord {
    ObjectRecord::Class(UClass {
        _super: UState {
            _super: UStruct {
                _super: UField { _super: base(idx, name, outer, 1), Next: None },
                SuperStruct: sup.map(|a| StructRef { addr: a }),
                Childern: children.map(|a| FieldRef { addr: a }),
                PropertySize: 0,
            },
        },
    })
}

fn prop_base(
    idx: i32,
    name: i32,
    outer: Option<usize>,
    class: usize,
    next: Option<usize>,
    offset: u32,
    flags: u64,
) -> UProperty {
    UProperty {
        _super: UField {
            _super: base(idx, name, outer, class),
            Next: next.map(|a| FieldRef { addr: a }),
        },
        ArrayDim: 1,
        ElementSize: 4,
        PropertyFlags: flags,
        PropertySize: 4,
        Offset: offset,
    }
}

fn int_prop(
    idx: i32,
    name: i32,
    outer: Option<usize>,
    next: Option<usize>,
    offset: u32,
    flags: u64,
) -> ObjectRecord {
    ObjectRecord::IntProperty(UIntProperty {
        _super: prop_base(idx, name, outer, 13, next, offset, flags),
    })
}

fn script_struct(
    idx: i32,
    name: i32,
    outer: Option<usize>,
    next: Option<usize>,
    children: Option<usize>,
) -> ObjectRecord {
    ObjectRecord::ScriptStruct(UScriptStruct {
        _super: UStruct {
            _super: UField {
                _super: base(idx, name, outer, 24),
                Next: next.map(|a| FieldRef { addr: a }),
            },
            SuperStruct: None,
            Childern: children.map(|a| FieldRef { addr: a }),
            PropertySize: 0,
        },
    })
}

/// A synthetic snapshot: a `Core` package, the metaclass chain
/// `Class/Object/Field/Property/...`, one instance, one class with
/// properties at offsets `[16, 4, 40, 4]` and two nested structs, and one
/// function with parameters.
fn world() -> GlobalTables {
    let names = [
        "Class", "Core", "Object", "Field", "Property", "BoolProperty", "Function", "inst",
        "MyClass", "alpha", "beta", "gamma", "delta", "IntProperty", "arr", "ArrayProperty",
        "cls", "ClassProperty", "ObjectProperty", "DoIt", "x", "ret", "skipme", "Vec3",
        "ScriptStruct", "v", "zzz", "aaa",
    ];
    let mut name_entries: Vec<Option<FNameEntry>> = Vec::new();
    for n in names.iter() {
        name_entries.push(Some(FNameEntry::new(String::from(*n))));
    }
    let parm = PROPERTY_FLAG_PARM;
    let retp = PROPERTY_FLAG_PARM | PROPERTY_FLAG_RETURN_PARM;
    let objects: Vec<Option<ObjectRecord>> = vec![
        Some(ObjectRecord::Object(base(0, 1, None, 1))),
        Some(class_rec(1, 0, Some(0), Some(2), None)),
        Some(class_rec(2, 2, Some(0), None, None)),
        Some(class_rec(3, 3, Some(0), Some(2), None)),
        Some(class_rec(4, 4, Some(0), Some(3), None)),
        Some(class_rec(5, 5, Some(0), Some(4), None)),
        Some(class_rec(6, 6, Some(0), Some(2), None)),
        Some(ObjectRecord::BoolProperty(UBoolProperty {
            _super: prop_base(7, 7, Some(0), 5, None, 0, 0),
            BitMask: 1,
        })),
        Some(class_rec(8, 8, Some(0), Some(2), Some(9))),
        Some(int_prop(9, 9, Some(8), Some(10), 16, 0)),
        Some(int_prop(10, 10, Some(8), Some(26), 4, 0)),
        Some(int_prop(11, 11, Some(8), Some(12), 40, 0)),
        Some(int_prop(12, 12, Some(8), None, 4, 0)),
        Some(class_rec(13, 13, Some(0), Some(4), None)),
        Some(ObjectRecord::ArrayProperty(UArrayProperty {
            _super: prop_base(14, 14, Some(0), 15, None, 0, 0),
            Inner: PropRef { addr: 9 },
        })),
        Some(class_rec(15, 15, Some(0), Some(4), None)),
        Some(ObjectRecord::ClassProperty(UClassProperty {
            _super: UObjectProperty {
                _super: prop_base(16, 16, Some(0), 17, None, 0, 0),
                PropertyClass: ClassRef { addr: 2 },
            },
            MetaClass: ClassRef { addr: 2 },
        })),
        Some(class_rec(17, 17, Some(0), Some(18), None)),
        Some(class_rec(18, 18, Some(0), Some(4), None)),
        Some(ObjectRecord::Function(UFunction {
            _super: UStruct {
                _super: UField { _super: base(19, 19, Some(0), 6), Next: None },
                SuperStruct: None,
                Childern: Some(FieldRef { addr: 20 }),
                PropertySize: 0,
            },
            FunctionFlags: 0,
            iNative: 0,
            RepOffset: 0,
            FriendlyName: FName::new(19, 0),
            OperatorPrecedence: 0,
            NumParms: 2,
            ParmsSize: 8,
            ReturnValueOffset: 12,
        })),
        Some(int_prop(20, 20, Some(19), Some(21), 8, parm)),
        Some(int_prop(21, 21, Some(19), Some(22), 12, retp)),
        Some(int_prop(22, 22, Some(19), None, 16, 0)),
        Some(script_struct(23, 23, Some(0), None, Some(25))),
        Some(class_rec(24, 24, Some(0), Some(2), None)),
        Some(int_prop(25, 25, Some(23), None, 0, 0)),
        Some(script_struct(26, 26, Some(8), Some(27), None)),
        Some(script_struct(27, 27, Some(8), Some(11), None)),
    ];
    let names_len = name_entries.len();
    let objects_len = objects.len();
    GlobalTables::new(
        TArray::new(name_entries, names_len).unwrap(),
        TArray::new(objects, objects_len).unwrap(),
    )
}

fn optr(a: usize) -> ueptr<UObject> {
    ueptr::new(a)
}

fn cptr(a: usize) -> ueptr<UClass> {
    ueptr::new(a)
}

#[test]
fn names_resolve_through_the_tables() {
    let g = world();
    assert_eq!(UObject::GetName(&g, optr(7)).unwrap().as_str(), "inst");
    assert_eq!(UObject::GetPathName(&g, optr(9)).unwrap().as_str(), "Core::MyClass::alpha");
    assert_eq!(UObject::GetFullName(&g, optr(7)).unwrap().as_str(), "BoolProperty Core::inst");
    assert_eq!(UObject::GetFullName(&g, optr(4)).unwrap().as_str(), "Class Core::Property");
    assert_eq!(UObject::GetName(&g, optr(999)), None);
}

#[test]
fn find_class_by_full_name() {
    let g = world();
    let p = UObject::FindClass(&g, "Class Core::Property").unwrap();
    assert_eq!(p.ptr(), 4);
    let p2 = UClass::FindClass(&g, "Class Core::BoolProperty").unwrap();
    assert_eq!(p2.ptr(), 5);
    // A lookup miss is a normal empty result.
    assert!(UObject::FindClass(&g, "Class Core::NoSuch").is_none());
    // Non-class objects are never found, even by their full name.
    assert!(UObject::FindClass(&g, "BoolProperty Core::inst").is_none());
}

#[test]
fn static_class_resolves_registered_tags() {
    let g = world();
    assert_eq!(StaticClass::<UProperty>(&g).unwrap().ptr(), 4);
    assert_eq!(StaticClass::<UFunction>(&g).unwrap().ptr(), 6);
    // Tags with no registered class resolve to nothing.
    assert!(StaticClass::<sandbox_sdk::records::UByteProperty>(&g).is_none());
}

#[test]
fn superclass_chain_in_order() {
    let g = world();
    let chain = UClass::iter_superclass(&g, cptr(5));
    let addrs: Vec<usize> = chain.iter().map(|p| p.ptr()).collect();
    assert_eq!(addrs, vec![5, 4, 3, 2]);
}

#[test]
fn superclass_chain_cycle_is_cut_off() {
    // Two classes each naming the other as superclass: the defensive bound
    // terminates the walk.
    let names = vec![Some(FNameEntry::new(String::from("A")))];
    let a = ObjectRecord::Class(UClass {
        _super: UState {
            _super: UStruct {
                _super: UField { _super: base(0, 0, None, 0), Next: None },
                SuperStruct: Some(StructRef { addr: 1 }),
                Childern: None,
                PropertySize: 0,
            },
        },
    });
    let b = ObjectRecord::Class(UClass {
        _super: UState {
            _super: UStruct {
                _super: UField { _super: base(1, 0, None, 0), Next: None },
                SuperStruct: Some(StructRef { addr: 0 }),
                Childern: None,
                PropertySize: 0,
            },
        },
    });
    let g = GlobalTables::new(
        TArray::new(names, 1).unwrap(),
        TArray::new(vec![Some(a), Some(b)], 2).unwrap(),
    );
    let chain = UClass::iter_superclass(&g, cptr(0));
    // One step per table slot, plus the start itself.
    assert_eq!(chain.len(), 3);
}

#[test]
fn is_a_holds_for_ancestors_only() {
    let g = world();
    // The instance's class chain is BoolProperty, Property, Field, Object.
    assert!(UObject::IsA::<UBoolProperty>(&g, optr(7)));
    assert!(UObject::IsA::<UProperty>(&g, optr(7)));
    assert!(UObject::IsA::<UObject>(&g, optr(7)));
    assert!(!UObject::IsA::<UFunction>(&g, optr(7)));
    assert!(!UObject::IsA::<UScriptStruct>(&g, optr(7)));
    // An unregistered tag never matches.
    assert!(!UObject::IsA::<sandbox_sdk::records::UByteProperty>(&g, optr(7)));
}

#[test]
fn cast_agrees_with_is_a_and_keeps_the_address() {
    let g = world();
    let q = UObject::Cast::<UProperty>(&g, optr(7)).unwrap();
    assert_eq!(q.ptr(), 7);
    assert!(UObject::Cast::<UFunction>(&g, optr(7)).is_none());
    for a in 0..28usize {
        let is_a = UObject::IsA::<UProperty>(&g, optr(a));
        let cast = UObject::Cast::<UProperty>(&g, optr(a));
        assert_eq!(is_a, cast.is_some());
        if let Some(c) = cast {
            assert_eq!(c.ptr(), a);
        }
    }
}

#[test]
fn class_children_enumerate_in_linked_order() {
    let g = world();
    let props: Vec<usize> =
        UClass::iter_properties(&g, cptr(8)).iter().map(|p| p.ptr()).collect();
    assert_eq!(props, vec![9, 10, 11, 12]);
    let structs: Vec<usize> = UClass::iter_structs(&g, cptr(8)).iter().map(|p| p.ptr()).collect();
    assert_eq!(structs, vec![26, 27]);
    assert!(UClass::iter_functions(&g, cptr(8)).is_empty());
    let fields: Vec<usize> =
        UField::iter_next(&g, ueptr::new(9)).iter().map(|p| p.ptr()).collect();
    assert_eq!(fields, vec![9, 10, 26, 27, 11, 12]);
}

#[test]
fn find_function_and_parameters() {
    let g = world();
    let f = UFunction::FindFunction(&g, "Function Core::DoIt").unwrap();
    assert_eq!(f.ptr(), 19);
    assert!(UFunction::FindFunction(&g, "Function Core::Missing").is_none());
    let params: Vec<usize> = UFunction::iter_params(&g, f).iter().map(|p| p.ptr()).collect();
    assert_eq!(params, vec![20]);
    assert_eq!(UFunction::ret_val(&g, f).unwrap().ptr(), 21);
}

#[test]
fn find_struct_by_full_name() {
    let g = world();
    let s = UScriptStruct::FindStruct(&g, "ScriptStruct Core::Vec3").unwrap();
    assert_eq!(s.ptr(), 23);
    assert!(UScriptStruct::FindStruct(&g, "ScriptStruct Core::Vec9").is_none());
}

#[test]
fn dereference_reads_the_projected_level() {
    let g = world();
    let p: ueptr<UProperty> = ueptr::new(9);
    let prop = g.get::<UProperty>(p).unwrap();
    assert_eq!(prop.Offset, 16);
    assert_eq!(prop.ElementSize, 4);
    // A dangling reference resolves to nothing.
    let bad: ueptr<UProperty> = ueptr::new(999);
    assert!(g.get::<UProperty>(bad).is_none());
    // A live record that does not extend the level resolves to nothing.
    let not_prop: ueptr<UProperty> = ueptr::new(0);
    assert!(g.get::<UProperty>(not_prop).is_none());
}

#[test]
fn global_table_accessors() {
    let g = world();
    assert_eq!(UObject::GObjObjects(&g).num(), 28);
    assert_eq!(FName::Names(&g).num(), 28);
}

#[test]
fn property_classification_deterministic() {
    let g = world();
    let p: ueptr<UProperty> = ueptr::new(9);
    let r1 = ReflectionProperty::new(&g, p).unwrap();
    let r2 = ReflectionProperty::new(&g, p).unwrap();
    assert_eq!(r1.name.as_str(), r2.name.as_str());
    assert_eq!(r1.offset, r2.offset);
    assert_eq!(r1.property.ptr(), r2.property.ptr());
    assert!(matches!(r1.uetype, PropertyType::Native(NativeProperty::I32)));
    assert!(matches!(r2.uetype, PropertyType::Native(NativeProperty::I32)));
    assert_eq!(r1.uetype.type_string().as_str(), r2.uetype.type_string().as_str());
}

#[test]
fn classification_covers_the_fixed_order() {
    let g = world();
    let boolp = ReflectionProperty::new(&g, ueptr::new(7)).unwrap();
    assert!(matches!(boolp.uetype, PropertyType::Native(NativeProperty::Bool)));
    assert_eq!(boolp.uetype.type_string().as_str(), "bool");

    let arr = ReflectionProperty::new(&g, ueptr::new(14)).unwrap();
    assert_eq!(arr.uetype.type_string().as_str(), "TArray<i32>");
    assert!(matches!(arr.uetype, PropertyType::Template(TemplateProperty::TArray(_))));

    // A class property satisfies the object-pointer test first: the fixed
    // order decides, and it classifies as an object pointer.
    let cls = ReflectionProperty::new(&g, ueptr::new(16)).unwrap();
    assert_eq!(cls.uetype.type_string().as_str(), "*mut Object");
    match &cls.uetype {
        PropertyType::Pointer(PointerProperty::UObject(name)) => {
            assert_eq!(name.as_str(), "Object");
        },
        _ => panic!("a class property classifies as an object pointer"),
    }
}

#[test]
fn class_description_sorts_offsets_stably() {
    let g = world();
    let rc = ReflectionClass::new(&g, cptr(8)).unwrap();
    assert_eq!(rc.name.as_str(), "Core::MyClass");
    let offsets: Vec<usize> = rc.properties.iter().map(|p| p.offset).collect();
    assert_eq!(offsets, vec![4, 4, 16, 40]);
    // The two offset-4 entries keep their linked order: beta before delta.
    let names: Vec<&str> = rc.properties.iter().map(|p| p.name.as_str()).collect();
    assert_eq!(names, vec!["beta", "delta", "alpha", "gamma"]);
    // Nested structs sort by name.
    let snames: Vec<&str> = rc.structs.iter().map(|s| s.name.as_str()).collect();
    assert_eq!(snames, vec!["aaa", "zzz"]);
    // The superclass chain is described recursively up to the root.
    let sup = rc.superclass.as_ref().unwrap();
    assert_eq!(sup.name.as_str(), "Core::Object");
    assert!(sup.superclass.is_none());
    assert!(sup.properties.is_empty());
}

#[test]
fn struct_description_collects_its_fields() {
    let g = world();
    let rs = ReflectionStruct::new(&g, ueptr::new(23)).unwrap();
    assert_eq!(rs.name.as_str(), "Vec3");
    assert_eq!(rs.properties.len(), 1);
    assert_eq!(rs.properties[0].name.as_str(), "v");
    assert_eq!(rs.properties[0].offset, 0);
}

#[test]
fn function_description_splits_the_return_value() {
    let g = world();
    let rf = ReflectionFunction::new(&g, ueptr::new(19)).unwrap();
    assert_eq!(rf.name.as_str(), "DoIt");
    let pnames: Vec<&str> = rf.params.iter().map(|p| p.prop.name.as_str()).collect();
    assert_eq!(pnames, vec!["x"]);
    let ret = rf.ret.as_ref().unwrap();
    assert_eq!(ret.param.prop.name.as_str(), "ret");
    assert_eq!(ret.param.prop.offset, 12);
}

#[test]
fn param_descriptions_check_the_flags() {
    let g = world();
    // Not flagged as a parameter at all.
    assert!(ReflectionParam::new(&g, ueptr::new(22)).is_none());
    // Flagged as a parameter but not as the return value.
    assert!(ReflectionParam::new(&g, ueptr::new(20)).is_some());
    assert!(ReflectionRetVal::new(&g, ueptr::new(20)).is_none());
    assert!(ReflectionRetVal::new(&g, ueptr::new(21)).is_some());
}

#[test]
fn type_strings_spell_out_containers() {
    let map = PropertyType::Template(TemplateProperty::TMap {
        key: Box::new(PropertyType::Struct(StructProperty::FName)),
        val: Box::new(PropertyType::Template(TemplateProperty::TArray(Box::new(
            PropertyType::Native(NativeProperty::U64),
        )))),
    });
    assert_eq!(map.type_string().as_str(), "TMap<FName, TArray<u64>>");
    assert_eq!(PropertyType::Unknown.type_string().as_str(), "Unknown");
    assert_eq!(
        PropertyType::Struct(StructProperty::FStruct(String::from("Vec3")))
            .type_string()
            .as_str(),
        "Vec3"
    );
    assert_eq!(
        PropertyType::Struct(StructProperty::FScriptDelegate).type_string().as_str(),
        "FScriptDelegate"
    );
}
