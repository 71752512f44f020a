use lttng_ust_generate::generator::rust_bindings::{
    c_arg_for_field, generate_instance_call, generate_rust_bindings, write_include,
    write_providers,
};
use lttng_ust_generate::{
    CFloatType, CIntegerType, CTFType, EventClass, EventInstance, Field, Provider,
};

fn lowered(base: &str, ty: CTFType) -> String {
    c_arg_for_field(base.to_string(), &Field::new("f".to_string(), ty))
}

fn greeter() -> Provider {
    let mut provider = Provider::new("hello_world");
    provider
        .create_class("class1")
        .add_field("my_integer_field", CTFType::Integer(CIntegerType::I32))
        .add_field("my_string_field", CTFType::SequenceText)
        .instantiate("my_first_tracepoint");
    provider
}

const INCLUDE: &str = "#[allow(non_upper_case_globals)]\n#[allow(non_camel_case_types)]\n#[allow(non_snake_case)]\nmod detail {\n    include!(\"/out/raw.rs\");\n}\n";

const GREETER_WRAPPER: &str = "\n        pub(in super::super) fn my_first_tracepoint<>(a0: i32, a1: &str) {\n            unsafe {\n                super::detail::hello_world_class1_my_first_tracepoint_tp(a0, ::std::mem::transmute(a1.as_bytes().as_ptr()), a1.len())\n            }\n        }\n";

#[test]
fn include_wraps_the_raw_bindings() {
    let mut out = String::new();
    write_include(&mut out, "/out/raw.rs");
    assert_eq!(out, INCLUDE);
}

#[test]
fn include_is_appended_to_what_is_there() {
    let mut out = String::from("// generated\n");
    write_include(&mut out, "/out/raw.rs");
    assert_eq!(out, format!("// generated\n{}", INCLUDE));
}

#[test]
fn numbers_and_strings_are_passed_as_they_are() {
    assert_eq!(lowered("a0", CTFType::Integer(CIntegerType::I32)), "a0");
    assert_eq!(lowered("a1", CTFType::IntegerNoWrite(CIntegerType::U8)), "a1");
    assert_eq!(lowered("a2", CTFType::IntegerHex(CIntegerType::U8)), "a2");
    assert_eq!(lowered("a3", CTFType::IntegerNetwork(CIntegerType::U8)), "a3");
    assert_eq!(lowered("a4", CTFType::IntegerNetworkHex(CIntegerType::U8)), "a4");
    assert_eq!(lowered("a5", CTFType::Float(CFloatType::Single)), "a5");
    assert_eq!(lowered("a6", CTFType::FloatNoWrite(CFloatType::Double)), "a6");
    assert_eq!(lowered("a7", CTFType::String), "a7");
    assert_eq!(lowered("a8", CTFType::StringNoWrite), "a8");
}

#[test]
fn counted_text_becomes_pointer_and_length() {
    assert_eq!(
        lowered("a1", CTFType::SequenceText),
        "::std::mem::transmute(a1.as_bytes().as_ptr()), a1.len()"
    );
    assert_eq!(
        lowered("a2", CTFType::SequenceTextNoWrite),
        "::std::mem::transmute(a2.as_bytes().as_ptr()), a2.len()"
    );
    assert_eq!(
        lowered("a3", CTFType::ArrayText(5)),
        "::std::mem::transmute(a3.as_bytes().as_ptr()), a3.len()"
    );
}

#[test]
fn integer_sequences_become_pointer_and_length() {
    assert_eq!(lowered("a0", CTFType::Sequence(CIntegerType::U8)), "a0.as_ptr(), a0.len()");
    assert_eq!(
        lowered("a12", CTFType::SequenceNoWrite(CIntegerType::I64)),
        "a12.as_ptr(), a12.len()"
    );
}

#[test]
fn integer_arrays_become_a_pointer() {
    assert_eq!(lowered("a0", CTFType::Array(CIntegerType::U8, 4)), "a0.as_ptr()");
    assert_eq!(lowered("a1", CTFType::ArrayNoWrite(CIntegerType::I16, 4)), "a1.as_ptr()");
}

#[test]
fn lowering_takes_the_name_it_is_given() {
    assert_eq!(lowered("", CTFType::Integer(CIntegerType::U8)), "");
    assert_eq!(lowered("value", CTFType::Sequence(CIntegerType::U8)), "value.as_ptr(), value.len()");
    assert_eq!(lowered("x", CTFType::Enum), "x");
}

#[test]
fn instance_call_wraps_the_c_function() {
    let provider = Provider::new("hello_world");
    let mut class = EventClass::new("class1".to_string());
    class
        .add_field("my_integer_field", CTFType::Integer(CIntegerType::I32))
        .add_field("my_string_field", CTFType::SequenceText);
    let instance = EventInstance::new("my_first_tracepoint".to_string());
    assert_eq!(generate_instance_call(&provider, &class, &instance), GREETER_WRAPPER);
}

#[test]
fn instance_call_without_fields() {
    let provider = Provider::new("p");
    let class = EventClass::new("c".to_string());
    let instance = EventInstance::new("ping".to_string());
    assert_eq!(
        generate_instance_call(&provider, &class, &instance),
        "\n        pub(in super::super) fn ping<>() {\n            unsafe {\n                super::detail::p_c_ping_tp()\n            }\n        }\n"
    );
}

#[test]
fn instance_call_of_every_kind_of_field() {
    let provider = Provider::new("p");
    let mut class = EventClass::new("c".to_string());
    class
        .add_field("n", CTFType::IntegerHex(CIntegerType::U16))
        .add_field("x", CTFType::Float(CFloatType::Double))
        .add_field("s", CTFType::String)
        .add_field("a", CTFType::Array(CIntegerType::U8, 16))
        .add_field("t", CTFType::ArrayText(8))
        .add_field("q", CTFType::Sequence(CIntegerType::I32))
        .add_field("u", CTFType::SequenceTextNoWrite);
    let instance = EventInstance::new("all".to_string());
    assert_eq!(
        generate_instance_call(&provider, &class, &instance),
        "\n        pub(in super::super) fn all<>(a0: u16, a1: f64, a2: ::std::ffi::CStr, a3: &[u8; 16], a4: &str, a5: &[i32], a6: &str) {\n            unsafe {\n                super::detail::p_c_all_tp(a0, a1, a2, a3.as_ptr(), ::std::mem::transmute(a4.as_bytes().as_ptr()), a4.len(), a5.as_ptr(), a5.len(), ::std::mem::transmute(a6.as_bytes().as_ptr()), a6.len())\n            }\n        }\n"
    );
}

#[test]
fn arguments_are_numbered_in_base_ten() {
    let provider = Provider::new("p");
    let mut class = EventClass::new("c".to_string());
    for name in ["f0", "f1", "f2", "f3", "f4", "f5", "f6", "f7", "f8", "f9", "f10", "f11"] {
        class.add_field(name, CTFType::Integer(CIntegerType::U8));
    }
    let instance = EventInstance::new("many".to_string());
    assert_eq!(
        generate_instance_call(&provider, &class, &instance),
        "\n        pub(in super::super) fn many<>(a0: u8, a1: u8, a2: u8, a3: u8, a4: u8, a5: u8, a6: u8, a7: u8, a8: u8, a9: u8, a10: u8, a11: u8) {\n            unsafe {\n                super::detail::p_c_many_tp(a0, a1, a2, a3, a4, a5, a6, a7, a8, a9, a10, a11)\n            }\n        }\n"
    );
}

#[test]
fn providers_become_modules() {
    let mut out = String::new();
    write_providers(&mut out, &[greeter()]);
    assert_eq!(out, format!("pub(in super) mod hello_world {{{}\n}}\n\n", GREETER_WRAPPER));
}

#[test]
fn provider_without_events_becomes_an_empty_module() {
    let mut provider = Provider::new("silent");
    provider.create_class("c").add_field("n", CTFType::Integer(CIntegerType::U8));
    let mut out = String::new();
    write_providers(&mut out, &[provider]);
    assert_eq!(out, "pub(in super) mod silent {}\n\n");
}

#[test]
fn modules_follow_providers_classes_and_events() {
    let mut first = Provider::new("first");
    first.create_class("a").instantiate("x").instantiate("y");
    first.create_class("b").instantiate("z");
    let mut second = Provider::new("second");
    second.create_class("a").instantiate("x");
    let mut out = String::from("// modules\n");
    write_providers(&mut out, &[first, second]);
    let wrapper = |name: &str, native: &str| {
        format!(
            "\n        pub(in super::super) fn {}<>() {{\n            unsafe {{\n                super::detail::{}()\n            }}\n        }}\n\n",
            name, native
        )
    };
    assert_eq!(
        out,
        format!(
            "// modules\npub(in super) mod first {{{}{}{}}}\n\npub(in super) mod second {{{}}}\n\n",
            wrapper("x", "first_a_x_tp"),
            wrapper("y", "first_a_y_tp"),
            wrapper("z", "first_b_z_tp"),
            wrapper("x", "second_a_x_tp"),
        )
    );
}

#[test]
fn rust_bindings_start_with_the_raw_bindings() {
    assert_eq!(
        generate_rust_bindings(&[greeter()], "/out/raw.rs"),
        format!("{}pub(in super) mod hello_world {{{}\n}}\n\n", INCLUDE, GREETER_WRAPPER)
    );
}

#[test]
fn rust_bindings_without_providers() {
    assert_eq!(generate_rust_bindings(&[], "/out/raw.rs"), INCLUDE);
}
