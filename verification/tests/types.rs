use lttng_ust_generate::generator::ctf_field_c_type;
use lttng_ust_generate::generator::rust_bindings::rust_type_for;
use lttng_ust_generate::{CFloatType, CIntegerType, CTFType, LogLevel};

const INTEGERS: [CIntegerType; 8] = [
    CIntegerType::I8,
    CIntegerType::I16,
    CIntegerType::I32,
    CIntegerType::I64,
    CIntegerType::U8,
    CIntegerType::U16,
    CIntegerType::U32,
    CIntegerType::U64,
];

fn supported_types() -> Vec<CTFType> {
    let mut all = Vec::new();
    for i in INTEGERS {
        all.push(CTFType::Integer(i));
        all.push(CTFType::IntegerNoWrite(i));
        all.push(CTFType::IntegerHex(i));
        all.push(CTFType::IntegerNetwork(i));
        all.push(CTFType::IntegerNetworkHex(i));
        all.push(CTFType::Array(i, 4));
        all.push(CTFType::ArrayNoWrite(i, 4));
        all.push(CTFType::Sequence(i));
        all.push(CTFType::SequenceNoWrite(i));
    }
    for f in [CFloatType::Single, CFloatType::Double] {
        all.push(CTFType::Float(f));
        all.push(CTFType::FloatNoWrite(f));
    }
    all.push(CTFType::String);
    all.push(CTFType::StringNoWrite);
    all.push(CTFType::ArrayText(4));
    all.push(CTFType::SequenceText);
    all.push(CTFType::SequenceTextNoWrite);
    all
}

#[test]
fn integer_c_types() {
    let names: Vec<&str> = INTEGERS.iter().map(|i| i.c_type()).collect();
    assert_eq!(
        names,
        vec![
            "int8_t", "int16_t", "int32_t", "int64_t", "uint8_t", "uint16_t", "uint32_t",
            "uint64_t"
        ]
    );
}

#[test]
fn integer_c_pointer_types() {
    let names: Vec<&str> = INTEGERS.iter().map(|i| i.c_pointer_type()).collect();
    assert_eq!(
        names,
        vec![
            "int8_t *",
            "int16_t *",
            "int32_t *",
            "int64_t *",
            "uint8_t *",
            "uint16_t *",
            "uint32_t *",
            "uint64_t *"
        ]
    );
}

#[test]
fn integer_rust_types() {
    let names: Vec<&str> = INTEGERS.iter().map(|i| i.rust_type()).collect();
    assert_eq!(names, vec!["i8", "i16", "i32", "i64", "u8", "u16", "u32", "u64"]);
}

#[test]
fn float_types() {
    assert_eq!(CFloatType::Single.c_type(), "float");
    assert_eq!(CFloatType::Double.c_type(), "double");
    assert_eq!(CFloatType::Single.rust_type(), "f32");
    assert_eq!(CFloatType::Double.rust_type(), "f64");
}

#[test]
fn c_param_type_of_numbers() {
    assert_eq!(ctf_field_c_type(CTFType::Integer(CIntegerType::I32)), "int32_t");
    assert_eq!(ctf_field_c_type(CTFType::IntegerNoWrite(CIntegerType::U8)), "uint8_t");
    assert_eq!(ctf_field_c_type(CTFType::IntegerHex(CIntegerType::U64)), "uint64_t");
    assert_eq!(ctf_field_c_type(CTFType::IntegerNetwork(CIntegerType::U16)), "uint16_t");
    assert_eq!(ctf_field_c_type(CTFType::IntegerNetworkHex(CIntegerType::I64)), "int64_t");
    assert_eq!(ctf_field_c_type(CTFType::Float(CFloatType::Single)), "float");
    assert_eq!(ctf_field_c_type(CTFType::FloatNoWrite(CFloatType::Double)), "double");
}

#[test]
fn c_param_type_of_text_is_a_pointer_to_constant_characters() {
    for ty in [
        CTFType::String,
        CTFType::StringNoWrite,
        CTFType::ArrayText(12),
        CTFType::SequenceText,
        CTFType::SequenceTextNoWrite,
    ] {
        assert_eq!(ctf_field_c_type(ty), "const char *");
    }
}

#[test]
fn c_param_type_of_integer_arrays_and_sequences_is_a_pointer() {
    assert_eq!(ctf_field_c_type(CTFType::Array(CIntegerType::I8, 3)), "int8_t *");
    assert_eq!(ctf_field_c_type(CTFType::ArrayNoWrite(CIntegerType::U32, 3)), "uint32_t *");
    assert_eq!(ctf_field_c_type(CTFType::Sequence(CIntegerType::I16)), "int16_t *");
    assert_eq!(ctf_field_c_type(CTFType::SequenceNoWrite(CIntegerType::U64)), "uint64_t *");
}

#[test]
fn recording_mode_does_not_change_the_c_type() {
    for i in INTEGERS {
        let plain = ctf_field_c_type(CTFType::Integer(i));
        assert_eq!(plain, i.c_type());
        assert_eq!(ctf_field_c_type(CTFType::IntegerNoWrite(i)), plain);
        assert_eq!(ctf_field_c_type(CTFType::IntegerHex(i)), plain);
        assert_eq!(ctf_field_c_type(CTFType::IntegerNetwork(i)), plain);
        assert_eq!(ctf_field_c_type(CTFType::IntegerNetworkHex(i)), plain);
    }
}

#[test]
fn host_type_of_numbers() {
    assert_eq!(rust_type_for(&CTFType::Integer(CIntegerType::I32)), "i32");
    assert_eq!(rust_type_for(&CTFType::IntegerNoWrite(CIntegerType::U8)), "u8");
    assert_eq!(rust_type_for(&CTFType::IntegerHex(CIntegerType::U64)), "u64");
    assert_eq!(rust_type_for(&CTFType::IntegerNetwork(CIntegerType::U16)), "u16");
    assert_eq!(rust_type_for(&CTFType::IntegerNetworkHex(CIntegerType::I64)), "i64");
    assert_eq!(rust_type_for(&CTFType::Float(CFloatType::Single)), "f32");
    assert_eq!(rust_type_for(&CTFType::FloatNoWrite(CFloatType::Double)), "f64");
}

#[test]
fn host_type_of_text() {
    assert_eq!(rust_type_for(&CTFType::String), "::std::ffi::CStr");
    assert_eq!(rust_type_for(&CTFType::StringNoWrite), "::std::ffi::CStr");
    assert_eq!(rust_type_for(&CTFType::ArrayText(7)), "&str");
    assert_eq!(rust_type_for(&CTFType::SequenceText), "&str");
    assert_eq!(rust_type_for(&CTFType::SequenceTextNoWrite), "&str");
}

#[test]
fn host_type_of_integer_sequences_is_a_slice() {
    assert_eq!(rust_type_for(&CTFType::Sequence(CIntegerType::U8)), "&[u8]");
    assert_eq!(rust_type_for(&CTFType::SequenceNoWrite(CIntegerType::I64)), "&[i64]");
}

#[test]
fn host_type_of_integer_arrays_writes_the_length() {
    assert_eq!(rust_type_for(&CTFType::Array(CIntegerType::U8, 16)), "&[u8; 16]");
    assert_eq!(rust_type_for(&CTFType::ArrayNoWrite(CIntegerType::I32, 3)), "&[i32; 3]");
    assert_eq!(rust_type_for(&CTFType::Array(CIntegerType::U16, 0)), "&[u16; 0]");
    assert_eq!(rust_type_for(&CTFType::Array(CIntegerType::U16, 9)), "&[u16; 9]");
    assert_eq!(rust_type_for(&CTFType::Array(CIntegerType::U16, 10)), "&[u16; 10]");
    assert_eq!(rust_type_for(&CTFType::Array(CIntegerType::U16, 1009)), "&[u16; 1009]");
    assert_eq!(rust_type_for(&CTFType::Array(CIntegerType::U16, -3)), "&[u16; -3]");
    assert_eq!(
        rust_type_for(&CTFType::Array(CIntegerType::I8, i32::MAX)),
        "&[i8; 2147483647]"
    );
    assert_eq!(
        rust_type_for(&CTFType::Array(CIntegerType::I8, i32::MIN)),
        "&[i8; -2147483648]"
    );
}

#[test]
fn type_names_are_the_same_on_every_call() {
    for ty in supported_types() {
        assert_eq!(ctf_field_c_type(ty), ctf_field_c_type(ty));
        assert_eq!(rust_type_for(&ty), rust_type_for(&ty));
        assert!(!ctf_field_c_type(ty).is_empty());
        assert!(!rust_type_for(&ty).is_empty());
    }
}

#[test]
fn only_sequences_are_sequences() {
    for ty in supported_types() {
        let expected = matches!(
            ty,
            CTFType::Sequence(_)
                | CTFType::SequenceNoWrite(_)
                | CTFType::SequenceText
                | CTFType::SequenceTextNoWrite
        );
        assert_eq!(ty.is_sequence(), expected, "{:?}", ty);
    }
    assert!(!CTFType::Enum.is_sequence());
    assert!(!CTFType::EnumNoWrite.is_sequence());
}

#[test]
fn sequences_and_text_arrays_have_a_length() {
    for ty in supported_types() {
        let expected = ty.is_sequence() || matches!(ty, CTFType::ArrayText(_));
        assert_eq!(ty.has_length(), expected, "{:?}", ty);
    }
    assert!(CTFType::ArrayText(3).has_length());
    assert!(!CTFType::Array(CIntegerType::U8, 3).has_length());
    assert!(!CTFType::String.has_length());
    assert!(!CTFType::Enum.has_length());
}

#[test]
fn counted_text_is_text_with_a_length() {
    assert!(CTFType::ArrayText(3).is_counted_text());
    assert!(CTFType::SequenceText.is_counted_text());
    assert!(CTFType::SequenceTextNoWrite.is_counted_text());
    assert!(!CTFType::String.is_counted_text());
    assert!(!CTFType::StringNoWrite.is_counted_text());
    assert!(!CTFType::Sequence(CIntegerType::U8).is_counted_text());
    assert!(!CTFType::Integer(CIntegerType::U8).is_counted_text());
}

#[test]
fn only_enumerations_are_enumerations() {
    assert!(CTFType::Enum.is_enum());
    assert!(CTFType::EnumNoWrite.is_enum());
    for ty in supported_types() {
        assert!(!ty.is_enum(), "{:?}", ty);
    }
}

#[test]
fn macro_of_every_type() {
    let i = CIntegerType::I32;
    let f = CFloatType::Single;
    assert_eq!(CTFType::Integer(i).ctf_macro(), "ctf_integer");
    assert_eq!(CTFType::IntegerNoWrite(i).ctf_macro(), "ctf_integer_nowrite");
    assert_eq!(CTFType::IntegerHex(i).ctf_macro(), "ctf_integer_hex");
    assert_eq!(CTFType::IntegerNetwork(i).ctf_macro(), "ctf_integer_network");
    assert_eq!(CTFType::IntegerNetworkHex(i).ctf_macro(), "ctf_integer_network_hex");
    assert_eq!(CTFType::Float(f).ctf_macro(), "ctf_float");
    assert_eq!(CTFType::FloatNoWrite(f).ctf_macro(), "ctf_float_nowrite");
    assert_eq!(CTFType::String.ctf_macro(), "ctf_string");
    assert_eq!(CTFType::StringNoWrite.ctf_macro(), "ctf_string_nowrite");
    assert_eq!(CTFType::Array(i, 2).ctf_macro(), "ctf_array");
    assert_eq!(CTFType::ArrayText(2).ctf_macro(), "ctf_array_text");
    assert_eq!(CTFType::ArrayNoWrite(i, 2).ctf_macro(), "ctf_array_nowrite");
    assert_eq!(CTFType::Sequence(i).ctf_macro(), "ctf_sequence");
    assert_eq!(CTFType::SequenceNoWrite(i).ctf_macro(), "ctf_sequence_nowrite");
    assert_eq!(CTFType::SequenceText.ctf_macro(), "ctf_sequence_text");
    assert_eq!(CTFType::SequenceTextNoWrite.ctf_macro(), "ctf_sequence_text_nowrite");
    assert_eq!(CTFType::Enum.ctf_macro(), "ctf_enum");
    assert_eq!(CTFType::EnumNoWrite.ctf_macro(), "ctf_enum_nowrite");
}

#[test]
fn log_level_c_names() {
    assert_eq!(LogLevel::Emergency.c_name(), "TRACE_EMERG");
    assert_eq!(LogLevel::Alert.c_name(), "TRACE_ALERT");
    assert_eq!(LogLevel::Critical.c_name(), "TRACE_CRIT");
    assert_eq!(LogLevel::Error.c_name(), "TRACE_ERR");
    assert_eq!(LogLevel::Warning.c_name(), "TRACE_WARNING");
    assert_eq!(LogLevel::Notice.c_name(), "TRACE_NOTICE");
    assert_eq!(LogLevel::Info.c_name(), "TRACE_INFO");
    assert_eq!(LogLevel::DebugSystem.c_name(), "TRACE_DEBUG_SYSTEM");
    assert_eq!(LogLevel::DebugProgram.c_name(), "TRACE_DEBUG_PROGRAM");
    assert_eq!(LogLevel::DebugProcess.c_name(), "TRACE_DEBUG_PROCESS");
    assert_eq!(LogLevel::DebugModule.c_name(), "TRACE_DEBUG_MODULE");
    assert_eq!(LogLevel::DebugUnit.c_name(), "TRACE_DEBUG_UNIT");
    assert_eq!(LogLevel::DebugFunction.c_name(), "TRACE_DEBUG_FUNCTION");
    assert_eq!(LogLevel::DebugLine.c_name(), "TRACE_DEBUG_LINE");
    assert_eq!(LogLevel::Debug.c_name(), "TRACE_DEBUG");
}
