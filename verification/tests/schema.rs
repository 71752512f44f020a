use lttng_ust_generate::generator::tracepoint_impl::{generate_event_class, generate_provider};
use lttng_ust_generate::generator::tracepoint_interface::generate_func_name;
use lttng_ust_generate::{
    CIntegerType, CTFType, EventClass, EventInstance, Field, LogLevel, Provider,
};

fn class_text(class: &EventClass) -> String {
    let mut out = String::new();
    generate_event_class(class, &mut out);
    out
}

fn provider_text(provider: &Provider) -> String {
    let mut out = String::new();
    generate_provider(provider, &mut out);
    out
}

#[test]
fn new_provider_has_its_name_and_no_class() {
    let provider = Provider::new("fresh");
    assert!(provider.is_supported());
    assert_eq!(
        provider_text(&provider),
        "#undef TRACEPOINT_PROVIDER\n#define TRACEPOINT_PROVIDER fresh\n\n#include <lttng/tracepoint.h>\n\n#include <stdint.h>\n"
    );
}

#[test]
fn new_class_has_its_name_and_nothing_else() {
    let class = EventClass::new("fresh".to_string());
    assert!(class.is_supported());
    assert_eq!(class_text(&class), "    fresh,\n    TP_ARGS(\n\n    ),\n    TP_FIELDS(\n\n    )\n)\n\n");
}

#[test]
fn created_class_belongs_to_its_provider() {
    let mut provider = Provider::new("p");
    {
        let class = provider.create_class("made");
        assert_eq!(class_text(class), class_text(&EventClass::new("made".to_string())));
        class.add_field("n", CTFType::Integer(CIntegerType::U8));
        class.instantiate("go");
    }
    let text = provider_text(&provider);
    assert!(text.contains("    made,\n    TP_ARGS(\n        uint8_t, n_arg\n    ),"));
    assert!(text.contains("TRACEPOINT_EVENT_INSTANCE(\n    p,\n    made,\n    go,\n"));
}

#[test]
fn fields_keep_the_order_of_the_calls() {
    let mut forward = EventClass::new("c".to_string());
    forward
        .add_field("a", CTFType::Integer(CIntegerType::U8))
        .add_field("b", CTFType::Integer(CIntegerType::U16))
        .add_field("c", CTFType::Integer(CIntegerType::U32));
    let mut backward = EventClass::new("c".to_string());
    backward
        .add_field("c", CTFType::Integer(CIntegerType::U32))
        .add_field("b", CTFType::Integer(CIntegerType::U16))
        .add_field("a", CTFType::Integer(CIntegerType::U8));
    assert_eq!(
        class_text(&forward),
        "    c,\n    TP_ARGS(\n        uint8_t, a_arg,\n        uint16_t, b_arg,\n        uint32_t, c_arg\n    ),\n    TP_FIELDS(\n        ctf_integer(uint8_t, a, a_arg)\n        ctf_integer(uint16_t, b, b_arg)\n        ctf_integer(uint32_t, c, c_arg)\n    )\n)\n\n"
    );
    assert_eq!(
        class_text(&backward),
        "    c,\n    TP_ARGS(\n        uint32_t, c_arg,\n        uint16_t, b_arg,\n        uint8_t, a_arg\n    ),\n    TP_FIELDS(\n        ctf_integer(uint32_t, c, c_arg)\n        ctf_integer(uint16_t, b, b_arg)\n        ctf_integer(uint8_t, a, a_arg)\n    )\n)\n\n"
    );
}

#[test]
fn field_names_are_not_checked_for_duplicates() {
    let mut class = EventClass::new("c".to_string());
    class
        .add_field("same", CTFType::Integer(CIntegerType::U8))
        .add_field("same", CTFType::String);
    assert_eq!(
        class_text(&class),
        "    c,\n    TP_ARGS(\n        uint8_t, same_arg,\n        const char *, same_arg\n    ),\n    TP_FIELDS(\n        ctf_integer(uint8_t, same, same_arg)\n        ctf_string(same, same_arg)\n    )\n)\n\n"
    );
}

#[test]
fn fields_may_be_added_after_an_instantiation() {
    let mut provider = Provider::new("p");
    provider
        .create_class("c")
        .add_field("a", CTFType::Integer(CIntegerType::U8))
        .instantiate("early")
        .add_field("b", CTFType::String);
    let text = provider_text(&provider);
    assert!(text.contains(
        "TRACEPOINT_EVENT_INSTANCE(\n    p,\n    c,\n    early,\n    TP_ARGS(\n        uint8_t, a_arg,\n        const char *, b_arg\n    )\n)\n\n"
    ));
}

#[test]
fn instances_keep_the_order_of_the_calls() {
    let mut provider = Provider::new("p");
    provider
        .create_class("c")
        .instantiate("one")
        .instantiate_with_level("two", LogLevel::Emergency)
        .instantiate("three");
    let text = provider_text(&provider);
    let one = text.find("    one,\n").unwrap();
    let two = text.find("    two,\n").unwrap();
    let level = text.find("TRACEPOINT_LOGLEVEL(p, two, TRACE_EMERG)\n\n").unwrap();
    let three = text.find("    three,\n").unwrap();
    assert!(one < two && two < level && level < three);
    assert_eq!(text.matches("TRACEPOINT_LOGLEVEL(").count(), 1);
}

#[test]
fn classes_keep_the_order_of_the_calls() {
    let mut provider = Provider::new("p");
    provider.create_class("zeta");
    provider.create_class("alpha");
    provider.create_class("zeta");
    let text = provider_text(&provider);
    let blocks: Vec<&str> = text.lines().filter(|l| l.starts_with("/**--== ")).collect();
    assert_eq!(
        blocks,
        vec![
            "/**--== zeta instances ==--**/",
            "/**--== alpha instances ==--**/",
            "/**--== zeta instances ==--**/"
        ]
    );
}

#[test]
fn parts_made_on_their_own_hold_what_they_are_given() {
    let provider = Provider::new("p");
    let class = EventClass::new("c".to_string());
    let plain = EventInstance::new("plain".to_string());
    let leveled = EventInstance::with_level("leveled".to_string(), LogLevel::Notice);
    assert_eq!(generate_func_name(&provider, &class, &plain), "p_c_plain_tp");
    assert_eq!(generate_func_name(&provider, &class, &leveled), "p_c_leveled_tp");
    let field = Field::new("n".to_string(), CTFType::Integer(CIntegerType::I8));
    let mut out = String::new();
    lttng_ust_generate::generator::tracepoint_impl::generate_ctf_call(&field, &mut out);
    assert_eq!(out, "ctf_integer(int8_t, n, n_arg)");
}

#[test]
fn provider_is_supported_when_all_its_classes_are() {
    let mut provider = Provider::new("p");
    provider.create_class("a").add_field("n", CTFType::Integer(CIntegerType::U8));
    assert!(provider.is_supported());
    provider.create_class("b").add_field("k", CTFType::Enum);
    assert!(!provider.is_supported());
    provider.create_class("c").add_field("s", CTFType::String);
    assert!(!provider.is_supported());
}
