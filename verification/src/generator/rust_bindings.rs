//! The Rust module that a program calls: one wrapper function for each
//! event, which lowers its arguments to what the C function takes and calls
//! it.

use crate::generator::tracepoint_interface::{event_view, func_name_text, generate_func_name};
use crate::schema::{
    fields_supported, fields_view, providers_supported, providers_view, EventClass, EventInstance,
    EventView, Field, FieldView, Provider, ProviderView,
};
use crate::signature::{
    call_args, host_param_name, host_params, lemma_call_args_take, length_expr, lowered_exprs,
    value_expr, CallArg, HostParam,
};
use crate::text::{
    concatenated, decimal_text, joined, lemma_append_eight, lemma_append_five, lemma_append_ten,
    lemma_append_three, lemma_append_two, lemma_concatenated_append_all, lemma_concatenated_next,
    lemma_empty_append, lemma_joined_append, lemma_joined_next, lemma_joined_two,
    lemma_nothing_to_write, lemma_written_by_items, signed_decimal_text, write_decimal,
    write_signed_decimal,
};
use crate::types::CTFType;
use vstd::prelude::*;
use vstd::string::*;

verus! {

/// The start of the generated module: a private module `detail` that holds
/// the raw bindings stored at `raw_bindings_path`.
pub open spec fn include_text(raw_bindings_path: Seq<char>) -> Seq<char> {
    "#[allow(non_upper_case_globals)]\n"@ + "#[allow(non_camel_case_types)]\n"@
        + "#[allow(non_snake_case)]\n"@ + "mod detail {\n"@ + "    include!(\""@
        + raw_bindings_path + "\");\n"@ + "}\n"@
}

/// Appends the module that holds the raw bindings to `out`.
pub fn write_include(out: &mut String, raw_bindings_path: &str)
    ensures
        final(out)@ == old(out)@ + include_text(raw_bindings_path@),
{
    out.append("#[allow(non_upper_case_globals)]\n");
    out.append("#[allow(non_camel_case_types)]\n");
    out.append("#[allow(non_snake_case)]\n");
    out.append("mod detail {\n");
    out.append("    include!(\"");
    out.append(raw_bindings_path);
    out.append("\");\n");
    out.append("}\n");
    proof {
        lemma_append_eight(
            old(out)@,
            "#[allow(non_upper_case_globals)]\n"@,
            "#[allow(non_camel_case_types)]\n"@,
            "#[allow(non_snake_case)]\n"@,
            "mod detail {\n"@,
            "    include!(\""@,
            raw_bindings_path@,
            "\");\n"@,
            "}\n"@,
        );
    }
}

/// The Rust type of the wrapper argument for a field of logical type `ty`.
///
/// All recording modes of one integer or float type share a Rust type; a
/// terminated string is a `CStr`; text with a count is a `&str`; integer
/// arrays and sequences are references to arrays and slices. The type
/// depends on the logical type alone. Enumerations have no Rust type: they
/// are not supported, and asking for one is the caller's error.
pub fn rust_type_for(ty: &CTFType) -> (name: String)
    requires
        !ty.is_enum(),
    ensures
        name@ == ty.host_type_text(),
{
    let mut out = String::new();
    match *ty {
        CTFType::Integer(i)
        | CTFType::IntegerNoWrite(i)
        | CTFType::IntegerHex(i)
        | CTFType::IntegerNetwork(i)
        | CTFType::IntegerNetworkHex(i) => {
            out.append(i.rust_type());
        },
        CTFType::Float(f) | CTFType::FloatNoWrite(f) => {
            out.append(f.rust_type());
        },
        CTFType::String | CTFType::StringNoWrite => {
            out.append("::std::ffi::CStr");
        },
        CTFType::Array(i, l) | CTFType::ArrayNoWrite(i, l) => {
            out.append("&[");
            out.append(i.rust_type());
            out.append("; ");
            write_signed_decimal(&mut out, l);
            out.append("]");
            proof {
                lemma_append_five(
                    Seq::empty(),
                    "&["@,
                    i.rust_type_text(),
                    "; "@,
                    signed_decimal_text(l as int),
                    "]"@,
                );
            }
        },
        CTFType::ArrayText(_) => {
            out.append("&str");
        },
        CTFType::Sequence(i) | CTFType::SequenceNoWrite(i) => {
            out.append("&[");
            out.append(i.rust_type());
            out.append("]");
            proof {
                lemma_append_three(Seq::empty(), "&["@, i.rust_type_text(), "]"@);
            }
        },
        CTFType::SequenceText | CTFType::SequenceTextNoWrite => {
            out.append("&str");
        },
        CTFType::Enum | CTFType::EnumNoWrite => unreached(),
    }
    proof {
        lemma_empty_append(ty.host_type_text());
    }
    out
}

/// The arguments that the wrapper hands to the C function for its parameter
/// `base_name`, which holds the value of `field`: the lowered value and,
/// where the field's type has an element count, the count, with a comma and
/// a blank between them.
pub fn c_arg_for_field(base_name: String, field: &Field) -> (arg: String)
    ensures
        arg@ == joined(lowered_exprs(base_name@, field@.ctf_type), ", "@),
{
    let ghost ty = field@.ctf_type;
    let ghost base = base_name@;
    let mut out = String::new();
    if field.ctf_type.is_counted_text() {
        out.append("::std::mem::transmute(");
        out.append(base_name.as_str());
        out.append(".as_bytes().as_ptr())");
        proof {
            lemma_append_three(
                Seq::empty(),
                "::std::mem::transmute("@,
                base,
                ".as_bytes().as_ptr())"@,
            );
        }
    } else {
        match field.ctf_type {
            CTFType::Array(_, _)
            | CTFType::ArrayNoWrite(_, _)
            | CTFType::Sequence(_)
            | CTFType::SequenceNoWrite(_) => {
                out.append(base_name.as_str());
                out.append(".as_ptr()");
                proof {
                    lemma_append_two(Seq::empty(), base, ".as_ptr()"@);
                }
            },
            _ => {
                out.append(base_name.as_str());
            },
        }
    }
    proof {
        lemma_empty_append(value_expr(base, ty));
    }
    if field.ctf_type.has_length() {
        out.append(", ");
        let ghost separated = out@;
        out.append(base_name.as_str());
        out.append(".len()");
        proof {
            lemma_append_two(separated, base, ".len()"@);
            lemma_joined_two(value_expr(base, ty), length_expr(base), ", "@);
        }
    }
    out
}

/// One entry of the parameter list of a wrapper: the parameter's name, a
/// colon and its type.
pub open spec fn host_arg_text(p: HostParam) -> Seq<char> {
    p.name + ": "@ + p.host_type
}

/// The entries of the parameter list of the wrapper of a class with the
/// given fields.
pub open spec fn host_arg_texts(fields: Seq<FieldView>) -> Seq<Seq<char>> {
    host_params(fields).map_values(|p: HostParam| host_arg_text(p))
}

/// The parameter list of the wrapper of a class with the given fields: one
/// entry for each field, in field order.
pub open spec fn host_args_text(fields: Seq<FieldView>) -> Seq<char> {
    joined(host_arg_texts(fields), ", "@)
}

/// The expressions that the wrapper of a class with the given fields hands
/// to the C function.
pub open spec fn call_arg_texts(fields: Seq<FieldView>) -> Seq<Seq<char>> {
    call_args(fields).map_values(|a: CallArg| a.expr)
}

/// The argument list of the call that the wrapper of a class with the given
/// fields makes: one expression for each C parameter, in order.
pub open spec fn call_args_text(fields: Seq<FieldView>) -> Seq<char> {
    joined(call_arg_texts(fields), ", "@)
}

/// The name of the wrapper parameter for the field at position `index`.
fn host_arg_name(index: usize) -> (name: String)
    ensures
        name@ == host_param_name(index as int),
{
    let mut out = String::new();
    out.append("a");
    write_decimal(&mut out, index as u64);
    proof {
        lemma_append_two(Seq::empty(), "a"@, decimal_text(index as nat));
        lemma_empty_append(host_param_name(index as int));
    }
    out
}

/// Appends the parameter list of the wrapper of a class with the given
/// fields to `out`.
fn write_host_args(fields: &[Field], out: &mut String)
    requires
        fields_supported(fields_view(fields@)),
    ensures
        final(out)@ == old(out)@ + host_args_text(fields_view(fields@)),
{
    let ghost start = out@;
    let ghost all = fields_view(fields@);
    let ghost texts = host_arg_texts(all);
    let ghost sep = ", "@;
    let mut i: usize = 0;
    proof {
        lemma_written_by_items(start, texts, sep);
    }
    while i < fields.len()
        invariant
            i <= fields.len(),
            all == fields_view(fields@),
            texts == host_arg_texts(all),
            sep == ", "@,
            fields_supported(all),
            out@ == start + joined(texts.take(i as int), sep),
        decreases fields.len() - i,
    {
        if i > 0 {
            out.append(", ");
        }
        let ghost separated = out@;
        let name = host_arg_name(i);
        out.append(name.as_str());
        out.append(": ");
        assert(!all[i as int].ctf_type.is_enum());
        let ty = rust_type_for(&fields[i].ctf_type);
        out.append(ty.as_str());
        proof {
            lemma_append_three(separated, name@, ": "@, ty@);
            lemma_joined_next(start, texts, sep, i as int);
        }
        i += 1;
    }
}

/// Appends the argument list of the call that the wrapper of a class with
/// the given fields makes to `out`.
fn write_call_args(fields: &[Field], out: &mut String)
    ensures
        final(out)@ == old(out)@ + call_args_text(fields_view(fields@)),
{
    let ghost start = out@;
    let ghost all = fields_view(fields@);
    let ghost sep = ", "@;
    let mut i: usize = 0;
    proof {
        assert(call_arg_texts(all.take(0)) =~= Seq::empty());
        lemma_nothing_to_write(start, sep);
    }
    while i < fields.len()
        invariant
            i <= fields.len(),
            all == fields_view(fields@),
            sep == ", "@,
            i == 0 <==> call_arg_texts(all.take(i as int)).len() == 0,
            out@ == start + joined(call_arg_texts(all.take(i as int)), sep),
        decreases fields.len() - i,
    {
        let ghost before = call_arg_texts(all.take(i as int));
        let ghost ty = all[i as int].ctf_type;
        let ghost name = host_param_name(i as int);
        let ghost value = value_expr(name, ty);
        let ghost length = length_expr(name);
        if i > 0 {
            out.append(", ");
        }
        let ghost separated = out@;
        let arg = c_arg_for_field(host_arg_name(i), &fields[i]);
        out.append(arg.as_str());
        proof {
            lemma_call_args_take(all, i as int);
            lemma_joined_append(start, before, sep, value);
            if ty.has_length() {
                lemma_joined_two(value, length, sep);
                lemma_append_three(separated, value, sep, length);
                lemma_joined_append(start, before.push(value), sep, length);
                assert(call_arg_texts(all.take(i + 1)) =~= before.push(value).push(length));
            } else {
                assert(call_arg_texts(all.take(i + 1)) =~= before.push(value));
            }
        }
        i += 1;
    }
    proof {
        assert(all.take(fields.len() as int) =~= all);
    }
}

/// The wrapper function of an event. It is named after the event, takes one
/// argument for each field of the event's class, and hands them, lowered,
/// to the C function of the event.
#[verifier::opaque]
pub open spec fn wrapper_text(event: EventView) -> Seq<char> {
    "\n        pub(in super::super) fn "@ + event.instance.name + "<"@ + ">("@ + host_args_text(
        event.class.fields,
    ) + ") {\n            unsafe {\n                super::detail::"@ + func_name_text(event)
        + "("@ + call_args_text(event.class.fields)
        + ")\n            }\n        }\n"@
}

/// Generates the wrapper function of the event `instance` of the class
/// `class` of `provider`.
pub fn generate_instance_call(
    provider: &Provider,
    class: &EventClass,
    instance: &EventInstance,
) -> (text: String)
    requires
        class@.supported(),
    ensures
        text@ == wrapper_text(event_view(provider, class, instance)),
{
    let native_name = generate_func_name(provider, class, instance);
    let mut out = String::new();
    out.append("\n        pub(in super::super) fn ");
    out.append(instance.name.as_str());
    out.append("<");
    out.append(">(");
    write_host_args(class.fields.as_slice(), &mut out);
    out.append(") {\n            unsafe {\n                super::detail::");
    out.append(native_name.as_str());
    out.append("(");
    write_call_args(class.fields.as_slice(), &mut out);
    out.append(")\n            }\n        }\n");
    proof {
        reveal(wrapper_text);
        let event = event_view(provider, class, instance);
        lemma_append_ten(
            Seq::empty(),
            "\n        pub(in super::super) fn "@,
            instance@.name,
            "<"@,
            ">("@,
            host_args_text(class@.fields),
            ") {\n            unsafe {\n                super::detail::"@,
            func_name_text(event),
            "("@,
            call_args_text(class@.fields),
            ")\n            }\n        }\n"@,
        );
        lemma_empty_append(wrapper_text(event));
    }
    out
}

/// The wrapper functions of the given events, in order, each followed by a
/// line break.
pub open spec fn wrapper_texts(events: Seq<EventView>) -> Seq<Seq<char>> {
    events.map_values(|e: EventView| wrapper_text(e) + "\n"@)
}

/// The module of `provider`: it is named after the provider and holds one
/// wrapper function for each event.
#[verifier::opaque]
pub open spec fn provider_module_text(provider: ProviderView) -> Seq<char> {
    "pub(in super) mod "@ + provider.name + " {"@ + concatenated(wrapper_texts(provider.events()))
        + "}\n\n"@
}

/// The modules of the given providers, in the order in which the providers
/// were registered.
pub open spec fn provider_module_texts(providers: Seq<ProviderView>) -> Seq<Seq<char>> {
    providers.map_values(|p: ProviderView| provider_module_text(p))
}

/// The generated Rust module: the raw bindings stored at
/// `raw_bindings_path`, then one module for each provider.
pub open spec fn rust_bindings_text(
    providers: Seq<ProviderView>,
    raw_bindings_path: Seq<char>,
) -> Seq<char> {
    include_text(raw_bindings_path) + concatenated(provider_module_texts(providers))
}

/// Appends the wrapper functions of the events of one class to `out`.
fn write_class_wrappers(provider: &Provider, class: &EventClass, out: &mut String)
    requires
        class@.supported(),
    ensures
        final(out)@ == old(out)@ + concatenated(wrapper_texts(class@.events(provider@.name))),
{
    let ghost start = out@;
    let ghost events = class@.events(provider@.name);
    let ghost texts = wrapper_texts(events);
    let mut i: usize = 0;
    proof {
        lemma_written_by_items(start, texts, ""@);
    }
    while i < class.instances.len()
        invariant
            i <= class.instances.len(),
            events == class@.events(provider@.name),
            texts == wrapper_texts(events),
            class@.supported(),
            out@ == start + concatenated(texts.take(i as int)),
        decreases class.instances.len() - i,
    {
        let ghost written = out@;
        let instance = &class.instances[i];
        let f = generate_instance_call(provider, class, instance);
        out.append(f.as_str());
        out.append("\n");
        proof {
            assert(events[i as int] == event_view(provider, class, instance));
            lemma_append_two(written, f@, "\n"@);
            lemma_concatenated_next(start, texts, i as int);
        }
        i += 1;
    }
}

/// Appends the module of `provider` to `out`.
fn write_provider(provider: &Provider, out: &mut String)
    requires
        provider@.supported(),
    ensures
        final(out)@ == old(out)@ + provider_module_text(provider@),
{
    let ghost p = provider@;
    out.append("pub(in super) mod ");
    out.append(provider.name.as_str());
    out.append(" {");
    let ghost start = out@;
    let mut i: usize = 0;
    proof {
        assert(wrapper_texts(p.events_before(0)) =~= Seq::empty());
        lemma_nothing_to_write(start, ""@);
    }
    while i < provider.classes.len()
        invariant
            i <= provider.classes.len(),
            p == provider@,
            p.supported(),
            out@ == start + concatenated(wrapper_texts(p.events_before(i as int))),
        decreases provider.classes.len() - i,
    {
        assert(p.classes[i as int].supported());
        write_class_wrappers(provider, &provider.classes[i], out);
        proof {
            let before = p.events_before(i as int);
            let added = p.classes[i as int].events(p.name);
            assert(wrapper_texts(before + added) =~= wrapper_texts(before) + wrapper_texts(added));
            lemma_concatenated_append_all(start, wrapper_texts(before), wrapper_texts(added));
        }
        i += 1;
    }
    out.append("}\n\n");
    proof {
        reveal(provider_module_text);
        lemma_append_five(
            old(out)@,
            "pub(in super) mod "@,
            p.name,
            " {"@,
            concatenated(wrapper_texts(p.events())),
            "}\n\n"@,
        );
    }
}

/// Appends one module for each provider to `out`.
pub fn write_providers(out: &mut String, providers: &[Provider])
    requires
        providers_supported(providers_view(providers@)),
    ensures
        final(out)@ == old(out)@ + concatenated(
            provider_module_texts(providers_view(providers@)),
        ),
{
    let ghost start = out@;
    let ghost all = providers_view(providers@);
    let ghost texts = provider_module_texts(all);
    let mut i: usize = 0;
    proof {
        lemma_written_by_items(start, texts, ""@);
    }
    while i < providers.len()
        invariant
            i <= providers.len(),
            all == providers_view(providers@),
            texts == provider_module_texts(all),
            providers_supported(all),
            out@ == start + concatenated(texts.take(i as int)),
        decreases providers.len() - i,
    {
        assert(all[i as int].supported());
        write_provider(&providers[i], out);
        proof {
            lemma_concatenated_next(start, texts, i as int);
        }
        i += 1;
    }
}

/// Generates the Rust module for the given providers, on top of the raw
/// bindings stored at `raw_bindings`.
pub fn generate_rust_bindings(providers: &[Provider], raw_bindings: &str) -> (text: String)
    requires
        providers_supported(providers_view(providers@)),
    ensures
        text@ == rust_bindings_text(providers_view(providers@), raw_bindings@),
{
    let mut out = String::new();
    write_include(&mut out, raw_bindings);
    write_providers(&mut out, providers);
    proof {
        lemma_append_two(
            Seq::empty(),
            include_text(raw_bindings@),
            concatenated(provider_module_texts(providers_view(providers@))),
        );
        lemma_empty_append(rust_bindings_text(providers_view(providers@), raw_bindings@));
    }
    out
}

} // verus!
