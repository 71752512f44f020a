//! The native tracepoint header and its companion source file: the event
//! classes and events of each provider, declared with the tracing library's
//! macros.

use crate::generator::ctf_field_c_type;
use crate::schema::{
    fields_supported, fields_view, providers_supported, providers_view, ClassView, EventClass,
    EventInstance, Field, FieldView, InstanceView, Provider, ProviderView,
};
use crate::signature::{
    c_params, lemma_c_params_take, length_c_type, length_param, length_param_name, value_param,
    value_param_name, CParam,
};
use crate::text::{
    concatenated, joined, lemma_append_five, lemma_append_four, lemma_append_seven,
    lemma_append_six, lemma_append_three, lemma_append_two, lemma_concatenated_next,
    lemma_empty_append, lemma_joined_append, lemma_joined_five, lemma_joined_four,
    lemma_joined_next, lemma_joined_three, lemma_joined_two, lemma_nothing_to_write,
    lemma_written_by_items, signed_decimal_text, write_signed_decimal,
};
use crate::types::CTFType;
use vstd::prelude::*;
use vstd::string::*;

verus! {

/// One entry of a `TP_ARGS` list: the parameter's type and its name.
pub open spec fn tp_arg_text(p: CParam) -> Seq<char> {
    "        "@ + p.c_type + ", "@ + p.name
}

/// The entries of the `TP_ARGS` list of a class with the given fields.
pub open spec fn tp_arg_texts(fields: Seq<FieldView>) -> Seq<Seq<char>> {
    c_params(fields).map_values(|p: CParam| tp_arg_text(p))
}

/// The `TP_ARGS` list of a class with the given fields: one entry for each C
/// parameter, in order, a comma and a line break between two entries.
pub open spec fn tp_args_text(fields: Seq<FieldView>) -> Seq<char> {
    "    TP_ARGS(\n"@ + joined(tp_arg_texts(fields), ",\n"@) + "\n    )"@
}

/// Appends one `TP_ARGS` entry to `out`: the type `c_type` and the name made
/// of `name` and `suffix`.
fn write_tp_arg(out: &mut String, c_type: &str, name: &str, suffix: &str)
    ensures
        final(out)@ == old(out)@ + ("        "@ + c_type@ + ", "@ + (name@ + suffix@)),
{
    out.append("        ");
    out.append(c_type);
    out.append(", ");
    let ghost typed = out@;
    out.append(name);
    out.append(suffix);
    proof {
        lemma_append_two(typed, name@, suffix@);
        lemma_append_four(old(out)@, "        "@, c_type@, ", "@, name@ + suffix@);
    }
}

/// Appends the `TP_ARGS` list of a class with the given fields to `out`.
pub fn generate_tp_args(fields: &[Field], out: &mut String)
    requires
        fields_supported(fields_view(fields@)),
    ensures
        final(out)@ == old(out)@ + tp_args_text(fields_view(fields@)),
{
    let ghost all = fields_view(fields@);
    let ghost sep = ",\n"@;
    out.append("    TP_ARGS(\n");
    let ghost start = out@;
    let mut first = true;
    let mut i: usize = 0;
    proof {
        assert(tp_arg_texts(all.take(0)) =~= Seq::empty());
        lemma_nothing_to_write(start, sep);
    }
    while i < fields.len()
        invariant
            i <= fields.len(),
            all == fields_view(fields@),
            sep == ",\n"@,
            fields_supported(all),
            first <==> tp_arg_texts(all.take(i as int)).len() == 0,
            out@ == start + joined(tp_arg_texts(all.take(i as int)), sep),
        decreases fields.len() - i,
    {
        let field = &fields[i];
        let ghost before = tp_arg_texts(all.take(i as int));
        let ghost value = tp_arg_text(value_param(i as int, all[i as int]));
        let ghost length = tp_arg_text(length_param(i as int, all[i as int]));
        proof {
            lemma_c_params_take(all, i as int);
            lemma_joined_append(start, before, sep, value);
            lemma_joined_append(start, before.push(value), sep, length);
        }
        if first {
            first = false;
        } else {
            out.append(",\n");
        }
        write_tp_arg(out, ctf_field_c_type(field.ctf_type), field.name.as_str(), "_arg");
        if field.ctf_type.has_length() {
            out.append(",\n");
            write_tp_arg(out, "int", field.name.as_str(), "_len");
            assert(tp_arg_texts(all.take(i + 1)) =~= before.push(value).push(length));
        } else {
            assert(tp_arg_texts(all.take(i + 1)) =~= before.push(value));
        }
        i += 1;
    }
    out.append("\n    )");
    proof {
        assert(all.take(fields.len() as int) =~= all);
        lemma_append_three(
            old(out)@,
            "    TP_ARGS(\n"@,
            joined(tp_arg_texts(all), sep),
            "\n    )"@,
        );
    }
}

/// The arguments of the macro call that records the field `f`: the element
/// type where the macro takes one, the field's name, the parameter to read
/// it from, and then the fixed length of an array, or the type and the
/// parameter of the element count of a sequence.
pub open spec fn ctf_call_args(f: FieldView) -> Seq<Seq<char>> {
    match f.ctf_type {
        CTFType::Integer(i)
        | CTFType::IntegerNoWrite(i)
        | CTFType::IntegerHex(i)
        | CTFType::IntegerNetwork(i)
        | CTFType::IntegerNetworkHex(i) => seq![i.c_type_text(), f.name, value_param_name(f)],
        CTFType::Float(t) | CTFType::FloatNoWrite(t) => seq![
            t.c_type_text(),
            f.name,
            value_param_name(f),
        ],
        CTFType::String | CTFType::StringNoWrite => seq![f.name, value_param_name(f)],
        CTFType::Array(i, l) | CTFType::ArrayNoWrite(i, l) => seq![
            i.c_type_text(),
            f.name,
            value_param_name(f),
            signed_decimal_text(l as int),
        ],
        CTFType::ArrayText(l) => seq![
            "text"@,
            f.name,
            value_param_name(f),
            signed_decimal_text(l as int),
        ],
        CTFType::Sequence(i) | CTFType::SequenceNoWrite(i) => seq![
            i.c_type_text(),
            f.name,
            value_param_name(f),
            length_c_type(),
            length_param_name(f),
        ],
        CTFType::SequenceText | CTFType::SequenceTextNoWrite => seq![
            "char"@,
            f.name,
            value_param_name(f),
            length_c_type(),
            length_param_name(f),
        ],
        CTFType::Enum | CTFType::EnumNoWrite => Seq::empty(),
    }
}

/// The macro call that records the field `f`: the macro of the field's type
/// and, in brackets, its arguments with a comma and a blank between them.
pub open spec fn ctf_call_text(f: FieldView) -> Seq<char> {
    f.ctf_type.ctf_macro_text() + "("@ + joined(ctf_call_args(f), ", "@) + ")"@
}

/// Appends the name of a field and the parameter to read it from, as two
/// arguments of a macro call.
fn write_name_and_source(out: &mut String, name: &str)
    ensures
        final(out)@ == old(out)@ + (name@ + ", "@ + (name@ + "_arg"@)),
{
    out.append(name);
    out.append(", ");
    let ghost named = out@;
    out.append(name);
    out.append("_arg");
    proof {
        lemma_append_two(named, name@, "_arg"@);
        lemma_append_three(old(out)@, name@, ", "@, name@ + "_arg"@);
    }
}

/// Appends the arguments of a macro call that records a single number.
fn write_scalar_call_args(out: &mut String, c_type: &str, name: &str)
    ensures
        final(out)@ == old(out)@ + joined(seq![c_type@, name@, name@ + "_arg"@], ", "@),
{
    out.append(c_type);
    out.append(", ");
    write_name_and_source(out, name);
    proof {
        lemma_joined_three(c_type@, name@, name@ + "_arg"@, ", "@);
        lemma_append_three(old(out)@, c_type@, ", "@, name@ + ", "@ + (name@ + "_arg"@));
        assert(c_type@ + ", "@ + (name@ + ", "@ + (name@ + "_arg"@)) =~= c_type@ + ", "@ + name@
            + ", "@ + (name@ + "_arg"@));
    }
}

/// Appends the arguments of a macro call that records a terminated string.
fn write_string_call_args(out: &mut String, name: &str)
    ensures
        final(out)@ == old(out)@ + joined(seq![name@, name@ + "_arg"@], ", "@),
{
    write_name_and_source(out, name);
    proof {
        lemma_joined_two(name@, name@ + "_arg"@, ", "@);
    }
}

/// Appends the arguments of a macro call that records an array of `length`
/// elements.
fn write_array_call_args(out: &mut String, element: &str, name: &str, length: i32)
    ensures
        final(out)@ == old(out)@ + joined(
            seq![element@, name@, name@ + "_arg"@, signed_decimal_text(length as int)],
            ", "@,
        ),
{
    write_scalar_call_args(out, element, name);
    out.append(", ");
    write_signed_decimal(out, length);
    proof {
        let digits = signed_decimal_text(length as int);
        lemma_joined_three(element@, name@, name@ + "_arg"@, ", "@);
        lemma_joined_four(element@, name@, name@ + "_arg"@, digits, ", "@);
        lemma_append_three(
            old(out)@,
            joined(seq![element@, name@, name@ + "_arg"@], ", "@),
            ", "@,
            digits,
        );
    }
}

/// Appends the arguments of a macro call that records a sequence.
fn write_sequence_call_args(out: &mut String, element: &str, name: &str)
    ensures
        final(out)@ == old(out)@ + joined(
            seq![element@, name@, name@ + "_arg"@, "int"@, name@ + "_len"@],
            ", "@,
        ),
{
    write_scalar_call_args(out, element, name);
    out.append(", ");
    out.append("int");
    out.append(", ");
    let ghost counted = out@;
    out.append(name);
    out.append("_len");
    proof {
        lemma_joined_three(element@, name@, name@ + "_arg"@, ", "@);
        lemma_joined_five(element@, name@, name@ + "_arg"@, "int"@, name@ + "_len"@, ", "@);
        lemma_append_two(counted, name@, "_len"@);
        lemma_append_five(
            old(out)@,
            joined(seq![element@, name@, name@ + "_arg"@], ", "@),
            ", "@,
            "int"@,
            ", "@,
            name@ + "_len"@,
        );
    }
}

/// Appends the macro call that records `field` to `out`.
pub fn generate_ctf_call(field: &Field, out: &mut String)
    requires
        !field@.ctf_type.is_enum(),
    ensures
        final(out)@ == old(out)@ + ctf_call_text(field@),
{
    let name = field.name.as_str();
    out.append(field.ctf_type.ctf_macro());
    out.append("(");
    match field.ctf_type {
        CTFType::Integer(i)
        | CTFType::IntegerNoWrite(i)
        | CTFType::IntegerHex(i)
        | CTFType::IntegerNetwork(i)
        | CTFType::IntegerNetworkHex(i) => write_scalar_call_args(out, i.c_type(), name),
        CTFType::Float(t) | CTFType::FloatNoWrite(t) => write_scalar_call_args(
            out,
            t.c_type(),
            name,
        ),
        CTFType::String | CTFType::StringNoWrite => write_string_call_args(out, name),
        CTFType::Array(i, l) | CTFType::ArrayNoWrite(i, l) => write_array_call_args(
            out,
            i.c_type(),
            name,
            l,
        ),
        CTFType::ArrayText(l) => write_array_call_args(out, "text", name, l),
        CTFType::Sequence(i) | CTFType::SequenceNoWrite(i) => write_sequence_call_args(
            out,
            i.c_type(),
            name,
        ),
        CTFType::SequenceText | CTFType::SequenceTextNoWrite => write_sequence_call_args(
            out,
            "char",
            name,
        ),
        CTFType::Enum | CTFType::EnumNoWrite => unreached(),
    }
    out.append(")");
    proof {
        lemma_append_four(
            old(out)@,
            field@.ctf_type.ctf_macro_text(),
            "("@,
            joined(ctf_call_args(field@), ", "@),
            ")"@,
        );
    }
}

/// The lines of the `TP_FIELDS` list of a class with the given fields: the
/// macro call of each field, indented, in field order.
pub open spec fn tp_field_texts(fields: Seq<FieldView>) -> Seq<Seq<char>> {
    fields.map_values(|f: FieldView| "        "@ + ctf_call_text(f))
}

/// A line that holds one of the names of a declaration.
pub open spec fn name_line_text(name: Seq<char>) -> Seq<char> {
    "    "@ + name + ",\n"@
}

/// What follows the provider's name in the declaration of the event class
/// `class`: the class's name, its `TP_ARGS` list, and its `TP_FIELDS` list
/// with one line for each field.
pub open spec fn event_class_text(class: ClassView) -> Seq<char> {
    name_line_text(class.class_name) + tp_args_text(class.fields) + ",\n    TP_FIELDS(\n"@
        + joined(tp_field_texts(class.fields), "\n"@) + "\n    )\n"@ + ")\n\n"@
}

/// Appends a line that holds one of the names of a declaration.
fn write_name_line(out: &mut String, name: &str)
    ensures
        final(out)@ == old(out)@ + name_line_text(name@),
{
    out.append("    ");
    out.append(name);
    out.append(",\n");
    proof {
        lemma_append_three(old(out)@, "    "@, name@, ",\n"@);
    }
}

/// Appends to `out` what follows the provider's name in the declaration of
/// `event_class`.
pub fn generate_event_class(event_class: &EventClass, out: &mut String)
    requires
        event_class@.supported(),
    ensures
        final(out)@ == old(out)@ + event_class_text(event_class@),
{
    let ghost class = event_class@;
    let ghost all = class.fields;
    let ghost lines = tp_field_texts(all);
    let ghost sep = "\n"@;
    write_name_line(out, event_class.class_name.as_str());
    generate_tp_args(event_class.fields.as_slice(), out);
    out.append(",\n    TP_FIELDS(\n");
    let ghost start = out@;
    let mut first = true;
    let mut i: usize = 0;
    proof {
        lemma_written_by_items(start, lines, sep);
    }
    while i < event_class.fields.len()
        invariant
            i <= event_class.fields.len(),
            all == fields_view(event_class.fields@),
            lines == tp_field_texts(all),
            sep == "\n"@,
            fields_supported(all),
            first <==> i == 0,
            out@ == start + joined(lines.take(i as int), sep),
        decreases event_class.fields.len() - i,
    {
        let field = &event_class.fields[i];
        let ghost call = ctf_call_text(all[i as int]);
        if first {
            first = false;
        } else {
            out.append("\n");
        }
        let ghost separated = out@;
        out.append("        ");
        assert(!all[i as int].ctf_type.is_enum());
        generate_ctf_call(field, out);
        proof {
            lemma_append_two(separated, "        "@, call);
            lemma_joined_next(start, lines, sep, i as int);
        }
        i += 1;
    }
    out.append("\n    )\n");
    out.append(")\n\n");
    proof {
        lemma_append_six(
            old(out)@,
            name_line_text(class.class_name),
            tp_args_text(all),
            ",\n    TP_FIELDS(\n"@,
            joined(lines, sep),
            "\n    )\n"@,
            ")\n\n"@,
        );
    }
}

/// The line that gives the event `instance` of the provider named
/// `provider_name` its log level, or nothing where it has none.
pub open spec fn loglevel_text(provider_name: Seq<char>, instance: InstanceView) -> Seq<char> {
    match instance.level {
        Some(level) => "TRACEPOINT_LOGLEVEL("@ + provider_name + ", "@ + instance.name + ", "@
            + level.c_name_text() + ")\n\n"@,
        None => Seq::empty(),
    }
}

/// The declaration of the event `instance` of the class `class`, for the
/// provider named `provider_name`: the three names, the `TP_ARGS` list of
/// the class, and the event's log level where it has one.
#[verifier::opaque]
pub open spec fn instance_text(
    provider_name: Seq<char>,
    class: ClassView,
    instance: InstanceView,
) -> Seq<char> {
    "TRACEPOINT_EVENT_INSTANCE(\n"@ + name_line_text(provider_name) + name_line_text(
        class.class_name,
    ) + name_line_text(instance.name) + tp_args_text(class.fields) + "\n)\n\n"@ + loglevel_text(
        provider_name,
        instance,
    )
}

/// The declarations of the events of `class`, in the order in which they
/// were instantiated.
pub open spec fn instance_texts(provider_name: Seq<char>, class: ClassView) -> Seq<Seq<char>> {
    class.instances.map_values(|i: InstanceView| instance_text(provider_name, class, i))
}

/// Everything that the header holds for the class `class` of the provider
/// named `provider_name`: the declaration of the class, a comment line, and
/// the declarations of its events. A class without events still has its
/// declaration.
#[verifier::opaque]
pub open spec fn class_block_text(provider_name: Seq<char>, class: ClassView) -> Seq<char> {
    "TRACEPOINT_EVENT_CLASS(\n"@ + name_line_text(provider_name) + event_class_text(class)
        + "/**--== "@ + class.class_name + " instances ==--**/\n"@ + concatenated(
        instance_texts(provider_name, class),
    )
}

/// What the header holds for each class of `provider`, in the order in which
/// the classes were created.
pub open spec fn class_block_texts(provider: ProviderView) -> Seq<Seq<char>> {
    provider.classes.map_values(|c: ClassView| class_block_text(provider.name, c))
}

/// The lines that make the provider named `provider_name` the current
/// provider of the header.
pub open spec fn provider_head_text(provider_name: Seq<char>) -> Seq<char> {
    "#undef TRACEPOINT_PROVIDER\n"@ + "#define TRACEPOINT_PROVIDER "@ + provider_name + "\n\n"@
        + "#include <lttng/tracepoint.h>\n\n"@ + "#include <stdint.h>\n"@
}

/// The part of the header that belongs to `provider`: the lines that make
/// it the current provider, then its classes.
#[verifier::opaque]
pub open spec fn provider_text(provider: ProviderView) -> Seq<char> {
    provider_head_text(provider.name) + concatenated(class_block_texts(provider))
}

/// Appends the line that gives `instance` its log level, where it has one.
fn write_loglevel(provider: &Provider, instance: &EventInstance, out: &mut String)
    ensures
        final(out)@ == old(out)@ + loglevel_text(provider@.name, instance@),
{
    match instance.level {
        Some(level) => {
            out.append("TRACEPOINT_LOGLEVEL(");
            out.append(provider.name.as_str());
            out.append(", ");
            out.append(instance.name.as_str());
            out.append(", ");
            out.append(level.c_name());
            out.append(")\n\n");
            proof {
                lemma_append_seven(
                    old(out)@,
                    "TRACEPOINT_LOGLEVEL("@,
                    provider@.name,
                    ", "@,
                    instance@.name,
                    ", "@,
                    level.c_name_text(),
                    ")\n\n"@,
                );
            }
        },
        None => {
            proof {
                lemma_nothing_to_write(old(out)@, ""@);
            }
        },
    }
}

/// Appends the declaration of the event `instance` of `event_class` to `out`.
fn generate_instance(
    provider: &Provider,
    event_class: &EventClass,
    instance: &EventInstance,
    out: &mut String,
)
    requires
        event_class@.supported(),
    ensures
        final(out)@ == old(out)@ + instance_text(provider@.name, event_class@, instance@),
{
    out.append("TRACEPOINT_EVENT_INSTANCE(\n");
    write_name_line(out, provider.name.as_str());
    write_name_line(out, event_class.class_name.as_str());
    write_name_line(out, instance.name.as_str());
    generate_tp_args(event_class.fields.as_slice(), out);
    out.append("\n)\n\n");
    write_loglevel(provider, instance, out);
    proof {
        reveal(instance_text);
        lemma_append_seven(
            old(out)@,
            "TRACEPOINT_EVENT_INSTANCE(\n"@,
            name_line_text(provider@.name),
            name_line_text(event_class@.class_name),
            name_line_text(instance@.name),
            tp_args_text(event_class@.fields),
            "\n)\n\n"@,
            loglevel_text(provider@.name, instance@),
        );
    }
}

/// Appends everything that the header holds for `event_class` to `out`.
fn generate_class_block(provider: &Provider, event_class: &EventClass, out: &mut String)
    requires
        event_class@.supported(),
    ensures
        final(out)@ == old(out)@ + class_block_text(provider@.name, event_class@),
{
    let ghost class = event_class@;
    let ghost pname = provider@.name;
    let ghost texts = instance_texts(pname, class);
    out.append("TRACEPOINT_EVENT_CLASS(\n");
    write_name_line(out, provider.name.as_str());
    generate_event_class(event_class, out);
    out.append("/**--== ");
    out.append(event_class.class_name.as_str());
    out.append(" instances ==--**/\n");
    let ghost start = out@;
    let mut i: usize = 0;
    proof {
        lemma_written_by_items(start, texts, ""@);
    }
    while i < event_class.instances.len()
        invariant
            i <= event_class.instances.len(),
            class == event_class@,
            pname == provider@.name,
            texts == instance_texts(pname, class),
            class.supported(),
            out@ == start + concatenated(texts.take(i as int)),
        decreases event_class.instances.len() - i,
    {
        generate_instance(provider, event_class, &event_class.instances[i], out);
        proof {
            lemma_concatenated_next(start, texts, i as int);
        }
        i += 1;
    }
    proof {
        reveal(class_block_text);
        lemma_append_seven(
            old(out)@,
            "TRACEPOINT_EVENT_CLASS(\n"@,
            name_line_text(pname),
            event_class_text(class),
            "/**--== "@,
            class.class_name,
            " instances ==--**/\n"@,
            concatenated(texts),
        );
    }
}

/// Appends the lines that make `provider` the current provider to `out`.
fn write_provider_head(provider: &Provider, out: &mut String)
    ensures
        final(out)@ == old(out)@ + provider_head_text(provider@.name),
{
    out.append("#undef TRACEPOINT_PROVIDER\n");
    out.append("#define TRACEPOINT_PROVIDER ");
    out.append(provider.name.as_str());
    out.append("\n\n");
    out.append("#include <lttng/tracepoint.h>\n\n");
    out.append("#include <stdint.h>\n");
    proof {
        lemma_append_six(
            old(out)@,
            "#undef TRACEPOINT_PROVIDER\n"@,
            "#define TRACEPOINT_PROVIDER "@,
            provider@.name,
            "\n\n"@,
            "#include <lttng/tracepoint.h>\n\n"@,
            "#include <stdint.h>\n"@,
        );
    }
}

/// Appends the part of the header that belongs to `provider` to `out`.
pub fn generate_provider(provider: &Provider, out: &mut String)
    requires
        provider@.supported(),
    ensures
        final(out)@ == old(out)@ + provider_text(provider@),
{
    let ghost p = provider@;
    let ghost texts = class_block_texts(p);
    write_provider_head(provider, out);
    let ghost start = out@;
    let mut i: usize = 0;
    proof {
        lemma_written_by_items(start, texts, ""@);
    }
    while i < provider.classes.len()
        invariant
            i <= provider.classes.len(),
            p == provider@,
            texts == class_block_texts(p),
            p.supported(),
            out@ == start + concatenated(texts.take(i as int)),
        decreases provider.classes.len() - i,
    {
        assert(p.classes[i as int].supported());
        generate_class_block(provider, &provider.classes[i], out);
        proof {
            lemma_concatenated_next(start, texts, i as int);
        }
        i += 1;
    }
    proof {
        reveal(provider_text);
        lemma_append_two(old(out)@, provider_head_text(p.name), concatenated(texts));
    }
}

/// The parts of the header that belong to each provider, in the order in
/// which the providers were registered.
pub open spec fn provider_texts(providers: Seq<ProviderView>) -> Seq<Seq<char>> {
    providers.map_values(|p: ProviderView| provider_text(p))
}

/// The first lines of the tracepoint header that is stored at `path`: it
/// names itself as the file to read again, and guards what follows against
/// being read twice except where the tracing library asks for it.
pub open spec fn tp_header_head_text(path: Seq<char>) -> Seq<char> {
    "#undef TRACEPOINT_INCLUDE\n"@ + "#define TRACEPOINT_INCLUDE \""@ + path + "\"\n\n"@
        + "#if !defined(_RUST_TRACEPOINT_GUARD)"@ + " || defined(TRACEPOINT_HEADER_MULTI_READ)\n"@
        + "#define _RUST_TRACEPOINT_GUARD\n\n"@
}

/// The tracepoint header that is stored at `path`, for the given providers:
/// its first lines, the part of each provider, the end of the guard, and the
/// line that hands over to the tracing library.
pub open spec fn tp_header_text(path: Seq<char>, providers: Seq<ProviderView>) -> Seq<char> {
    tp_header_head_text(path) + concatenated(provider_texts(providers)) + "#endif\n"@
        + "#include <lttng/tracepoint-event.h>\n"@
}

/// The source file that materializes the probes declared in the header at
/// `include_path`.
pub open spec fn tp_impl_text(include_path: Seq<char>) -> Seq<char> {
    "#define TRACEPOINT_CREATE_PROBES\n"@ + "#define TRACEPOINT_DEFINE\n"@ + "#include \""@
        + include_path + "\"\n"@
}

/// Generates the source file that materializes the probes declared in the
/// header at `include_path`.
pub fn generate_tp_impl(include_path: &str) -> (text: String)
    ensures
        text@ == tp_impl_text(include_path@),
{
    let mut out = String::new();
    out.append("#define TRACEPOINT_CREATE_PROBES\n");
    out.append("#define TRACEPOINT_DEFINE\n");
    out.append("#include \"");
    out.append(include_path);
    out.append("\"\n");
    proof {
        lemma_append_five(
            Seq::empty(),
            "#define TRACEPOINT_CREATE_PROBES\n"@,
            "#define TRACEPOINT_DEFINE\n"@,
            "#include \""@,
            include_path@,
            "\"\n"@,
        );
        lemma_empty_append(tp_impl_text(include_path@));
    }
    out
}

/// Appends the first lines of the tracepoint header that is stored at
/// `path` to `out`.
fn write_tp_header_head(out: &mut String, path: &str)
    ensures
        final(out)@ == old(out)@ + tp_header_head_text(path@),
{
    out.append("#undef TRACEPOINT_INCLUDE\n");
    out.append("#define TRACEPOINT_INCLUDE \"");
    out.append(path);
    out.append("\"\n\n");
    out.append("#if !defined(_RUST_TRACEPOINT_GUARD)");
    out.append(" || defined(TRACEPOINT_HEADER_MULTI_READ)\n");
    out.append("#define _RUST_TRACEPOINT_GUARD\n\n");
    proof {
        lemma_append_seven(
            old(out)@,
            "#undef TRACEPOINT_INCLUDE\n"@,
            "#define TRACEPOINT_INCLUDE \""@,
            path@,
            "\"\n\n"@,
            "#if !defined(_RUST_TRACEPOINT_GUARD)"@,
            " || defined(TRACEPOINT_HEADER_MULTI_READ)\n"@,
            "#define _RUST_TRACEPOINT_GUARD\n\n"@,
        );
    }
}

/// Generates the tracepoint header that is stored at `path`, for the given
/// providers.
pub fn generate_tp_header(path: &str, providers: &[Provider]) -> (text: String)
    requires
        providers_supported(providers_view(providers@)),
    ensures
        text@ == tp_header_text(path@, providers_view(providers@)),
{
    let ghost all = providers_view(providers@);
    let ghost texts = provider_texts(all);
    let mut out = String::new();
    write_tp_header_head(&mut out, path);
    let ghost start = out@;
    let mut i: usize = 0;
    proof {
        lemma_written_by_items(start, texts, ""@);
    }
    while i < providers.len()
        invariant
            i <= providers.len(),
            all == providers_view(providers@),
            texts == provider_texts(all),
            providers_supported(all),
            out@ == start + concatenated(texts.take(i as int)),
        decreases providers.len() - i,
    {
        assert(all[i as int].supported());
        generate_provider(&providers[i], &mut out);
        proof {
            lemma_concatenated_next(start, texts, i as int);
        }
        i += 1;
    }
    out.append("#endif\n");
    out.append("#include <lttng/tracepoint-event.h>\n");
    proof {
        lemma_append_four(
            Seq::empty(),
            tp_header_head_text(path@),
            concatenated(texts),
            "#endif\n"@,
            "#include <lttng/tracepoint-event.h>\n"@,
        );
        lemma_empty_append(tp_header_text(path@, all));
    }
    out
}

} // verus!
