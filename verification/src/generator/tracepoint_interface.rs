//! The plain C interface: one exported function for each event, which does
//! nothing but hand its arguments to the tracepoint. Unlike the tracepoint
//! header it holds no macro in its declarations, so a binding generator can
//! read it.

use crate::generator::ctf_field_c_type;
use crate::schema::{
    fields_supported, fields_view, providers_supported, providers_view, EventClass, EventInstance,
    EventView, Field, FieldView, Provider, ProviderView,
};
use crate::signature::{c_params, lemma_c_params_take, length_param, value_param, CParam};
use crate::text::{
    concatenated, joined, lemma_append_five, lemma_append_seven, lemma_append_six,
    lemma_append_three, lemma_append_two, lemma_concatenated_append_all, lemma_concatenated_next,
    lemma_empty_append, lemma_joined_append, lemma_nothing_to_write, lemma_same_ending,
    lemma_written_by_items,
};
use vstd::prelude::*;
use vstd::string::*;

verus! {

/// One entry of a C argument list: the parameter's name, after its type
/// where the list declares the parameters.
pub open spec fn c_arg_text(p: CParam, include_type: bool) -> Seq<char> {
    if include_type {
        p.c_type + " "@ + p.name
    } else {
        p.name
    }
}

/// The entries of the C argument list of a class with the given fields.
pub open spec fn c_arg_texts(fields: Seq<FieldView>, include_type: bool) -> Seq<Seq<char>> {
    c_params(fields).map_values(|p: CParam| c_arg_text(p, include_type))
}

/// The C argument list of a class with the given fields: one entry for each
/// C parameter, in order, a comma and a blank between two entries. With
/// `include_type` it declares the parameters, without it names them.
pub open spec fn c_args_text(fields: Seq<FieldView>, include_type: bool) -> Seq<char> {
    joined(c_arg_texts(fields, include_type), ", "@)
}

/// Appends one entry of a C argument list to `out`: the name made of `name`
/// and `suffix`, after the type `c_type` where the list declares the
/// parameters.
fn write_c_arg(out: &mut String, include_type: bool, c_type: &str, name: &str, suffix: &str)
    ensures
        final(out)@ == old(out)@ + (if include_type {
            c_type@ + " "@ + (name@ + suffix@)
        } else {
            name@ + suffix@
        }),
{
    if include_type {
        out.append(c_type);
        out.append(" ");
    }
    let ghost typed = out@;
    out.append(name);
    out.append(suffix);
    proof {
        lemma_append_two(typed, name@, suffix@);
        if include_type {
            lemma_append_three(old(out)@, c_type@, " "@, name@ + suffix@);
        }
    }
}

/// Appends the C argument list of a class with the given fields to `out`.
/// A list that declares the parameters needs their types, so every field
/// must have one; a list that only names them does not.
pub fn generate_c_args(fields: &[Field], out: &mut String, include_type: bool)
    requires
        include_type ==> fields_supported(fields_view(fields@)),
    ensures
        final(out)@ == old(out)@ + c_args_text(fields_view(fields@), include_type),
{
    let ghost start = out@;
    let ghost all = fields_view(fields@);
    let ghost sep = ", "@;
    let mut first = true;
    let mut i: usize = 0;
    proof {
        assert(c_arg_texts(all.take(0), include_type) =~= Seq::empty());
        lemma_nothing_to_write(start, sep);
    }
    while i < fields.len()
        invariant
            i <= fields.len(),
            all == fields_view(fields@),
            sep == ", "@,
            include_type ==> fields_supported(all),
            first <==> c_arg_texts(all.take(i as int), include_type).len() == 0,
            out@ == start + joined(c_arg_texts(all.take(i as int), include_type), sep),
        decreases fields.len() - i,
    {
        let field = &fields[i];
        let ghost before = c_arg_texts(all.take(i as int), include_type);
        let ghost value = c_arg_text(value_param(i as int, all[i as int]), include_type);
        let ghost length = c_arg_text(length_param(i as int, all[i as int]), include_type);
        proof {
            lemma_c_params_take(all, i as int);
            lemma_joined_append(start, before, sep, value);
            lemma_joined_append(start, before.push(value), sep, length);
        }
        if first {
            first = false
        } else {
            out.append(", ");
        }
        let c_type = if include_type {
            ctf_field_c_type(field.ctf_type)
        } else {
            ""
        };
        write_c_arg(out, include_type, c_type, field.name.as_str(), "_arg");
        if field.ctf_type.has_length() {
            out.append(", ");
            write_c_arg(out, include_type, "int", field.name.as_str(), "_len");
            assert(c_arg_texts(all.take(i + 1), include_type) =~= before.push(value).push(length));
        } else {
            assert(c_arg_texts(all.take(i + 1), include_type) =~= before.push(value));
        }
        i += 1;
    }
    proof {
        assert(all.take(fields.len() as int) =~= all);
    }
}

/// Name of the C function of an event: the names of its provider, its class
/// and the event itself with an underscore between them, and `_tp`.
pub open spec fn func_name_text(event: EventView) -> Seq<char> {
    event.provider_name + "_"@ + event.class.class_name + "_"@ + event.instance.name + "_tp"@
}

/// The view of the event `instance` of the class `class` of `provider`.
pub open spec fn event_view(
    provider: &Provider,
    class: &EventClass,
    instance: &EventInstance,
) -> EventView {
    EventView { provider_name: provider@.name, class: class@, instance: instance@ }
}

/// Appends the name of the C function of an event to `out`.
fn write_func_name(
    provider: &Provider,
    class: &EventClass,
    instance: &EventInstance,
    out: &mut String,
)
    ensures
        final(out)@ == old(out)@ + func_name_text(event_view(provider, class, instance)),
{
    out.append(provider.name.as_str());
    out.append("_");
    out.append(class.class_name.as_str());
    out.append("_");
    out.append(instance.name.as_str());
    out.append("_tp");
    proof {
        lemma_append_six(
            old(out)@,
            provider@.name,
            "_"@,
            class@.class_name,
            "_"@,
            instance@.name,
            "_tp"@,
        );
    }
}

/// The name of the C function of the event `instance` of the class `class`
/// of `provider`.
pub fn generate_func_name(
    provider: &Provider,
    class: &EventClass,
    instance: &EventInstance,
) -> (name: String)
    ensures
        name@ == func_name_text(event_view(provider, class, instance)),
{
    let mut out = String::new();
    write_func_name(provider, class, instance, &mut out);
    proof {
        lemma_empty_append(func_name_text(event_view(provider, class, instance)));
    }
    out
}

/// Events of providers with different names have different C functions,
/// even where their classes and the events themselves are named alike:
/// the name of an event has to be unique in its provider only.
pub proof fn lemma_func_names_differ_across_providers(a: EventView, b: EventView)
    requires
        a.provider_name != b.provider_name,
        a.class.class_name == b.class.class_name,
        a.instance.name == b.instance.name,
    ensures
        func_name_text(a) != func_name_text(b),
{
    let ending = "_"@ + a.class.class_name + "_"@ + a.instance.name + "_tp"@;
    lemma_append_five(
        a.provider_name,
        "_"@,
        a.class.class_name,
        "_"@,
        a.instance.name,
        "_tp"@,
    );
    lemma_append_five(
        b.provider_name,
        "_"@,
        a.class.class_name,
        "_"@,
        a.instance.name,
        "_tp"@,
    );
    lemma_same_ending(a.provider_name, b.provider_name, ending);
}

/// The declaration of the C function of an event.
#[verifier::opaque]
pub open spec fn prototype_text(event: EventView) -> Seq<char> {
    "extern void "@ + func_name_text(event) + "("@ + c_args_text(event.class.fields, true)
        + ");\n"@
}

/// The one statement of the C function of an event: it hands the
/// function's parameters, in the order in which the function takes them, to
/// the tracepoint of the event.
pub open spec fn forwarding_text(event: EventView) -> Seq<char> {
    "    tracepoint("@ + event.provider_name + ", "@ + event.instance.name + ", "@ + c_args_text(
        event.class.fields,
        false,
    ) + ");\n"@
}

/// The definition of the C function of an event.
#[verifier::opaque]
pub open spec fn definition_text(event: EventView) -> Seq<char> {
    "void "@ + func_name_text(event) + "("@ + c_args_text(event.class.fields, true) + ") {\n"@
        + forwarding_text(event) + "}\n\n"@
}

/// The declarations of the C functions of the given events, in order.
pub open spec fn prototype_texts(events: Seq<EventView>) -> Seq<Seq<char>> {
    events.map_values(|e: EventView| prototype_text(e))
}

/// The definitions of the C functions of the given events, in order.
pub open spec fn definition_texts(events: Seq<EventView>) -> Seq<Seq<char>> {
    events.map_values(|e: EventView| definition_text(e))
}

/// What the interface header holds for `provider`: the declaration of one
/// function for each event.
pub open spec fn provider_header_text(provider: ProviderView) -> Seq<char> {
    concatenated(prototype_texts(provider.events()))
}

/// What the interface source holds for `provider`: the definition of one
/// function for each event.
pub open spec fn provider_impl_text(provider: ProviderView) -> Seq<char> {
    concatenated(definition_texts(provider.events()))
}

/// Appends the declaration of the C function of one event to `out`.
fn write_prototype(
    provider: &Provider,
    class: &EventClass,
    instance: &EventInstance,
    out: &mut String,
)
    requires
        class@.supported(),
    ensures
        final(out)@ == old(out)@ + prototype_text(event_view(provider, class, instance)),
{
    out.append("extern void ");
    write_func_name(provider, class, instance, out);
    out.append("(");
    generate_c_args(class.fields.as_slice(), out, true);
    out.append(");\n");
    proof {
        reveal(prototype_text);
        lemma_append_five(
            old(out)@,
            "extern void "@,
            func_name_text(event_view(provider, class, instance)),
            "("@,
            c_args_text(class@.fields, true),
            ");\n"@,
        );
    }
}

/// Appends the one statement of the C function of one event to `out`.
fn write_forwarding(
    provider: &Provider,
    class: &EventClass,
    instance: &EventInstance,
    out: &mut String,
)
    ensures
        final(out)@ == old(out)@ + forwarding_text(event_view(provider, class, instance)),
{
    out.append("    tracepoint(");
    out.append(provider.name.as_str());
    out.append(", ");
    out.append(instance.name.as_str());
    out.append(", ");
    generate_c_args(class.fields.as_slice(), out, false);
    out.append(");\n");
    proof {
        lemma_append_seven(
            old(out)@,
            "    tracepoint("@,
            provider@.name,
            ", "@,
            instance@.name,
            ", "@,
            c_args_text(class@.fields, false),
            ");\n"@,
        );
    }
}

/// Appends the definition of the C function of one event to `out`.
fn write_definition(
    provider: &Provider,
    class: &EventClass,
    instance: &EventInstance,
    out: &mut String,
)
    requires
        class@.supported(),
    ensures
        final(out)@ == old(out)@ + definition_text(event_view(provider, class, instance)),
{
    out.append("void ");
    write_func_name(provider, class, instance, out);
    out.append("(");
    generate_c_args(class.fields.as_slice(), out, true);
    out.append(") {\n");
    write_forwarding(provider, class, instance, out);
    out.append("}\n\n");
    proof {
        reveal(definition_text);
        lemma_append_seven(
            old(out)@,
            "void "@,
            func_name_text(event_view(provider, class, instance)),
            "("@,
            c_args_text(class@.fields, true),
            ") {\n"@,
            forwarding_text(event_view(provider, class, instance)),
            "}\n\n"@,
        );
    }
}

/// Appends the declarations of the functions of the events of one class.
fn write_class_prototypes(provider: &Provider, class: &EventClass, out: &mut String)
    requires
        class@.supported(),
    ensures
        final(out)@ == old(out)@ + concatenated(prototype_texts(class@.events(provider@.name))),
{
    let ghost start = out@;
    let ghost events = class@.events(provider@.name);
    let ghost texts = prototype_texts(events);
    let mut i: usize = 0;
    proof {
        lemma_written_by_items(start, texts, ""@);
    }
    while i < class.instances.len()
        invariant
            i <= class.instances.len(),
            events == class@.events(provider@.name),
            texts == prototype_texts(events),
            class@.supported(),
            out@ == start + concatenated(texts.take(i as int)),
        decreases class.instances.len() - i,
    {
        let instance = &class.instances[i];
        write_prototype(provider, class, instance, out);
        proof {
            assert(events[i as int] == event_view(provider, class, instance));
            lemma_concatenated_next(start, texts, i as int);
        }
        i += 1;
    }
}

/// Appends the definitions of the functions of the events of one class.
fn write_class_definitions(provider: &Provider, class: &EventClass, out: &mut String)
    requires
        class@.supported(),
    ensures
        final(out)@ == old(out)@ + concatenated(definition_texts(class@.events(provider@.name))),
{
    let ghost start = out@;
    let ghost events = class@.events(provider@.name);
    let ghost texts = definition_texts(events);
    let mut i: usize = 0;
    proof {
        lemma_written_by_items(start, texts, ""@);
    }
    while i < class.instances.len()
        invariant
            i <= class.instances.len(),
            events == class@.events(provider@.name),
            texts == definition_texts(events),
            class@.supported(),
            out@ == start + concatenated(texts.take(i as int)),
        decreases class.instances.len() - i,
    {
        let instance = &class.instances[i];
        write_definition(provider, class, instance, out);
        proof {
            assert(events[i as int] == event_view(provider, class, instance));
            lemma_concatenated_next(start, texts, i as int);
        }
        i += 1;
    }
}

/// Appends to `out` the definition of one C function for each event of
/// `provider`.
pub fn generate_provider_impl(provider: &Provider, out: &mut String)
    requires
        provider@.supported(),
    ensures
        final(out)@ == old(out)@ + provider_impl_text(provider@),
{
    let ghost start = out@;
    let ghost p = provider@;
    let mut i: usize = 0;
    proof {
        assert(definition_texts(p.events_before(0)) =~= Seq::empty());
        lemma_nothing_to_write(start, ""@);
    }
    while i < provider.classes.len()
        invariant
            i <= provider.classes.len(),
            p == provider@,
            p.supported(),
            out@ == start + concatenated(definition_texts(p.events_before(i as int))),
        decreases provider.classes.len() - i,
    {
        assert(p.classes[i as int].supported());
        write_class_definitions(provider, &provider.classes[i], out);
        proof {
            let before = p.events_before(i as int);
            let added = p.classes[i as int].events(p.name);
            assert(definition_texts(before + added) =~= definition_texts(before)
                + definition_texts(added));
            lemma_concatenated_append_all(start, definition_texts(before), definition_texts(added));
        }
        i += 1;
    }
}

/// Appends to `out` the declaration of one C function for each event of
/// `provider`.
pub fn generate_provider_header(provider: &Provider, out: &mut String)
    requires
        provider@.supported(),
    ensures
        final(out)@ == old(out)@ + provider_header_text(provider@),
{
    let ghost start = out@;
    let ghost p = provider@;
    let mut i: usize = 0;
    proof {
        assert(prototype_texts(p.events_before(0)) =~= Seq::empty());
        lemma_nothing_to_write(start, ""@);
    }
    while i < provider.classes.len()
        invariant
            i <= provider.classes.len(),
            p == provider@,
            p.supported(),
            out@ == start + concatenated(prototype_texts(p.events_before(i as int))),
        decreases provider.classes.len() - i,
    {
        assert(p.classes[i as int].supported());
        write_class_prototypes(provider, &provider.classes[i], out);
        proof {
            let before = p.events_before(i as int);
            let added = p.classes[i as int].events(p.name);
            assert(prototype_texts(before + added) =~= prototype_texts(before) + prototype_texts(
                added,
            ));
            lemma_concatenated_append_all(start, prototype_texts(before), prototype_texts(added));
        }
        i += 1;
    }
}

/// What the interface header holds for each provider, in the order in which
/// the providers were registered.
pub open spec fn provider_header_texts(providers: Seq<ProviderView>) -> Seq<Seq<char>> {
    providers.map_values(|p: ProviderView| provider_header_text(p))
}

/// What the interface source holds for each provider, in the order in which
/// the providers were registered.
pub open spec fn provider_impl_texts(providers: Seq<ProviderView>) -> Seq<Seq<char>> {
    providers.map_values(|p: ProviderView| provider_impl_text(p))
}

/// The interface header for the given providers: inside a guard against
/// being read twice, the declarations of the functions of each provider.
pub open spec fn interface_header_text(providers: Seq<ProviderView>) -> Seq<char> {
    "#if !defined(_RUST_TRACEPOINT_INTERFACE)\n"@ + "#define _RUST_TRACEPOINT_INTERFACE\n"@
        + "#include <stdint.h>\n"@ + concatenated(provider_header_texts(providers)) + "#endif"@
}

/// The interface source for the given providers: it reads the tracepoint
/// header and then the interface header, at the given paths, and defines the
/// functions of each provider.
pub open spec fn interface_impl_text(
    providers: Seq<ProviderView>,
    tracepoint_header: Seq<char>,
    interface_header: Seq<char>,
) -> Seq<char> {
    "#include \""@ + tracepoint_header + "\"\n"@ + "#include \""@ + interface_header + "\"\n"@
        + concatenated(provider_impl_texts(providers))
}

/// Generates the interface source for the given providers. It reads the
/// header at `tracepoint_header` first and the one at `interface_header`
/// second.
pub fn generate_interface_impl(
    providers: &[Provider],
    tracepoint_header: &str,
    interface_header: &str,
) -> (text: String)
    requires
        providers_supported(providers_view(providers@)),
    ensures
        text@ == interface_impl_text(
            providers_view(providers@),
            tracepoint_header@,
            interface_header@,
        ),
{
    let ghost all = providers_view(providers@);
    let ghost texts = provider_impl_texts(all);
    let mut out = String::new();
    out.append("#include \"");
    out.append(tracepoint_header);
    out.append("\"\n");
    out.append("#include \"");
    out.append(interface_header);
    out.append("\"\n");
    let ghost start = out@;
    let mut i: usize = 0;
    proof {
        lemma_written_by_items(start, texts, ""@);
    }
    while i < providers.len()
        invariant
            i <= providers.len(),
            all == providers_view(providers@),
            texts == provider_impl_texts(all),
            providers_supported(all),
            out@ == start + concatenated(texts.take(i as int)),
        decreases providers.len() - i,
    {
        assert(all[i as int].supported());
        generate_provider_impl(&providers[i], &mut out);
        proof {
            lemma_concatenated_next(start, texts, i as int);
        }
        i += 1;
    }
    proof {
        lemma_append_seven(
            Seq::empty(),
            "#include \""@,
            tracepoint_header@,
            "\"\n"@,
            "#include \""@,
            interface_header@,
            "\"\n"@,
            concatenated(texts),
        );
        lemma_empty_append(interface_impl_text(all, tracepoint_header@, interface_header@));
    }
    out
}

/// Generates the interface header for the given providers.
pub fn generate_interface_header(providers: &[Provider]) -> (text: String)
    requires
        providers_supported(providers_view(providers@)),
    ensures
        text@ == interface_header_text(providers_view(providers@)),
{
    let ghost all = providers_view(providers@);
    let ghost texts = provider_header_texts(all);
    let mut out = String::new();
    out.append("#if !defined(_RUST_TRACEPOINT_INTERFACE)\n");
    out.append("#define _RUST_TRACEPOINT_INTERFACE\n");
    out.append("#include <stdint.h>\n");
    let ghost start = out@;
    let mut i: usize = 0;
    proof {
        lemma_written_by_items(start, texts, ""@);
    }
    while i < providers.len()
        invariant
            i <= providers.len(),
            all == providers_view(providers@),
            texts == provider_header_texts(all),
            providers_supported(all),
            out@ == start + concatenated(texts.take(i as int)),
        decreases providers.len() - i,
    {
        assert(all[i as int].supported());
        generate_provider_header(&providers[i], &mut out);
        proof {
            lemma_concatenated_next(start, texts, i as int);
        }
        i += 1;
    }
    out.append("#endif");
    proof {
        lemma_append_five(
            Seq::empty(),
            "#if !defined(_RUST_TRACEPOINT_INTERFACE)\n"@,
            "#define _RUST_TRACEPOINT_INTERFACE\n"@,
            "#include <stdint.h>\n"@,
            concatenated(texts),
            "#endif"@,
        );
        lemma_empty_append(interface_header_text(all));
    }
    out
}

/// The views of a list of strings, in the same order.
pub open spec fn strings_view(strings: Seq<String>) -> Seq<Seq<char>> {
    strings.map_values(|s: String| s@)
}

/// The names of the C functions of the given events, in order.
pub open spec fn func_names(events: Seq<EventView>) -> Seq<Seq<char>> {
    events.map_values(|e: EventView| func_name_text(e))
}

/// The events of the first `n` of the given providers: provider by provider
/// in the order of registration, and within a provider in the order in which
/// the generators write them.
pub open spec fn events_of_first(providers: Seq<ProviderView>, n: int) -> Seq<EventView>
    decreases n,
{
    if n <= 0 {
        Seq::empty()
    } else {
        events_of_first(providers, n - 1) + providers[n - 1].events()
    }
}

/// The events of all the given providers.
pub open spec fn events_of(providers: Seq<ProviderView>) -> Seq<EventView> {
    events_of_first(providers, providers.len() as int)
}

/// Appends the names of the C functions of the events of one class to
/// `names`.
fn collect_class_func_names(provider: &Provider, class: &EventClass, names: &mut Vec<String>)
    ensures
        strings_view(final(names)@) == strings_view(old(names)@) + func_names(
            class@.events(provider@.name),
        ),
{
    let ghost base = strings_view(names@);
    let ghost events = class@.events(provider@.name);
    let mut i: usize = 0;
    assert(strings_view(names@) =~= base + func_names(events).take(0));
    while i < class.instances.len()
        invariant
            i <= class.instances.len(),
            events == class@.events(provider@.name),
            strings_view(names@) == base + func_names(events).take(i as int),
        decreases class.instances.len() - i,
    {
        let ghost before = strings_view(names@);
        let instance = &class.instances[i];
        let name = generate_func_name(provider, class, instance);
        names.push(name);
        proof {
            assert(events[i as int] == event_view(provider, class, instance));
            assert(strings_view(names@) =~= before.push(func_name_text(events[i as int])));
            assert(strings_view(names@) =~= base + func_names(events).take(i + 1));
        }
        i += 1;
    }
    proof {
        let all = func_names(events);
        assert(all.take(class.instances.len() as int) =~= all);
    }
}

/// Appends the names of the C functions of the events of one provider to
/// `names`.
fn collect_provider_func_names(provider: &Provider, names: &mut Vec<String>)
    ensures
        strings_view(final(names)@) == strings_view(old(names)@) + func_names(provider@.events()),
{
    let ghost base = strings_view(names@);
    let ghost p = provider@;
    let mut i: usize = 0;
    assert(strings_view(names@) =~= base + func_names(p.events_before(0)));
    while i < provider.classes.len()
        invariant
            i <= provider.classes.len(),
            p == provider@,
            strings_view(names@) == base + func_names(p.events_before(i as int)),
        decreases provider.classes.len() - i,
    {
        collect_class_func_names(provider, &provider.classes[i], names);
        proof {
            let before = p.events_before(i as int);
            let added = p.classes[i as int].events(p.name);
            assert(func_names(before + added) =~= func_names(before) + func_names(added));
            assert(strings_view(names@) =~= base + func_names(p.events_before(i + 1)));
        }
        i += 1;
    }
}

/// The names of the functions that the interface header declares: what a
/// binding generator is to take from it, and nothing else.
pub fn whitelist_interface(providers: &[Provider]) -> (names: Vec<String>)
    ensures
        strings_view(names@) == func_names(events_of(providers_view(providers@))),
{
    let ghost all = providers_view(providers@);
    let mut names: Vec<String> = Vec::new();
    let mut i: usize = 0;
    assert(strings_view(names@) =~= func_names(events_of_first(all, 0)));
    while i < providers.len()
        invariant
            i <= providers.len(),
            all == providers_view(providers@),
            strings_view(names@) == func_names(events_of_first(all, i as int)),
        decreases providers.len() - i,
    {
        collect_provider_func_names(&providers[i], &mut names);
        proof {
            let before = events_of_first(all, i as int);
            let added = all[i as int].events();
            assert(func_names(before + added) =~= func_names(before) + func_names(added));
        }
        i += 1;
    }
    names
}

} // verus!
