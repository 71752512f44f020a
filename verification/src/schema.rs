//! The tracepoint schema: providers, their event classes, the fields of a
//! class and the events instantiated from it.
//!
//! A schema is built in a fixed order (provider, class, fields, instances)
//! and then only read. Names are taken as they are given: nothing checks
//! that they are unique or that they are valid C identifiers.

use crate::types::{CTFType, LogLevel};
use vstd::prelude::*;
use vstd::string::*;

verus! {

/// What a [`Field`] holds, as mathematical values.
pub struct FieldView {
    pub ctf_type: CTFType,
    pub name: Seq<char>,
}

/// What an [`EventInstance`] holds, as mathematical values.
pub struct InstanceView {
    pub name: Seq<char>,
    pub level: Option<LogLevel>,
}

/// What an [`EventClass`] holds, as mathematical values. The order of
/// `fields` is the order of the arguments of every tracepoint of the class.
pub struct ClassView {
    pub class_name: Seq<char>,
    pub fields: Seq<FieldView>,
    pub instances: Seq<InstanceView>,
}

/// What a [`Provider`] holds, as mathematical values.
pub struct ProviderView {
    pub name: Seq<char>,
    pub classes: Seq<ClassView>,
}

/// One instantiated event of a provider, together with the class that gives
/// it its fields. Every event becomes one C function and one Rust wrapper.
pub struct EventView {
    pub provider_name: Seq<char>,
    pub class: ClassView,
    pub instance: InstanceView,
}

/// The views of a list of fields, in the same order.
pub open spec fn fields_view(fields: Seq<Field>) -> Seq<FieldView> {
    fields.map_values(|f: Field| f@)
}

/// The views of a list of instances, in the same order.
pub open spec fn instances_view(instances: Seq<EventInstance>) -> Seq<InstanceView> {
    instances.map_values(|i: EventInstance| i@)
}

/// The views of a list of classes, in the same order.
pub open spec fn classes_view(classes: Seq<EventClass>) -> Seq<ClassView> {
    classes.map_values(|c: EventClass| c@)
}

/// The views of a list of providers, in the same order.
pub open spec fn providers_view(providers: Seq<Provider>) -> Seq<ProviderView> {
    providers.map_values(|p: Provider| p@)
}

/// Whether every field in the list has a type that the generators support,
/// that is, none is an enumeration.
pub open spec fn fields_supported(fields: Seq<FieldView>) -> bool {
    forall|i: int| 0 <= i < fields.len() ==> !(#[trigger] fields[i]).ctf_type.is_enum()
}

impl ClassView {
    /// Whether the generators support every field of the class.
    pub open spec fn supported(self) -> bool {
        fields_supported(self.fields)
    }

    /// The events instantiated from this class, a class of the provider
    /// named `provider_name`, in the order of their instantiation.
    pub open spec fn events(self, provider_name: Seq<char>) -> Seq<EventView> {
        self.instances.map_values(
            |i: InstanceView| EventView { provider_name, class: self, instance: i },
        )
    }
}

impl ProviderView {
    /// Whether the generators support every field of every class.
    pub open spec fn supported(self) -> bool {
        forall|i: int| 0 <= i < self.classes.len() ==> (#[trigger] self.classes[i]).supported()
    }

    /// The number of events instantiated from the first `n` classes.
    pub open spec fn instances_before(self, n: int) -> nat
        decreases n,
    {
        if n <= 0 {
            0
        } else {
            self.instances_before(n - 1) + self.classes[n - 1].instances.len()
        }
    }

    /// The number of events instantiated from all classes of the provider.
    pub open spec fn instance_count(self) -> nat {
        self.instances_before(self.classes.len() as int)
    }

    /// The events of the first `n` classes: class by class in the order of
    /// creation, and within a class in the order of instantiation.
    pub open spec fn events_before(self, n: int) -> Seq<EventView>
        decreases n,
    {
        if n <= 0 {
            Seq::empty()
        } else {
            self.events_before(n - 1) + self.classes[n - 1].events(self.name)
        }
    }

    /// All events of the provider, in the order in which the generators
    /// write them.
    pub open spec fn events(self) -> Seq<EventView> {
        self.events_before(self.classes.len() as int)
    }
}

/// A provider has exactly one event for each instantiation of one of its
/// classes. In particular a provider whose classes were never instantiated
/// has no event, whatever fields its classes declare.
pub proof fn lemma_event_count(provider: ProviderView, n: int)
    requires
        0 <= n <= provider.classes.len(),
    ensures
        provider.events_before(n).len() == provider.instances_before(n),
        n == provider.classes.len() ==> provider.events().len() == provider.instance_count(),
    decreases n,
{
    if n > 0 {
        lemma_event_count(provider, n - 1);
    }
}

/// The events of a provider with a single class are the instantiations of
/// that class, in order, each with the fields of the class.
pub proof fn lemma_single_class_events(provider: ProviderView)
    requires
        provider.classes.len() == 1,
    ensures
        provider.events().len() == provider.classes[0].instances.len(),
        forall|j: int|
            0 <= j < provider.events().len() ==> (#[trigger] provider.events()[j]) == (EventView {
                provider_name: provider.name,
                class: provider.classes[0],
                instance: provider.classes[0].instances[j],
            }),
{
    assert(provider.events_before(0) =~= Seq::empty());
    assert(provider.events() =~= provider.classes[0].events(provider.name));
}

/// Whether the generators support every field of every provider in the list.
pub open spec fn providers_supported(providers: Seq<ProviderView>) -> bool {
    forall|i: int| 0 <= i < providers.len() ==> (#[trigger] providers[i]).supported()
}

/// A field in a tracing event
pub struct Field {
    pub(crate) ctf_type: CTFType,
    pub(crate) name: String,
}

impl View for Field {
    type V = FieldView;

    open(crate) spec fn view(&self) -> FieldView {
        FieldView { ctf_type: self.ctf_type, name: self.name@ }
    }
}

impl Field {
    /// Creates the field `name` of type `ctf_type`.
    pub fn new(name: String, ctf_type: CTFType) -> (field: Self)
        ensures
            field@.name == name@,
            field@.ctf_type == ctf_type,
    {
        Self { ctf_type, name }
    }
}

/// An instantiated [EventClass](crate::EventClass).
/// Every `EventInstance` represents a new tracepoint in the final binary
pub struct EventInstance {
    pub(crate) name: String,
    pub(crate) level: Option<LogLevel>,
}

impl View for EventInstance {
    type V = InstanceView;

    open(crate) spec fn view(&self) -> InstanceView {
        InstanceView { name: self.name@, level: self.level }
    }
}

impl EventInstance {
    /// Creates the event `name`, without a log level.
    pub fn new(name: String) -> (instance: Self)
        ensures
            instance@.name == name@,
            instance@.level.is_none(),
    {
        EventInstance { name, level: None }
    }

    /// Creates the event `name` with the log level `level`.
    pub fn with_level(name: String, level: LogLevel) -> (instance: Self)
        ensures
            instance@.name == name@,
            instance@.level == Some(level),
    {
        EventInstance { name, level: Some(level) }
    }
}

/// Represents a class of events that we would like to trace
pub struct EventClass {
    /// The name of this class
    pub(crate) class_name: String,
    /// The fields that every event of this class carries, in argument order
    pub(crate) fields: Vec<Field>,
    /// The set of instances
    pub(crate) instances: Vec<EventInstance>,
}

impl View for EventClass {
    type V = ClassView;

    open(crate) spec fn view(&self) -> ClassView {
        ClassView {
            class_name: self.class_name@,
            fields: fields_view(self.fields@),
            instances: instances_view(self.instances@),
        }
    }
}

/// Represents a class of tracepoints.
/// Every tracepoint of the same class shares the same set of fields.
/// You can have as many tracepoints of the same class as you like, but tracepoint
/// names are namespaced per provider, not per-class.
impl EventClass {
    /// Create a new tracepoint event class
    pub fn new(class_name: String) -> (class: Self)
        ensures
            class@.class_name == class_name@,
            class@.fields == Seq::<FieldView>::empty(),
            class@.instances == Seq::<InstanceView>::empty(),
    {
        EventClass { class_name, fields: Vec::new(), instances: Vec::new() }
    }

    /// Adds a new field to the tracepoint, after the fields added before.
    /// The order of the calls is the order of the arguments of the generated
    /// tracepoint functions.
    pub fn add_field(&mut self, field_name: &str, ty: CTFType) -> (class: &mut Self)
        ensures
            class@.class_name == old(self)@.class_name,
            class@.fields == old(self)@.fields.push(
                FieldView { ctf_type: ty, name: field_name@ },
            ),
            class@.instances == old(self)@.instances,
            *final(self) == *final(class),
    {
        self.fields.push(Field::new(field_name.to_owned(), ty));
        self
    }

    /// Instantiate the class, creating a new tracepoint without a log level.
    pub fn instantiate(&mut self, instance_name: &str) -> (class: &mut Self)
        ensures
            class@.class_name == old(self)@.class_name,
            class@.fields == old(self)@.fields,
            class@.instances == old(self)@.instances.push(
                InstanceView { name: instance_name@, level: None },
            ),
            *final(self) == *final(class),
    {
        self.instances.push(EventInstance::new(instance_name.to_owned()));
        self
    }

    /// Instantiate the class, creating a new tracepoint with the log level
    /// `level`.
    pub fn instantiate_with_level(&mut self, instance_name: &str, level: LogLevel) -> (class:
        &mut Self)
        ensures
            class@.class_name == old(self)@.class_name,
            class@.fields == old(self)@.fields,
            class@.instances == old(self)@.instances.push(
                InstanceView { name: instance_name@, level: Some(level) },
            ),
            *final(self) == *final(class),
    {
        self.instances.push(EventInstance::with_level(instance_name.to_owned(), level));
        self
    }

    /// Whether the generators support every field of the class.
    pub fn is_supported(&self) -> (b: bool)
        ensures
            b == self@.supported(),
    {
        let mut i: usize = 0;
        while i < self.fields.len()
            invariant
                i <= self.fields.len(),
                forall|j: int| 0 <= j < i ==> !(#[trigger] self@.fields[j]).ctf_type.is_enum(),
            decreases self.fields.len() - i,
        {
            if self.fields[i].ctf_type.is_enum() {
                assert(self@.fields[i as int].ctf_type.is_enum());
                return false;
            }
            i += 1;
        }
        true
    }
}

/// A tracepoint provider.
/// You usually only need to create one of these
pub struct Provider {
    pub(crate) name: String,
    pub(crate) classes: Vec<EventClass>,
}

impl View for Provider {
    type V = ProviderView;

    open(crate) spec fn view(&self) -> ProviderView {
        ProviderView { name: self.name@, classes: classes_view(self.classes@) }
    }
}

/// A lttng-ust event provider.
impl Provider {
    /// Create a new tracepoint provider
    pub fn new(name: &str) -> (provider: Provider)
        ensures
            provider@.name == name@,
            provider@.classes == Seq::<ClassView>::empty(),
    {
        Provider { name: name.to_owned(), classes: Vec::new() }
    }

    /// Create a new class of tracepoint event, after the classes created
    /// before. The class starts without fields and without instances; what
    /// is added through the returned reference becomes part of the provider.
    pub fn create_class(&mut self, class_name: &str) -> (class: &mut EventClass)
        ensures
            class@.class_name == class_name@,
            class@.fields == Seq::<FieldView>::empty(),
            class@.instances == Seq::<InstanceView>::empty(),
            final(self)@.name == old(self)@.name,
            final(self)@.classes == old(self)@.classes.push(final(class)@),
    {
        self.classes.push(EventClass::new(class_name.to_owned()));
        let cls_len = self.classes.len();
        &mut self.classes[cls_len - 1]
    }

    /// Whether the generators support every field of every class.
    pub fn is_supported(&self) -> (b: bool)
        ensures
            b == self@.supported(),
    {
        let mut i: usize = 0;
        while i < self.classes.len()
            invariant
                i <= self.classes.len(),
                forall|j: int| 0 <= j < i ==> (#[trigger] self@.classes[j]).supported(),
            decreases self.classes.len() - i,
        {
            if !self.classes[i].is_supported() {
                assert(!self@.classes[i as int].supported());
                return false;
            }
            i += 1;
        }
        true
    }
}

} // verus!
