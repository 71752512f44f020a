//! The generator: what is to be generated, where the generated files go,
//! and the order of the steps that produce them.
//!
//! The generator itself touches neither the file system nor the compiler.
//! It says which step comes next and what the step needs: a directory to
//! create, a file to write with its full text, the sources to compile, the
//! header to extract bindings from. Whoever drives it performs the step and
//! reports whether it succeeded.

pub mod rust_bindings;
pub mod tracepoint_impl;
pub mod tracepoint_interface;

use crate::generator::rust_bindings::{
    call_arg_texts, generate_rust_bindings, host_arg_text, host_arg_texts, rust_bindings_text,
    rust_type_for, wrapper_text, wrapper_texts,
};
use crate::generator::tracepoint_impl::{
    ctf_call_text, generate_tp_header, generate_tp_impl, instance_texts, tp_arg_text, tp_arg_texts,
    tp_field_texts, tp_header_text, tp_impl_text,
};
use crate::generator::tracepoint_interface::{
    c_arg_text, c_arg_texts, definition_texts, events_of, func_names, generate_interface_header,
    generate_interface_impl, interface_header_text, interface_impl_text, prototype_texts,
    strings_view, whitelist_interface,
};
use crate::schema::{
    lemma_event_count, lemma_single_class_events, providers_supported, providers_view, EventView,
    FieldView, Provider, ProviderView,
};
use crate::signature::{
    c_params, call_args, host_param, host_params, lemma_call_args_match_c_params, lemma_field_order,
    lemma_params_per_field, value_param, CParam, HostParam, ParamRole,
};
use crate::text::{lemma_append_three, lemma_empty_append};
use crate::types::CTFType;
use vstd::prelude::*;
use vstd::string::*;

verus! {

/// Name of the C type of the parameter that carries a value of the logical
/// type `ty`.
///
/// All recording modes of one integer or float type share a parameter type;
/// text is a pointer to constant characters; integer arrays and sequences
/// are a pointer to their element type. The name depends on the type alone.
/// Enumerations have no parameter type: they are not supported, and asking
/// for one is the caller's error.
pub fn ctf_field_c_type(ty: CTFType) -> (name: &'static str)
    requires
        !ty.is_enum(),
    ensures
        name@ == ty.c_param_type_text(),
{
    match ty {
        CTFType::Integer(i)
        | CTFType::IntegerNoWrite(i)
        | CTFType::IntegerHex(i)
        | CTFType::IntegerNetwork(i)
        | CTFType::IntegerNetworkHex(i) => i.c_type(),
        CTFType::Float(f) | CTFType::FloatNoWrite(f) => f.c_type(),
        CTFType::String | CTFType::StringNoWrite => "const char *",
        CTFType::Array(i, _) | CTFType::ArrayNoWrite(i, _) => i.c_pointer_type(),
        CTFType::ArrayText(_) => "const char *",
        CTFType::Sequence(i) | CTFType::SequenceNoWrite(i) => i.c_pointer_type(),
        CTFType::SequenceText | CTFType::SequenceTextNoWrite => "const char *",
        CTFType::Enum | CTFType::EnumNoWrite => unreached(),
    }
}

/// The path of the entry `name` of the directory `dir`: the two with a
/// slash between them.
pub open spec fn joined_path(dir: Seq<char>, name: Seq<char>) -> Seq<char> {
    dir + "/"@ + name
}

/// The path of the entry `name` of the directory `dir`.
pub fn join_path(dir: &str, name: &str) -> (path: String)
    ensures
        path@ == joined_path(dir@, name@),
{
    let mut out = String::new();
    out.append(dir);
    out.append("/");
    out.append(name);
    proof {
        lemma_append_three(Seq::empty(), dir@, "/"@, name@);
        lemma_empty_append(joined_path(dir@, name@));
    }
    out
}

/// The steps of a generation pass, in the order in which they are taken.
/// Each step needs what the steps before it have left on disk.
#[derive(Copy, Clone, PartialEq, Eq, Debug, Structural)]
pub enum Stage {
    /// Create the directory that receives the generated C sources.
    CreateDirectory,
    /// Write the tracepoint header.
    TracepointHeader,
    /// Write the source file that materializes the probes.
    TracepointImpl,
    /// Write the interface header.
    InterfaceHeader,
    /// Write the interface source.
    InterfaceImpl,
    /// Compile the two source files into a static library.
    Compile,
    /// Extract raw bindings from the interface header.
    ExtractBindings,
    /// Write the raw bindings.
    WriteBindings,
    /// Write the Rust module with the wrapper functions.
    HostWrapper,
    /// Every step has succeeded.
    Finished,
    /// A step has failed, or the schema is not supported. The pass is over:
    /// nothing that was written so far is to be used.
    Aborted,
}

impl Stage {
    /// The step that follows this one when it has succeeded. The two final
    /// stages follow themselves.
    pub open spec fn spec_next(self) -> Stage {
        match self {
            Stage::CreateDirectory => Stage::TracepointHeader,
            Stage::TracepointHeader => Stage::TracepointImpl,
            Stage::TracepointImpl => Stage::InterfaceHeader,
            Stage::InterfaceHeader => Stage::InterfaceImpl,
            Stage::InterfaceImpl => Stage::Compile,
            Stage::Compile => Stage::ExtractBindings,
            Stage::ExtractBindings => Stage::WriteBindings,
            Stage::WriteBindings => Stage::HostWrapper,
            Stage::HostWrapper => Stage::Finished,
            Stage::Finished => Stage::Finished,
            Stage::Aborted => Stage::Aborted,
        }
    }

    /// What has gone wrong when the step of this stage fails.
    pub open spec fn failure_text(self) -> Seq<char> {
        match self {
            Stage::CreateDirectory => "Failed to create source directory"@,
            Stage::TracepointHeader => "Failed to generate tracepoint header"@,
            Stage::TracepointImpl => "Failed to generate tracepoint implementation"@,
            Stage::InterfaceHeader => "Failed to generate interface header"@,
            Stage::InterfaceImpl => "Failed to generate interface implementation"@,
            Stage::Compile => "Failed to compile tracepoint library"@,
            Stage::ExtractBindings => "Failed to generate tracepoint bindings"@,
            Stage::WriteBindings => "Failed to write raw tracepoint bindings"@,
            Stage::HostWrapper => "Failed to generate rust sources"@,
            Stage::Finished => "Nothing is left to generate"@,
            Stage::Aborted => "Generation was aborted"@,
        }
    }

    /// The step that follows this one when it has succeeded.
    #[verifier::when_used_as_spec(spec_next)]
    pub fn next(self) -> (stage: Stage)
        ensures
            stage == self.spec_next(),
    {
        match self {
            Stage::CreateDirectory => Stage::TracepointHeader,
            Stage::TracepointHeader => Stage::TracepointImpl,
            Stage::TracepointImpl => Stage::InterfaceHeader,
            Stage::InterfaceHeader => Stage::InterfaceImpl,
            Stage::InterfaceImpl => Stage::Compile,
            Stage::Compile => Stage::ExtractBindings,
            Stage::ExtractBindings => Stage::WriteBindings,
            Stage::WriteBindings => Stage::HostWrapper,
            Stage::HostWrapper => Stage::Finished,
            Stage::Finished => Stage::Finished,
            Stage::Aborted => Stage::Aborted,
        }
    }

    /// What has gone wrong when the step of this stage fails.
    pub fn failure(self) -> (text: &'static str)
        ensures
            text@ == self.failure_text(),
    {
        match self {
            Stage::CreateDirectory => "Failed to create source directory",
            Stage::TracepointHeader => "Failed to generate tracepoint header",
            Stage::TracepointImpl => "Failed to generate tracepoint implementation",
            Stage::InterfaceHeader => "Failed to generate interface header",
            Stage::InterfaceImpl => "Failed to generate interface implementation",
            Stage::Compile => "Failed to compile tracepoint library",
            Stage::ExtractBindings => "Failed to generate tracepoint bindings",
            Stage::WriteBindings => "Failed to write raw tracepoint bindings",
            Stage::HostWrapper => "Failed to generate rust sources",
            Stage::Finished => "Nothing is left to generate",
            Stage::Aborted => "Generation was aborted",
        }
    }
}

/// How the step that was last asked for has ended.
#[derive(Copy, Clone, PartialEq, Eq, Debug, Structural)]
pub enum Outcome {
    Succeeded,
    Failed,
}

/// What the driver of a generation pass is asked to do.
#[derive(PartialEq, Eq, Debug)]
pub enum Action {
    /// Create the directory at `path`, and the directories above it.
    CreateDirectory { path: String },
    /// Write `contents` to the file at `path`, replacing what it held.
    WriteFile { path: String, contents: String },
    /// Compile `sources` into the static library `lib_name`, with
    /// `include_dir` on the search path for headers.
    Compile { sources: Vec<String>, include_dir: String, lib_name: String },
    /// Extract bindings for `functions`, and for nothing else, from the
    /// header at `header`.
    ExtractBindings { header: String, functions: Vec<String> },
    /// Write the extracted bindings to the file at `path`.
    WriteBindings { path: String },
    /// Nothing: the pass is complete.
    Finish,
    /// Nothing: the pass has failed, for the reason that `message` gives.
    Abort { message: String },
}

/// What an [`Action`] holds, as mathematical values.
pub enum ActionView {
    CreateDirectory { path: Seq<char> },
    WriteFile { path: Seq<char>, contents: Seq<char> },
    Compile { sources: Seq<Seq<char>>, include_dir: Seq<char>, lib_name: Seq<char> },
    ExtractBindings { header: Seq<char>, functions: Seq<Seq<char>> },
    WriteBindings { path: Seq<char> },
    Finish,
    Abort { message: Seq<char> },
}

impl View for Action {
    type V = ActionView;

    open spec fn view(&self) -> ActionView {
        match *self {
            Action::CreateDirectory { path } => ActionView::CreateDirectory { path: path@ },
            Action::WriteFile { path, contents } => ActionView::WriteFile {
                path: path@,
                contents: contents@,
            },
            Action::Compile { sources, include_dir, lib_name } => ActionView::Compile {
                sources: strings_view(sources@),
                include_dir: include_dir@,
                lib_name: lib_name@,
            },
            Action::ExtractBindings { header, functions } => ActionView::ExtractBindings {
                header: header@,
                functions: strings_view(functions@),
            },
            Action::WriteBindings { path } => ActionView::WriteBindings { path: path@ },
            Action::Finish => ActionView::Finish,
            Action::Abort { message } => ActionView::Abort { message: message@ },
        }
    }
}

/// The stage that a generation pass has reached, and what is to be done in
/// it.
pub struct Step {
    pub stage: Stage,
    pub action: Action,
}

/// What a [`Generator`] holds, as mathematical values.
pub struct GeneratorView {
    pub lib_name: Seq<char>,
    pub providers: Seq<ProviderView>,
    pub output_file_name: Seq<char>,
    pub out_dir: Seq<char>,
}

impl GeneratorView {
    /// Whether the generators support every field of every registered
    /// provider.
    pub open spec fn supported(self) -> bool {
        providers_supported(self.providers)
    }

    /// The directory that receives the generated C sources and the raw
    /// bindings: below the output directory, one directory for each library.
    pub open spec fn generate_path(self) -> Seq<char> {
        joined_path(joined_path(self.out_dir, "lttng-tracepoints"@), self.lib_name)
    }

    /// The path, in the directory `generate_path`, of the file whose name is
    /// the library's name and `suffix`.
    pub open spec fn local_path(self, generate_path: Seq<char>, suffix: Seq<char>) -> Seq<char> {
        joined_path(generate_path, self.lib_name + suffix)
    }

    /// The path of the tracepoint header in the directory `generate_path`.
    pub open spec fn tracepoint_header(self, generate_path: Seq<char>) -> Seq<char> {
        self.local_path(generate_path, "_tps.h"@)
    }

    /// The path of the interface header in the directory `generate_path`.
    pub open spec fn interface_header(self, generate_path: Seq<char>) -> Seq<char> {
        self.local_path(generate_path, "_int.h"@)
    }

    /// The path of the source file that materializes the probes.
    pub open spec fn tracepoint_impl(self) -> Seq<char> {
        self.local_path(self.generate_path(), "_tp_impl.c"@)
    }

    /// The path of the interface source.
    pub open spec fn interface_impl(self) -> Seq<char> {
        self.local_path(self.generate_path(), "_interface.c"@)
    }

    /// The path of the raw bindings.
    pub open spec fn raw_bindings(self) -> Seq<char> {
        joined_path(self.generate_path(), "tracepoints.rs"@)
    }

    /// The reason given when the step of `stage` fails: what has gone wrong,
    /// and the library that was being generated.
    pub open spec fn failure_message(self, stage: Stage) -> Seq<char> {
        stage.failure_text() + " for "@ + self.lib_name
    }

    /// The reason given when a provider has a field of a type that is not
    /// supported.
    pub open spec fn unsupported_message(self) -> Seq<char> {
        "Enumeration fields are not implemented"@ + " for "@ + self.lib_name
    }

    /// What is to be done in `stage`.
    pub open spec fn action(self, stage: Stage) -> ActionView {
        let dir = self.generate_path();
        match stage {
            Stage::CreateDirectory => ActionView::CreateDirectory { path: dir },
            Stage::TracepointHeader => ActionView::WriteFile {
                path: self.tracepoint_header(dir),
                contents: tp_header_text(self.tracepoint_header(dir), self.providers),
            },
            Stage::TracepointImpl => ActionView::WriteFile {
                path: self.tracepoint_impl(),
                contents: tp_impl_text(self.tracepoint_header(dir)),
            },
            Stage::InterfaceHeader => ActionView::WriteFile {
                path: self.interface_header(dir),
                contents: interface_header_text(self.providers),
            },
            Stage::InterfaceImpl => ActionView::WriteFile {
                path: self.interface_impl(),
                contents: interface_impl_text(
                    self.providers,
                    self.tracepoint_header(dir),
                    self.interface_header(dir),
                ),
            },
            Stage::Compile => ActionView::Compile {
                sources: seq![self.tracepoint_impl(), self.interface_impl()],
                include_dir: dir,
                lib_name: self.lib_name,
            },
            Stage::ExtractBindings => ActionView::ExtractBindings {
                header: self.interface_header(dir),
                functions: func_names(events_of(self.providers)),
            },
            Stage::WriteBindings => ActionView::WriteBindings { path: self.raw_bindings() },
            Stage::HostWrapper => ActionView::WriteFile {
                path: self.output_file_name,
                contents: rust_bindings_text(self.providers, self.raw_bindings()),
            },
            Stage::Finished => ActionView::Finish,
            Stage::Aborted => ActionView::Abort { message: self.failure_message(Stage::Aborted) },
        }
    }

    /// The first step of a pass. Nothing is generated for a schema that is
    /// not supported: the pass is over before anything is written.
    pub open spec fn first_step(self) -> (Stage, ActionView) {
        if self.supported() {
            (Stage::CreateDirectory, self.action(Stage::CreateDirectory))
        } else {
            (Stage::Aborted, ActionView::Abort { message: self.unsupported_message() })
        }
    }

    /// The step that follows the step of `done`, which has ended as
    /// `outcome` says. After a failure the pass is over, with a reason that
    /// names what failed; otherwise the next stage follows.
    pub open spec fn next_step(self, done: Stage, outcome: Outcome) -> (Stage, ActionView) {
        if outcome == Outcome::Failed {
            (Stage::Aborted, ActionView::Abort { message: self.failure_message(done) })
        } else if !self.supported() {
            (Stage::Aborted, ActionView::Abort { message: self.unsupported_message() })
        } else {
            (done.next(), self.action(done.next()))
        }
    }
}

/// Encapsulates the logic for generating the C and Rust source files needed to realize your
/// tracepoints
pub struct Generator {
    pub(crate) lib_name: String,
    pub(crate) providers: Vec<Provider>,
    pub(crate) output_file_name: String,
    pub(crate) out_dir: String,
}

impl View for Generator {
    type V = GeneratorView;

    open(crate) spec fn view(&self) -> GeneratorView {
        GeneratorView {
            lib_name: self.lib_name@,
            providers: providers_view(self.providers@),
            output_file_name: self.output_file_name@,
            out_dir: self.out_dir@,
        }
    }
}

impl Generator {
    /// A generator that writes below the directory `out_dir`. Its library is
    /// called `tracepoints`, its Rust module goes to `tracepoints.rs` in
    /// `out_dir`, and no provider is registered.
    pub fn new(out_dir: &str) -> (generator: Self)
        ensures
            generator@.out_dir == out_dir@,
            generator@.lib_name == "tracepoints"@,
            generator@.providers == Seq::<ProviderView>::empty(),
            generator@.output_file_name == joined_path(out_dir@, "tracepoints.rs"@),
    {
        Self {
            lib_name: "tracepoints".to_owned(),
            providers: Vec::new(),
            output_file_name: join_path(out_dir, "tracepoints.rs"),
            out_dir: out_dir.to_owned(),
        }
    }

    /// Sets the base name for the generated C library
    pub fn generated_lib_name(self, s: &str) -> (generator: Self)
        ensures
            generator@.lib_name == s@,
            generator@.providers == self@.providers,
            generator@.output_file_name == self@.output_file_name,
            generator@.out_dir == self@.out_dir,
    {
        let mut generator = self;
        generator.lib_name = s.to_owned();
        generator
    }

    /// Add a new provider to generate tracepoints for, after the providers
    /// registered before
    pub fn register_provider(self, p: Provider) -> (generator: Self)
        ensures
            generator@.lib_name == self@.lib_name,
            generator@.providers == self@.providers.push(p@),
            generator@.output_file_name == self@.output_file_name,
            generator@.out_dir == self@.out_dir,
    {
        let mut generator = self;
        generator.providers.push(p);
        generator
    }

    /// Sets the name of the root Rust source file into which tracepoint bindings
    /// are generated.
    pub fn output_file_name(self, p: &str) -> (generator: Self)
        ensures
            generator@.lib_name == self@.lib_name,
            generator@.providers == self@.providers,
            generator@.output_file_name == p@,
            generator@.out_dir == self@.out_dir,
    {
        let mut generator = self;
        generator.output_file_name = p.to_owned();
        generator
    }

    /// Whether the generators support every field of every registered
    /// provider, that is, whether no field is an enumeration.
    pub fn is_supported(&self) -> (b: bool)
        ensures
            b == self@.supported(),
    {
        let mut i: usize = 0;
        while i < self.providers.len()
            invariant
                i <= self.providers.len(),
                forall|j: int| 0 <= j < i ==> (#[trigger] self@.providers[j]).supported(),
            decreases self.providers.len() - i,
        {
            if !self.providers[i].is_supported() {
                assert(!self@.providers[i as int].supported());
                return false;
            }
            i += 1;
        }
        true
    }

    /// The directory that receives the generated C sources and the raw
    /// bindings.
    pub fn generate_path(&self) -> (path: String)
        ensures
            path@ == self@.generate_path(),
    {
        let parent = join_path(self.out_dir.as_str(), "lttng-tracepoints");
        join_path(parent.as_str(), self.lib_name.as_str())
    }

    /// The path of the tracepoint header in the directory `generate_path`.
    pub fn tracepoint_header(&self, generate_path: &str) -> (path: String)
        ensures
            path@ == self@.tracepoint_header(generate_path@),
    {
        self.local_path(generate_path, "_tps.h")
    }

    /// The path of the interface header in the directory `generate_path`.
    pub fn interface_header(&self, generate_path: &str) -> (path: String)
        ensures
            path@ == self@.interface_header(generate_path@),
    {
        self.local_path(generate_path, "_int.h")
    }

    /// The path, in the directory `generate_path`, of the file whose name is
    /// the library's name and `suffix`.
    pub fn local_path(&self, generate_path: &str, suffix: &str) -> (path: String)
        ensures
            path@ == self@.local_path(generate_path@, suffix@),
    {
        let mut name = self.lib_name.clone();
        name.append(suffix);
        join_path(generate_path, name.as_str())
    }

    /// The reason given when the step of `stage` fails.
    pub fn failure_message(&self, stage: Stage) -> (message: String)
        ensures
            message@ == self@.failure_message(stage),
    {
        let mut out = String::new();
        out.append(stage.failure());
        out.append(" for ");
        out.append(self.lib_name.as_str());
        proof {
            lemma_append_three(Seq::empty(), stage.failure_text(), " for "@, self@.lib_name);
            lemma_empty_append(self@.failure_message(stage));
        }
        out
    }

    /// The reason given when a provider has a field of a type that is not
    /// supported.
    pub fn unsupported_message(&self) -> (message: String)
        ensures
            message@ == self@.unsupported_message(),
    {
        let mut out = String::new();
        out.append("Enumeration fields are not implemented");
        out.append(" for ");
        out.append(self.lib_name.as_str());
        proof {
            lemma_append_three(
                Seq::empty(),
                "Enumeration fields are not implemented"@,
                " for "@,
                self@.lib_name,
            );
            lemma_empty_append(self@.unsupported_message());
        }
        out
    }

    /// What is to be done in `stage`: the paths, and the complete text of
    /// every file that this library generates.
    pub fn action(&self, stage: Stage) -> (action: Action)
        requires
            self@.supported(),
        ensures
            action@ == self@.action(stage),
    {
        let dir = self.generate_path();
        match stage {
            Stage::CreateDirectory => Action::CreateDirectory { path: dir },
            Stage::TracepointHeader => {
                let path = self.tracepoint_header(dir.as_str());
                let contents = generate_tp_header(path.as_str(), self.providers.as_slice());
                Action::WriteFile { path, contents }
            },
            Stage::TracepointImpl => {
                let header = self.tracepoint_header(dir.as_str());
                Action::WriteFile {
                    path: self.local_path(dir.as_str(), "_tp_impl.c"),
                    contents: generate_tp_impl(header.as_str()),
                }
            },
            Stage::InterfaceHeader => Action::WriteFile {
                path: self.interface_header(dir.as_str()),
                contents: generate_interface_header(self.providers.as_slice()),
            },
            Stage::InterfaceImpl => {
                let tracepoint_header = self.tracepoint_header(dir.as_str());
                let interface_header = self.interface_header(dir.as_str());
                Action::WriteFile {
                    path: self.local_path(dir.as_str(), "_interface.c"),
                    contents: generate_interface_impl(
                        self.providers.as_slice(),
                        tracepoint_header.as_str(),
                        interface_header.as_str(),
                    ),
                }
            },
            Stage::Compile => {
                let mut sources: Vec<String> = Vec::new();
                sources.push(self.local_path(dir.as_str(), "_tp_impl.c"));
                sources.push(self.local_path(dir.as_str(), "_interface.c"));
                assert(strings_view(sources@) =~= seq![
                    self@.tracepoint_impl(),
                    self@.interface_impl(),
                ]);
                Action::Compile { sources, include_dir: dir, lib_name: self.lib_name.clone() }
            },
            Stage::ExtractBindings => Action::ExtractBindings {
                header: self.interface_header(dir.as_str()),
                functions: whitelist_interface(self.providers.as_slice()),
            },
            Stage::WriteBindings => Action::WriteBindings {
                path: join_path(dir.as_str(), "tracepoints.rs"),
            },
            Stage::HostWrapper => {
                let raw_bindings = join_path(dir.as_str(), "tracepoints.rs");
                Action::WriteFile {
                    path: self.output_file_name.clone(),
                    contents: generate_rust_bindings(
                        self.providers.as_slice(),
                        raw_bindings.as_str(),
                    ),
                }
            },
            Stage::Finished => Action::Finish,
            Stage::Aborted => Action::Abort { message: self.failure_message(Stage::Aborted) },
        }
    }

    /// The first step of a generation pass.
    pub fn start(&self) -> (step: Step)
        ensures
            (step.stage, step.action@) == self@.first_step(),
    {
        if self.is_supported() {
            Step { stage: Stage::CreateDirectory, action: self.action(Stage::CreateDirectory) }
        } else {
            Step {
                stage: Stage::Aborted,
                action: Action::Abort { message: self.unsupported_message() },
            }
        }
    }

    /// The step that follows the step of `done`, which has ended as
    /// `outcome` says.
    pub fn step(&self, done: Stage, outcome: Outcome) -> (step: Step)
        ensures
            (step.stage, step.action@) == self@.next_step(done, outcome),
    {
        if outcome == Outcome::Failed {
            Step {
                stage: Stage::Aborted,
                action: Action::Abort { message: self.failure_message(done) },
            }
        } else if !self.is_supported() {
            Step {
                stage: Stage::Aborted,
                action: Action::Abort { message: self.unsupported_message() },
            }
        } else {
            let stage = done.next();
            Step { stage, action: self.action(stage) }
        }
    }
}

/// The type names are a matter of the logical type alone: whenever the two
/// mappings are asked about the same supported type, they give the same C
/// type and the same Rust type as every other time.
pub proof fn lemma_type_names_are_stable(
    ty: CTFType,
    c_first: &'static str,
    c_second: &'static str,
    host_first: String,
    host_second: String,
)
    requires
        !ty.is_enum(),
        call_ensures(ctf_field_c_type, (ty,), c_first),
        call_ensures(ctf_field_c_type, (ty,), c_second),
        call_ensures(rust_type_for, (&ty,), host_first),
        call_ensures(rust_type_for, (&ty,), host_second),
    ensures
        c_first@ == c_second@,
        c_first@ == ty.c_param_type_text(),
        host_first@ == host_second@,
        host_first@ == ty.host_type_text(),
{
}

/// The generated texts list the arguments of a class in one and the same
/// order, the order of its fields.
///
/// The tracepoint declaration, the declaration and the definition of the C
/// function, and the call that the Rust wrapper makes all have one entry for
/// each C parameter, at the same position. The recording macros and the
/// parameters of the Rust wrapper have one entry for each field, at the
/// field's position. And the C parameters, with the element counts left
/// out, are the values of the fields at the fields' positions.
pub proof fn lemma_argument_lists_agree(fields: Seq<FieldView>)
    ensures
        tp_arg_texts(fields).len() == c_params(fields).len(),
        c_arg_texts(fields, true).len() == c_params(fields).len(),
        c_arg_texts(fields, false).len() == c_params(fields).len(),
        call_arg_texts(fields).len() == c_params(fields).len(),
        forall|k: int|
            0 <= k < c_params(fields).len() ==> {
                let p = #[trigger] c_params(fields)[k];
                &&& tp_arg_texts(fields)[k] == tp_arg_text(p)
                &&& c_arg_texts(fields, true)[k] == c_arg_text(p, true)
                &&& c_arg_texts(fields, false)[k] == c_arg_text(p, false)
                &&& call_args(fields)[k].field == p.field
                &&& call_args(fields)[k].role == p.role
                &&& call_arg_texts(fields)[k] == call_args(fields)[k].expr
            },
        tp_field_texts(fields).len() == fields.len(),
        host_arg_texts(fields).len() == fields.len(),
        forall|i: int|
            0 <= i < fields.len() ==> {
                let f = #[trigger] fields[i];
                &&& tp_field_texts(fields)[i] == "        "@ + ctf_call_text(f)
                &&& host_arg_texts(fields)[i] == host_arg_text(host_param(i, f))
            },
        c_params(fields).filter(|p: CParam| p.role == ParamRole::Value) == Seq::new(
            fields.len(),
            |i: int| value_param(i, fields[i]),
        ),
{
    lemma_call_args_match_c_params(fields);
    lemma_field_order(fields);
}

/// A text sequence is followed by exactly one element count in the C
/// parameter list, and by none in the parameter list of the Rust wrapper,
/// where the field is a single `&str`: the wrapper works the count out by
/// itself.
pub proof fn lemma_text_sequence_has_one_length(fields: Seq<FieldView>, index: int)
    requires
        0 <= index < fields.len(),
        fields[index].ctf_type == CTFType::SequenceText,
    ensures
        c_params(fields).filter(
            |p: CParam| p.field == index && p.role == ParamRole::Length,
        ).len() == 1,
        host_params(fields).filter(|p: HostParam| p.field == index).len() == 1,
        host_params(fields)[index].host_type == "&str"@,
{
    lemma_params_per_field(fields, index);
}

/// Every event of a provider is written exactly once into each generated
/// text: one tracepoint declaration, one C function declared and defined,
/// one Rust wrapper. A provider without events has none of them.
pub proof fn lemma_one_function_for_each_event(provider: ProviderView)
    ensures
        provider.events().len() == provider.instance_count(),
        prototype_texts(provider.events()).len() == provider.instance_count(),
        definition_texts(provider.events()).len() == provider.instance_count(),
        func_names(provider.events()).len() == provider.instance_count(),
        wrapper_texts(provider.events()).len() == provider.instance_count(),
        forall|c: int|
            0 <= c < provider.classes.len() ==> (#[trigger] instance_texts(
                provider.name,
                provider.classes[c],
            )).len() == provider.classes[c].instances.len(),
{
    lemma_event_count(provider, provider.classes.len() as int);
}

/// A provider with one class of `n` fields, instantiated `m` times, gets
/// exactly `m` Rust wrappers, one for each instantiation and in that order,
/// and each of them takes exactly `n` arguments.
pub proof fn lemma_wrappers_of_single_class(provider: ProviderView)
    requires
        provider.classes.len() == 1,
    ensures
        wrapper_texts(provider.events()).len() == provider.classes[0].instances.len(),
        forall|j: int|
            0 <= j < provider.classes[0].instances.len() ==> #[trigger] wrapper_texts(
                provider.events(),
            )[j] == wrapper_text(
                EventView {
                    provider_name: provider.name,
                    class: provider.classes[0],
                    instance: provider.classes[0].instances[j],
                },
            ) + "\n"@,
        host_arg_texts(provider.classes[0].fields).len() == provider.classes[0].fields.len(),
{
    lemma_single_class_events(provider);
}

} // verus!
