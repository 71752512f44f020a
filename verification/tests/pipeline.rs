use lttng_ust_generate::generator::rust_bindings::generate_rust_bindings;
use lttng_ust_generate::generator::tracepoint_impl::{generate_tp_header, generate_tp_impl};
use lttng_ust_generate::generator::tracepoint_interface::{
    generate_interface_header, generate_interface_impl,
};
use lttng_ust_generate::generator::{join_path, Action, Outcome, Stage, Step};
use lttng_ust_generate::{CIntegerType, CTFType, Generator, Provider};

fn demo_provider() -> Provider {
    let mut provider = Provider::new("app");
    provider
        .create_class("request")
        .add_field("id", CTFType::Integer(CIntegerType::U64))
        .add_field("path", CTFType::SequenceText)
        .instantiate("begin")
        .instantiate("end");
    provider
}

fn unsupported_provider() -> Provider {
    let mut provider = Provider::new("later");
    provider
        .create_class("c")
        .add_field("fine", CTFType::Integer(CIntegerType::U8))
        .add_field("kind", CTFType::Enum)
        .instantiate("e");
    provider
}

fn demo_generator() -> Generator {
    Generator::new("/out")
        .generated_lib_name("demo")
        .register_provider(demo_provider())
        .output_file_name("/src/generated.rs")
}

fn abort(message: &str) -> Action {
    Action::Abort { message: message.to_string() }
}

const DIR: &str = "/out/lttng-tracepoints/demo";

#[test]
fn paths_are_joined_with_a_slash() {
    assert_eq!(join_path("/out", "tracepoints.rs"), "/out/tracepoints.rs");
    assert_eq!(join_path("relative/dir", "x"), "relative/dir/x");
    assert_eq!(join_path("", "x"), "/x");
    assert_eq!(join_path("dir", ""), "dir/");
}

#[test]
fn new_generator_has_the_default_names() {
    let generator = Generator::new("/target/out");
    assert_eq!(generator.generate_path(), "/target/out/lttng-tracepoints/tracepoints");
    assert_eq!(
        generator.action(Stage::HostWrapper),
        Action::WriteFile {
            path: "/target/out/tracepoints.rs".to_string(),
            contents: generate_rust_bindings(
                &[],
                "/target/out/lttng-tracepoints/tracepoints/tracepoints.rs"
            ),
        }
    );
    assert_eq!(
        generator.action(Stage::Compile),
        Action::Compile {
            sources: vec![
                "/target/out/lttng-tracepoints/tracepoints/tracepoints_tp_impl.c".to_string(),
                "/target/out/lttng-tracepoints/tracepoints/tracepoints_interface.c".to_string(),
            ],
            include_dir: "/target/out/lttng-tracepoints/tracepoints".to_string(),
            lib_name: "tracepoints".to_string(),
        }
    );
    assert_eq!(
        generator.action(Stage::ExtractBindings),
        Action::ExtractBindings {
            header: "/target/out/lttng-tracepoints/tracepoints/tracepoints_int.h".to_string(),
            functions: vec![],
        }
    );
}

#[test]
fn library_name_decides_directory_and_file_names() {
    let generator = Generator::new("/out").generated_lib_name("demo");
    assert_eq!(generator.generate_path(), DIR);
    assert_eq!(generator.local_path("/somewhere", "_x.c"), "/somewhere/demo_x.c");
    assert_eq!(generator.local_path(DIR, ""), "/out/lttng-tracepoints/demo/demo");
    assert_eq!(generator.tracepoint_header(DIR), "/out/lttng-tracepoints/demo/demo_tps.h");
    assert_eq!(generator.interface_header(DIR), "/out/lttng-tracepoints/demo/demo_int.h");
}

#[test]
fn last_setting_wins() {
    let generator = Generator::new("/out")
        .generated_lib_name("first")
        .output_file_name("/a.rs")
        .generated_lib_name("second")
        .output_file_name("/b.rs");
    assert_eq!(generator.generate_path(), "/out/lttng-tracepoints/second");
    match generator.action(Stage::HostWrapper) {
        Action::WriteFile { path, .. } => assert_eq!(path, "/b.rs"),
        other => panic!("{:?}", other),
    }
}

#[test]
fn providers_are_kept_in_the_order_of_registration() {
    let generator = Generator::new("/out")
        .register_provider(Provider::new("zeta"))
        .register_provider(Provider::new("alpha"));
    let expected_header = generate_tp_header(
        "/out/lttng-tracepoints/tracepoints/tracepoints_tps.h",
        &[Provider::new("zeta"), Provider::new("alpha")],
    );
    match generator.action(Stage::TracepointHeader) {
        Action::WriteFile { contents, .. } => assert_eq!(contents, expected_header),
        other => panic!("{:?}", other),
    }
}

#[test]
fn stages_follow_each_other() {
    let order = [
        Stage::CreateDirectory,
        Stage::TracepointHeader,
        Stage::TracepointImpl,
        Stage::InterfaceHeader,
        Stage::InterfaceImpl,
        Stage::Compile,
        Stage::ExtractBindings,
        Stage::WriteBindings,
        Stage::HostWrapper,
        Stage::Finished,
    ];
    for pair in order.windows(2) {
        assert_eq!(pair[0].next(), pair[1]);
    }
    assert_eq!(Stage::Finished.next(), Stage::Finished);
    assert_eq!(Stage::Aborted.next(), Stage::Aborted);
}

#[test]
fn pass_takes_every_step_in_order() {
    let generator = demo_generator();
    let providers = vec![demo_provider()];
    let tps = format!("{}/demo_tps.h", DIR);
    let int = format!("{}/demo_int.h", DIR);
    let tp_impl = format!("{}/demo_tp_impl.c", DIR);
    let interface = format!("{}/demo_interface.c", DIR);
    let raw = format!("{}/tracepoints.rs", DIR);
    let expected = vec![
        (Stage::CreateDirectory, Action::CreateDirectory { path: DIR.to_string() }),
        (
            Stage::TracepointHeader,
            Action::WriteFile {
                path: tps.clone(),
                contents: generate_tp_header(&tps, &providers),
            },
        ),
        (
            Stage::TracepointImpl,
            Action::WriteFile { path: tp_impl.clone(), contents: generate_tp_impl(&tps) },
        ),
        (
            Stage::InterfaceHeader,
            Action::WriteFile {
                path: int.clone(),
                contents: generate_interface_header(&providers),
            },
        ),
        (
            Stage::InterfaceImpl,
            Action::WriteFile {
                path: interface.clone(),
                contents: generate_interface_impl(&providers, &tps, &int),
            },
        ),
        (
            Stage::Compile,
            Action::Compile {
                sources: vec![tp_impl.clone(), interface.clone()],
                include_dir: DIR.to_string(),
                lib_name: "demo".to_string(),
            },
        ),
        (
            Stage::ExtractBindings,
            Action::ExtractBindings {
                header: int.clone(),
                functions: vec![
                    "app_request_begin_tp".to_string(),
                    "app_request_end_tp".to_string(),
                ],
            },
        ),
        (Stage::WriteBindings, Action::WriteBindings { path: raw.clone() }),
        (
            Stage::HostWrapper,
            Action::WriteFile {
                path: "/src/generated.rs".to_string(),
                contents: generate_rust_bindings(&providers, &raw),
            },
        ),
        (Stage::Finished, Action::Finish),
    ];
    let mut step = generator.start();
    for (stage, action) in expected {
        assert_eq!(step.stage, stage);
        assert_eq!(step.action, action);
        step = generator.step(step.stage, Outcome::Succeeded);
    }
    assert_eq!(step.stage, Stage::Finished);
    assert_eq!(step.action, Action::Finish);
}

#[test]
fn interface_source_reads_the_tracepoint_header_first() {
    match demo_generator().action(Stage::InterfaceImpl) {
        Action::WriteFile { contents, .. } => assert!(contents.starts_with(
            "#include \"/out/lttng-tracepoints/demo/demo_tps.h\"\n#include \"/out/lttng-tracepoints/demo/demo_int.h\"\n"
        )),
        other => panic!("{:?}", other),
    }
}

#[test]
fn tracepoint_header_names_itself() {
    match demo_generator().action(Stage::TracepointHeader) {
        Action::WriteFile { path, contents } => {
            assert_eq!(path, "/out/lttng-tracepoints/demo/demo_tps.h");
            assert!(contents.starts_with(
                "#undef TRACEPOINT_INCLUDE\n#define TRACEPOINT_INCLUDE \"/out/lttng-tracepoints/demo/demo_tps.h\"\n\n"
            ));
        }
        other => panic!("{:?}", other),
    }
}

#[test]
fn failure_ends_the_pass_with_a_message_that_names_the_library() {
    let generator = demo_generator();
    let cases = [
        (Stage::CreateDirectory, "Failed to create source directory for demo"),
        (Stage::TracepointHeader, "Failed to generate tracepoint header for demo"),
        (Stage::TracepointImpl, "Failed to generate tracepoint implementation for demo"),
        (Stage::InterfaceHeader, "Failed to generate interface header for demo"),
        (Stage::InterfaceImpl, "Failed to generate interface implementation for demo"),
        (Stage::Compile, "Failed to compile tracepoint library for demo"),
        (Stage::ExtractBindings, "Failed to generate tracepoint bindings for demo"),
        (Stage::WriteBindings, "Failed to write raw tracepoint bindings for demo"),
        (Stage::HostWrapper, "Failed to generate rust sources for demo"),
    ];
    for (stage, message) in cases {
        let Step { stage: reached, action } = generator.step(stage, Outcome::Failed);
        assert_eq!(reached, Stage::Aborted);
        assert_eq!(action, abort(message));
        assert_eq!(generator.failure_message(stage), message);
        assert_eq!(format!("{} for demo", stage.failure()), message);
    }
}

#[test]
fn failure_message_names_the_configured_library() {
    let generator = Generator::new("/out").generated_lib_name("rust_lttng_logging");
    assert_eq!(
        generator.failure_message(Stage::ExtractBindings),
        "Failed to generate tracepoint bindings for rust_lttng_logging"
    );
    assert_eq!(
        Generator::new("/out").failure_message(Stage::WriteBindings),
        "Failed to write raw tracepoint bindings for tracepoints"
    );
}

#[test]
fn nothing_follows_the_end_of_a_pass() {
    let generator = demo_generator();
    let after_finish = generator.step(Stage::Finished, Outcome::Succeeded);
    assert_eq!(after_finish.stage, Stage::Finished);
    assert_eq!(after_finish.action, Action::Finish);
    let after_abort = generator.step(Stage::Aborted, Outcome::Succeeded);
    assert_eq!(after_abort.stage, Stage::Aborted);
    assert_eq!(after_abort.action, abort("Generation was aborted for demo"));
    let failed_late = generator.step(Stage::Finished, Outcome::Failed);
    assert_eq!(failed_late.stage, Stage::Aborted);
    assert_eq!(failed_late.action, abort("Nothing is left to generate for demo"));
}

#[test]
fn generator_is_supported_when_no_field_is_an_enumeration() {
    assert!(Generator::new("/out").is_supported());
    assert!(demo_generator().is_supported());
    assert!(!demo_generator().register_provider(unsupported_provider()).is_supported());
    assert!(!Generator::new("/out").register_provider(unsupported_provider()).is_supported());
}

#[test]
fn unsupported_schema_ends_the_pass_before_anything_is_written() {
    let generator = demo_generator().register_provider(unsupported_provider());
    let first = generator.start();
    assert_eq!(first.stage, Stage::Aborted);
    assert_eq!(first.action, abort("Enumeration fields are not implemented for demo"));
    assert_eq!(
        generator.unsupported_message(),
        "Enumeration fields are not implemented for demo"
    );
    let later = generator.step(Stage::CreateDirectory, Outcome::Succeeded);
    assert_eq!(later.stage, Stage::Aborted);
    assert_eq!(later.action, abort("Enumeration fields are not implemented for demo"));
}
