use label_pdf::adapter::{
    matching, standard_chain, ContentKind, RendererAdapter, Sizing, UnitConvention,
};
use label_pdf::command::{classify, Command, ProcessOutcome, Verdict};
use label_pdf::dispatch::{
    allocate_output_path, media_option, print_command, print_result, view_result,
};
use label_pdf::error::LabelError;
use label_pdf::units::Millimeters;

fn mm(micrometers: i64) -> Millimeters {
    Millimeters::from_micrometers(micrometers).expect("positive length")
}

fn adapter(name: &str, program: &str, sizing: Sizing) -> RendererAdapter {
    RendererAdapter {
        name: name.to_string(),
        program: program.to_string(),
        sizing,
        remedy: format!("install {}", program),
    }
}

fn strings(items: &[&str]) -> Vec<String> {
    items.iter().map(|item| item.to_string()).collect()
}

#[test]
fn markup_engine_gets_millimetres_and_zero_margins() {
    let command = adapter("markup", "wkhtmltopdf", Sizing::MarkupPage).build_command(
        "/tmp/in.html",
        "/tmp/label_1.pdf",
        mm(100_000),
        mm(50_000),
    );
    assert_eq!(command.program, "wkhtmltopdf");
    assert_eq!(
        command.args,
        strings(&[
            "--page-width",
            "100mm",
            "--page-height",
            "50mm",
            "--margin-top",
            "0",
            "--margin-bottom",
            "0",
            "--margin-left",
            "0",
            "--margin-right",
            "0",
            "/tmp/in.html",
            "/tmp/label_1.pdf",
        ])
    );
}

#[test]
fn raster_page_rule_gets_page_size_in_millimetres() {
    let command = adapter("page", "convert", Sizing::RasterPage).build_command(
        "/tmp/in.png",
        "/tmp/label_1.pdf",
        mm(62_000),
        mm(100_000),
    );
    assert_eq!(command.program, "convert");
    assert_eq!(
        command.args,
        strings(&[
            "/tmp/in.png",
            "-density",
            "300",
            "-units",
            "PixelsPerInch",
            "-background",
            "white",
            "-alpha",
            "remove",
            "-page",
            "62mmx100mm",
            "/tmp/label_1.pdf",
        ])
    );
}

#[test]
fn raster_page_rule_passes_fractions_unrounded() {
    let command = adapter("page", "convert", Sizing::RasterPage).build_command(
        "in.png",
        "out.pdf",
        mm(62_500),
        mm(29_005),
    );
    assert_eq!(command.args[10], "62.5mmx29.005mm");
}

#[test]
fn raster_resize_rule_gets_forced_pixels() {
    let command = adapter("resize", "convert", Sizing::RasterResize).build_command(
        "/tmp/in.png",
        "/tmp/label_1.pdf",
        mm(62_000),
        mm(100_000),
    );
    assert_eq!(
        command.args,
        strings(&[
            "/tmp/in.png",
            "-density",
            "300",
            "-units",
            "PixelsPerInch",
            "-background",
            "white",
            "-alpha",
            "remove",
            "-resize",
            "732x1181!",
            "/tmp/label_1.pdf",
        ])
    );
}

#[test]
fn same_inputs_build_the_same_command() {
    let a = adapter("page", "convert", Sizing::RasterPage);
    let first = a.build_command("in.png", "out.pdf", mm(62_000), mm(100_000));
    let second = a.build_command("in.png", "out.pdf", mm(62_000), mm(100_000));
    assert_eq!(first, second);
}

#[test]
fn sizing_rules_know_their_kind_and_convention() {
    assert_eq!(Sizing::MarkupPage.kind(), ContentKind::Markup);
    assert_eq!(Sizing::RasterPage.kind(), ContentKind::Raster);
    assert_eq!(Sizing::RasterResize.kind(), ContentKind::Raster);
    assert_eq!(Sizing::MarkupPage.convention(), UnitConvention::Tenths);
    assert_eq!(Sizing::RasterPage.convention(), UnitConvention::Tenths);
    assert_eq!(Sizing::RasterResize.convention(), UnitConvention::Points);
}

#[test]
fn standard_chains_are_disjoint() {
    let markup = standard_chain(ContentKind::Markup);
    let raster = standard_chain(ContentKind::Raster);
    assert_eq!(markup.len(), 1);
    assert_eq!(markup[0].program, "wkhtmltopdf");
    assert_eq!(markup[0].sizing, Sizing::MarkupPage);
    assert!(markup[0].remedy.contains("sudo apt install wkhtmltopdf"));
    assert_eq!(raster.len(), 2);
    assert_eq!(raster[0].program, "convert");
    assert_eq!(raster[0].sizing, Sizing::RasterPage);
    assert_eq!(raster[1].sizing, Sizing::RasterResize);
    assert!(raster[0].remedy.contains("Fedora: sudo dnf install ImageMagick"));
    assert!(markup.iter().all(|a| a.sizing.kind() == ContentKind::Markup));
    assert!(raster.iter().all(|a| a.sizing.kind() == ContentKind::Raster));
    assert!(matching(&markup, ContentKind::Raster).is_empty());
    assert!(matching(&raster, ContentKind::Markup).is_empty());
    assert_eq!(matching(&raster, ContentKind::Raster), raster);
}

#[test]
fn matching_keeps_order_and_drops_the_other_kind() {
    let chain = vec![
        adapter("a", "one", Sizing::RasterResize),
        adapter("b", "two", Sizing::MarkupPage),
        adapter("c", "three", Sizing::RasterPage),
        adapter("d", "four", Sizing::MarkupPage),
    ];
    let raster = matching(&chain, ContentKind::Raster);
    let markup = matching(&chain, ContentKind::Markup);
    assert_eq!(raster.iter().map(|a| a.name.as_str()).collect::<Vec<_>>(), vec!["a", "c"]);
    assert_eq!(markup.iter().map(|a| a.name.as_str()).collect::<Vec<_>>(), vec!["b", "d"]);
    assert_eq!(chain[0].duplicate(), chain[0]);
}

#[test]
fn outcomes_are_classified() {
    assert_eq!(
        classify(&ProcessOutcome::NotStarted { reason: "No such file".to_string() }),
        Verdict::ProgramNotFound("No such file".to_string())
    );
    assert_eq!(
        classify(&ProcessOutcome::Exited {
            success: false,
            stdout: "out".to_string(),
            stderr: "bad image".to_string(),
        }),
        Verdict::ProgramFailed("bad image".to_string())
    );
    assert_eq!(
        classify(&ProcessOutcome::Exited {
            success: true,
            stdout: String::new(),
            stderr: "warning".to_string(),
        }),
        Verdict::Success
    );
}

#[test]
fn output_path_joins_directory_prefix_and_timestamp() {
    assert_eq!(allocate_output_path("/tmp", 1_730_000_000_000), "/tmp/label_1730000000000.pdf");
    assert_eq!(allocate_output_path("/tmp/", 42), "/tmp/label_42.pdf");
    assert_eq!(allocate_output_path("", 0), "label_0.pdf");
    assert_eq!(allocate_output_path("/", 7), "/label_7.pdf");
    assert_eq!(allocate_output_path("/var/tmp/übung", 7), "/var/tmp/übung/label_7.pdf");
}

#[test]
fn output_paths_differ_by_millisecond() {
    assert_ne!(allocate_output_path("/tmp", 1_000), allocate_output_path("/tmp", 1_001));
    assert_ne!(allocate_output_path("/tmp", 1), allocate_output_path("/tmp", 10));
}

#[test]
fn media_option_in_points() {
    assert_eq!(
        media_option(UnitConvention::Points, mm(62_000), mm(100_000)),
        "media=Custom.176x283pt"
    );
}

#[test]
fn media_option_in_tenths_of_a_millimetre() {
    assert_eq!(
        media_option(UnitConvention::Tenths, mm(62_000), mm(100_000)),
        "media=Custom.62.0x100.0mm"
    );
    assert_eq!(
        media_option(UnitConvention::Tenths, mm(62_449), mm(29_050)),
        "media=Custom.62.4x29.1mm"
    );
}

#[test]
fn spool_command_forbids_rescaling() {
    let command = print_command(
        "/tmp/label_1.pdf",
        "BrotherQL",
        UnitConvention::Points,
        mm(62_000),
        mm(100_000),
    );
    assert_eq!(
        command,
        Command {
            program: "lpr".to_string(),
            args: strings(&[
                "-P",
                "BrotherQL",
                "-o",
                "media=Custom.176x283pt",
                "-o",
                "fit-to-page=false",
                "-o",
                "scaling=100",
                "-o",
                "number-up=1",
                "/tmp/label_1.pdf",
            ]),
        }
    );
}

#[test]
fn spooler_reports_are_read() {
    let ok = ProcessOutcome::Exited {
        success: true,
        stdout: String::new(),
        stderr: "ignored".to_string(),
    };
    assert_eq!(print_result("BrotherQL", &ok), Ok("Printed to BrotherQL".to_string()));
    let rejected = ProcessOutcome::Exited {
        success: false,
        stdout: "out".to_string(),
        stderr: "lpr: unknown destination\n".to_string(),
    };
    let error = print_result("BrotherQL", &rejected).expect_err("non-zero status");
    assert_eq!(
        error,
        LabelError::SpoolerRejected { stderr: "lpr: unknown destination\n".to_string() }
    );
    assert_eq!(error.message(), "Failed to print: lpr: unknown destination\n");
    let unavailable = ProcessOutcome::NotStarted { reason: "not found".to_string() };
    let error = print_result("BrotherQL", &unavailable).expect_err("cannot launch");
    assert_eq!(error, LabelError::SpoolerUnavailable { detail: "not found".to_string() });
    assert_eq!(error.message(), "Failed to execute lpr command: not found");
}

#[test]
fn viewer_reports_are_read() {
    assert_eq!(view_result("/tmp/label_1.pdf", None), Ok("/tmp/label_1.pdf".to_string()));
    let error = view_result("/tmp/label_1.pdf", Some("no handler".to_string()))
        .expect_err("viewer failed");
    assert_eq!(error, LabelError::ViewerFailed { detail: "no handler".to_string() });
    assert_eq!(error.message(), "Failed to open PDF: no handler");
}
