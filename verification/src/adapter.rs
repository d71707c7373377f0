//! Renderer adapters: one per way of turning the input file into a PDF of the
//! requested page size, each with its own command-line convention.

use crate::command::{Command, CommandView};
use crate::text::{decimal, decimal_string, push_string, push_text};
use crate::units::{spec_mm_text, spec_pixels, Millimeters};
use vstd::prelude::*;
use vstd::string::*;

verus! {

/// The two kinds of label content. Each has its own renderer chain.
#[derive(Clone, Copy, Debug, PartialEq, Eq, Structural)]
pub enum ContentKind {
    Markup,
    Raster,
}

/// How an adapter tells its engine the page size.
#[derive(Clone, Copy, Debug, PartialEq, Eq, Structural)]
pub enum Sizing {
    /// Markup engine: page width and height in millimetres, zero margins.
    MarkupPage,
    /// Raster engine: a page-size option in millimetres; the engine scales
    /// the image onto that page.
    RasterPage,
    /// Raster engine: the image is resampled to forced pixel dimensions at
    /// the reference resolution, and the page follows from the pixels.
    RasterResize,
}

/// The unit in which an adapter's page is authoritative, and therefore the
/// unit in which the print spooler must be told the media size.
#[derive(Clone, Copy, Debug, PartialEq, Eq, Structural)]
pub enum UnitConvention {
    /// Page given in millimetres; the spooler gets tenths of a millimetre.
    Tenths,
    /// Page derived from pixels at a fixed resolution; the spooler gets points.
    Points,
}

impl Sizing {
    /// The kind of content that this sizing rule renders.
    pub open spec fn spec_kind(self) -> ContentKind {
        match self {
            Sizing::MarkupPage => ContentKind::Markup,
            Sizing::RasterPage => ContentKind::Raster,
            Sizing::RasterResize => ContentKind::Raster,
        }
    }

    /// The unit convention under which this sizing rule lays out the page.
    pub open spec fn spec_convention(self) -> UnitConvention {
        match self {
            Sizing::MarkupPage => UnitConvention::Tenths,
            Sizing::RasterPage => UnitConvention::Tenths,
            Sizing::RasterResize => UnitConvention::Points,
        }
    }

    /// The kind of content that this sizing rule renders.
    pub fn kind(self) -> (kind: ContentKind)
        ensures
            kind == self.spec_kind(),
    {
        match self {
            Sizing::MarkupPage => ContentKind::Markup,
            Sizing::RasterPage => ContentKind::Raster,
            Sizing::RasterResize => ContentKind::Raster,
        }
    }

    /// The unit convention under which this sizing rule lays out the page.
    pub fn convention(self) -> (convention: UnitConvention)
        ensures
            convention == self.spec_convention(),
    {
        match self {
            Sizing::MarkupPage => UnitConvention::Tenths,
            Sizing::RasterPage => UnitConvention::Tenths,
            Sizing::RasterResize => UnitConvention::Points,
        }
    }
}

/// One supported way of rendering: the engine's program, the rule that
/// builds its arguments, and what to tell an operator who lacks the engine.
#[derive(Debug, PartialEq, Eq)]
pub struct RendererAdapter {
    /// Name under which attempts are logged.
    pub name: String,
    /// Program to run.
    pub program: String,
    /// Argument-building rule.
    pub sizing: Sizing,
    /// Installation hint shown when the program is not installed.
    pub remedy: String,
}

/// The mathematical content of a `RendererAdapter`.
pub struct RendererAdapterView {
    pub name: Seq<char>,
    pub program: Seq<char>,
    pub sizing: Sizing,
    pub remedy: Seq<char>,
}

impl View for RendererAdapter {
    type V = RendererAdapterView;

    open spec fn view(&self) -> RendererAdapterView {
        RendererAdapterView {
            name: self.name@,
            program: self.program@,
            sizing: self.sizing,
            remedy: self.remedy@,
        }
    }
}

impl DeepView for RendererAdapter {
    type V = RendererAdapterView;

    open spec fn deep_view(&self) -> RendererAdapterView {
        self@
    }
}

/// The page-size argument of the raster page rule: `62mmx100mm`.
pub open spec fn spec_page_size(width: nat, height: nat) -> Seq<char> {
    spec_mm_text(width) + "mm"@ + "x"@ + spec_mm_text(height) + "mm"@
}

/// The geometry argument of the raster resize rule, in pixels at the
/// reference resolution; the `!` forces both dimensions: `732x1181!`.
pub open spec fn spec_resize_geometry(width: nat, height: nat) -> Seq<char> {
    decimal(spec_pixels(width)) + "x"@ + decimal(spec_pixels(height)) + "!"@
}

/// The arguments that a sizing rule builds from the input and output paths
/// and the page dimensions in micrometres.
pub open spec fn spec_render_args(
    sizing: Sizing,
    input: Seq<char>,
    output: Seq<char>,
    width: nat,
    height: nat,
) -> Seq<Seq<char>> {
    match sizing {
        Sizing::MarkupPage => seq![
            "--page-width"@,
            spec_mm_text(width) + "mm"@,
            "--page-height"@,
            spec_mm_text(height) + "mm"@,
            "--margin-top"@,
            "0"@,
            "--margin-bottom"@,
            "0"@,
            "--margin-left"@,
            "0"@,
            "--margin-right"@,
            "0"@,
            input,
            output,
        ],
        Sizing::RasterPage => seq![
            input,
            "-density"@,
            "300"@,
            "-units"@,
            "PixelsPerInch"@,
            "-background"@,
            "white"@,
            "-alpha"@,
            "remove"@,
            "-page"@,
            spec_page_size(width, height),
            output,
        ],
        Sizing::RasterResize => seq![
            input,
            "-density"@,
            "300"@,
            "-units"@,
            "PixelsPerInch"@,
            "-background"@,
            "white"@,
            "-alpha"@,
            "remove"@,
            "-resize"@,
            spec_resize_geometry(width, height),
            output,
        ],
    }
}

/// The command with which an adapter renders `input` into `output`.
pub open spec fn spec_render_command(
    adapter: RendererAdapterView,
    input: Seq<char>,
    output: Seq<char>,
    width: nat,
    height: nat,
) -> CommandView {
    CommandView {
        program: adapter.program,
        args: spec_render_args(adapter.sizing, input, output, width, height),
    }
}

/// The text `<width>mm`.
fn mm_with_unit(len: Millimeters) -> (text: String)
    ensures
        text@ == spec_mm_text(len.um()) + "mm"@,
{
    let mut text: String = len.mm_text();
    text.append("mm");
    text
}

/// The page-size argument of the raster page rule.
fn page_size(width: Millimeters, height: Millimeters) -> (text: String)
    ensures
        text@ == spec_page_size(width.um(), height.um()),
{
    let mut text: String = mm_with_unit(width);
    text.append("x");
    let h: String = mm_with_unit(height);
    text.append(h.as_str());
    assert(text@ =~= spec_page_size(width.um(), height.um()));
    text
}

/// The geometry argument of the raster resize rule.
fn resize_geometry(width: Millimeters, height: Millimeters) -> (text: String)
    ensures
        text@ == spec_resize_geometry(width.um(), height.um()),
{
    let mut text: String = decimal_string(width.to_pixels());
    text.append("x");
    let h: String = decimal_string(height.to_pixels());
    text.append(h.as_str());
    text.append("!");
    text
}

/// Appends the options shared by both raster rules: the input's resolution
/// and a white, opaque background.
fn push_raster_options(args: &mut Vec<String>)
    ensures
        final(args).deep_view() == old(args).deep_view() + seq![
            "-density"@,
            "300"@,
            "-units"@,
            "PixelsPerInch"@,
            "-background"@,
            "white"@,
            "-alpha"@,
            "remove"@,
        ],
{
    push_text(args, "-density");
    push_text(args, "300");
    push_text(args, "-units");
    push_text(args, "PixelsPerInch");
    push_text(args, "-background");
    push_text(args, "white");
    push_text(args, "-alpha");
    push_text(args, "remove");
    assert(args.deep_view() =~= old(args).deep_view() + seq![
        "-density"@,
        "300"@,
        "-units"@,
        "PixelsPerInch"@,
        "-background"@,
        "white"@,
        "-alpha"@,
        "remove"@,
    ]);
}

impl RendererAdapter {
    /// Builds the command that renders `input` into `output` on a page of
    /// `width` by `height`. The command depends on nothing else.
    pub fn build_command(
        &self,
        input: &str,
        output: &str,
        width: Millimeters,
        height: Millimeters,
    ) -> (command: Command)
        ensures
            command@ == spec_render_command(self@, input@, output@, width.um(), height.um()),
    {
        let mut args: Vec<String> = Vec::new();
        assert(args.deep_view() =~= Seq::<Seq<char>>::empty());
        match self.sizing {
            Sizing::MarkupPage => {
                push_text(&mut args, "--page-width");
                push_string(&mut args, mm_with_unit(width));
                push_text(&mut args, "--page-height");
                push_string(&mut args, mm_with_unit(height));
                push_text(&mut args, "--margin-top");
                push_text(&mut args, "0");
                push_text(&mut args, "--margin-bottom");
                push_text(&mut args, "0");
                push_text(&mut args, "--margin-left");
                push_text(&mut args, "0");
                push_text(&mut args, "--margin-right");
                push_text(&mut args, "0");
                push_text(&mut args, input);
                push_text(&mut args, output);
            },
            Sizing::RasterPage => {
                push_text(&mut args, input);
                push_raster_options(&mut args);
                push_text(&mut args, "-page");
                push_string(&mut args, page_size(width, height));
                push_text(&mut args, output);
            },
            Sizing::RasterResize => {
                push_text(&mut args, input);
                push_raster_options(&mut args);
                push_text(&mut args, "-resize");
                push_string(&mut args, resize_geometry(width, height));
                push_text(&mut args, output);
            },
        }
        assert(args.deep_view() =~= spec_render_args(
            self.sizing,
            input@,
            output@,
            width.um(),
            height.um(),
        ));
        Command { program: self.program.clone(), args }
    }
}

/// What to tell an operator who lacks the markup engine.
pub open spec fn spec_markup_remedy() -> Seq<char> {
    "Please install wkhtmltopdf:\n - Fedora: sudo dnf install wkhtmltopdf\n - Ubuntu/Debian: sudo apt install wkhtmltopdf\n - Arch: sudo pacman -S wkhtmltopdf"@
}

/// What to tell an operator who lacks the raster engine.
pub open spec fn spec_raster_remedy() -> Seq<char> {
    "Please install ImageMagick:\n - Fedora: sudo dnf install ImageMagick\n - Ubuntu/Debian: sudo apt install imagemagick\n - Arch: sudo pacman -S imagemagick"@
}

/// The adapters that are tried for a kind of content, in priority order.
/// Markup has one engine. Raster has one engine with two sizing rules: the
/// page-size rule first, the forced resize as the fallback.
pub open spec fn spec_standard_chain(kind: ContentKind) -> Seq<RendererAdapterView> {
    match kind {
        ContentKind::Markup => seq![
            RendererAdapterView {
                name: "wkhtmltopdf"@,
                program: "wkhtmltopdf"@,
                sizing: Sizing::MarkupPage,
                remedy: spec_markup_remedy(),
            },
        ],
        ContentKind::Raster => seq![
            RendererAdapterView {
                name: "ImageMagick (page size)"@,
                program: "convert"@,
                sizing: Sizing::RasterPage,
                remedy: spec_raster_remedy(),
            },
            RendererAdapterView {
                name: "ImageMagick (forced resize)"@,
                program: "convert"@,
                sizing: Sizing::RasterResize,
                remedy: spec_raster_remedy(),
            },
        ],
    }
}

/// The adapters of a chain that render a kind of content, in their order.
pub open spec fn spec_matching(adapters: Seq<RendererAdapterView>, kind: ContentKind) -> Seq<
    RendererAdapterView,
>
    decreases adapters.len(),
{
    if adapters.len() == 0 {
        Seq::<RendererAdapterView>::empty()
    } else if adapters.last().sizing.spec_kind() == kind {
        spec_matching(adapters.drop_last(), kind).push(adapters.last())
    } else {
        spec_matching(adapters.drop_last(), kind)
    }
}

/// Whether every adapter of a chain renders the given kind of content.
pub open spec fn all_render(adapters: Seq<RendererAdapterView>, kind: ContentKind) -> bool {
    forall|i: int| 0 <= i < adapters.len() ==> (#[trigger] adapters[i]).sizing.spec_kind() == kind
}

impl RendererAdapter {
    /// An adapter with the same content.
    pub fn duplicate(&self) -> (copy: RendererAdapter)
        ensures
            copy@ == self@,
    {
        RendererAdapter {
            name: self.name.clone(),
            program: self.program.clone(),
            sizing: self.sizing,
            remedy: self.remedy.clone(),
        }
    }
}

/// The standard chain for a kind of content.
pub fn standard_chain(kind: ContentKind) -> (chain: Vec<RendererAdapter>)
    ensures
        chain.deep_view() == spec_standard_chain(kind),
{
    let mut chain: Vec<RendererAdapter> = Vec::new();
    match kind {
        ContentKind::Markup => {
            chain.push(
                RendererAdapter {
                    name: String::from_str("wkhtmltopdf"),
                    program: String::from_str("wkhtmltopdf"),
                    sizing: Sizing::MarkupPage,
                    remedy: String::from_str(
                        "Please install wkhtmltopdf:\n - Fedora: sudo dnf install wkhtmltopdf\n - Ubuntu/Debian: sudo apt install wkhtmltopdf\n - Arch: sudo pacman -S wkhtmltopdf",
                    ),
                },
            );
        },
        ContentKind::Raster => {
            chain.push(
                RendererAdapter {
                    name: String::from_str("ImageMagick (page size)"),
                    program: String::from_str("convert"),
                    sizing: Sizing::RasterPage,
                    remedy: String::from_str(
                        "Please install ImageMagick:\n - Fedora: sudo dnf install ImageMagick\n - Ubuntu/Debian: sudo apt install imagemagick\n - Arch: sudo pacman -S imagemagick",
                    ),
                },
            );
            chain.push(
                RendererAdapter {
                    name: String::from_str("ImageMagick (forced resize)"),
                    program: String::from_str("convert"),
                    sizing: Sizing::RasterResize,
                    remedy: String::from_str(
                        "Please install ImageMagick:\n - Fedora: sudo dnf install ImageMagick\n - Ubuntu/Debian: sudo apt install imagemagick\n - Arch: sudo pacman -S imagemagick",
                    ),
                },
            );
        },
    }
    assert(chain.deep_view() =~= spec_standard_chain(kind));
    chain
}

/// Keeps the adapters of a chain that render a kind of content, so that a
/// job never tries an adapter of the other kind.
pub fn matching(adapters: &Vec<RendererAdapter>, kind: ContentKind) -> (kept: Vec<RendererAdapter>)
    ensures
        kept.deep_view() == spec_matching(adapters.deep_view(), kind),
{
    let mut kept: Vec<RendererAdapter> = Vec::new();
    let mut i: usize = 0;
    assert(kept.deep_view() =~= spec_matching(adapters.deep_view().take(0), kind));
    while i < adapters.len()
        invariant
            i <= adapters.len(),
            kept.deep_view() == spec_matching(adapters.deep_view().take(i as int), kind),
        decreases adapters.len() - i,
    {
        let ghost before = kept.deep_view();
        proof {
            let next = adapters.deep_view().take(i + 1);
            assert(next.drop_last() =~= adapters.deep_view().take(i as int));
            assert(next.last() == adapters[i as int]@);
        }
        if adapters[i].sizing.kind() == kind {
            kept.push(adapters[i].duplicate());
            assert(kept.deep_view() =~= before.push(adapters[i as int]@));
        }
        i = i + 1;
    }
    assert(adapters.deep_view().take(i as int) =~= adapters.deep_view());
    kept
}

/// Filtering keeps only adapters of the requested kind, and keeps a chain
/// whole if all of its adapters are of that kind.
pub proof fn lemma_matching(adapters: Seq<RendererAdapterView>, kind: ContentKind)
    ensures
        all_render(spec_matching(adapters, kind), kind),
        spec_matching(adapters, kind).len() <= adapters.len(),
        all_render(adapters, kind) ==> spec_matching(adapters, kind) == adapters,
    decreases adapters.len(),
{
    if adapters.len() > 0 {
        lemma_matching(adapters.drop_last(), kind);
        if all_render(adapters, kind) {
            assert(all_render(adapters.drop_last(), kind)) by {
                assert forall|i: int| 0 <= i < adapters.drop_last().len() implies (
                #[trigger] adapters.drop_last()[i]).sizing.spec_kind() == kind by {
                    assert(adapters.drop_last()[i] == adapters[i]);
                }
            }
            assert(adapters.last() == adapters[adapters.len() - 1]);
            assert(adapters.drop_last().push(adapters.last()) =~= adapters);
        }
    } else {
        assert(spec_matching(adapters, kind) =~= adapters);
    }
}

/// The standard chains are disjoint: every adapter of the chain for a kind
/// renders that kind, so a markup job never tries a raster adapter and a
/// raster job never tries a markup adapter.
pub proof fn law_chains_are_disjoint(kind: ContentKind)
    ensures
        all_render(spec_standard_chain(kind), kind),
        spec_matching(spec_standard_chain(kind), kind) == spec_standard_chain(kind),
        forall|other: ContentKind|
            other != kind ==> spec_matching(spec_standard_chain(kind), other).len() == 0,
{
    lemma_matching(spec_standard_chain(kind), kind);
    assert forall|other: ContentKind| other != kind implies spec_matching(
        spec_standard_chain(kind),
        other,
    ).len() == 0 by {
        reveal_with_fuel(spec_matching, 3);
        let chain = spec_standard_chain(kind);
        if kind == ContentKind::Raster {
            assert(chain.drop_last().last() == chain[0]);
            assert(chain.drop_last().drop_last().len() == 0);
        } else {
            assert(chain.drop_last().len() == 0);
        }
    }
}

} // verus!
