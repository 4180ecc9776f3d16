//! The conversion as a whole: its stages in order, and the checkpoints at
//! which progress is reported.

use crate::codec::{sniff_format, sniffed};
use crate::error::{bytes_view, ConvertError, ErrorModel};
use crate::kind::{kind_with_format, standard_kind, RasterKind};
use crate::pipeline::{
    load_image, loaded_from, prepared_from, process_image, write_image, written,
};
use crate::settings::Settings;
use crate::source_type::{source_of, SourceType};
use image::DynamicImage;
use vstd::prelude::*;

verus! {

/// A point of a conversion at which progress is reported.
#[derive(Clone, Copy, Debug, PartialEq, Eq, Structural)]
pub enum Checkpoint {
    Starting,
    Loading,
    Processing,
    Converting,
    Complete,
}

impl Checkpoint {
    /// How far the conversion has come, in percent.
    pub open spec fn spec_percent(self) -> u8 {
        match self {
            Checkpoint::Starting => 10,
            Checkpoint::Loading => 35,
            Checkpoint::Processing => 50,
            Checkpoint::Converting => 70,
            Checkpoint::Complete => 100,
        }
    }

    /// The name of the stage that begins at this checkpoint.
    pub open spec fn spec_label(self) -> Seq<char> {
        match self {
            Checkpoint::Starting => "Starting conversion"@,
            Checkpoint::Loading => "Loading image"@,
            Checkpoint::Processing => "Processing image"@,
            Checkpoint::Converting => "Converting image"@,
            Checkpoint::Complete => "Conversion complete"@,
        }
    }

    /// How far the conversion has come, in percent: never more than 100.
    pub fn percent(&self) -> (percent: u8)
        ensures
            percent == self.spec_percent(),
            percent <= 100,
    {
        match self {
            Checkpoint::Starting => 10,
            Checkpoint::Loading => 35,
            Checkpoint::Processing => 50,
            Checkpoint::Converting => 70,
            Checkpoint::Complete => 100,
        }
    }

    /// The name of the stage that begins at this checkpoint.
    pub fn label(&self) -> (label: &'static str)
        ensures
            label@ == self.spec_label(),
    {
        match self {
            Checkpoint::Starting => "Starting conversion",
            Checkpoint::Loading => "Loading image",
            Checkpoint::Processing => "Processing image",
            Checkpoint::Converting => "Converting image",
            Checkpoint::Complete => "Conversion complete",
        }
    }
}

/// The checkpoints of a conversion that succeeds, in the order they are
/// reported.
pub open spec fn all_checkpoints() -> Seq<Checkpoint> {
    seq![
        Checkpoint::Starting,
        Checkpoint::Loading,
        Checkpoint::Processing,
        Checkpoint::Converting,
        Checkpoint::Complete,
    ]
}

/// The raster format that the input turned out to have: the one of a raster
/// source, the one read off the bytes where no source kind was given, and none
/// for a vector source.
pub open spec fn spec_source_kind(file: Seq<u8>, source: Option<SourceType>) -> Option<
    RasterKind,
> {
    match source {
        Some(SourceType::Raster(kind)) => Some(kind),
        Some(SourceType::Svg) => None,
        None => match sniffed(file) {
            Ok(format) => kind_with_format(format),
            Err(_) => None,
        },
    }
}

/// The raster format that the input turned out to have, for the stage that
/// adapts the pixels.
pub fn source_kind(file: &[u8], source: Option<SourceType>) -> (kind: Option<RasterKind>)
    ensures
        kind == spec_source_kind(file@, source),
{
    match source {
        Some(SourceType::Raster(kind)) => Some(kind),
        Some(SourceType::Svg) => None,
        None => match sniff_format(file) {
            Ok(format) => RasterKind::from_format(format),
            Err(_) => None,
        },
    }
}

/// What a conversion was asked to do.
pub struct Job<'a> {
    /// The encoded input.
    pub file: &'a [u8],
    /// The kind of source that the caller named, if it named a known one.
    pub source: Option<SourceType>,
    /// The format to encode to, if the caller named a known one.
    pub target: Option<RasterKind>,
    /// The settings that the caller attached.
    pub settings: Option<Settings>,
}

/// A conversion under way: what it does next, and what it has in hand.
pub enum Conversion<'a> {
    /// Nothing has happened yet.
    Created(Job<'a>),
    /// The start has been reported.
    Started(Job<'a>),
    /// Loading has been reported; the input is decoded next.
    Loading(Job<'a>),
    /// Processing has been reported; the image is adapted to the target next.
    Processing { image: DynamicImage, source: Option<RasterKind>, target: Option<RasterKind> },
    /// Converting has been reported; the image is encoded next.
    Encoding { image: DynamicImage, target: Option<RasterKind> },
    /// Completion has been reported; the output is handed over next.
    Finished(Vec<u8>),
}

/// What one step of a conversion asks of whoever drives it.
pub enum Step<'a> {
    /// Report this checkpoint, then go on from the state given.
    Report(Checkpoint, Conversion<'a>),
    /// The conversion is over, with this outcome.
    Done(Result<Vec<u8>, ConvertError>),
}

impl<'a> Conversion<'a> {
    /// The number of checkpoints still to be reported from this state on, if
    /// nothing fails.
    pub open spec fn remaining(self) -> nat {
        match self {
            Conversion::Created(_) => 5,
            Conversion::Started(_) => 4,
            Conversion::Loading(_) => 3,
            Conversion::Processing { .. } => 2,
            Conversion::Encoding { .. } => 1,
            Conversion::Finished(_) => 0,
        }
    }

    /// Whether `step` is what this state may be followed by.
    ///
    /// The first two states only report. Then the input is decoded: a failure
    /// ends the conversion, an image is kept for processing. The image is
    /// adapted to the target, then encoded: a failure ends the conversion, the
    /// bytes are kept. Last, the bytes are handed over.
    pub open spec fn leads_to(self, step: Step<'a>) -> bool {
        match self {
            Conversion::Created(job) => step == Step::Report(
                Checkpoint::Starting,
                Conversion::Started(job),
            ),
            Conversion::Started(job) => step == Step::Report(
                Checkpoint::Loading,
                Conversion::Loading(job),
            ),
            Conversion::Loading(job) => match step {
                Step::Report(checkpoint, Conversion::Processing { image, source, target }) => {
                    &&& checkpoint == Checkpoint::Processing
                    &&& loaded_from(
                        job.file@,
                        job.source,
                        job.settings,
                        Ok::<DynamicImage, ErrorModel>(image),
                    )
                    &&& source == spec_source_kind(job.file@, job.source)
                    &&& target == job.target
                },
                Step::Done(Err(error)) => loaded_from(
                    job.file@,
                    job.source,
                    job.settings,
                    Err::<DynamicImage, ErrorModel>(error@),
                ),
                _ => false,
            },
            Conversion::Processing { image, source, target } => match step {
                Step::Report(checkpoint, Conversion::Encoding { image: prepared, target: to }) => {
                    &&& checkpoint == Checkpoint::Converting
                    &&& prepared_from(image, source, target, prepared)
                    &&& to == target
                },
                _ => false,
            },
            Conversion::Encoding { image, target } => match step {
                Step::Report(checkpoint, Conversion::Finished(bytes)) => {
                    &&& checkpoint == Checkpoint::Complete
                    &&& written(image, target, Ok::<Seq<u8>, ErrorModel>(bytes@))
                },
                Step::Done(Err(error)) => written(
                    image,
                    target,
                    Err::<Seq<u8>, ErrorModel>(error@),
                ),
                _ => false,
            },
            Conversion::Finished(bytes) => step == Step::Done(Ok(bytes)),
        }
    }

    /// A conversion of `file` from the source that `src_type` names to the
    /// target that `target_type` names, with nothing done yet.
    ///
    /// A source type that names no known format leaves the format to be read
    /// off the bytes; a target type that names none means PNG.
    pub fn new(
        file: &'a [u8],
        src_type: &str,
        target_type: &str,
        settings: Option<Settings>,
    ) -> (conversion: Self)
        ensures
            conversion == Conversion::Created(
                Job {
                    file,
                    source: source_of(src_type@),
                    target: standard_kind(target_type@),
                    settings,
                },
            ),
    {
        Conversion::Created(
            Job {
                file,
                source: SourceType::from_mime_type(src_type),
                target: RasterKind::from_mime_type(target_type),
                settings,
            },
        )
    }

    /// Takes the conversion one step further: up to the next checkpoint to
    /// report, or to its end.
    ///
    /// The work of a stage is done in the step after the one that reported its
    /// checkpoint, so that the report reaches the caller first.
    pub fn advance(self) -> (step: Step<'a>)
        ensures
            self.leads_to(step),
            step matches Step::Report(_, next) ==> next.remaining() + 1 == self.remaining(),
    {
        match self {
            Conversion::Created(job) => Step::Report(Checkpoint::Starting, Conversion::Started(job)),
            Conversion::Started(job) => Step::Report(Checkpoint::Loading, Conversion::Loading(job)),
            Conversion::Loading(job) => match load_image(job.file, job.source, job.settings) {
                Ok(image) => {
                    let source = source_kind(job.file, job.source);
                    Step::Report(
                        Checkpoint::Processing,
                        Conversion::Processing { image, source, target: job.target },
                    )
                },
                Err(error) => Step::Done(Err(error)),
            },
            Conversion::Processing { image, source, target } => {
                let image = process_image(image, source, target);
                Step::Report(Checkpoint::Converting, Conversion::Encoding { image, target })
            },
            Conversion::Encoding { image, target } => match write_image(&image, target) {
                Ok(bytes) => Step::Report(Checkpoint::Complete, Conversion::Finished(bytes)),
                Err(error) => Step::Done(Err(error)),
            },
            Conversion::Finished(bytes) => Step::Done(Ok(bytes)),
        }
    }
}

/// Whether `output` is what a conversion may end with once its input has
/// decoded to `image`: the failure of the decoding, or what encoding the
/// image, adapted to the target, may give.
pub open spec fn ends_with(
    image: Result<DynamicImage, ErrorModel>,
    source: Option<RasterKind>,
    target: Option<RasterKind>,
    output: Result<Seq<u8>, ErrorModel>,
) -> bool {
    match image {
        Ok(loaded) => exists|prepared: DynamicImage| #[trigger]
            prepared_from(loaded, source, target, prepared) && written(prepared, target, output),
        Err(error) => output == Err::<Seq<u8>, ErrorModel>(error),
    }
}

/// The checkpoints that a conversion reports: all of them if it succeeds, the
/// first four if the encoding fails, the first two if the decoding fails.
pub open spec fn spec_trail(decoded: bool, encoded: bool) -> Seq<Checkpoint> {
    if !decoded {
        all_checkpoints().take(2)
    } else if !encoded {
        all_checkpoints().take(4)
    } else {
        all_checkpoints()
    }
}

/// Whether `output` and `trail` are what a conversion of `file` may end with
/// and report: the input decodes to some image or failure that the source
/// allows, and both follow from that.
pub open spec fn converts(
    file: Seq<u8>,
    src_type: Seq<char>,
    target_type: Seq<char>,
    settings: Option<Settings>,
    output: Result<Seq<u8>, ErrorModel>,
    trail: Seq<Checkpoint>,
) -> bool {
    let source = source_of(src_type);
    let kind = spec_source_kind(file, source);
    let target = standard_kind(target_type);
    exists|image: Result<DynamicImage, ErrorModel>| #[trigger]
        loaded_from(file, source, settings, image) && ends_with(image, kind, target, output)
            && trail == spec_trail(image is Ok, output is Ok)
}

/// A conversion reports all five checkpoints, at 10, 35, 50, 70 and 100
/// percent, exactly when it succeeds. One that fails reports fewer: the first
/// two or the first four.
pub proof fn lemma_trail_tells_outcome(
    file: Seq<u8>,
    src_type: Seq<char>,
    target_type: Seq<char>,
    settings: Option<Settings>,
    output: Result<Seq<u8>, ErrorModel>,
    trail: Seq<Checkpoint>,
)
    requires
        converts(file, src_type, target_type, settings, output, trail),
    ensures
        trail.is_prefix_of(all_checkpoints()),
        output is Ok <==> trail == all_checkpoints(),
        output is Ok ==> trail.len() == 5,
        output is Err ==> trail.len() == 2 || trail.len() == 4,
        all_checkpoints().map_values(|checkpoint: Checkpoint| checkpoint.spec_percent()) == seq![
            10u8,
            35u8,
            50u8,
            70u8,
            100u8,
        ],
{
    assert(all_checkpoints().len() == 5);
    assert(all_checkpoints().take(2).len() == 2);
    assert(all_checkpoints().take(4).len() == 4);
    assert(all_checkpoints().map_values(|checkpoint: Checkpoint| checkpoint.spec_percent())
        =~= seq![10u8, 35u8, 50u8, 70u8, 100u8]);
}

/// A conversion whose input decoded to `image`, which was then prepared as
/// `prepared` and encoded with the outcome `output`, ends with `output` and
/// reports `trail`.
proof fn lemma_converts(
    file: Seq<u8>,
    src_type: Seq<char>,
    target_type: Seq<char>,
    settings: Option<Settings>,
    image: Result<DynamicImage, ErrorModel>,
    prepared: DynamicImage,
    output: Result<Seq<u8>, ErrorModel>,
    trail: Seq<Checkpoint>,
)
    requires
        loaded_from(file, source_of(src_type), settings, image),
        match image {
            Ok(loaded) => prepared_from(
                loaded,
                spec_source_kind(file, source_of(src_type)),
                standard_kind(target_type),
                prepared,
            ) && written(prepared, standard_kind(target_type), output),
            Err(error) => output == Err::<Seq<u8>, ErrorModel>(error),
        },
        trail == spec_trail(image is Ok, output is Ok),
    ensures
        converts(file, src_type, target_type, settings, output, trail),
{
    let kind = spec_source_kind(file, source_of(src_type));
    assert(ends_with(image, kind, standard_kind(target_type), output));
}

/// Whether a conversion in `state` is one of `job` at the point that the
/// state says, with `kind` as the format the input turned out to have.
spec fn on_course<'a>(state: Conversion<'a>, job: Job<'a>, kind: Option<RasterKind>) -> bool {
    match state {
        Conversion::Created(current) => current == job,
        Conversion::Started(current) => current == job,
        Conversion::Loading(current) => current == job,
        Conversion::Processing { image, source, target } => {
            &&& was_loaded(job, image)
            &&& source == kind
            &&& target == job.target
        },
        Conversion::Encoding { image, target } => {
            &&& target == job.target
            &&& exists|loaded: DynamicImage| #[trigger]
                was_loaded(job, loaded) && prepared_from(loaded, kind, job.target, image)
        },
        Conversion::Finished(bytes) => exists|loaded: DynamicImage, prepared: DynamicImage|
            was_loaded(job, loaded) && #[trigger] prepared_from(loaded, kind, job.target, prepared)
                && written(prepared, job.target, Ok::<Seq<u8>, ErrorModel>(bytes@)),
    }
}

/// Whether `image` is what the input of `job` may decode to.
spec fn was_loaded<'a>(job: Job<'a>, image: DynamicImage) -> bool {
    loaded_from(job.file@, job.source, job.settings, Ok::<DynamicImage, ErrorModel>(image))
}

/// Converts an image from one format to another.
///
/// * `file` - the encoded image to convert.
/// * `src_type` - the MIME type of the source; one that names no known format
///   leaves the format to be read off the bytes.
/// * `target_type` - the MIME type of the target; one that names no known
///   format means PNG.
/// * `progress` - where the checkpoints are recorded as they are passed.
/// * `convert_settings` - settings for the conversion.
///
/// The stages run in order and the conversion stops at the first that fails,
/// with no checkpoint recorded after it.
pub fn convert_image(
    file: &[u8],
    src_type: &str,
    target_type: &str,
    progress: &mut Vec<Checkpoint>,
    convert_settings: Option<Settings>,
) -> (output: Result<Vec<u8>, ConvertError>)
    ensures
        old(progress)@.is_prefix_of(final(progress)@),
        converts(
            file@,
            src_type@,
            target_type@,
            convert_settings,
            bytes_view(output),
            final(progress)@.skip(old(progress)@.len() as int),
        ),
        output is Ok ==> final(progress)@ == old(progress)@ + all_checkpoints(),
        output is Err ==> final(progress)@ == old(progress)@ + all_checkpoints().take(2)
            || final(progress)@ == old(progress)@ + all_checkpoints().take(4),
{
    let ghost before = progress@;
    let ghost job = Job {
        file,
        source: source_of(src_type@),
        target: standard_kind(target_type@),
        settings: convert_settings,
    };
    let ghost kind = spec_source_kind(file@, job.source);
    let mut state = Conversion::new(file, src_type, target_type, convert_settings);
    loop
        invariant
            on_course(state, job, kind),
            progress@ == before + all_checkpoints().take(5 - state.remaining()),
            before == old(progress)@,
            job.file == file,
            job.source == source_of(src_type@),
            job.target == standard_kind(target_type@),
            job.settings == convert_settings,
            kind == spec_source_kind(file@, job.source),
        decreases state.remaining(),
    {
        let ghost reported = all_checkpoints().take(5 - state.remaining());
        let ghost previous = state;
        match state.advance() {
            Step::Report(checkpoint, next) => {
                progress.push(checkpoint);
                proof {
                    let next_reported = all_checkpoints().take(5 - next.remaining());
                    assert(next_reported =~= reported.push(checkpoint));
                }
                state = next;
            },
            Step::Done(output) => {
                proof {
                    assert((before + reported).skip(before.len() as int) =~= reported);
                    match previous {
                        Conversion::Loading(_) => {
                            let image = Err::<DynamicImage, ErrorModel>(output->Err_0@);
                            lemma_converts(
                                file@,
                                src_type@,
                                target_type@,
                                convert_settings,
                                image,
                                arbitrary(),
                                bytes_view(output),
                                reported,
                            );
                        },
                        Conversion::Encoding { image: prepared, target } => {
                            let loaded = choose|loaded: DynamicImage| #[trigger]
                                was_loaded(job, loaded) && prepared_from(
                                    loaded,
                                    kind,
                                    job.target,
                                    prepared,
                                );
                            lemma_converts(
                                file@,
                                src_type@,
                                target_type@,
                                convert_settings,
                                Ok(loaded),
                                prepared,
                                bytes_view(output),
                                reported,
                            );
                        },
                        Conversion::Finished(bytes) => {
                            let (loaded, prepared) = choose|
                                loaded: DynamicImage,
                                prepared: DynamicImage,
                            |
                                was_loaded(job, loaded) && #[trigger] prepared_from(
                                    loaded,
                                    kind,
                                    job.target,
                                    prepared,
                                ) && written(
                                    prepared,
                                    job.target,
                                    Ok::<Seq<u8>, ErrorModel>(bytes@),
                                );
                            assert(reported =~= all_checkpoints());
                            lemma_converts(
                                file@,
                                src_type@,
                                target_type@,
                                convert_settings,
                                Ok(loaded),
                                prepared,
                                bytes_view(output),
                                reported,
                            );
                        },
                        _ => {},
                    }
                }
                return output;
            },
        }
    }
}

} // verus!
