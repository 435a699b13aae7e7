//! The order of work of one conversion, as a machine: the caller does each
//! piece of outside work that the machine asks for and reports what came of
//! it; the machine decides what is next.

use crate::geometry::{admit_payload, spec_admit_payload, Geometry, ImageError, TrimMode};
use crate::hash_list::{FormatError, HashList};
use crate::header::{header_for, spec_header_for, ConHeader, ConHeaderView};
use crate::layout::{names, FileLayout};
use crate::stitch::{can_chain, chained, root_digest, stitch, tables};
use crate::text::hex8;
use crate::title::{
    display_title, opt_view, spec_display_title, spec_game_name, spec_report, summarize,
    MetadataError, TitleExecutionInfo, TitleInfo, ContentType,
};
use vstd::prelude::*;
use vstd::string::*;

verus! {

/// The piece of work during which a conversion failed.
#[derive(Clone, Copy, Debug, PartialEq, Eq, Structural)]
pub enum Stage {
    OpenSource,
    SourceMetadata,
    ReadImage,
    ReadExecutable,
    ClearDataDir,
    CreatePart,
    WritePart,
    ReadHashTable,
    WriteHashTable,
    MeasurePart,
    OpenHeader,
    WriteHeader,
}

/// What went wrong.
#[derive(Clone, Copy, Debug, PartialEq, Eq, Structural)]
pub enum Failure {
    /// The source file system is malformed or unreadable.
    Image(ImageError),
    /// The executable is missing or malformed.
    Metadata(MetadataError),
    /// The destination directories could not be prepared.
    Layout,
    /// A read, write or seek failed.
    Io,
    /// A part's hash table on disk is malformed.
    Format(FormatError),
    /// The caller reported something that the machine had not asked for.
    OutOfOrder,
}

/// A failed conversion: where it failed, and how.
#[derive(Clone, Copy, Debug, PartialEq, Eq, Structural)]
pub struct ConvertError {
    pub stage: Stage,
    pub failure: Failure,
}

impl Stage {
    /// The words that tell a user where the conversion failed.
    pub open spec fn spec_message(self) -> Seq<char> {
        match self {
            Stage::OpenSource => "error opening source ISO file"@,
            Stage::SourceMetadata => "error reading source ISO file metadata"@,
            Stage::ReadImage => "error reading source ISO"@,
            Stage::ReadExecutable => "error reading image executable"@,
            Stage::ClearDataDir => "error clearing data directory"@,
            Stage::CreatePart => "error creating part file"@,
            Stage::WritePart => "error writing part file"@,
            Stage::ReadHashTable => "error reading part file MHT"@,
            Stage::WriteHashTable => "error writing part file MHT"@,
            Stage::MeasurePart => "error reading part file"@,
            Stage::OpenHeader => "cannot open con header file"@,
            Stage::WriteHeader => "error writing con header file"@,
        }
    }

    /// The words that tell a user where the conversion failed.
    pub fn message(self) -> (s: &'static str)
        ensures
            s@ == self.spec_message(),
    {
        match self {
            Stage::OpenSource => "error opening source ISO file",
            Stage::SourceMetadata => "error reading source ISO file metadata",
            Stage::ReadImage => "error reading source ISO",
            Stage::ReadExecutable => "error reading image executable",
            Stage::ClearDataDir => "error clearing data directory",
            Stage::CreatePart => "error creating part file",
            Stage::WritePart => "error writing part file",
            Stage::ReadHashTable => "error reading part file MHT",
            Stage::WriteHashTable => "error writing part file MHT",
            Stage::MeasurePart => "error reading part file",
            Stage::OpenHeader => "cannot open con header file",
            Stage::WriteHeader => "error writing con header file",
        }
    }
}

impl ConvertError {
    /// The message shown for this failure: that of its stage.
    pub fn message(&self) -> (s: String)
        ensures
            s@ == self.stage.spec_message(),
    {
        String::from_str(self.stage.message())
    }
}

/// What the caller wants of a conversion.
#[derive(Clone, Debug, PartialEq, Eq)]
pub struct Request {
    /// The title to show in place of the catalog's.
    pub explicit_title: Option<String>,
    pub trim_mode: TrimMode,
    /// Only look at the image and report; write nothing.
    pub dry_run: bool,
    /// How many parts may be written at once. It changes how fast the parts
    /// are written, not what is written.
    pub workers: usize,
}

/// A request as plain values.
pub struct RequestView {
    pub explicit_title: Option<Seq<char>>,
    pub trim_mode: TrimMode,
    pub dry_run: bool,
    pub workers: usize,
}

impl View for Request {
    type V = RequestView;

    open spec fn view(&self) -> RequestView {
        RequestView {
            explicit_title: opt_view(self.explicit_title),
            trim_mode: self.trim_mode,
            dry_run: self.dry_run,
            workers: self.workers,
        }
    }
}

/// What a conversion that did not fail reports.
#[derive(Clone, Debug, PartialEq, Eq)]
pub struct Report {
    /// The report on the title, followed on a full run by a closing line.
    pub message: String,
    /// Path of the finished package below the destination; none on a dry run.
    pub package_path: Option<Vec<String>>,
    pub game_name: String,
    pub title_id: String,
}

/// A report as plain values.
pub struct ReportView {
    pub message: Seq<char>,
    pub package_path: Option<Seq<Seq<char>>>,
    pub game_name: Seq<char>,
    pub title_id: Seq<char>,
}

impl View for Report {
    type V = ReportView;

    open spec fn view(&self) -> ReportView {
        ReportView {
            message: self.message@,
            package_path: match self.package_path {
                Some(path) => Some(names(path@)),
                None => None,
            },
            game_name: self.game_name@,
            title_id: self.title_id@,
        }
    }
}

/// How far a conversion has come: which report the machine waits for.
#[derive(Clone, Copy, Debug, PartialEq, Eq, Structural)]
pub enum Phase {
    Created,
    Opening,
    Measuring,
    Clearing,
    WritingParts,
    ReadingTables,
    WritingTables,
    MeasuringLastPart,
    WritingHeader,
    Finished,
}

/// What the caller reports to the machine.
pub enum Event {
    /// The conversion is to begin.
    Start,
    /// The image was opened and its executable read. `catalog_name` is the
    /// catalog's name for the title, if it has one.
    ImageOpened { title: TitleInfo, catalog_name: Option<String> },
    /// The sizes that decide the payload. `used_prefix_size` is read only in
    /// the trim mode that uses it.
    PayloadMeasured { file_len: u64, root_offset: u64, used_prefix_size: u64 },
    /// The directory of part files is there and empty.
    DataDirCleared,
    /// Every part file is written.
    PartsWritten,
    /// The hash table of every part, in part order, as written.
    HashTablesRead { tables: Vec<HashList> },
    /// The hash tables handed out were written back.
    HashTablesWritten,
    /// The size in bytes of the last part file.
    LastPartMeasured { size: u64 },
    /// The header file is written.
    HeaderWritten,
    /// The work asked for failed.
    Failed { stage: Stage, failure: Failure },
}

/// An event as plain values.
pub enum EventView {
    Start,
    ImageOpened { title: TitleInfo, catalog_name: Option<Seq<char>> },
    PayloadMeasured { file_len: u64, root_offset: u64, used_prefix_size: u64 },
    DataDirCleared,
    PartsWritten,
    HashTablesRead { tables: Seq<Seq<Seq<u8>>> },
    HashTablesWritten,
    LastPartMeasured { size: u64 },
    HeaderWritten,
    Failed { stage: Stage, failure: Failure },
}

impl View for Event {
    type V = EventView;

    open spec fn view(&self) -> EventView {
        match *self {
            Event::Start => EventView::Start,
            Event::ImageOpened { title, catalog_name } => EventView::ImageOpened {
                title,
                catalog_name: opt_view(catalog_name),
            },
            Event::PayloadMeasured {
                file_len,
                root_offset,
                used_prefix_size,
            } => EventView::PayloadMeasured { file_len, root_offset, used_prefix_size },
            Event::DataDirCleared => EventView::DataDirCleared,
            Event::PartsWritten => EventView::PartsWritten,
            Event::HashTablesRead { tables: t } => EventView::HashTablesRead { tables: tables(t@) },
            Event::HashTablesWritten => EventView::HashTablesWritten,
            Event::LastPartMeasured { size } => EventView::LastPartMeasured { size },
            Event::HeaderWritten => EventView::HeaderWritten,
            Event::Failed { stage, failure } => EventView::Failed { stage, failure },
        }
    }
}

/// What the machine asks the caller to do next.
pub enum Action {
    /// Open the image, read its volume descriptor and its executable, and
    /// look the title up in the catalog.
    OpenImage,
    /// Find out the image file's length and the root offset and, in the
    /// trim mode that uses it, the size of the used prefix.
    MeasurePayload { mode: TrimMode },
    /// Remove the directory at `path` with all that is in it, and make it
    /// anew.
    ClearDataDir { path: Vec<String> },
    /// Write every part file: part `i` from the window that the geometry
    /// gives for it, to the path that the layout gives for it, up to
    /// `workers` of them at once.
    WriteParts { geometry: Geometry, root_offset: u64, layout: FileLayout, workers: usize },
    /// Read the hash table at the start of each of the `part_count` part
    /// files.
    ReadHashTables { part_count: u64, layout: FileLayout },
    /// Write `tables[k]` over the hash table of part `k`, for every `k`.
    /// The last part's table is not among them.
    WriteHashTables { tables: Vec<HashList>, layout: FileLayout },
    /// Find out the size of the file at `path`.
    MeasureLastPart { path: Vec<String> },
    /// Lay out `header` and write it to the file at `path`.
    WriteHeader { header: ConHeader, path: Vec<String> },
    /// Nothing is left to do.
    Finish { outcome: Result<Report, ConvertError> },
}

/// An action as plain values.
pub enum ActionView {
    OpenImage,
    MeasurePayload { mode: TrimMode },
    ClearDataDir { path: Seq<Seq<char>> },
    WriteParts { geometry: Geometry, root_offset: u64, layout: FileLayout, workers: usize },
    ReadHashTables { part_count: u64, layout: FileLayout },
    WriteHashTables { tables: Seq<Seq<Seq<u8>>>, layout: FileLayout },
    MeasureLastPart { path: Seq<Seq<char>> },
    WriteHeader { header: ConHeaderView, path: Seq<Seq<char>> },
    Finish { outcome: Result<ReportView, ConvertError> },
}

impl View for Action {
    type V = ActionView;

    open spec fn view(&self) -> ActionView {
        match *self {
            Action::OpenImage => ActionView::OpenImage,
            Action::MeasurePayload { mode } => ActionView::MeasurePayload { mode },
            Action::ClearDataDir { path } => ActionView::ClearDataDir { path: names(path@) },
            Action::WriteParts {
                geometry,
                root_offset,
                layout,
                workers,
            } => ActionView::WriteParts { geometry, root_offset, layout, workers },
            Action::ReadHashTables { part_count, layout } => ActionView::ReadHashTables {
                part_count,
                layout,
            },
            Action::WriteHashTables { tables: t, layout } => ActionView::WriteHashTables {
                tables: tables(t@),
                layout,
            },
            Action::MeasureLastPart { path } => ActionView::MeasureLastPart { path: names(path@) },
            Action::WriteHeader { header, path } => ActionView::WriteHeader {
                header: header@,
                path: names(path@),
            },
            Action::Finish { outcome } => ActionView::Finish {
                outcome: match outcome {
                    Ok(report) => Ok(report@),
                    Err(e) => Err(e),
                },
            },
        }
    }
}

impl ActionView {
    /// The action with the number of workers left out of account.
    pub open spec fn apart_from_workers(self) -> ActionView {
        match self {
            ActionView::WriteParts {
                geometry,
                root_offset,
                layout,
                workers,
            } => ActionView::WriteParts { geometry, root_offset, layout, workers: 0 },
            other => other,
        }
    }

    /// Whether the action creates, changes or removes anything in the
    /// destination.
    pub open spec fn writes(self) -> bool {
        self is ClearDataDir || self is WriteParts || self is WriteHashTables || self is WriteHeader
    }
}

/// One conversion under way, as plain values.
pub struct ConversionView {
    pub request: RequestView,
    pub phase: Phase,
    /// The title; known once the image is opened.
    pub title: TitleInfo,
    pub catalog_name: Option<Seq<char>>,
    /// The payload's geometry; known once it is measured.
    pub geometry: Geometry,
    pub root_offset: u64,
    /// The digest that binds the parts; known once the chain is closed.
    pub root: Seq<u8>,
}

/// The report on a title. A full run adds a closing line and the path of
/// the package.
pub open spec fn spec_report_view(
    title: TitleInfo,
    catalog_name: Option<Seq<char>>,
    finished: bool,
) -> ReportView {
    let text = spec_report(
        title.execution_info.title_id,
        spec_game_name(catalog_name),
        title.content_type,
    );
    ReportView {
        message: if finished {
            text + "Conversion successful!"@
        } else {
            text
        },
        package_path: if finished {
            Some(spec_layout(title).spec_package_dir_path())
        } else {
            None
        },
        game_name: spec_game_name(catalog_name),
        title_id: hex8(title.execution_info.title_id),
    }
}

/// The naming scheme of a title's package.
pub open spec fn spec_layout(title: TitleInfo) -> FileLayout {
    FileLayout {
        title_id: title.execution_info.title_id,
        media_id: title.execution_info.media_id,
        content_type: title.content_type,
    }
}

/// The title of a conversion that has not looked at its image.
pub open spec fn blank_title() -> TitleInfo {
    TitleInfo {
        execution_info: TitleExecutionInfo {
            media_id: 0,
            version: 0,
            base_version: 0,
            title_id: 0,
            platform: 0,
            executable_type: 0,
            disc_number: 0,
            disc_count: 0,
        },
        content_type: ContentType::GamesOnDemand,
    }
}

impl ConversionView {
    /// The conversion with the number of workers left out of account.
    pub open spec fn apart_from_workers(self) -> ConversionView {
        ConversionView { request: RequestView { workers: 0, ..self.request }, ..self }
    }

    /// A conversion that has not begun.
    pub open spec fn initial(request: RequestView) -> ConversionView {
        ConversionView {
            request,
            phase: Phase::Created,
            title: blank_title(),
            catalog_name: None,
            geometry: Geometry { payload_size: 0, block_count: 0, part_count: 0 },
            root_offset: 0,
            root: Seq::new(20, |i: int| 0u8),
        }
    }

    /// Whether the payload has been admitted in this phase.
    pub open spec fn has_geometry(self) -> bool {
        self.phase is Clearing || self.phase is WritingParts || self.phase is ReadingTables
            || self.phase is WritingTables || self.phase is MeasuringLastPart
            || self.phase is WritingHeader
    }

    /// What holds of every conversion: a dry run never leaves the phases in
    /// which nothing is written, and from the phase that clears the
    /// destination on, the geometry is that of an admitted payload.
    pub open spec fn wf(self) -> bool {
        &&& self.request.dry_run ==> self.phase is Created || self.phase is Opening
            || self.phase is Finished
        &&& self.has_geometry() ==> {
            &&& self.geometry.wf()
            &&& self.geometry.part_count >= 1
            &&& self.geometry.block_count <= u32::MAX
            &&& self.root_offset + self.geometry.payload_size <= u64::MAX
        }
    }

    /// The conversion, ended.
    pub open spec fn finished(self) -> ConversionView {
        ConversionView { phase: Phase::Finished, ..self }
    }

    /// The conversion in its next phase.
    pub open spec fn at(self, phase: Phase) -> ConversionView {
        ConversionView { phase, ..self }
    }

    /// Ends the conversion with a failure.
    pub open spec fn fail(self, stage: Stage, failure: Failure) -> (ConversionView, ActionView) {
        (
            self.finished(),
            ActionView::Finish { outcome: Err(ConvertError { stage, failure }) },
        )
    }

    /// The stage that the conversion is at, for a report out of order.
    pub open spec fn stage(self) -> Stage {
        match self.phase {
            Phase::Created => Stage::OpenSource,
            Phase::Opening => Stage::ReadImage,
            Phase::Measuring => Stage::SourceMetadata,
            Phase::Clearing => Stage::ClearDataDir,
            Phase::WritingParts => Stage::WritePart,
            Phase::ReadingTables => Stage::ReadHashTable,
            Phase::WritingTables => Stage::WriteHashTable,
            Phase::MeasuringLastPart => Stage::MeasurePart,
            Phase::WritingHeader => Stage::WriteHeader,
            Phase::Finished => Stage::WriteHeader,
        }
    }

    /// The next state and the next piece of work, given what the caller
    /// reports.
    pub open spec fn step(self, event: EventView) -> (ConversionView, ActionView) {
        match (self.phase, event) {
            (Phase::Finished, _) => self.fail(self.stage(), Failure::OutOfOrder),
            (_, EventView::Failed { stage, failure }) => self.fail(stage, failure),
            (Phase::Created, EventView::Start) => (self.at(Phase::Opening), ActionView::OpenImage),
            (Phase::Opening, EventView::ImageOpened { title, catalog_name }) => {
                if self.request.dry_run {
                    (
                        self.finished(),
                        ActionView::Finish {
                            outcome: Ok(spec_report_view(title, catalog_name, false)),
                        },
                    )
                } else {
                    (
                        ConversionView { phase: Phase::Measuring, title, catalog_name, ..self },
                        ActionView::MeasurePayload { mode: self.request.trim_mode },
                    )
                }
            },
            (
                Phase::Measuring,
                EventView::PayloadMeasured { file_len, root_offset, used_prefix_size },
            ) => {
                match spec_admit_payload(
                    self.request.trim_mode,
                    file_len,
                    root_offset,
                    used_prefix_size,
                ) {
                    Err(e) => self.fail(Stage::ReadImage, Failure::Image(e)),
                    Ok(geometry) => (
                        ConversionView { phase: Phase::Clearing, geometry, root_offset, ..self },
                        ActionView::ClearDataDir {
                            path: spec_layout(self.title).spec_data_dir_path(),
                        },
                    ),
                }
            },
            (Phase::Clearing, EventView::DataDirCleared) => (
                self.at(Phase::WritingParts),
                ActionView::WriteParts {
                    geometry: self.geometry,
                    root_offset: self.root_offset,
                    layout: spec_layout(self.title),
                    workers: self.request.workers,
                },
            ),
            (Phase::WritingParts, EventView::PartsWritten) => (
                self.at(Phase::ReadingTables),
                ActionView::ReadHashTables {
                    part_count: self.geometry.part_count,
                    layout: spec_layout(self.title),
                },
            ),
            (Phase::ReadingTables, EventView::HashTablesRead { tables }) => {
                if tables.len() != self.geometry.part_count {
                    self.fail(Stage::ReadHashTable, Failure::OutOfOrder)
                } else if !can_chain(tables) {
                    self.fail(Stage::ReadHashTable, Failure::Format(FormatError::Full))
                } else {
                    (
                        ConversionView {
                            phase: Phase::WritingTables,
                            root: root_digest(tables),
                            ..self
                        },
                        ActionView::WriteHashTables {
                            tables: Seq::new(
                                (tables.len() - 1) as nat,
                                |k: int| chained(tables, k),
                            ),
                            layout: spec_layout(self.title),
                        },
                    )
                }
            },
            (Phase::WritingTables, EventView::HashTablesWritten) => (
                self.at(Phase::MeasuringLastPart),
                ActionView::MeasureLastPart {
                    path: spec_layout(self.title).spec_part_file_path(
                        (self.geometry.part_count - 1) as u64,
                    ),
                },
            ),
            (Phase::MeasuringLastPart, EventView::LastPartMeasured { size }) => {
                match spec_header_for(
                    self.title,
                    self.geometry,
                    size,
                    self.root,
                    spec_display_title(self.request.explicit_title, self.catalog_name),
                ) {
                    Err(e) => self.fail(Stage::MeasurePart, Failure::Image(e)),
                    Ok(header) => (
                        self.at(Phase::WritingHeader),
                        ActionView::WriteHeader {
                            header,
                            path: spec_layout(self.title).spec_header_file_path(),
                        },
                    ),
                }
            },
            (Phase::WritingHeader, EventView::HeaderWritten) => (
                self.finished(),
                ActionView::Finish {
                    outcome: Ok(spec_report_view(self.title, self.catalog_name, true)),
                },
            ),
            _ => self.fail(self.stage(), Failure::OutOfOrder),
        }
    }
}

/// Every step keeps what holds of every conversion.
pub proof fn lemma_step_preserves_wf(m: ConversionView, event: EventView)
    requires
        m.wf(),
    ensures
        m.step(event).0.wf(),
        m.step(event).0.request == m.request,
{
}

/// A dry run asks for nothing that creates, changes or removes a file,
/// whatever the caller reports, and stays a dry run.
pub proof fn lemma_dry_run_writes_nothing(m: ConversionView, event: EventView)
    requires
        m.wf(),
        m.request.dry_run,
    ensures
        !m.step(event).1.writes(),
        m.step(event).0.wf(),
        m.step(event).0.request.dry_run,
{
}

/// A dry run ends as soon as the image is opened, with the report on the
/// title and no package path. A full run of the same image reports the same
/// title identifier and name, and its message begins with the dry run's.
pub proof fn lemma_dry_run_reports_like_full_run(
    request: RequestView,
    title: TitleInfo,
    catalog_name: Option<Seq<char>>,
)
    requires
        request.dry_run,
    ensures
        ({
            let opening = ConversionView::initial(request).step(EventView::Start).0;
            opening.step(EventView::ImageOpened { title, catalog_name }).1 == (ActionView::Finish {
                outcome: Ok(spec_report_view(title, catalog_name, false)),
            })
        }),
        spec_report_view(title, catalog_name, false).package_path is None,
        spec_report_view(title, catalog_name, false).title_id == spec_report_view(
            title,
            catalog_name,
            true,
        ).title_id,
        spec_report_view(title, catalog_name, false).game_name == spec_report_view(
            title,
            catalog_name,
            true,
        ).game_name,
        spec_report_view(title, catalog_name, true).message == spec_report_view(
            title,
            catalog_name,
            false,
        ).message + "Conversion successful!"@,
{
}

/// The work asked for in answer to a run of reports, one after another.
pub open spec fn actions(m: ConversionView, events: Seq<EventView>) -> Seq<ActionView>
    decreases events.len(),
{
    if events.len() == 0 {
        Seq::<ActionView>::empty()
    } else {
        seq![m.step(events[0]).1] + actions(m.step(events[0]).0, events.drop_first())
    }
}

/// From its start to its end, whatever is reported to it and in whatever
/// order, a dry run never asks for anything that creates, changes or
/// removes a file.
pub proof fn lemma_dry_run_never_writes(request: RequestView, events: Seq<EventView>)
    requires
        request.dry_run,
    ensures
        forall|i: int|
            0 <= i < actions(ConversionView::initial(request), events).len() ==> !(
            #[trigger] actions(ConversionView::initial(request), events)[i]).writes(),
{
    lemma_dry_run_stays_dry(ConversionView::initial(request), events);
}

proof fn lemma_dry_run_stays_dry(m: ConversionView, events: Seq<EventView>)
    requires
        m.wf(),
        m.request.dry_run,
    ensures
        forall|i: int| 0 <= i < actions(m, events).len() ==> !(#[trigger] actions(m, events)[i]).writes(),
    decreases events.len(),
{
    if events.len() > 0 {
        lemma_dry_run_writes_nothing(m, events[0]);
        lemma_dry_run_stays_dry(m.step(events[0]).0, events.drop_first());
        let rest = actions(m.step(events[0]).0, events.drop_first());
        assert forall|i: int| 0 <= i < actions(m, events).len() implies !(#[trigger] actions(
            m,
            events,
        )[i]).writes() by {
            if i > 0 {
                assert(actions(m, events)[i] == rest[i - 1]);
            }
        }
    }
}

/// Part files are never written into a directory that was not cleared just
/// before: the work asked for right before the writing of the parts is the
/// clearing of the directory that they go into.
pub proof fn lemma_parts_follow_clearing(m: ConversionView, first: EventView, second: EventView)
    requires
        m.wf(),
    ensures
        ({
            let cleared = m.step(first).1;
            let written = m.step(first).0.step(second).1;
            written matches ActionView::WriteParts { geometry, root_offset, layout, workers }
                ==> cleared == (ActionView::ClearDataDir { path: layout.spec_data_dir_path() })
        }),
{
}

/// Where the file system refers to everything up to the end of the image,
/// the trim mode makes no difference to what is cleared and written.
pub proof fn lemma_trim_modes_agree_when_all_is_used(
    m: ConversionView,
    file_len: u64,
    root_offset: u64,
    used: u64,
)
    requires
        m.phase is Measuring,
        root_offset <= file_len,
        used == file_len - root_offset,
    ensures
        ({
            let measured = EventView::PayloadMeasured {
                file_len,
                root_offset,
                used_prefix_size: used,
            };
            let from_end = ConversionView {
                request: RequestView { trim_mode: TrimMode::FromEnd, ..m.request },
                ..m
            };
            let used_data = ConversionView {
                request: RequestView { trim_mode: TrimMode::UsedData, ..m.request },
                ..m
            };
            &&& from_end.step(measured).1 == used_data.step(measured).1
            &&& from_end.step(measured).0.geometry == used_data.step(measured).0.geometry
            &&& from_end.step(measured).0.phase == used_data.step(measured).0.phase
            &&& from_end.step(measured).0.root_offset == used_data.step(measured).0.root_offset
        }),
{
    crate::geometry::lemma_trim_modes_agree_on_full_use(file_len, root_offset, used);
}

/// The number of workers changes nothing but the number of workers: two
/// conversions that differ in nothing else ask for the same work, step by
/// step, and go on differing in nothing else.
pub proof fn lemma_workers_change_nothing_else(
    one: ConversionView,
    other: ConversionView,
    event: EventView,
)
    requires
        one.apart_from_workers() == other.apart_from_workers(),
    ensures
        one.step(event).0.apart_from_workers() == other.step(event).0.apart_from_workers(),
        one.step(event).1.apart_from_workers() == other.step(event).1.apart_from_workers(),
{
}

/// Part files are written only in answer to the report that the directory
/// of part files was cleared, and that directory is the one the part files
/// of this layout lie in. It is cleared only once the payload is admitted.
pub proof fn lemma_parts_written_into_cleared_dir(m: ConversionView, event: EventView)
    requires
        m.wf(),
    ensures
        m.step(event).1 matches ActionView::WriteParts {
            geometry,
            root_offset,
            layout,
            workers,
        } ==> {
            &&& m.phase is Clearing
            &&& event is DataDirCleared
            &&& layout == spec_layout(m.title)
            &&& geometry == m.geometry
            &&& geometry.wf()
            &&& geometry.part_count >= 1
            &&& root_offset + geometry.payload_size <= u64::MAX
        },
        m.step(event).1 matches ActionView::ClearDataDir { path } ==> {
            &&& m.phase is Measuring
            &&& m.step(event).0.phase is Clearing
            &&& m.step(event).0.title == m.title
            &&& path == spec_layout(m.title).spec_data_dir_path()
            &&& forall|index: u64| #[trigger]
                spec_layout(m.title).spec_part_file_path(index).drop_last() == path
        },
{
    if m.step(event).1 is ClearDataDir {
        let dir = spec_layout(m.title).spec_data_dir_path();
        assert forall|index: u64| #[trigger]
            spec_layout(m.title).spec_part_file_path(index).drop_last() == dir by {
            assert(spec_layout(m.title).spec_part_file_path(index).drop_last() =~= dir);
        }
    }
}

/// The hash tables are read only once every part is written, and written
/// back only once all of them are read.
pub proof fn lemma_stitching_follows_part_writing(m: ConversionView, event: EventView)
    requires
        m.wf(),
    ensures
        m.step(event).1 is ReadHashTables ==> m.phase is WritingParts && event is PartsWritten,
        m.step(event).1 is WriteHashTables ==> m.phase is ReadingTables && event is HashTablesRead,
        m.step(event).1 is WriteHeader ==> m.phase is MeasuringLastPart,
{
}

/// The header's digest is that of the first part's hash table with the
/// chain closed, whatever the number of parts; with one part, that is the
/// part's table as written.
pub proof fn lemma_header_digest_is_root(
    m: ConversionView,
    read: Seq<Seq<Seq<u8>>>,
    last_part_size: u64,
)
    requires
        m.wf(),
        m.phase is ReadingTables,
    ensures
        ({
            let chaining = m.step(EventView::HashTablesRead { tables: read }).0;
            let measuring = chaining.step(EventView::HashTablesWritten).0;
            let action = measuring.step(EventView::LastPartMeasured { size: last_part_size }).1;
            action matches ActionView::WriteHeader { header, path } ==> {
                &&& header.mht_hash == crate::hash_list::digest_of(chained(read, 0))
                &&& read.len() == 1 ==> header.mht_hash == crate::hash_list::digest_of(read[0])
            }
        }),
{
}

/// The text of an optional string, copied.
fn clone_text(text: &Option<String>) -> (copy: Option<String>)
    ensures
        opt_view(copy) == opt_view(*text),
{
    match text {
        Some(s) => Some(s.clone()),
        None => None,
    }
}

/// Reports on a title: on a dry run the report alone, on a finished full
/// run with the closing line and the package's path.
pub fn report(title: &TitleInfo, catalog_name: Option<String>, finished: bool) -> (r: Report)
    ensures
        r@ == spec_report_view(*title, opt_view(catalog_name), finished),
{
    let summary = summarize(title, catalog_name);
    let mut message = summary.report;
    let mut package_path: Option<Vec<String>> = None;
    if finished {
        message.append("Conversion successful!");
        let layout = FileLayout::new(&title.execution_info, title.content_type);
        package_path = Some(layout.package_dir_path());
    }
    Report { message, package_path, game_name: summary.game_name, title_id: summary.title_id }
}

/// One conversion under way.
pub struct Conversion {
    request: Request,
    phase: Phase,
    title: TitleInfo,
    catalog_name: Option<String>,
    geometry: Geometry,
    root_offset: u64,
    root: [u8; 20],
}

impl View for Conversion {
    type V = ConversionView;

    closed spec fn view(&self) -> ConversionView {
        ConversionView {
            request: self.request@,
            phase: self.phase,
            title: self.title,
            catalog_name: opt_view(self.catalog_name),
            geometry: self.geometry,
            root_offset: self.root_offset,
            root: self.root@,
        }
    }
}

impl Conversion {
    #[verifier::type_invariant]
    spec fn inv(&self) -> bool {
        self@.wf()
    }

    /// A conversion that has not begun. It waits for `Event::Start`.
    pub fn new(request: Request) -> (c: Conversion)
        ensures
            c@ == ConversionView::initial(request@),
            c@.wf(),
    {
        let c = Conversion {
            request,
            phase: Phase::Created,
            title: TitleInfo {
                execution_info: TitleExecutionInfo {
                    media_id: 0,
                    version: 0,
                    base_version: 0,
                    title_id: 0,
                    platform: 0,
                    executable_type: 0,
                    disc_number: 0,
                    disc_count: 0,
                },
                content_type: ContentType::GamesOnDemand,
            },
            catalog_name: None,
            geometry: Geometry { payload_size: 0, block_count: 0, part_count: 0 },
            root_offset: 0,
            root: [0u8; 20],
        };
        assert(c@.root =~= Seq::new(20, |i: int| 0u8));
        c
    }

    /// How far the conversion has come.
    pub fn phase(&self) -> (phase: Phase)
        ensures
            phase == self@.phase,
    {
        self.phase
    }

    /// Whether the conversion has ended.
    pub fn is_finished(&self) -> (done: bool)
        ensures
            done == (self@.phase is Finished),
    {
        match self.phase {
            Phase::Finished => true,
            _ => false,
        }
    }

    fn stage(&self) -> (stage: Stage)
        ensures
            stage == self@.stage(),
    {
        match self.phase {
            Phase::Created => Stage::OpenSource,
            Phase::Opening => Stage::ReadImage,
            Phase::Measuring => Stage::SourceMetadata,
            Phase::Clearing => Stage::ClearDataDir,
            Phase::WritingParts => Stage::WritePart,
            Phase::ReadingTables => Stage::ReadHashTable,
            Phase::WritingTables => Stage::WriteHashTable,
            Phase::MeasuringLastPart => Stage::MeasurePart,
            Phase::WritingHeader => Stage::WriteHeader,
            Phase::Finished => Stage::WriteHeader,
        }
    }

    fn moved_to(self, phase: Phase) -> (c: Conversion)
        requires
            self@.at(phase).wf(),
        ensures
            c@ == self@.at(phase),
    {
        Conversion {
            request: self.request,
            phase,
            title: self.title,
            catalog_name: self.catalog_name,
            geometry: self.geometry,
            root_offset: self.root_offset,
            root: self.root,
        }
    }

    fn failed(self, stage: Stage, failure: Failure) -> (r: (Conversion, Action))
        requires
            self@.wf(),
        ensures
            (r.0@, r.1@) == self@.fail(stage, failure),
    {
        (
            self.moved_to(Phase::Finished),
            Action::Finish { outcome: Err(ConvertError { stage, failure }) },
        )
    }

    /// Takes what the caller reports and says what is to be done next. A
    /// report that was not asked for, and any report of a failure, ends the
    /// conversion.
    pub fn step(self, event: Event) -> (r: (Conversion, Action))
        ensures
            (r.0@, r.1@) == self@.step(event@),
            r.0@.wf(),
    {
        proof {
            use_type_invariant(&self);
            lemma_step_preserves_wf(self@, event@);
        }
        let layout = FileLayout::new(&self.title.execution_info, self.title.content_type);
        match (self.phase, event) {
            (Phase::Finished, _) => {
                let stage = self.stage();
                self.failed(stage, Failure::OutOfOrder)
            },
            (_, Event::Failed { stage, failure }) => self.failed(stage, failure),
            (Phase::Created, Event::Start) => (self.moved_to(Phase::Opening), Action::OpenImage),
            (Phase::Opening, Event::ImageOpened { title, catalog_name }) => {
                if self.request.dry_run {
                    let outcome = Ok(report(&title, catalog_name, false));
                    (self.moved_to(Phase::Finished), Action::Finish { outcome })
                } else {
                    let mode = self.request.trim_mode;
                    (
                        Conversion {
                            request: self.request,
                            phase: Phase::Measuring,
                            title,
                            catalog_name,
                            geometry: self.geometry,
                            root_offset: self.root_offset,
                            root: self.root,
                        },
                        Action::MeasurePayload { mode },
                    )
                }
            },
            (Phase::Measuring, Event::PayloadMeasured { file_len, root_offset, used_prefix_size }) => {
                match admit_payload(self.request.trim_mode, file_len, root_offset, used_prefix_size) {
                    Err(e) => self.failed(Stage::ReadImage, Failure::Image(e)),
                    Ok(geometry) => (
                        Conversion {
                            request: self.request,
                            phase: Phase::Clearing,
                            title: self.title,
                            catalog_name: self.catalog_name,
                            geometry,
                            root_offset,
                            root: self.root,
                        },
                        Action::ClearDataDir { path: layout.data_dir_path() },
                    ),
                }
            },
            (Phase::Clearing, Event::DataDirCleared) => {
                let action = Action::WriteParts {
                    geometry: self.geometry,
                    root_offset: self.root_offset,
                    layout,
                    workers: self.request.workers,
                };
                (self.moved_to(Phase::WritingParts), action)
            },
            (Phase::WritingParts, Event::PartsWritten) => {
                let action = Action::ReadHashTables { part_count: self.geometry.part_count, layout };
                (self.moved_to(Phase::ReadingTables), action)
            },
            (Phase::ReadingTables, Event::HashTablesRead { tables: read }) => {
                let ghost all = tables(read@);
                if read.len() as u64 != self.geometry.part_count {
                    return self.failed(Stage::ReadHashTable, Failure::OutOfOrder);
                }
                match stitch(read) {
                    Err(_) => self.failed(Stage::ReadHashTable, Failure::Format(FormatError::Full)),
                    Ok(stitched) => {
                        let mut closed = stitched.parts;
                        closed.pop();
                        assert(tables(closed@) =~= Seq::new(
                            (all.len() - 1) as nat,
                            |k: int| chained(all, k),
                        ));
                        (
                            Conversion {
                                request: self.request,
                                phase: Phase::WritingTables,
                                title: self.title,
                                catalog_name: self.catalog_name,
                                geometry: self.geometry,
                                root_offset: self.root_offset,
                                root: stitched.root,
                            },
                            Action::WriteHashTables { tables: closed, layout },
                        )
                    },
                }
            },
            (Phase::WritingTables, Event::HashTablesWritten) => {
                let path = layout.part_file_path(self.geometry.part_count - 1);
                (self.moved_to(Phase::MeasuringLastPart), Action::MeasureLastPart { path })
            },
            (Phase::MeasuringLastPart, Event::LastPartMeasured { size }) => {
                let title = display_title(
                    clone_text(&self.request.explicit_title),
                    clone_text(&self.catalog_name),
                );
                match header_for(&self.title, &self.geometry, size, self.root, title) {
                    Err(e) => self.failed(Stage::MeasurePart, Failure::Image(e)),
                    Ok(header) => {
                        let path = layout.header_file_path();
                        (self.moved_to(Phase::WritingHeader), Action::WriteHeader { header, path })
                    },
                }
            },
            (Phase::WritingHeader, Event::HeaderWritten) => {
                let outcome = Ok(report(&self.title, clone_text(&self.catalog_name), true));
                (self.moved_to(Phase::Finished), Action::Finish { outcome })
            },
            _ => {
                let stage = self.stage();
                self.failed(stage, Failure::OutOfOrder)
            },
        }
    }
}

} // verus!
