//! What is known of a title: its identity, the kind of disc it came on, and
//! the text that reports both.

use crate::text::{hex8, push_hex8};
use vstd::prelude::*;
use vstd::string::*;

verus! {

/// The two disc layouts that can be converted.
#[derive(Clone, Copy, Debug, PartialEq, Eq, Structural)]
pub enum ContentType {
    /// An Xbox 360 title, started from `default.xex`.
    GamesOnDemand,
    /// A title of the first Xbox, started from `default.xbe`.
    XboxOriginal,
}

/// The executable that was found at the root of the image.
#[derive(Clone, Copy, Debug, PartialEq, Eq, Structural)]
pub enum ExecutableKind {
    Xex,
    Xbe,
}

/// Why no title information could be had from an image.
#[derive(Clone, Copy, Debug, PartialEq, Eq, Structural)]
pub enum MetadataError {
    /// Neither executable is in the root directory.
    ExecutableNotFound,
    /// The executable's header could not be parsed.
    MalformedExecutable,
}

/// The identity of a title, as its executable's header gives it.
#[derive(Clone, Copy, Debug, PartialEq, Eq, Structural)]
pub struct TitleExecutionInfo {
    pub media_id: u32,
    pub version: u32,
    pub base_version: u32,
    pub title_id: u32,
    pub platform: u8,
    pub executable_type: u8,
    pub disc_number: u8,
    pub disc_count: u8,
}

/// A title's identity together with the layout of its disc.
#[derive(Clone, Copy, Debug, PartialEq, Eq, Structural)]
pub struct TitleInfo {
    pub execution_info: TitleExecutionInfo,
    pub content_type: ContentType,
}

impl ContentType {
    /// The number that stands for this layout in the package.
    pub open spec fn spec_code(self) -> u32 {
        match self {
            ContentType::GamesOnDemand => 0x7000u32,
            ContentType::XboxOriginal => 0x5000u32,
        }
    }

    /// The number that stands for this layout in the package.
    #[verifier::when_used_as_spec(spec_code)]
    pub fn code(self) -> (c: u32)
        ensures
            c == self.spec_code(),
    {
        match self {
            ContentType::GamesOnDemand => 0x7000,
            ContentType::XboxOriginal => 0x5000,
        }
    }

    /// The layout that goes with an executable.
    pub open spec fn spec_of_executable(kind: ExecutableKind) -> ContentType {
        match kind {
            ExecutableKind::Xex => ContentType::GamesOnDemand,
            ExecutableKind::Xbe => ContentType::XboxOriginal,
        }
    }

    /// The layout that goes with an executable.
    pub fn of_executable(kind: ExecutableKind) -> (t: ContentType)
        ensures
            t == Self::spec_of_executable(kind),
    {
        match kind {
            ExecutableKind::Xex => ContentType::GamesOnDemand,
            ExecutableKind::Xbe => ContentType::XboxOriginal,
        }
    }

    /// The words that name this layout in a report.
    pub open spec fn spec_label(self) -> Seq<char> {
        match self {
            ContentType::GamesOnDemand => "Games on Demand"@,
            ContentType::XboxOriginal => "Xbox Original"@,
        }
    }

    /// The words that name this layout in a report.
    pub fn label(self) -> (s: &'static str)
        ensures
            s@ == self.spec_label(),
    {
        match self {
            ContentType::GamesOnDemand => "Games on Demand",
            ContentType::XboxOriginal => "Xbox Original",
        }
    }
}

/// Which executable an image is started from, given which of the two were
/// found in its root directory. The Xbox 360 executable wins.
pub open spec fn spec_primary_executable(has_xex: bool, has_xbe: bool) -> Result<
    ExecutableKind,
    MetadataError,
> {
    if has_xex {
        Ok(ExecutableKind::Xex)
    } else if has_xbe {
        Ok(ExecutableKind::Xbe)
    } else {
        Err(MetadataError::ExecutableNotFound)
    }
}

/// Picks the executable that an image is started from.
pub fn primary_executable(has_xex: bool, has_xbe: bool) -> (r: Result<
    ExecutableKind,
    MetadataError,
>)
    ensures
        r == spec_primary_executable(has_xex, has_xbe),
{
    if has_xex {
        Ok(ExecutableKind::Xex)
    } else if has_xbe {
        Ok(ExecutableKind::Xbe)
    } else {
        Err(MetadataError::ExecutableNotFound)
    }
}

/// The name under which a title is reported: the catalog's, or a stand-in.
pub open spec fn spec_game_name(catalog_name: Option<Seq<char>>) -> Seq<char> {
    match catalog_name {
        Some(name) => name,
        None => "(unknown)"@,
    }
}

/// The title that the package shows: the caller's where one was given,
/// else the catalog's, else none.
pub open spec fn spec_display_title(
    explicit: Option<Seq<char>>,
    catalog_name: Option<Seq<char>>,
) -> Option<Seq<char>> {
    match explicit {
        Some(title) => Some(title),
        None => catalog_name,
    }
}

/// The report on a title: three lines, each ended by a line feed.
pub open spec fn spec_report(title_id: u32, game_name: Seq<char>, content_type: ContentType) -> Seq<
    char,
> {
    "Title ID: "@ + hex8(title_id) + "\n    Name: "@ + game_name + "\n    Type: "@
        + content_type.spec_label() + "\n"@
}

/// The view of an optional string.
pub open spec fn opt_view(s: Option<String>) -> Option<Seq<char>> {
    match s {
        Some(s) => Some(s@),
        None => None,
    }
}

/// What a conversion reports of the title it looked at.
#[derive(Clone, Debug, PartialEq, Eq)]
pub struct Summary {
    /// The report, as `spec_report` lays it out.
    pub report: String,
    /// The name under which the title is reported.
    pub game_name: String,
    /// The title's identifier as eight hexadecimal digits.
    pub title_id: String,
}

/// The name under which a title is reported.
pub fn game_name(catalog_name: Option<String>) -> (name: String)
    ensures
        name@ == spec_game_name(opt_view(catalog_name)),
{
    match catalog_name {
        Some(name) => name,
        None => String::from_str("(unknown)"),
    }
}

/// The title that the package shows.
pub fn display_title(explicit: Option<String>, catalog_name: Option<String>) -> (title: Option<
    String,
>)
    ensures
        opt_view(title) == spec_display_title(opt_view(explicit), opt_view(catalog_name)),
{
    match explicit {
        Some(title) => Some(title),
        None => catalog_name,
    }
}

/// Reports on a title. The catalog's name for it, where the catalog has one,
/// is handed in.
pub fn summarize(info: &TitleInfo, catalog_name: Option<String>) -> (s: Summary)
    ensures
        s.title_id@ == hex8(info.execution_info.title_id),
        s.game_name@ == spec_game_name(opt_view(catalog_name)),
        s.report@ == spec_report(
            info.execution_info.title_id,
            spec_game_name(opt_view(catalog_name)),
            info.content_type,
        ),
{
    let id: u32 = info.execution_info.title_id;
    let mut title_id = String::new();
    push_hex8(&mut title_id, id);
    let name = game_name(catalog_name);
    let mut report = String::from_str("Title ID: ");
    report.append(title_id.as_str());
    report.append("\n    Name: ");
    report.append(name.as_str());
    report.append("\n    Type: ");
    report.append(info.content_type.label());
    report.append("\n");
    Summary { report, game_name: name, title_id }
}

} // verus!
