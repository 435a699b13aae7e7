//! What a conversion request asks for, read from the words of a form, and
//! what goes back to the one who sent it.

use crate::convert::{ConvertError, Report};
use crate::geometry::TrimMode;
use crate::text::same_text;
use crate::title::opt_view;
use vstd::prelude::*;
use vstd::string::*;

verus! {

/// Number of workers where the machine does not say how many it can run.
pub const FALLBACK_WORKERS: usize = 4;

/// Number of workers where the request names none that can be read.
pub const DEFAULT_WORKERS: usize = 1;

/// Where the image of a request comes from.
#[derive(Clone, Debug, PartialEq, Eq)]
pub enum Source {
    /// A file that is already on this machine, at the given path.
    Existing { path: String },
    /// A file that came with the request and is to be stored first.
    Upload,
    /// Nothing usable; the words say what is missing.
    Missing { message: String },
}

/// A source as plain values.
pub enum SourceView {
    Existing { path: Seq<char> },
    Upload,
    Missing { message: Seq<char> },
}

impl View for Source {
    type V = SourceView;

    open spec fn view(&self) -> SourceView {
        match *self {
            Source::Existing { path } => SourceView::Existing { path: path@ },
            Source::Upload => SourceView::Upload,
            Source::Missing { message } => SourceView::Missing { message: message@ },
        }
    }
}

/// A path that was given wins over an upload, even an empty one, which is
/// refused. Without a path the upload is taken, and without either the
/// request is refused.
pub open spec fn spec_choose_source(path: Option<Seq<char>>, has_upload: bool) -> SourceView {
    match path {
        Some(p) => if p.len() == 0 {
            SourceView::Missing { message: "No ISO file path provided"@ }
        } else {
            SourceView::Existing { path: p }
        },
        None => if has_upload {
            SourceView::Upload
        } else {
            SourceView::Missing { message: "No ISO file provided (neither upload nor path)"@ }
        },
    }
}

/// Decides where the image of a request comes from.
pub fn choose_source(path: Option<String>, has_upload: bool) -> (source: Source)
    ensures
        source@ == spec_choose_source(opt_view(path), has_upload),
{
    match path {
        Some(p) => if p.as_str().unicode_len() == 0 {
            Source::Missing { message: String::from_str("No ISO file path provided") }
        } else {
            Source::Existing { path: p }
        },
        None => if has_upload {
            Source::Upload
        } else {
            Source::Missing {
                message: String::from_str("No ISO file provided (neither upload nor path)"),
            }
        },
    }
}

/// The trim mode that a form's word stands for: `from-end` for the whole
/// image from the root offset on, any other word for the used prefix.
pub open spec fn spec_trim_mode(word: Seq<char>) -> TrimMode {
    if word == "from-end"@ {
        TrimMode::FromEnd
    } else {
        TrimMode::UsedData
    }
}

/// Reads the trim mode from a form's word.
pub fn trim_mode(word: &str) -> (mode: TrimMode)
    ensures
        mode == spec_trim_mode(word@),
{
    if same_text(word, "from-end") {
        TrimMode::FromEnd
    } else {
        TrimMode::UsedData
    }
}

/// The number of workers for a form's word: for `auto` what the machine can
/// run at once, or four where that is not known; for any other word the
/// number it spells, or one where it spells none.
pub open spec fn spec_worker_count(
    word: Seq<char>,
    detected: Option<usize>,
    spelled: Option<usize>,
) -> usize {
    if word == "auto"@ {
        match detected {
            Some(n) => n,
            None => FALLBACK_WORKERS,
        }
    } else {
        match spelled {
            Some(n) => n,
            None => DEFAULT_WORKERS,
        }
    }
}

/// Decides the number of workers, given the number that the word spells
/// (if it spells one) and the number the machine can run at once (if known).
pub fn resolve_worker_count(word: &str, detected: Option<usize>, spelled: Option<usize>) -> (n:
    usize)
    ensures
        n == spec_worker_count(word@, detected, spelled),
{
    if same_text(word, "auto") {
        match detected {
            Some(n) => n,
            None => FALLBACK_WORKERS,
        }
    } else {
        match spelled {
            Some(n) => n,
            None => DEFAULT_WORKERS,
        }
    }
}

/// Calls `str::parse::<usize>` on `word`. Nothing is claimed of the result:
/// which words spell a number that fits depends on the machine's word size.
#[verifier::external_body]
fn parse_count(word: &str) -> (spelled: Option<usize>) {
    word.parse::<usize>().ok()
}

/// Decides the number of workers from a form's word. For `auto` it is what
/// the machine can run at once, or four where that is not known. For any
/// other word it is what `resolve_worker_count` gives for the number that
/// the standard library reads from it.
pub fn worker_count(word: &str, detected: Option<usize>) -> (n: usize)
    ensures
        exists|spelled: Option<usize>| n == spec_worker_count(word@, detected, spelled),
        word@ == "auto"@ ==> n == spec_worker_count(word@, detected, None),
{
    let spelled: Option<usize> = parse_count(word);
    resolve_worker_count(word, detected, spelled)
}

/// What is sent back for a conversion request.
#[derive(Clone, Debug, PartialEq, Eq)]
pub struct ConversionResponse {
    pub success: bool,
    pub message: String,
    /// Where the package is; none on a dry run or a failure.
    pub god_path: Option<String>,
    pub game_title: Option<String>,
    pub title_id: Option<String>,
}

/// A response as plain values.
pub struct ConversionResponseView {
    pub success: bool,
    pub message: Seq<char>,
    pub god_path: Option<Seq<char>>,
    pub game_title: Option<Seq<char>>,
    pub title_id: Option<Seq<char>>,
}

impl View for ConversionResponse {
    type V = ConversionResponseView;

    open spec fn view(&self) -> ConversionResponseView {
        ConversionResponseView {
            success: self.success,
            message: self.message@,
            god_path: opt_view(self.god_path),
            game_title: opt_view(self.game_title),
            title_id: opt_view(self.title_id),
        }
    }
}

/// How the work on a request ended.
pub enum Ending {
    /// The conversion ran and reported. `god_path` is the package's place
    /// as the caller spells it; it is looked at only where the report has a
    /// package path.
    Reported { report: Report, god_path: String },
    /// The conversion failed.
    Failed { error: ConvertError },
    /// The conversion broke off without a result.
    Panicked,
    /// The worker that ran it could not be waited for; the words say why.
    Abandoned { reason: String },
}

/// The response for each way in which the work on a request can end.
pub open spec fn spec_response(ending: Ending) -> ConversionResponseView {
    match ending {
        Ending::Reported { report, god_path } => ConversionResponseView {
            success: true,
            message: report.message@,
            god_path: if report.package_path is Some {
                Some(god_path@)
            } else {
                None
            },
            game_title: Some(report.game_name@),
            title_id: Some(report.title_id@),
        },
        Ending::Failed { error } => spec_failure(error.stage.spec_message()),
        Ending::Panicked => spec_failure("Conversion process panicked"@),
        Ending::Abandoned { reason } => spec_failure("Task execution failed: "@ + reason@),
    }
}

/// The response that reports a failure in the given words.
pub open spec fn spec_failure(message: Seq<char>) -> ConversionResponseView {
    ConversionResponseView {
        success: false,
        message,
        god_path: None,
        game_title: None,
        title_id: None,
    }
}

impl ConversionResponse {
    /// The response that reports a failure in the given words.
    pub fn failure(message: String) -> (response: ConversionResponse)
        ensures
            response@ == spec_failure(message@),
    {
        ConversionResponse {
            success: false,
            message,
            god_path: None,
            game_title: None,
            title_id: None,
        }
    }

    /// The response for the way in which the work on a request ended.
    pub fn for_ending(ending: Ending) -> (response: ConversionResponse)
        ensures
            response@ == spec_response(ending),
    {
        match ending {
            Ending::Reported { report, god_path } => {
                let place: Option<String> = match report.package_path {
                    Some(_) => Some(god_path),
                    None => None,
                };
                ConversionResponse {
                    success: true,
                    message: report.message,
                    god_path: place,
                    game_title: Some(report.game_name),
                    title_id: Some(report.title_id),
                }
            },
            Ending::Failed { error } => Self::failure(error.message()),
            Ending::Panicked => Self::failure(String::from_str("Conversion process panicked")),
            Ending::Abandoned { reason } => {
                let mut message = String::from_str("Task execution failed: ");
                message.append(reason.as_str());
                Self::failure(message)
            },
        }
    }
}

/// What is sent back when only the title of an image was asked for.
#[derive(Clone, Debug, PartialEq, Eq)]
pub struct IsoInfoResponse {
    pub success: bool,
    pub game_title: Option<String>,
    pub title_id: Option<String>,
    pub error: Option<String>,
}

/// An answer about an image as plain values.
pub struct IsoInfoResponseView {
    pub success: bool,
    pub game_title: Option<Seq<char>>,
    pub title_id: Option<Seq<char>>,
    pub error: Option<Seq<char>>,
}

impl View for IsoInfoResponse {
    type V = IsoInfoResponseView;

    open spec fn view(&self) -> IsoInfoResponseView {
        IsoInfoResponseView {
            success: self.success,
            game_title: opt_view(self.game_title),
            title_id: opt_view(self.title_id),
            error: opt_view(self.error),
        }
    }
}

/// The answer about an image: its title's name and identifier, or the words
/// of the failure.
pub open spec fn spec_iso_info(found: Result<(Seq<char>, Seq<char>), Seq<char>>) -> IsoInfoResponseView {
    match found {
        Ok((name, id)) => IsoInfoResponseView {
            success: true,
            game_title: Some(name),
            title_id: Some(id),
            error: None,
        },
        Err(message) => IsoInfoResponseView {
            success: false,
            game_title: None,
            title_id: None,
            error: Some(message),
        },
    }
}

/// The view of what was found out about an image.
pub open spec fn found_view(found: Result<(String, String), String>) -> Result<
    (Seq<char>, Seq<char>),
    Seq<char>,
> {
    match found {
        Ok((name, id)) => Ok((name@, id@)),
        Err(message) => Err(message@),
    }
}

impl IsoInfoResponse {
    /// The answer about an image, given its title's name and identifier or
    /// the words of the failure.
    pub fn for_result(found: Result<(String, String), String>) -> (response: IsoInfoResponse)
        ensures
            response@ == spec_iso_info(found_view(found)),
    {
        match found {
            Ok((name, id)) => IsoInfoResponse {
                success: true,
                game_title: Some(name),
                title_id: Some(id),
                error: None,
            },
            Err(message) => IsoInfoResponse {
                success: false,
                game_title: None,
                title_id: None,
                error: Some(message),
            },
        }
    }
}

} // verus!
