//! Sending a finished package to a device by FTP: the remote paths, the
//! directories to make on the way, and the progress that is reported. The
//! connection itself is the caller's.

use crate::text::{decimal, ends_with, push_decimal, same_text, spec_ends_with};
use crate::title::opt_view;
use vstd::prelude::*;
use vstd::string::*;

verus! {

/// How far a transfer has come, as shown to the one who watches it.
#[derive(Clone, Debug, PartialEq, Eq)]
pub struct FtpProgress {
    pub current_file: String,
    pub files_transferred: usize,
    pub total_files: usize,
    pub percentage: u8,
    pub message: String,
    pub is_complete: bool,
}

/// A progress record as plain values.
pub struct FtpProgressView {
    pub current_file: Seq<char>,
    pub files_transferred: usize,
    pub total_files: usize,
    pub percentage: u8,
    pub message: Seq<char>,
    pub is_complete: bool,
}

impl View for FtpProgress {
    type V = FtpProgressView;

    open spec fn view(&self) -> FtpProgressView {
        FtpProgressView {
            current_file: self.current_file@,
            files_transferred: self.files_transferred,
            total_files: self.total_files,
            percentage: self.percentage,
            message: self.message@,
            is_complete: self.is_complete,
        }
    }
}

/// A record that says only `message`: no file, no counts, not complete.
pub open spec fn spec_note(message: Seq<char>) -> FtpProgressView {
    FtpProgressView {
        current_file: Seq::<char>::empty(),
        files_transferred: 0,
        total_files: 0,
        percentage: 0,
        message,
        is_complete: false,
    }
}

/// The word for the way the data connection is made.
pub open spec fn spec_mode_label(passive: bool) -> Seq<char> {
    if passive {
        "passive"@
    } else {
        "active"@
    }
}

/// The server's address as host and port.
pub open spec fn spec_server_address(host: Seq<char>, port: u16) -> Seq<char> {
    host + ":"@ + decimal(port as nat)
}

/// The words that say which server is being connected to, and how.
pub open spec fn spec_connecting_message(host: Seq<char>, port: u16, passive: bool) -> Seq<char> {
    "Connecting to FTP server "@ + spec_server_address(host, port) + " ("@ + spec_mode_label(
        passive,
    ) + ")"@
}

/// `name` below the remote directory `base`: one slash between them, none
/// added where `base` ends with one.
pub open spec fn spec_join_remote(base: Seq<char>, name: Seq<char>) -> Seq<char> {
    if spec_ends_with(base, '/') {
        base + name
    } else {
        base + "/"@ + name
    }
}

/// Walks from `current` down through `components`. Gives the directories
/// on the way that are not in `created`, in order, and `created` with all
/// directories on the way added.
pub open spec fn spec_chain(
    created: Set<Seq<char>>,
    current: Seq<char>,
    components: Seq<Seq<char>>,
) -> (Seq<Seq<char>>, Set<Seq<char>>)
    decreases components.len(),
{
    if components.len() == 0 {
        (Seq::<Seq<char>>::empty(), created)
    } else {
        let next = spec_join_remote(current, components[0]);
        let rest = spec_chain(created.insert(next), next, components.drop_first());
        if created.contains(next) {
            rest
        } else {
            (seq![next] + rest.0, rest.1)
        }
    }
}

/// The directories to make before a file can be put below `target`, and
/// the directories known to exist afterwards. `parent` is the file's
/// directory relative to the package, `components` the names it is made of.
/// Nothing is made for a file at the top, nor where `parent` is known.
pub open spec fn spec_plan_dirs(
    created: Set<Seq<char>>,
    target: Seq<char>,
    parent: Seq<char>,
    components: Seq<Seq<char>>,
) -> (Seq<Seq<char>>, Set<Seq<char>>) {
    if parent.len() == 0 || created.contains(parent) {
        (Seq::<Seq<char>>::empty(), created)
    } else {
        let chain = spec_chain(created, target, components);
        (chain.0, chain.1.insert(parent))
    }
}

/// The names in `list`, each as its characters.
pub open spec fn texts(list: Seq<String>) -> Seq<Seq<char>> {
    Seq::new(list.len(), |i: int| list[i]@)
}

/// The word for the way the data connection is made.
pub fn mode_label(passive: bool) -> (label: &'static str)
    ensures
        label@ == spec_mode_label(passive),
{
    if passive {
        "passive"
    } else {
        "active"
    }
}

/// The server's address as host and port, as a socket address is spelled.
pub fn server_address(host: &str, port: u16) -> (address: String)
    ensures
        address@ == spec_server_address(host@, port),
{
    let mut address = String::from_str(host);
    address.append(":");
    push_decimal(&mut address, port as u64);
    address
}

/// `name` below the remote directory `base`.
pub fn join_remote(base: &str, name: &str) -> (path: String)
    ensures
        path@ == spec_join_remote(base@, name@),
{
    let mut path = String::from_str(base);
    if !ends_with(base, '/') {
        path.append("/");
    }
    path.append(name);
    path
}

impl Default for FtpProgress {
    /// The record of a transfer that has not begun.
    fn default() -> (progress: FtpProgress)
        ensures
            progress@ == spec_note("Initializing..."@),
    {
        FtpProgress::note(String::from_str("Initializing..."))
    }
}

impl FtpProgress {
    fn note(message: String) -> (progress: FtpProgress)
        ensures
            progress@ == spec_note(message@),
    {
        FtpProgress {
            current_file: String::new(),
            files_transferred: 0,
            total_files: 0,
            percentage: 0,
            message,
            is_complete: false,
        }
    }

    /// The record shown while the connection is made.
    pub fn connecting(host: &str, port: u16, passive: bool) -> (progress: FtpProgress)
        ensures
            progress@ == spec_note(spec_connecting_message(host@, port, passive)),
    {
        let mut message = String::from_str("Connecting to FTP server ");
        message.append(server_address(host, port).as_str());
        message.append(" (");
        message.append(mode_label(passive));
        message.append(")");
        FtpProgress::note(message)
    }

    /// The record shown once the server let the user in.
    pub fn logged_in() -> (progress: FtpProgress)
        ensures
            progress@ == spec_note("FTP login successful"@),
    {
        FtpProgress::note(String::from_str("FTP login successful"))
    }
}

/// The directories that are known to exist on the server.
pub struct CreatedDirs {
    dirs: Vec<String>,
}

impl View for CreatedDirs {
    type V = Set<Seq<char>>;

    closed spec fn view(&self) -> Set<Seq<char>> {
        Set::new(|name: Seq<char>| exists|i: int| 0 <= i < self.dirs@.len() && self.dirs@[i]@ == name)
    }
}

impl CreatedDirs {
    /// No directory is known yet.
    pub fn new() -> (created: CreatedDirs)
        ensures
            created@ == Set::<Seq<char>>::empty(),
    {
        let created = CreatedDirs { dirs: Vec::new() };
        assert(created@ =~= Set::<Seq<char>>::empty());
        created
    }

    /// Whether `name` is known to exist.
    pub fn contains(&self, name: &str) -> (known: bool)
        ensures
            known == self@.contains(name@),
    {
        let mut i: usize = 0;
        while i < self.dirs.len()
            invariant
                i <= self.dirs@.len(),
                forall|k: int| 0 <= k < i ==> (#[trigger] self.dirs@[k])@ != name@,
            decreases self.dirs@.len() - i,
        {
            if same_text(self.dirs[i].as_str(), name) {
                return true;
            }
            i = i + 1;
        }
        false
    }

    /// Notes that `name` exists.
    pub fn insert(&mut self, name: String)
        ensures
            final(self)@ == old(self)@.insert(name@),
    {
        let ghost before = self.dirs@;
        self.dirs.push(name);
        assert(self@ =~= old(self)@.insert(name@)) by {
            assert forall|s: Seq<char>| self@.contains(s) <==> old(self)@.insert(name@).contains(
                s,
            ) by {
                if self@.contains(s) {
                    let i = choose|i: int| 0 <= i < self.dirs@.len() && self.dirs@[i]@ == s;
                    if i < before.len() {
                        assert(before[i]@ == s);
                    }
                }
                if old(self)@.contains(s) {
                    let i = choose|i: int| 0 <= i < before.len() && before[i]@ == s;
                    assert(self.dirs@[i]@ == s);
                }
                if s == name@ {
                    assert(self.dirs@[before.len() as int]@ == s);
                }
            }
        }
    }
}

/// What is to be done for one file of the package.
#[derive(Clone, Debug, PartialEq, Eq)]
pub struct FileStep {
    /// The record to show while the file is sent.
    pub progress: FtpProgress,
    /// The directories to make first, in this order. A failure to make one
    /// is passed over: it may be there already.
    pub mkdirs: Vec<String>,
    /// The remote path to put the file at.
    pub upload_path: String,
}

/// A transfer under way.
pub struct Transfer {
    target_path: String,
    created: CreatedDirs,
    files_transferred: usize,
    total_files: usize,
}

/// A transfer as plain values.
pub struct TransferView {
    pub target_path: Seq<char>,
    pub created: Set<Seq<char>>,
    pub files_transferred: usize,
    pub total_files: usize,
}

impl View for Transfer {
    type V = TransferView;

    closed spec fn view(&self) -> TransferView {
        TransferView {
            target_path: self.target_path@,
            created: self.created@,
            files_transferred: self.files_transferred,
            total_files: self.total_files,
        }
    }
}

/// The record shown before the first file is sent.
pub open spec fn spec_starting(total_files: usize) -> FtpProgressView {
    FtpProgressView {
        total_files,
        message: "Starting transfer of "@ + decimal(total_files as nat) + " files"@,
        ..spec_note(Seq::<char>::empty())
    }
}

/// The record shown while the file at `remote_path` is sent.
pub open spec fn spec_uploading(t: TransferView, remote_path: Seq<char>, percentage: u8) -> FtpProgressView {
    FtpProgressView {
        current_file: remote_path,
        files_transferred: t.files_transferred,
        total_files: t.total_files,
        percentage,
        message: "Uploading: "@ + remote_path,
        is_complete: false,
    }
}

/// The record shown when all files are sent.
pub open spec fn spec_complete(t: TransferView) -> FtpProgressView {
    FtpProgressView {
        current_file: Seq::<char>::empty(),
        files_transferred: t.files_transferred,
        total_files: t.total_files,
        percentage: 100,
        message: "FTP transfer complete: "@ + decimal(t.files_transferred as nat)
            + " files transferred"@,
        is_complete: true,
    }
}

impl Transfer {
    /// A transfer of `total_files` files to the remote directory
    /// `target_path`, with nothing sent and no directory made yet.
    pub fn new(target_path: String, total_files: usize) -> (t: Transfer)
        ensures
            t@ == (TransferView {
                target_path: target_path@,
                created: Set::<Seq<char>>::empty(),
                files_transferred: 0,
                total_files,
            }),
    {
        Transfer { target_path, created: CreatedDirs::new(), files_transferred: 0, total_files }
    }

    /// Number of files sent so far.
    pub fn files_transferred(&self) -> (n: usize)
        ensures
            n == self@.files_transferred,
    {
        self.files_transferred
    }

    /// The record shown before the first file is sent.
    pub fn starting(&self) -> (progress: FtpProgress)
        ensures
            progress@ == spec_starting(self@.total_files),
    {
        let mut message = String::from_str("Starting transfer of ");
        push_decimal(&mut message, self.total_files as u64);
        message.append(" files");
        FtpProgress {
            current_file: String::new(),
            files_transferred: 0,
            total_files: self.total_files,
            percentage: 0,
            message,
            is_complete: false,
        }
    }

    /// Plans the sending of one file. `remote_path` is the file's path
    /// relative to the package, with slashes; `parent` is the directory part
    /// of it and `components` the names that `parent` is made of.
    /// `percentage` is the share of files already sent.
    pub fn begin_file(
        &mut self,
        remote_path: &str,
        parent: &str,
        components: &Vec<String>,
        percentage: u8,
    ) -> (step: FileStep)
        ensures
            step.progress@ == spec_uploading(old(self)@, remote_path@, percentage),
            texts(step.mkdirs@) == spec_plan_dirs(
                old(self)@.created,
                old(self)@.target_path,
                parent@,
                texts(components@),
            ).0,
            step.upload_path@ == spec_join_remote(old(self)@.target_path, remote_path@),
            final(self)@ == (TransferView {
                created: spec_plan_dirs(
                    old(self)@.created,
                    old(self)@.target_path,
                    parent@,
                    texts(components@),
                ).1,
                ..old(self)@
            }),
    {
        let mut message = String::from_str("Uploading: ");
        message.append(remote_path);
        let progress = FtpProgress {
            current_file: String::from_str(remote_path),
            files_transferred: self.files_transferred,
            total_files: self.total_files,
            percentage,
            message,
            is_complete: false,
        };
        let mut mkdirs: Vec<String> = Vec::new();
        if parent.unicode_len() != 0 && !self.created.contains(parent) {
            let ghost start = self.created@;
            let ghost all = texts(components@);
            let mut current: String = self.target_path.clone();
            let mut i: usize = 0;
            proof {
                let chain = spec_chain(start, current@, all);
                assert(all.skip(0) =~= all);
                assert(texts(mkdirs@) + chain.0 =~= chain.0);
            }
            while i < components.len()
                invariant
                    i <= components@.len(),
                    all == texts(components@),
                    self.target_path@ == old(self).target_path@,
                    self.files_transferred == old(self).files_transferred,
                    self.total_files == old(self).total_files,
                    spec_chain(start, old(self).target_path@, all).0 == texts(mkdirs@) + spec_chain(
                        self.created@,
                        current@,
                        all.skip(i as int),
                    ).0,
                    spec_chain(start, old(self).target_path@, all).1 == spec_chain(
                        self.created@,
                        current@,
                        all.skip(i as int),
                    ).1,
                decreases components@.len() - i,
            {
                let ghost rest = all.skip(i as int);
                let ghost made = texts(mkdirs@);
                let ghost known = self.created@;
                let next: String = join_remote(current.as_str(), components[i].as_str());
                assert(rest[0] == components@[i as int]@);
                assert(rest.drop_first() =~= all.skip(i + 1));
                if !self.created.contains(next.as_str()) {
                    mkdirs.push(next.clone());
                    self.created.insert(next.clone());
                    assert(texts(mkdirs@) =~= made + seq![next@]);
                    assert(made + (seq![next@] + spec_chain(
                        known.insert(next@),
                        next@,
                        all.skip(i + 1),
                    ).0) =~= texts(mkdirs@) + spec_chain(
                        known.insert(next@),
                        next@,
                        all.skip(i + 1),
                    ).0);
                } else {
                    assert(known.insert(next@) =~= known);
                }
                current = next;
                i = i + 1;
            }
            assert(all.skip(i as int).len() == 0);
            assert(texts(mkdirs@) + Seq::<Seq<char>>::empty() =~= texts(mkdirs@));
            self.created.insert(String::from_str(parent));
        } else {
            assert(texts(mkdirs@) =~= Seq::<Seq<char>>::empty());
        }
        let upload_path = join_remote(self.target_path.as_str(), remote_path);
        FileStep { progress, mkdirs, upload_path }
    }

    /// Counts one more file as sent. The count stays where it is once it
    /// cannot grow.
    pub fn file_done(&mut self)
        ensures
            final(self)@ == (TransferView {
                files_transferred: if old(self)@.files_transferred < usize::MAX {
                    (old(self)@.files_transferred + 1) as usize
                } else {
                    old(self)@.files_transferred
                },
                ..old(self)@
            }),
    {
        if self.files_transferred < usize::MAX {
            self.files_transferred = self.files_transferred + 1;
        }
    }

    /// The record shown when all files are sent.
    pub fn complete(&self) -> (progress: FtpProgress)
        ensures
            progress@ == spec_complete(self@),
    {
        let mut message = String::from_str("FTP transfer complete: ");
        push_decimal(&mut message, self.files_transferred as u64);
        message.append(" files transferred");
        FtpProgress {
            current_file: String::new(),
            files_transferred: self.files_transferred,
            total_files: self.total_files,
            percentage: 100,
            message,
            is_complete: true,
        }
    }
}

/// What a watcher is told at one tick, given the record found for the
/// session, and whether that was the last word: the record itself where
/// there is one, ending the stream when it is complete; else the record of
/// a transfer that has not begun.
pub open spec fn spec_progress_tick(found: Option<FtpProgressView>) -> (FtpProgressView, bool) {
    match found {
        Some(progress) => (progress, progress.is_complete),
        None => (spec_note("Initializing..."@), false),
    }
}

/// The view of a record, where there is one.
pub open spec fn found_view(found: Option<FtpProgress>) -> Option<FtpProgressView> {
    match found {
        Some(progress) => Some(progress@),
        None => None,
    }
}

/// Decides what a watcher is told at one tick and whether the stream ends.
pub fn progress_tick(found: Option<FtpProgress>) -> (r: (FtpProgress, bool))
    ensures
        (r.0@, r.1) == spec_progress_tick(found_view(found)),
{
    match found {
        Some(progress) => {
            let done: bool = progress.is_complete;
            (progress, done)
        },
        None => (FtpProgress::default(), false),
    }
}

/// What is sent back for a transfer request.
#[derive(Clone, Debug, PartialEq, Eq)]
pub struct FtpTransferResponse {
    pub success: bool,
    pub message: String,
    pub files_transferred: usize,
    pub session_id: String,
}

/// How a transfer ended.
pub enum TransferEnding {
    /// All files were sent; their number.
    Sent { count: usize },
    /// The transfer failed; the words say how.
    Failed { reason: String },
    /// The worker that ran it could not be waited for; the words say why.
    Abandoned { reason: String },
}

/// The words of the response for each way in which a transfer can end.
pub open spec fn spec_transfer_message(ending: TransferEnding) -> Seq<char> {
    match ending {
        TransferEnding::Sent { count } => "Successfully transferred "@ + decimal(count as nat)
            + " files to Xbox 360"@,
        TransferEnding::Failed { reason } => "FTP transfer failed: "@ + reason@,
        TransferEnding::Abandoned { reason } => "Task execution failed: "@ + reason@,
    }
}

impl FtpTransferResponse {
    /// The response for the way in which a transfer ended. Only a transfer
    /// that sent all files counts as a success, and only then are files
    /// counted.
    pub fn for_ending(ending: TransferEnding, session_id: String) -> (response: FtpTransferResponse)
        ensures
            response.success == (ending is Sent),
            response.message@ == spec_transfer_message(ending),
            response.files_transferred == (match ending {
                TransferEnding::Sent { count } => count,
                _ => 0usize,
            }),
            response.session_id@ == session_id@,
    {
        match ending {
            TransferEnding::Sent { count } => {
                let mut message = String::from_str("Successfully transferred ");
                push_decimal(&mut message, count as u64);
                message.append(" files to Xbox 360");
                FtpTransferResponse { success: true, message, files_transferred: count, session_id }
            },
            TransferEnding::Failed { reason } => {
                let mut message = String::from_str("FTP transfer failed: ");
                message.append(reason.as_str());
                FtpTransferResponse { success: false, message, files_transferred: 0, session_id }
            },
            TransferEnding::Abandoned { reason } => {
                let mut message = String::from_str("Task execution failed: ");
                message.append(reason.as_str());
                FtpTransferResponse { success: false, message, files_transferred: 0, session_id }
            },
        }
    }
}

/// What is sent back for a test of the connection.
#[derive(Clone, Debug, PartialEq, Eq)]
pub struct FtpTestResponse {
    pub success: bool,
    pub message: String,
}

/// How a test of the connection ended.
pub enum TestEnding {
    /// The server let the user in. `directory` is the directory it named
    /// as the current one, if it named one.
    Connected { directory: Option<String> },
    /// The test failed; the words say how.
    Failed { reason: String },
    /// The worker that ran it could not be waited for; the words say why.
    Abandoned { reason: String },
}

/// The words that report a connection: they name the server's current
/// directory, or the root where the server named none.
pub open spec fn spec_connected_message(directory: Option<Seq<char>>) -> Seq<char> {
    "Connection successful! Current directory: "@ + (match directory {
        Some(d) => d,
        None => "/"@,
    })
}

/// The words of the response for each way in which a test can end.
pub open spec fn spec_test_message(ending: TestEnding) -> Seq<char> {
    match ending {
        TestEnding::Connected { directory } => spec_connected_message(opt_view(directory)),
        TestEnding::Failed { reason } => "Connection failed: "@ + reason@,
        TestEnding::Abandoned { reason } => "Task failed: "@ + reason@,
    }
}

impl FtpTestResponse {
    /// The words that report a connection.
    pub fn connected_message(directory: Option<String>) -> (message: String)
        ensures
            message@ == spec_connected_message(opt_view(directory)),
    {
        let mut message = String::from_str("Connection successful! Current directory: ");
        match directory {
            Some(d) => message.append(d.as_str()),
            None => message.append("/"),
        }
        message
    }

    /// The response for the way in which a test of the connection ended.
    pub fn for_ending(ending: TestEnding) -> (response: FtpTestResponse)
        ensures
            response.success == (ending is Connected),
            response.message@ == spec_test_message(ending),
    {
        match ending {
            TestEnding::Connected { directory } => FtpTestResponse {
                success: true,
                message: Self::connected_message(directory),
            },
            TestEnding::Failed { reason } => {
                let mut message = String::from_str("Connection failed: ");
                message.append(reason.as_str());
                FtpTestResponse { success: false, message }
            },
            TestEnding::Abandoned { reason } => {
                let mut message = String::from_str("Task failed: ");
                message.append(reason.as_str());
                FtpTestResponse { success: false, message }
            },
        }
    }
}

} // verus!
