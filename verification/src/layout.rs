//! Names of the directories and files of a package, below a destination of
//! the caller's choice. Paths are lists of names, outermost first.

use crate::text::{hex8, lemma_hex8_differs, padded_decimal, push_hex8, push_padded_decimal};
use crate::title::{ContentType, TitleExecutionInfo};
use vstd::prelude::*;
use vstd::string::*;

verus! {

/// The naming scheme of one package.
#[derive(Clone, Copy, Debug, PartialEq, Eq, Structural)]
pub struct FileLayout {
    pub title_id: u32,
    pub media_id: u32,
    pub content_type: ContentType,
}

/// The names in `path`, each as its characters.
pub open spec fn names(path: Seq<String>) -> Seq<Seq<char>> {
    Seq::new(path.len(), |i: int| path[i]@)
}

/// Name of the file of part `index`: `Data` and the index in at least four
/// decimal digits.
pub open spec fn spec_part_file_name(index: u64) -> Seq<char> {
    "Data"@ + padded_decimal(index as nat, 4)
}

impl FileLayout {
    /// Name of the title's directory: its identifier in hexadecimal.
    pub open spec fn spec_title_dir(&self) -> Seq<char> {
        hex8(self.title_id)
    }

    /// Name of the directory for the kind of content, inside the title's.
    pub open spec fn spec_content_type_dir(&self) -> Seq<char> {
        hex8(self.content_type.spec_code())
    }

    /// The number that names the package inside those: the media identifier
    /// of an Xbox 360 title, the title identifier of one of the first Xbox.
    pub open spec fn spec_package_id(&self) -> u32 {
        match self.content_type {
            ContentType::GamesOnDemand => self.media_id,
            ContentType::XboxOriginal => self.title_id,
        }
    }

    /// Name of the header file.
    pub open spec fn spec_header_file_name(&self) -> Seq<char> {
        hex8(self.spec_package_id())
    }

    /// Name of the directory of part files, next to the header file.
    pub open spec fn spec_data_dir_name(&self) -> Seq<char> {
        hex8(self.spec_package_id()) + ".data"@
    }

    /// Path of the title's directory, which is the finished package.
    pub open spec fn spec_package_dir_path(&self) -> Seq<Seq<char>> {
        seq![self.spec_title_dir()]
    }

    /// Path of the header file.
    pub open spec fn spec_header_file_path(&self) -> Seq<Seq<char>> {
        seq![self.spec_title_dir(), self.spec_content_type_dir(), self.spec_header_file_name()]
    }

    /// Path of the directory of part files.
    pub open spec fn spec_data_dir_path(&self) -> Seq<Seq<char>> {
        seq![self.spec_title_dir(), self.spec_content_type_dir(), self.spec_data_dir_name()]
    }

    /// Path of the file of part `index`.
    pub open spec fn spec_part_file_path(&self, index: u64) -> Seq<Seq<char>> {
        self.spec_data_dir_path().push(spec_part_file_name(index))
    }

    /// The naming scheme for a title on a disc of the given kind.
    pub fn new(info: &TitleExecutionInfo, content_type: ContentType) -> (layout: FileLayout)
        ensures
            layout == (FileLayout {
                title_id: info.title_id,
                media_id: info.media_id,
                content_type,
            }),
    {
        FileLayout { title_id: info.title_id, media_id: info.media_id, content_type }
    }

    /// Name of the title's directory.
    pub fn title_dir(&self) -> (name: String)
        ensures
            name@ == self.spec_title_dir(),
    {
        let mut name = String::new();
        push_hex8(&mut name, self.title_id);
        name
    }

    /// Name of the directory for the kind of content.
    pub fn content_type_dir(&self) -> (name: String)
        ensures
            name@ == self.spec_content_type_dir(),
    {
        let mut name = String::new();
        push_hex8(&mut name, self.content_type.code());
        name
    }

    fn package_id(&self) -> (id: u32)
        ensures
            id == self.spec_package_id(),
    {
        match self.content_type {
            ContentType::GamesOnDemand => self.media_id,
            ContentType::XboxOriginal => self.title_id,
        }
    }

    /// Name of the header file.
    pub fn header_file_name(&self) -> (name: String)
        ensures
            name@ == self.spec_header_file_name(),
    {
        let mut name = String::new();
        push_hex8(&mut name, self.package_id());
        name
    }

    /// Name of the directory of part files.
    pub fn data_dir_name(&self) -> (name: String)
        ensures
            name@ == self.spec_data_dir_name(),
    {
        let mut name = self.header_file_name();
        name.append(".data");
        name
    }

    /// Name of the file of part `index`.
    pub fn part_file_name(index: u64) -> (name: String)
        ensures
            name@ == spec_part_file_name(index),
    {
        let mut name = String::from_str("Data");
        push_padded_decimal(&mut name, index, 4);
        name
    }

    /// Path of the title's directory. It is the header file's path without
    /// its last two names.
    pub fn package_dir_path(&self) -> (path: Vec<String>)
        ensures
            names(path@) == self.spec_package_dir_path(),
            names(path@) == self.spec_header_file_path().drop_last().drop_last(),
    {
        let mut path: Vec<String> = Vec::new();
        path.push(self.title_dir());
        path
    }

    /// Path of the header file.
    pub fn header_file_path(&self) -> (path: Vec<String>)
        ensures
            names(path@) == self.spec_header_file_path(),
    {
        let mut path: Vec<String> = Vec::new();
        path.push(self.title_dir());
        path.push(self.content_type_dir());
        path.push(self.header_file_name());
        path
    }

    /// Path of the directory of part files. It lies in the same directory as
    /// the header file.
    pub fn data_dir_path(&self) -> (path: Vec<String>)
        ensures
            names(path@) == self.spec_data_dir_path(),
            names(path@).drop_last() == self.spec_header_file_path().drop_last(),
    {
        let mut path: Vec<String> = Vec::new();
        path.push(self.title_dir());
        path.push(self.content_type_dir());
        path.push(self.data_dir_name());
        path
    }

    /// Path of the file of part `index`, inside the directory of part files.
    pub fn part_file_path(&self, index: u64) -> (path: Vec<String>)
        ensures
            names(path@) == self.spec_part_file_path(index),
            names(path@).drop_last() == self.spec_data_dir_path(),
    {
        let mut path: Vec<String> = self.data_dir_path();
        path.push(Self::part_file_name(index));
        path
    }
}

/// Packages of different titles, or of one title on discs of different
/// kinds, lie in different directories: neither their header files nor
/// their part files can meet.
pub proof fn lemma_layouts_do_not_collide(a: FileLayout, b: FileLayout)
    requires
        a.title_id != b.title_id || a.content_type != b.content_type,
    ensures
        a.spec_header_file_path().drop_last() != b.spec_header_file_path().drop_last(),
        a.spec_header_file_path() != b.spec_header_file_path(),
        a.spec_data_dir_path() != b.spec_data_dir_path(),
        a.title_id != b.title_id ==> a.spec_package_dir_path() != b.spec_package_dir_path(),
        forall|i: u64, j: u64| #[trigger]
            a.spec_part_file_path(i) != #[trigger] b.spec_part_file_path(j),
{
    if a.title_id != b.title_id {
        lemma_hex8_differs(a.title_id, b.title_id);
    } else {
        lemma_hex8_differs(a.content_type.spec_code(), b.content_type.spec_code());
    }
    let differ = if a.title_id != b.title_id {
        0int
    } else {
        1int
    };
    assert(a.spec_header_file_path()[differ] != b.spec_header_file_path()[differ]);
    assert(a.spec_header_file_path().drop_last()[differ] != b.spec_header_file_path().drop_last()[differ]);
    assert(a.spec_data_dir_path()[differ] != b.spec_data_dir_path()[differ]);
    if a.title_id != b.title_id {
        assert(a.spec_package_dir_path()[0] != b.spec_package_dir_path()[0]);
    }
    assert forall|i: u64, j: u64| #[trigger]
        a.spec_part_file_path(i) != #[trigger] b.spec_part_file_path(j) by {
        assert(a.spec_part_file_path(i)[differ] != b.spec_part_file_path(j)[differ]);
    }
}

} // verus!
