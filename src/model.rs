use vstd::prelude::*;

use crate::text::same_text;

verus! {

/// Whether a file is offered to peers or kept local.
#[derive(Debug, Clone, Copy, PartialEq, Eq, Structural)]
pub enum Visibility {
    Public,
    Private,
}

/// The text form of a visibility, as stored and as sent.
pub open spec fn visibility_tag(v: Visibility) -> Seq<char> {
    match v {
        Visibility::Public => "public"@,
        Visibility::Private => "private"@,
    }
}

/// The visibility that a text form names, if any.
pub open spec fn visibility_from_tag(s: Seq<char>) -> Option<Visibility> {
    if s == "public"@ {
        Some(Visibility::Public)
    } else if s == "private"@ {
        Some(Visibility::Private)
    } else {
        None
    }
}

impl Visibility {
    /// The lower-case text form: `public` or `private`.
    pub fn as_str(&self) -> (r: &'static str)
        ensures
            r@ == visibility_tag(*self),
    {
        match self {
            Visibility::Public => "public",
            Visibility::Private => "private",
        }
    }

    /// Reads the lower-case text form; any other text gives `None`.
    pub fn from_tag(s: &str) -> (r: Option<Visibility>)
        ensures
            r == visibility_from_tag(s@),
    {
        if same_text(s, "public") {
            Some(Visibility::Public)
        } else if same_text(s, "private") {
            Some(Visibility::Private)
        } else {
            None
        }
    }
}

/// The operating system a peer runs.
#[derive(Debug, Clone, Copy, PartialEq, Eq, Structural)]
pub enum OsType {
    Linux,
    Windows,
    Macos,
    Ios,
    Android,
}

/// The text form of an operating system, as sent by the info route.
pub open spec fn os_tag(os: OsType) -> Seq<char> {
    match os {
        OsType::Linux => "linux"@,
        OsType::Windows => "windows"@,
        OsType::Macos => "macos"@,
        OsType::Ios => "ios"@,
        OsType::Android => "android"@,
    }
}

/// The operating system that a text form names, if any.
pub open spec fn os_from_tag(s: Seq<char>) -> Option<OsType> {
    if s == "linux"@ {
        Some(OsType::Linux)
    } else if s == "windows"@ {
        Some(OsType::Windows)
    } else if s == "macos"@ {
        Some(OsType::Macos)
    } else if s == "ios"@ {
        Some(OsType::Ios)
    } else if s == "android"@ {
        Some(OsType::Android)
    } else {
        None
    }
}

impl OsType {
    /// The lower-case text form: `linux`, `windows`, `macos`, `ios` or `android`.
    pub fn as_str(&self) -> (r: &'static str)
        ensures
            r@ == os_tag(*self),
    {
        match self {
            OsType::Linux => "linux",
            OsType::Windows => "windows",
            OsType::Macos => "macos",
            OsType::Ios => "ios",
            OsType::Android => "android",
        }
    }

    /// Reads the lower-case text form; any other text gives `None`.
    pub fn from_tag(s: &str) -> (r: Option<OsType>)
        ensures
            r == os_from_tag(s@),
    {
        if same_text(s, "linux") {
            Some(OsType::Linux)
        } else if same_text(s, "windows") {
            Some(OsType::Windows)
        } else if same_text(s, "macos") {
            Some(OsType::Macos)
        } else if same_text(s, "ios") {
            Some(OsType::Ios)
        } else if same_text(s, "android") {
            Some(OsType::Android)
        } else {
            None
        }
    }
}

/// A file as the user offers it: no MIME type yet.
#[derive(Debug)]
pub struct File {
    pub id: u128,
    pub name: String,
    pub visibility: Visibility,
    pub path: String,
}

/// A file record of the catalog.
#[derive(Debug)]
pub struct FileModel {
    pub id: u128,
    pub name: String,
    pub mime: String,
    pub visibility: Visibility,
    pub path: String,
}

/// What a file record holds, as mathematical values.
pub struct RecordView {
    pub id: u128,
    pub name: Seq<char>,
    pub mime: Seq<char>,
    pub visibility: Visibility,
    pub path: Seq<char>,
}

impl View for FileModel {
    type V = RecordView;

    open spec fn view(&self) -> RecordView {
        RecordView {
            id: self.id,
            name: self.name@,
            mime: self.mime@,
            visibility: self.visibility,
            path: self.path@,
        }
    }
}

impl Clone for FileModel {
    fn clone(&self) -> (r: FileModel)
        ensures
            r@ == self@,
    {
        FileModel {
            id: self.id,
            name: self.name.clone(),
            mime: self.mime.clone(),
            visibility: self.visibility,
            path: self.path.clone(),
        }
    }
}

/// The part of a file record that peers see: no path, no visibility.
#[derive(Debug)]
pub struct FileResponse {
    pub id: u128,
    pub name: String,
    pub mime: String,
}

/// What a peer-facing file entry holds, as mathematical values.
pub struct SummaryView {
    pub id: u128,
    pub name: Seq<char>,
    pub mime: Seq<char>,
}

impl View for FileResponse {
    type V = SummaryView;

    open spec fn view(&self) -> SummaryView {
        SummaryView { id: self.id, name: self.name@, mime: self.mime@ }
    }
}

impl Clone for FileResponse {
    fn clone(&self) -> (r: FileResponse)
        ensures
            r@ == self@,
    {
        FileResponse { id: self.id, name: self.name.clone(), mime: self.mime.clone() }
    }
}

/// The peer-facing projection of a record.
pub open spec fn summary_of(r: RecordView) -> SummaryView {
    SummaryView { id: r.id, name: r.name, mime: r.mime }
}

impl FileResponse {
    /// Projects a record to what peers see of it.
    pub fn from_record(f: &FileModel) -> (r: FileResponse)
        ensures
            r@ == summary_of(f@),
    {
        FileResponse { id: f.id, name: f.name.clone(), mime: f.mime.clone() }
    }
}

/// Another instance found on the network.
#[derive(Debug)]
pub struct Peer {
    pub address: String,
    pub os_type: OsType,
}

/// The envelope around every response body.
#[derive(Debug)]
pub struct ServerResponse<T> {
    pub message: String,
    pub data: T,
}

} // verus!
