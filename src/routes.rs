use vstd::prelude::*;

use crate::catalog::{holds_public, index_of, public_summaries, Catalog};
use crate::error::{error_text, Error};
use crate::model::{FileResponse, OsType, ServerResponse};

verus! {

/// The status of every successful response.
pub const STATUS_OK: u16 = 200;

/// The status of every error response.
pub const STATUS_INTERNAL_ERROR: u16 = 500;

/// How a fetched file is to be presented.
#[derive(Debug, Clone, Copy, PartialEq, Eq, Structural)]
pub enum Mode {
    /// Shown in place (`inline`).
    View,
    /// Saved as a download (`attachment`).
    Download,
}

/// The `Content-Disposition` value for a file named `name`.
pub open spec fn disposition_text(mode: Mode, name: Seq<char>) -> Seq<char> {
    match mode {
        Mode::View => "inline; filename="@ + name,
        Mode::Download => "attachment; filename="@ + name,
    }
}

/// The mode a request asks for: `View` where it names none.
pub open spec fn mode_or_view(mode: Option<Mode>) -> Mode {
    match mode {
        Some(m) => m,
        None => Mode::View,
    }
}

/// What the byte-serving route needs to stream one file.
#[derive(Debug)]
pub struct FileServe {
    /// Where the file lies, for the file system layer.
    pub path: String,
    /// The `Content-Type` value: the record's MIME type.
    pub content_type: String,
    /// The `Content-Disposition` value.
    pub disposition: String,
}

/// Builds the `Content-Disposition` value for a file named `name`.
pub fn content_disposition(mode: Mode, name: &str) -> (r: String)
    ensures
        r@ == disposition_text(mode, name@),
{
    match mode {
        Mode::View => "inline; filename=".to_owned().concat(name),
        Mode::Download => "attachment; filename=".to_owned().concat(name),
    }
}

/// The answer to a cross-origin preflight request, on any path.
pub fn preflight() -> (r: ServerResponse<()>)
    ensures
        r.message@ == "Preflight request passed"@,
{
    ServerResponse { message: "Preflight request passed".to_owned(), data: () }
}

/// The answer to the liveness and identity probe: this instance's OS.
pub fn info(os: OsType) -> (r: ServerResponse<OsType>)
    ensures
        r.message@ == "This Filey server is healthy"@,
        r.data == os,
{
    ServerResponse { message: "This Filey server is healthy".to_owned(), data: os }
}

/// The answer to the file listing: the public files only.
pub fn get_files(catalog: &Catalog) -> (r: ServerResponse<Vec<FileResponse>>)
    ensures
        r.message@ == "Get all files success"@,
        r.data@.map_values(|e: FileResponse| e@) == public_summaries(catalog@),
{
    ServerResponse { message: "Get all files success".to_owned(), data: catalog.public_files() }
}

/// Resolves a request for the bytes of file `id`: only a public record is
/// served, with its MIME type and a disposition that carries its name.
pub fn get_file(catalog: &Catalog, id: u128, mode: Option<Mode>) -> (r: Result<FileServe, Error>)
    requires
        catalog.wf(),
    ensures
        r is Ok <==> holds_public(catalog@, id),
        r matches Err(e) ==> e is NotFound,
        r matches Ok(s) ==> ({
            let rec = catalog@[index_of(catalog@, id)];
            &&& s.path@ == rec.path
            &&& s.content_type@ == rec.mime
            &&& s.disposition@ == disposition_text(mode_or_view(mode), rec.name)
        }),
{
    match catalog.find_public(id) {
        Some(f) => {
            let m = match mode {
                Some(m) => m,
                None => Mode::View,
            };
            Ok(
                FileServe {
                    path: f.path.clone(),
                    content_type: f.mime.clone(),
                    disposition: content_disposition(m, f.name.as_str()),
                },
            )
        },
        None => Err(Error::NotFound),
    }
}

/// The body of an error response: the error's text, no data.
pub fn error_response(e: &Error) -> (r: ServerResponse<()>)
    ensures
        r.message@ == error_text(*e),
{
    ServerResponse { message: e.message(), data: () }
}

} // verus!
