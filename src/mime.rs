use vstd::prelude::*;

use crate::error::Error;
use crate::model::{File, FileModel, RecordView};
use crate::text::{extension, extension_of, has_extension};

verus! {

/// The MIME type that the static extension table gives for an extension,
/// `application/octet-stream` where the table has none.
pub uninterp spec fn mime_of_extension(ext: Seq<char>) -> Seq<char>;

/// The (extension, MIME type) that a content signature shows, if one is recognised.
pub uninterp spec fn signature_type(content: Seq<u8>) -> Option<(Seq<char>, Seq<char>)>;

/// Relies on `mime_guess::from_ext` with `MimeGuess::first_or_octet_stream`: a
/// lookup of the extension in mime_guess's static table, depending on the
/// extension alone.
#[verifier::external_body]
fn guess_mime(ext: &str) -> (r: String)
    ensures
        r@ == mime_of_extension(ext@),
{
    mime_guess::from_ext(ext).first_or_octet_stream().to_string()
}

/// Relies on `infer::get`, with `Type::extension` and `Type::mime_type`: the
/// file type whose magic number the bytes begin with, depending on the bytes alone.
#[verifier::external_body]
fn sniff(content: &[u8]) -> (r: Option<(String, String)>)
    ensures
        match r {
            Some((e, m)) => signature_type(content@) == Some((e@, m@)),
            None => signature_type(content@) is None,
        },
{
    match infer::get(content) {
        Some(kind) => Some((kind.extension().to_string(), kind.mime_type().to_string())),
        None => None,
    }
}

/// The record made from a file whose name carries an extension, with `mime`
/// as the type found for that extension.
pub open spec fn guessed_record(f: File, mime: Seq<char>) -> RecordView {
    RecordView {
        id: f.id,
        name: f.name@,
        mime: mime,
        visibility: f.visibility,
        path: f.path@,
    }
}

/// The record made from a file whose content showed extension `ext` and type
/// `mime`: the extension is appended to the name.
pub open spec fn sniffed_record(f: File, ext: Seq<char>, mime: Seq<char>) -> RecordView {
    RecordView {
        id: f.id,
        name: f.name@ + seq!['.'] + ext,
        mime: mime,
        visibility: f.visibility,
        path: f.path@,
    }
}

/// The record that a new file becomes, given its content: the name's extension
/// decides the type where there is one, else the content's signature; `None`
/// where neither is known.
pub open spec fn finalized(f: File, content: Seq<u8>) -> Option<RecordView> {
    if has_extension(f.name@) {
        Some(guessed_record(f, mime_of_extension(extension_of(f.name@))))
    } else {
        match signature_type(content) {
            Some((e, m)) => Some(sniffed_record(f, e, m)),
            None => None,
        }
    }
}

/// Makes the record of a file whose name carries an extension, from the MIME
/// type found for that extension.
pub fn record_from_guess(f: File, mime: String) -> (r: FileModel)
    ensures
        r@ == guessed_record(f, mime@),
{
    FileModel { id: f.id, name: f.name, mime, visibility: f.visibility, path: f.path }
}

/// Makes the record of a file without extension from what its content's
/// signature showed; fails where no signature was recognised.
pub fn record_from_signature(f: File, found: Option<(String, String)>) -> (r: Result<
    FileModel,
    Error,
>)
    ensures
        match found {
            Some((e, m)) => r matches Ok(rec) && rec@ == sniffed_record(f, e@, m@),
            None => r matches Err(Error::FilesystemError(_)),
        },
{
    match found {
        Some((ext, mime)) => {
            proof {
                reveal_strlit(".");
                assert("."@ =~= seq!['.']);
            }
            let name = f.name.concat(".").concat(ext.as_str());
            Ok(FileModel { id: f.id, name, mime, visibility: f.visibility, path: f.path })
        },
        None => Err(Error::FilesystemError("cannot recognise the file type".to_owned())),
    }
}

/// Gives a new file its MIME type, and its extension where the name has none.
/// `content` is the file's content; it is read only where the name has no
/// extension.
pub fn finalize(f: File, content: &[u8]) -> (r: Result<FileModel, Error>)
    ensures
        match finalized(f, content@) {
            Some(rec) => r matches Ok(m) && m@ == rec,
            None => r matches Err(Error::FilesystemError(_)),
        },
{
    match extension(f.name.as_str()) {
        Some(ext) => {
            let mime = guess_mime(ext.as_str());
            Ok(record_from_guess(f, mime))
        },
        None => record_from_signature(f, sniff(content)),
    }
}

} // verus!
