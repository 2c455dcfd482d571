//! File uploads for use around the platform: staging raw bytes into an
//! upload directory, whose contents a later `upload` call binds to a
//! folder.

use crate::client::Client;
use crate::http::{Body, HttpRequest, Method};
use vstd::prelude::*;
use vstd::string::StrSliceExecFns;
use vstd::utf8::encode_utf8;

verus! {

/// The request that asks for a handle to an empty upload destination. The
/// platform answers with a randomized 30-character hexadecimal token.
pub fn get_upload_directory(client: &Client) -> (r: HttpRequest)
    ensures
        r.method == Method::Get,
        r.url@ == client@ + "/upload/api/v1/get-upload-directory"@,
        r.body matches Body::Empty,
{
    HttpRequest {
        method: Method::Get,
        url: String::from_str(client.url()).concat("/upload/api/v1/get-upload-directory"),
        body: Body::Empty,
    }
}

/// A file that can be uploaded: a name and its raw bytes.
#[derive(Debug)]
pub struct File {
    /// The name the file is staged under. The platform does not always
    /// keep it intact: everything up to a `/` or `\` is dropped, and any
    /// other illegal character is replaced with a `_`.
    pub name: String,
    /// The file's content.
    pub content: Vec<u8>,
}

impl Clone for File {
    fn clone(&self) -> (r: Self)
        ensures
            r.name@ == self.name@,
            r.content@ == self.content@,
    {
        let content = self.content.clone();
        proof {
            assert(content@ =~= self.content@);
        }
        File { name: self.name.clone(), content }
    }
}

impl File {
    /// Creates a [`FileBuilder`] from a collection of bytes.
    pub fn from_bytes(bytes: Vec<u8>) -> (r: FileBuilder)
        ensures
            r.content@ == bytes@,
    {
        FileBuilder { content: bytes }
    }

    /// Creates a [`FileBuilder`] from a string, staged as its UTF-8 bytes.
    pub fn from_text(string: String) -> (r: FileBuilder)
        ensures
            r.content@ == encode_utf8(string@),
    {
        FileBuilder { content: string.as_str().as_bytes_vec() }
    }
}

/// A builder to construct the properties of a [`File`].
#[derive(Debug)]
pub struct FileBuilder {
    /// The content of the file under construction.
    pub content: Vec<u8>,
}

impl FileBuilder {
    /// Sets the file name and consumes the builder, returning a [`File`].
    pub fn build(self, file_name: String) -> (r: File)
        ensures
            r.name@ == file_name@,
            r.content@ == self.content@,
    {
        File { name: file_name, content: self.content }
    }
}

/// A handle to an upload destination; its view is the token string.
///
/// Any nonempty string can be used as an upload directory: tokens need not
/// come from [`get_upload_directory`] to be valid.
#[derive(Clone, Debug, Eq, Hash, PartialEq)]
pub struct UploadDirectory {
    inner: String,
}

impl View for UploadDirectory {
    type V = Seq<char>;

    closed spec fn view(&self) -> Seq<char> {
        self.inner@
    }
}

impl UploadDirectory {
    /// Returns a slice of the underlying string.
    pub fn as_str(&self) -> (r: &str)
        ensures
            r@ == self@,
    {
        self.inner.as_str()
    }
}

impl From<String> for UploadDirectory {
    fn from(s: String) -> (r: UploadDirectory)
        ensures
            r@ == s@,
    {
        UploadDirectory { inner: s }
    }
}

impl vstd::std_specs::convert::FromSpecImpl<String> for UploadDirectory {
    open spec fn obeys_from_spec() -> bool {
        false
    }

    closed spec fn from_spec(s: String) -> UploadDirectory {
        UploadDirectory { inner: s }
    }
}

/// The request that stages one file into an upload directory, on the
/// legacy non-versioned endpoint: a multipart form whose `uploadDir` field
/// carries the token and whose `file` part carries the file's name and
/// bytes. The application encodes the multipart body.
///
/// The server rejects the request if the file name contains a `:` or
/// starts or ends with a `.`.
#[derive(Debug)]
pub struct UploadRequest {
    /// The absolute URL to post the form to.
    pub url: String,
    /// The value of the `uploadDir` form field.
    pub upload_dir: String,
    /// The file sent as the `file` part of the form.
    pub file: File,
}

/// Builds the staging request that uploads `file` to `upload_dir`.
pub fn upload_file(client: &Client, upload_dir: UploadDirectory, file: File) -> (r: UploadRequest)
    ensures
        r.url@ == client@ + "/Upload/Upload/Index"@,
        r.upload_dir@ == upload_dir@,
        r.file == file,
{
    UploadRequest {
        url: String::from_str(client.url()).concat("/Upload/Upload/Index"),
        upload_dir: String::from_str(upload_dir.as_str()),
        file,
    }
}

} // verus!
