//! A virtual file system hosted on the server: its data model, and the
//! request each operation sends.

use crate::client::Client;
use crate::http::{Body, HttpRequest, Method};
use crate::serde::{folder_id_chars, Json};
use crate::upload::UploadDirectory;
use crate::uuid::{uuid_chars, Uuid};
use vstd::prelude::*;

verus! {

/// A handle to a [`Folder`].
#[derive(Clone, Copy, Debug, Eq, Hash, PartialEq, Structural)]
pub struct CustomFolderId(pub Uuid);

impl CustomFolderId {
    /// Returns the underlying [`Uuid`].
    pub fn as_inner(&self) -> (r: Uuid)
        ensures
            r == self.0,
    {
        self.0
    }
}

impl From<Uuid> for CustomFolderId {
    fn from(uuid: Uuid) -> (r: Self) {
        CustomFolderId(uuid)
    }
}

impl vstd::std_specs::convert::FromSpecImpl<Uuid> for CustomFolderId {
    open spec fn obeys_from_spec() -> bool {
        true
    }

    open spec fn from_spec(uuid: Uuid) -> CustomFolderId {
        CustomFolderId(uuid)
    }
}

/// A handle to a [`File`].
#[derive(Clone, Copy, Debug, Eq, Hash, PartialEq, Structural)]
pub struct FileId(pub Uuid);

impl FileId {
    /// Returns the underlying [`Uuid`].
    pub fn as_inner(&self) -> (r: Uuid)
        ensures
            r == self.0,
    {
        self.0
    }
}

impl From<Uuid> for FileId {
    fn from(uuid: Uuid) -> (r: Self) {
        FileId(uuid)
    }
}

impl vstd::std_specs::convert::FromSpecImpl<Uuid> for FileId {
    open spec fn obeys_from_spec() -> bool {
        true
    }

    open spec fn from_spec(uuid: Uuid) -> FileId {
        FileId(uuid)
    }
}

/// A handle to a [`Revision`].
#[derive(Clone, Copy, Debug, Eq, Hash, PartialEq, Structural)]
pub struct RevisionId(pub Uuid);

impl RevisionId {
    /// Returns the underlying [`Uuid`].
    pub fn as_inner(&self) -> (r: Uuid)
        ensures
            r == self.0,
    {
        self.0
    }
}

impl From<Uuid> for RevisionId {
    fn from(uuid: Uuid) -> (r: Self) {
        RevisionId(uuid)
    }
}

impl vstd::std_specs::convert::FromSpecImpl<Uuid> for RevisionId {
    open spec fn obeys_from_spec() -> bool {
        true
    }

    open spec fn from_spec(uuid: Uuid) -> RevisionId {
        RevisionId(uuid)
    }
}

/// An identifier of a folder in the virtual file system.
#[derive(Clone, Copy, Debug, Eq, Hash, PartialEq, Structural)]
pub enum FolderId {
    /// A special folder containing files and folders marked as favorites
    /// for quick access. It owns none of its contents: it merely holds
    /// references to other places in the virtual file system.
    Favorites,
    /// The root folder of the virtual file system.
    Root,
    /// A user-created folder.
    Custom(CustomFolderId),
    /// The folder containing trashed files.
    Trashed,
}

impl From<CustomFolderId> for FolderId {
    fn from(id: CustomFolderId) -> (r: Self) {
        FolderId::Custom(id)
    }
}

impl vstd::std_specs::convert::FromSpecImpl<CustomFolderId> for FolderId {
    open spec fn obeys_from_spec() -> bool {
        true
    }

    open spec fn from_spec(id: CustomFolderId) -> FolderId {
        FolderId::Custom(id)
    }
}

/// The color of a folder.
#[derive(Clone, Copy, Debug, Eq, Hash, PartialEq, Structural)]
pub enum FolderColor {
    /// An aqua-colored folder.
    Aqua,
    /// A black-colored folder.
    Black,
    /// A blue-colored folder.
    Blue,
    /// A brown-colored folder.
    Brown,
    /// A green-colored folder.
    Green,
    /// An orange-colored folder.
    Orange,
    /// A pink-colored folder.
    Pink,
    /// A purple-colored folder.
    Purple,
    /// A red-colored folder.
    Red,
    /// A white-colored folder.
    White,
    /// A yellow-colored folder.
    Yellow,
}

/// The name a folder color bears on the wire.
pub open spec fn color_wire_chars(c: FolderColor) -> Seq<char> {
    match c {
        FolderColor::Aqua => "aqua"@,
        FolderColor::Black => "black"@,
        FolderColor::Blue => "blue"@,
        FolderColor::Brown => "brown"@,
        FolderColor::Green => "green"@,
        FolderColor::Orange => "orange"@,
        FolderColor::Pink => "pink"@,
        FolderColor::Purple => "purple"@,
        FolderColor::Red => "red"@,
        FolderColor::White => "white"@,
        FolderColor::Yellow => "yellow"@,
    }
}

impl FolderColor {
    /// The color's name on the wire.
    pub fn as_str(&self) -> (r: &'static str)
        ensures
            r@ == color_wire_chars(*self),
    {
        match self {
            FolderColor::Aqua => "aqua",
            FolderColor::Black => "black",
            FolderColor::Blue => "blue",
            FolderColor::Brown => "brown",
            FolderColor::Green => "green",
            FolderColor::Orange => "orange",
            FolderColor::Pink => "pink",
            FolderColor::Purple => "purple",
            FolderColor::Red => "red",
            FolderColor::White => "white",
            FolderColor::Yellow => "yellow",
        }
    }
}

impl Default for FolderColor {
    /// New folders are yellow unless a color is chosen.
    fn default() -> (r: Self)
        ensures
            r == FolderColor::Yellow,
    {
        FolderColor::Yellow
    }
}

/// The state of a file or folder in the virtual file system.
#[derive(Clone, Copy, Debug, Eq, Hash, PartialEq, Structural)]
pub enum State {
    /// An active file or folder.
    Active,
    /// A trashed file or folder.
    Trashed,
    /// A deleted file or folder.
    Deleted,
}

/// A template for a file.
#[derive(Clone, Copy, Debug, Eq, Hash, PartialEq)]
pub enum Template<'a> {
    /// The default template for documents.
    Word,
    /// The default template for spreadsheets.
    Excel,
    /// The default template for presentations.
    PowerPoint,
    /// A custom school-specific template, identified by a template
    /// identifier string.
    Custom(&'a str),
}

/// The name a template type bears on the wire; every custom template is
/// announced as `template` and carries its reference in a field of its own.
pub open spec fn template_wire_chars(t: Template<'_>) -> Seq<char> {
    match t {
        Template::Word => "word"@,
        Template::Excel => "excel"@,
        Template::PowerPoint => "powerpoint"@,
        Template::Custom(_) => "template"@,
    }
}

impl<'a> Template<'a> {
    /// The template type's name on the wire.
    pub fn as_str(&self) -> (r: &'static str)
        ensures
            r@ == template_wire_chars(*self),
    {
        match self {
            Template::Word => "word",
            Template::Excel => "excel",
            Template::PowerPoint => "powerpoint",
            Template::Custom(_) => "template",
        }
    }
}

/// A point in time with a fixed offset from UTC, as the platform reports
/// one: a count of whole seconds since the Unix epoch, the fraction of a
/// second in nanoseconds, and the local offset in seconds east of UTC.
#[derive(Clone, Copy, Debug, Eq, Hash, PartialEq, Structural)]
pub struct DateTime {
    /// Whole seconds since 1970-01-01T00:00:00Z.
    pub unix_seconds: i64,
    /// The fraction of a second, in nanoseconds.
    pub nanoseconds: u32,
    /// The local offset, in seconds east of UTC.
    pub offset_seconds: i32,
}

/// A revision of a file in the virtual file system.
#[derive(Debug, Hash)]
pub struct Revision {
    /// The date when the revision was made.
    pub date: DateTime,
    /// The identifier of the associated file.
    pub file_id: FileId,
    /// The name of the associated file.
    pub file_name: String,
    /// The size of the associated file in bytes.
    pub file_size: u64,
    /// The revision's identifier.
    pub id: RevisionId,
}

/// A file in the virtual file system.
#[derive(Debug, Hash)]
pub struct File {
    /// The file's current revision.
    pub current_revision: Revision,
    /// The identifier of the file's current revision.
    pub current_revision_id: RevisionId,
    /// The date when the file's content was last changed.
    pub date_changed: DateTime,
    /// The date when the file was created.
    pub date_created: DateTime,
    /// The date when an action was last performed on the file, including
    /// actions that might not be immediately obvious, like downloading.
    pub date_recent_action: DateTime,
    /// The date when the file's state last changed.
    pub date_state_changed: DateTime,
    /// The file's identifier.
    pub id: FileId,
    /// `true` if the file is marked as favorite.
    pub is_favorite: bool,
    /// The file's name.
    pub name: String,
    /// The identifier of the file's parent folder. Trashed files always
    /// list the root folder here; query the state to see whether a file is
    /// trashed.
    pub parent_id: FolderId,
    /// The file's state.
    pub state: State,
}

/// A user-created folder in the virtual file system.
#[derive(Debug, Hash)]
pub struct Folder {
    /// The folder's color.
    pub color: FolderColor,
    /// The date when the folder was last changed.
    pub date_changed: DateTime,
    /// The date when the folder was created.
    pub date_created: DateTime,
    /// The date when the folder's state last changed.
    pub date_state_changed: DateTime,
    /// `true` if the folder has subfolders.
    pub has_subfolders: bool,
    /// The folder's identifier.
    pub id: CustomFolderId,
    /// `true` if the folder is marked as favorite.
    pub is_favorite: bool,
    /// The folder's name.
    pub name: String,
    /// The identifier of the folder's parent folder. Trashed folders always
    /// list the root folder here.
    pub parent_id: FolderId,
    /// The folder's state.
    pub state: State,
}

/// A history entry representing an action performed on a file or folder.
#[derive(Debug, Hash)]
pub struct HistoryEntry {
    /// The date when the recorded event happened.
    pub date: DateTime,
    /// `true` if the entry represents a download-like event, like viewing
    /// or downloading the file.
    pub is_download_event: bool,
    /// `true` if the entry represents a special event.
    pub is_special_event: bool,
    /// A textual representation of the recorded event.
    pub text: String,
    /// The user who performed the action.
    pub user: HistoryEntryUser,
}

/// A user who performed an action on a file or folder.
#[derive(Debug, Hash)]
pub struct HistoryEntryUser {
    /// The user's identifier.
    pub id: String,
    /// The user's name.
    pub name: String,
    /// The user's picture hash.
    pub picture_hash: String,
}

impl Clone for Revision {
    fn clone(&self) -> (r: Self)
        ensures
            r == *self,
    {
        Revision {
            date: self.date,
            file_id: self.file_id,
            file_name: self.file_name.clone(),
            file_size: self.file_size,
            id: self.id,
        }
    }
}

impl Clone for File {
    fn clone(&self) -> (r: Self)
        ensures
            r == *self,
    {
        File {
            current_revision: self.current_revision.clone(),
            current_revision_id: self.current_revision_id,
            date_changed: self.date_changed,
            date_created: self.date_created,
            date_recent_action: self.date_recent_action,
            date_state_changed: self.date_state_changed,
            id: self.id,
            is_favorite: self.is_favorite,
            name: self.name.clone(),
            parent_id: self.parent_id,
            state: self.state,
        }
    }
}

impl Clone for Folder {
    fn clone(&self) -> (r: Self)
        ensures
            r == *self,
    {
        Folder {
            color: self.color,
            date_changed: self.date_changed,
            date_created: self.date_created,
            date_state_changed: self.date_state_changed,
            has_subfolders: self.has_subfolders,
            id: self.id,
            is_favorite: self.is_favorite,
            name: self.name.clone(),
            parent_id: self.parent_id,
            state: self.state,
        }
    }
}

impl Clone for HistoryEntryUser {
    fn clone(&self) -> (r: Self)
        ensures
            r == *self,
    {
        HistoryEntryUser {
            id: self.id.clone(),
            name: self.name.clone(),
            picture_hash: self.picture_hash.clone(),
        }
    }
}

impl Clone for HistoryEntry {
    fn clone(&self) -> (r: Self)
        ensures
            r == *self,
    {
        HistoryEntry {
            date: self.date,
            is_download_event: self.is_download_event,
            is_special_event: self.is_special_event,
            text: self.text.clone(),
            user: self.user.clone(),
        }
    }
}

// Each operation below issues exactly one HTTP round trip; the functions
// here build the request it sends. The application performs the round trip,
// classifies the status with `classify_status`, and decodes the JSON
// response into the types above.

/// Changes a folder's color; the response carries the modified folder.
///
/// The server rejects the request if the folder doesn't exist.
pub fn change_folder_color(client: &Client, id: CustomFolderId, new_color: FolderColor) -> (r:
    HttpRequest)
    ensures
        r.method == Method::Post,
        r.url@ == client@ + "/mydoc/api/v1/folders/"@ + uuid_chars(id.0.0) + "/change-color"@,
        r.body matches Body::Json(f) && f@.len() == 1 && f@[0].0@ == "newColor"@ && f@[0].1
            == Json::FolderColor(new_color),
{
    let mut f: Vec<(&'static str, Json)> = Vec::new();
    f.push(("newColor", Json::FolderColor(new_color)));
    let s = id.0.to_hyphenated();
    HttpRequest {
        method: Method::Post,
        url: String::from_str(client.url()).concat("/mydoc/api/v1/folders/").concat(
            s.as_str(),
        ).concat("/change-color"),
        body: Body::Json(f),
    }
}

/// Copies a file into the destination folder; the response carries the
/// newly created copy.
///
/// The server rejects the request if the source file doesn't exist, if the
/// destination is the favorites or trash pseudo-folder, or if the
/// destination folder doesn't exist.
pub fn copy_file(client: &Client, source: FileId, destination: FolderId) -> (r: HttpRequest)
    ensures
        r.method == Method::Post,
        r.url@ == client@ + "/mydoc/api/v1/files/"@ + uuid_chars(source.0.0) + "/copy"@,
        r.body matches Body::Json(f) && f@.len() == 1 && f@[0].0@ == "parentId"@ && f@[0].1
            == Json::FolderId(destination),
{
    let mut f: Vec<(&'static str, Json)> = Vec::new();
    f.push(("parentId", Json::FolderId(destination)));
    let s = source.0.to_hyphenated();
    HttpRequest {
        method: Method::Post,
        url: String::from_str(client.url()).concat("/mydoc/api/v1/files/").concat(
            s.as_str(),
        ).concat("/copy"),
        body: Body::Json(f),
    }
}

/// Copies a folder into the destination folder; the response carries the
/// newly created copy.
///
/// The server rejects the request if the source folder doesn't exist, if
/// the destination is the favorites or trash pseudo-folder, if the
/// destination folder doesn't exist, or if the destination is the source
/// folder itself.
pub fn copy_folder(client: &Client, source: CustomFolderId, destination: FolderId) -> (r:
    HttpRequest)
    ensures
        r.method == Method::Post,
        r.url@ == client@ + "/mydoc/api/v1/folders/"@ + uuid_chars(source.0.0) + "/copy"@,
        r.body matches Body::Json(f) && f@.len() == 1 && f@[0].0@ == "parentId"@ && f@[0].1
            == Json::FolderId(destination),
{
    let mut f: Vec<(&'static str, Json)> = Vec::new();
    f.push(("parentId", Json::FolderId(destination)));
    let s = source.0.to_hyphenated();
    HttpRequest {
        method: Method::Post,
        url: String::from_str(client.url()).concat("/mydoc/api/v1/folders/").concat(
            s.as_str(),
        ).concat("/copy"),
        body: Body::Json(f),
    }
}

/// Creates a file from a template. The template's extension gets appended
/// to the file name unless the name already has that extension.
///
/// The server rejects the request if the destination folder doesn't exist,
/// if the file name contains an illegal character or starts with a `.`, or
/// if the template doesn't exist.
pub fn create_file_from_template(
    client: &Client,
    parent_id: FolderId,
    name: &str,
    template: Template<'_>,
) -> (r: HttpRequest)
    ensures
        r.method == Method::Post,
        r.url@ == client@ + "/mydoc/api/v1/files/createfromtemplate"@,
        r.body matches Body::Json(f) && f@.len() >= 3 && f@[0].0@ == "fileName"@ && (f@[0].1
            matches Json::Str(s) && s@ == name@) && f@[1].0@ == "targetFolderId"@ && f@[1].1
            == Json::FolderId(parent_id) && f@[2].0@ == "templateType"@ && (f@[2].1 matches
            Json::Str(s) && s@ == template_wire_chars(template)),
        r.body matches Body::Json(f) && (template matches Template::Custom(reference) ==> (
        f@.len() == 4 && f@[3].0@ == "templateReference"@ && (f@[3].1 matches Json::Str(s) && s@
            == reference@))),
        r.body matches Body::Json(f) && (!(template matches Template::Custom(_)) ==> f@.len()
            == 3),
{
    let mut f: Vec<(&'static str, Json)> = Vec::new();
    f.push(("fileName", Json::Str(String::from_str(name))));
    f.push(("targetFolderId", Json::FolderId(parent_id)));
    f.push(("templateType", Json::Str(String::from_str(template.as_str()))));
    if let Template::Custom(reference) = template {
        f.push(("templateReference", Json::Str(String::from_str(reference))));
    }
    HttpRequest {
        method: Method::Post,
        url: String::from_str(client.url()).concat("/mydoc/api/v1/files/createfromtemplate"),
        body: Body::Json(f),
    }
}

/// Creates a folder in the given parent folder; the response carries the
/// newly created folder. A parenthesized number may be appended to the name
/// to distinguish it from same-named siblings.
///
/// The server rejects the request if the parent folder doesn't exist or if
/// the folder name is illegal.
pub fn create_folder(client: &Client, parent_id: FolderId, name: &str, color: FolderColor) -> (r:
    HttpRequest)
    ensures
        r.method == Method::Post,
        r.url@ == client@ + "/mydoc/api/v1/folders/"@,
        r.body matches Body::Json(f) && f@.len() == 3 && f@[0].0@ == "color"@ && f@[0].1
            == Json::FolderColor(color) && f@[1].0@ == "name"@ && (f@[1].1 matches Json::Str(s)
            && s@ == name@) && f@[2].0@ == "parentId"@ && f@[2].1 == Json::FolderId(parent_id),
{
    let mut f: Vec<(&'static str, Json)> = Vec::new();
    f.push(("color", Json::FolderColor(color)));
    f.push(("name", Json::Str(String::from_str(name))));
    f.push(("parentId", Json::FolderId(parent_id)));
    HttpRequest {
        method: Method::Post,
        url: String::from_str(client.url()).concat("/mydoc/api/v1/folders/"),
        body: Body::Json(f),
    }
}

/// Permanently deletes a file from the virtual file system; `trash_file`
/// moves it to the trash instead.
///
/// The server rejects the request if the file doesn't exist.
pub fn delete_file(client: &Client, id: FileId) -> (r: HttpRequest)
    ensures
        r.method == Method::Delete,
        r.url@ == client@ + "/mydoc/api/v1/files/"@ + uuid_chars(id.0.0),
        r.body matches Body::Empty,
{
    let s = id.0.to_hyphenated();
    HttpRequest {
        method: Method::Delete,
        url: String::from_str(client.url()).concat("/mydoc/api/v1/files/").concat(s.as_str()),
        body: Body::Empty,
    }
}

/// Permanently deletes a folder from the virtual file system;
/// `trash_folder` moves it to the trash instead.
///
/// The server rejects the request if the folder doesn't exist.
pub fn delete_folder(client: &Client, id: CustomFolderId) -> (r: HttpRequest)
    ensures
        r.method == Method::Delete,
        r.url@ == client@ + "/mydoc/api/v1/folders/"@ + uuid_chars(id.0.0),
        r.body matches Body::Empty,
{
    let s = id.0.to_hyphenated();
    HttpRequest {
        method: Method::Delete,
        url: String::from_str(client.url()).concat("/mydoc/api/v1/folders/").concat(s.as_str()),
        body: Body::Empty,
    }
}

/// Downloads a file's contents as a raw byte stream.
///
/// The server rejects the request if the file doesn't exist.
pub fn download_file(client: &Client, id: FileId) -> (r: HttpRequest)
    ensures
        r.method == Method::Get,
        r.url@ == client@ + "/mydoc/api/v1/files/"@ + uuid_chars(id.0.0) + "/download"@,
        r.body matches Body::Empty,
{
    let s = id.0.to_hyphenated();
    HttpRequest {
        method: Method::Get,
        url: String::from_str(client.url()).concat("/mydoc/api/v1/files/").concat(
            s.as_str(),
        ).concat("/download"),
        body: Body::Empty,
    }
}

/// Downloads a file's contents at a specific revision as a raw byte
/// stream.
///
/// The server rejects the request if the file doesn't exist, or if the
/// revision doesn't exist or isn't associated with the file.
pub fn download_revision(client: &Client, file_id: FileId, revision_id: RevisionId) -> (r:
    HttpRequest)
    ensures
        r.method == Method::Get,
        r.url@ == client@ + "/mydoc/api/v1/files/"@ + uuid_chars(file_id.0.0) + "/revisions/"@
            + uuid_chars(revision_id.0.0) + "/download"@,
        r.body matches Body::Empty,
{
    let fs = file_id.0.to_hyphenated();
    let rs = revision_id.0.to_hyphenated();
    HttpRequest {
        method: Method::Get,
        url: String::from_str(client.url()).concat("/mydoc/api/v1/files/").concat(
            fs.as_str(),
        ).concat("/revisions/").concat(rs.as_str()).concat("/download"),
        body: Body::Empty,
    }
}

/// Fetches the history of a file, sorted by date in descending order.
/// Nonexistent files produce an empty list.
pub fn get_file_history(client: &Client, id: FileId) -> (r: HttpRequest)
    ensures
        r.method == Method::Get,
        r.url@ == client@ + "/mydoc/api/v1/files/"@ + uuid_chars(id.0.0) + "/history"@,
        r.body matches Body::Empty,
{
    let s = id.0.to_hyphenated();
    HttpRequest {
        method: Method::Get,
        url: String::from_str(client.url()).concat("/mydoc/api/v1/files/").concat(
            s.as_str(),
        ).concat("/history"),
        body: Body::Empty,
    }
}

/// Fetches a file's revisions, in arbitrary order. Nonexistent files
/// produce an empty list.
pub fn get_file_revisions(client: &Client, id: FileId) -> (r: HttpRequest)
    ensures
        r.method == Method::Get,
        r.url@ == client@ + "/mydoc/api/v1/files/"@ + uuid_chars(id.0.0) + "/revisions"@,
        r.body matches Body::Empty,
{
    let s = id.0.to_hyphenated();
    HttpRequest {
        method: Method::Get,
        url: String::from_str(client.url()).concat("/mydoc/api/v1/files/").concat(
            s.as_str(),
        ).concat("/revisions"),
        body: Body::Empty,
    }
}

/// Fetches the contents of a folder, in arbitrary order. The root folder's
/// listing lives at the bare listing path; every other folder identifier is
/// appended to it in its wire spelling.
///
/// The server rejects the request if the folder doesn't exist.
pub fn get_folder_contents(client: &Client, id: FolderId) -> (r: HttpRequest)
    ensures
        r.method == Method::Get,
        r.body matches Body::Empty,
        id == FolderId::Root ==> r.url@ == client@ + "/mydoc/api/v1/directory-listing"@,
        id != FolderId::Root ==> r.url@ == client@ + "/mydoc/api/v1/directory-listing/"@
            + folder_id_chars(id),
{
    if id == FolderId::Root {
        HttpRequest {
            method: Method::Get,
            url: String::from_str(client.url()).concat("/mydoc/api/v1/directory-listing"),
            body: Body::Empty,
        }
    } else {
        let s = id.to_wire_string();
        HttpRequest {
            method: Method::Get,
            url: String::from_str(client.url()).concat("/mydoc/api/v1/directory-listing/").concat(
                s.as_str(),
            ),
            body: Body::Empty,
        }
    }
}

/// Fetches the history of a folder, sorted by date in descending order.
/// Nonexistent folders produce an empty list.
pub fn get_folder_history(client: &Client, id: CustomFolderId) -> (r: HttpRequest)
    ensures
        r.method == Method::Get,
        r.url@ == client@ + "/mydoc/api/v1/folders/"@ + uuid_chars(id.0.0) + "/history"@,
        r.body matches Body::Empty,
{
    let s = id.0.to_hyphenated();
    HttpRequest {
        method: Method::Get,
        url: String::from_str(client.url()).concat("/mydoc/api/v1/folders/").concat(
            s.as_str(),
        ).concat("/history"),
        body: Body::Empty,
    }
}

/// Fetches the folder's path as breadcrumbs: a list of folder identifiers.
///
/// The server rejects the request if the folder doesn't exist.
pub fn get_folder_parents(client: &Client, id: CustomFolderId) -> (r: HttpRequest)
    ensures
        r.method == Method::Get,
        r.url@ == client@ + "/mydoc/api/v1/folders/"@ + uuid_chars(id.0.0) + "/parents"@,
        r.body matches Body::Empty,
{
    let s = id.0.to_hyphenated();
    HttpRequest {
        method: Method::Get,
        url: String::from_str(client.url()).concat("/mydoc/api/v1/folders/").concat(
            s.as_str(),
        ).concat("/parents"),
        body: Body::Empty,
    }
}

/// Fetches the recently modified files, sorted by modification date in
/// descending order.
pub fn get_recent_files(client: &Client) -> (r: HttpRequest)
    ensures
        r.method == Method::Get,
        r.url@ == client@ + "/mydoc/api/v1/files/recent"@,
        r.body matches Body::Empty,
{
    HttpRequest {
        method: Method::Get,
        url: String::from_str(client.url()).concat("/mydoc/api/v1/files/recent"),
        body: Body::Empty,
    }
}

/// Marks a file as favorite; the response carries the modified file.
///
/// The server rejects the request if the file doesn't exist.
pub fn mark_file_as_favorite(client: &Client, id: FileId) -> (r: HttpRequest)
    ensures
        r.method == Method::Post,
        r.url@ == client@ + "/mydoc/api/v1/files/"@ + uuid_chars(id.0.0) + "/mark-as-favourite"@,
        r.body matches Body::Empty,
{
    let s = id.0.to_hyphenated();
    HttpRequest {
        method: Method::Post,
        url: String::from_str(client.url()).concat("/mydoc/api/v1/files/").concat(
            s.as_str(),
        ).concat("/mark-as-favourite"),
        body: Body::Empty,
    }
}

/// Marks a folder as favorite; the response carries the modified folder.
///
/// The server rejects the request if the folder doesn't exist.
pub fn mark_folder_as_favorite(client: &Client, id: CustomFolderId) -> (r: HttpRequest)
    ensures
        r.method == Method::Post,
        r.url@ == client@ + "/mydoc/api/v1/folders/"@ + uuid_chars(id.0.0) + "/mark-as-favourite"@,
        r.body matches Body::Empty,
{
    let s = id.0.to_hyphenated();
    HttpRequest {
        method: Method::Post,
        url: String::from_str(client.url()).concat("/mydoc/api/v1/folders/").concat(
            s.as_str(),
        ).concat("/mark-as-favourite"),
        body: Body::Empty,
    }
}

/// Moves a file into the destination folder; the response carries the
/// moved file.
///
/// The server rejects the request if the source file doesn't exist, if the
/// destination is the favorites or trash pseudo-folder, if the destination
/// folder doesn't exist, or if the destination is the file's current
/// parent folder.
pub fn move_file(client: &Client, source: FileId, destination: FolderId) -> (r: HttpRequest)
    ensures
        r.method == Method::Post,
        r.url@ == client@ + "/mydoc/api/v1/files/"@ + uuid_chars(source.0.0) + "/move"@,
        r.body matches Body::Json(f) && f@.len() == 1 && f@[0].0@ == "parentId"@ && f@[0].1
            == Json::FolderId(destination),
{
    let mut f: Vec<(&'static str, Json)> = Vec::new();
    f.push(("parentId", Json::FolderId(destination)));
    let s = source.0.to_hyphenated();
    HttpRequest {
        method: Method::Post,
        url: String::from_str(client.url()).concat("/mydoc/api/v1/files/").concat(
            s.as_str(),
        ).concat("/move"),
        body: Body::Json(f),
    }
}

/// Moves a folder into the destination folder; the response carries the
/// moved folder.
///
/// The server rejects the request if the source folder doesn't exist, if
/// the destination is the favorites or trash pseudo-folder, if the
/// destination folder doesn't exist, if the destination is the source's
/// current parent folder, or if the destination is the source itself.
pub fn move_folder(client: &Client, source: CustomFolderId, destination: FolderId) -> (r:
    HttpRequest)
    ensures
        r.method == Method::Post,
        r.url@ == client@ + "/mydoc/api/v1/folders/"@ + uuid_chars(source.0.0) + "/move"@,
        r.body matches Body::Json(f) && f@.len() == 1 && f@[0].0@ == "parentId"@ && f@[0].1
            == Json::FolderId(destination),
{
    let mut f: Vec<(&'static str, Json)> = Vec::new();
    f.push(("parentId", Json::FolderId(destination)));
    let s = source.0.to_hyphenated();
    HttpRequest {
        method: Method::Post,
        url: String::from_str(client.url()).concat("/mydoc/api/v1/folders/").concat(
            s.as_str(),
        ).concat("/move"),
        body: Body::Json(f),
    }
}

/// Changes a file's name; the response carries the modified file.
///
/// The server rejects the request if the file doesn't exist, if the new
/// name contains `/`, `:`, `*`, `?`, `"`, `\`, `<`, `>` or `|`, if it
/// starts or ends with a `.`, or if it equals the current name.
pub fn rename_file(client: &Client, id: FileId, new_name: &str) -> (r: HttpRequest)
    ensures
        r.method == Method::Post,
        r.url@ == client@ + "/mydoc/api/v1/files/"@ + uuid_chars(id.0.0) + "/rename"@,
        r.body matches Body::Json(f) && f@.len() == 1 && f@[0].0@ == "newName"@ && (f@[0].1
            matches Json::Str(s) && s@ == new_name@),
{
    let mut f: Vec<(&'static str, Json)> = Vec::new();
    f.push(("newName", Json::Str(String::from_str(new_name))));
    let s = id.0.to_hyphenated();
    HttpRequest {
        method: Method::Post,
        url: String::from_str(client.url()).concat("/mydoc/api/v1/files/").concat(
            s.as_str(),
        ).concat("/rename"),
        body: Body::Json(f),
    }
}

/// Changes a folder's name; the response carries the modified folder.
///
/// The server rejects the request if the folder doesn't exist, if the new
/// name is illegal, or if it equals the current name.
pub fn rename_folder(client: &Client, id: CustomFolderId, new_name: &str) -> (r: HttpRequest)
    ensures
        r.method == Method::Post,
        r.url@ == client@ + "/mydoc/api/v1/folders/"@ + uuid_chars(id.0.0) + "/rename"@,
        r.body matches Body::Json(f) && f@.len() == 1 && f@[0].0@ == "newName"@ && (f@[0].1
            matches Json::Str(s) && s@ == new_name@),
{
    let mut f: Vec<(&'static str, Json)> = Vec::new();
    f.push(("newName", Json::Str(String::from_str(new_name))));
    let s = id.0.to_hyphenated();
    HttpRequest {
        method: Method::Post,
        url: String::from_str(client.url()).concat("/mydoc/api/v1/folders/").concat(
            s.as_str(),
        ).concat("/rename"),
        body: Body::Json(f),
    }
}

/// Restores a trashed file to an active folder; the response carries the
/// restored file. Restoring a file to a trashed folder permanently deletes
/// it, even though the response lists the trashed folder as its parent.
///
/// The server rejects the request if the source file isn't trashed or
/// doesn't exist, if the destination is the favorites or trash
/// pseudo-folder, or if the destination folder doesn't exist.
pub fn restore_file(client: &Client, id: FileId, destination: FolderId) -> (r: HttpRequest)
    ensures
        r.method == Method::Post,
        r.url@ == client@ + "/mydoc/api/v1/files/"@ + uuid_chars(id.0.0) + "/restore"@,
        r.body matches Body::Json(f) && f@.len() == 1 && f@[0].0@ == "parentId"@ && f@[0].1
            == Json::FolderId(destination),
{
    let mut f: Vec<(&'static str, Json)> = Vec::new();
    f.push(("parentId", Json::FolderId(destination)));
    let s = id.0.to_hyphenated();
    HttpRequest {
        method: Method::Post,
        url: String::from_str(client.url()).concat("/mydoc/api/v1/files/").concat(
            s.as_str(),
        ).concat("/restore"),
        body: Body::Json(f),
    }
}

/// Restores a trashed folder to an active folder; the response carries the
/// restored folder. The server's observed behavior is asymmetric and is
/// preserved as documented: restoring an active folder to another active
/// folder moves it, restoring an active folder to itself permanently
/// deletes it, and restoring any folder to a trashed folder permanently
/// deletes it.
///
/// The server rejects the request if the source or destination folder
/// doesn't exist.
pub fn restore_folder(client: &Client, id: CustomFolderId, destination: FolderId) -> (r:
    HttpRequest)
    ensures
        r.method == Method::Post,
        r.url@ == client@ + "/mydoc/api/v1/folders/"@ + uuid_chars(id.0.0) + "/restore"@,
        r.body matches Body::Json(f) && f@.len() == 1 && f@[0].0@ == "parentId"@ && f@[0].1
            == Json::FolderId(destination),
{
    let mut f: Vec<(&'static str, Json)> = Vec::new();
    f.push(("parentId", Json::FolderId(destination)));
    let s = id.0.to_hyphenated();
    HttpRequest {
        method: Method::Post,
        url: String::from_str(client.url()).concat("/mydoc/api/v1/folders/").concat(
            s.as_str(),
        ).concat("/restore"),
        body: Body::Json(f),
    }
}

/// Restores a file to the given revision; the response carries the new
/// revision, which shares only its content with its ancestor and is listed
/// separately in the history.
///
/// The server rejects the request if the file doesn't exist, or if the
/// revision doesn't exist or isn't associated with the file.
pub fn restore_revision(client: &Client, file_id: FileId, revision_id: RevisionId) -> (r:
    HttpRequest)
    ensures
        r.method == Method::Post,
        r.url@ == client@ + "/mydoc/api/v1/files/"@ + uuid_chars(file_id.0.0) + "/revisions/"@
            + uuid_chars(revision_id.0.0) + "/restore"@,
        r.body matches Body::Empty,
{
    let fs = file_id.0.to_hyphenated();
    let rs = revision_id.0.to_hyphenated();
    HttpRequest {
        method: Method::Post,
        url: String::from_str(client.url()).concat("/mydoc/api/v1/files/").concat(
            fs.as_str(),
        ).concat("/revisions/").concat(rs.as_str()).concat("/restore"),
        body: Body::Empty,
    }
}

/// Moves a file to the trash folder; `delete_file` removes it permanently
/// instead.
///
/// The server rejects the request if the file doesn't exist.
pub fn trash_file(client: &Client, id: FileId) -> (r: HttpRequest)
    ensures
        r.method == Method::Post,
        r.url@ == client@ + "/mydoc/api/v1/files/"@ + uuid_chars(id.0.0) + "/trash"@,
        r.body matches Body::Empty,
{
    let s = id.0.to_hyphenated();
    HttpRequest {
        method: Method::Post,
        url: String::from_str(client.url()).concat("/mydoc/api/v1/files/").concat(
            s.as_str(),
        ).concat("/trash"),
        body: Body::Empty,
    }
}

/// Moves a folder to the trash folder; `delete_folder` removes it
/// permanently instead.
///
/// The server rejects the request if the folder doesn't exist.
pub fn trash_folder(client: &Client, id: CustomFolderId) -> (r: HttpRequest)
    ensures
        r.method == Method::Post,
        r.url@ == client@ + "/mydoc/api/v1/folders/"@ + uuid_chars(id.0.0) + "/trash"@,
        r.body matches Body::Empty,
{
    let s = id.0.to_hyphenated();
    HttpRequest {
        method: Method::Post,
        url: String::from_str(client.url()).concat("/mydoc/api/v1/folders/").concat(
            s.as_str(),
        ).concat("/trash"),
        body: Body::Empty,
    }
}

/// Unmarks a file as favorite; the response carries the modified file.
///
/// The server rejects the request if the file doesn't exist.
pub fn unmark_file_as_favorite(client: &Client, id: FileId) -> (r: HttpRequest)
    ensures
        r.method == Method::Post,
        r.url@ == client@ + "/mydoc/api/v1/files/"@ + uuid_chars(id.0.0) + "/unmark-as-favourite"@,
        r.body matches Body::Empty,
{
    let s = id.0.to_hyphenated();
    HttpRequest {
        method: Method::Post,
        url: String::from_str(client.url()).concat("/mydoc/api/v1/files/").concat(
            s.as_str(),
        ).concat("/unmark-as-favourite"),
        body: Body::Empty,
    }
}

/// Unmarks a folder as favorite; the response carries the modified folder.
///
/// The server rejects the request if the folder doesn't exist.
pub fn unmark_folder_as_favorite(client: &Client, id: CustomFolderId) -> (r: HttpRequest)
    ensures
        r.method == Method::Post,
        r.url@ == client@ + "/mydoc/api/v1/folders/"@ + uuid_chars(id.0.0)
            + "/unmark-as-favourite"@,
        r.body matches Body::Empty,
{
    let s = id.0.to_hyphenated();
    HttpRequest {
        method: Method::Post,
        url: String::from_str(client.url()).concat("/mydoc/api/v1/folders/").concat(
            s.as_str(),
        ).concat("/unmark-as-favourite"),
        body: Body::Empty,
    }
}

/// Binds the contents of a previously populated upload directory to a
/// folder; the response lists the uploaded files. The upload directory
/// retains its contents and can be reused until it expires. Uploading to a
/// trashed folder does nothing.
///
/// The server rejects the request if the destination folder doesn't exist
/// or if the upload directory is invalid.
pub fn upload(client: &Client, parent_id: FolderId, upload_dir: &UploadDirectory) -> (r:
    HttpRequest)
    ensures
        r.method == Method::Post,
        r.url@ == client@ + "/mydoc/api/v1/files/upload"@,
        r.body matches Body::Json(f) && f@.len() == 2 && f@[0].0@ == "parentId"@ && f@[0].1
            == Json::FolderId(parent_id) && f@[1].0@ == "uploadDir"@ && (f@[1].1 matches Json::Str(
            s,
        ) && s@ == upload_dir@),
{
    let mut f: Vec<(&'static str, Json)> = Vec::new();
    f.push(("parentId", Json::FolderId(parent_id)));
    f.push(("uploadDir", Json::Str(String::from_str(upload_dir.as_str()))));
    HttpRequest {
        method: Method::Post,
        url: String::from_str(client.url()).concat("/mydoc/api/v1/files/upload"),
        body: Body::Json(f),
    }
}

/// Projects an upload response to its files. The response lists files in a
/// map keyed by the file's identifier; the keys are untrusted and
/// discarded, since each file carries its own identifier field.
pub fn upload_response_files(entries: &Vec<(String, File)>) -> (r: Vec<File>)
    ensures
        r@ == entries@.map_values(|p: (String, File)| p.1),
{
    let n = entries.len();
    let mut out: Vec<File> = Vec::new();
    let mut i: usize = 0;
    while i < n
        invariant
            0 <= i <= n,
            n == entries@.len(),
            out@ == entries@.subrange(0, i as int).map_values(|p: (String, File)| p.1),
        decreases n - i,
    {
        out.push(entries[i].1.clone());
        proof {
            assert(out@ =~= entries@.subrange(0, i + 1).map_values(|p: (String, File)| p.1));
        }
        i += 1;
    }
    proof {
        assert(entries@.subrange(0, n as int) =~= entries@);
    }
    out
}

} // verus!
