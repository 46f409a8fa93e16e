//! Files on a remote host: what a request does there, and how it is answered.

use crate::base64_text::{decode_text, encode_bytes};
use crate::error::{ApiError, ErrorView};
use crate::json::{Json, JsonObject, JsonView, NumberView};
use crate::remote_path::{join_remote_path, path_name, path_parent};
use crate::text::{
    chars_of, ends_with, find_char, has_char, joined, joined3, lowercase, same_text, u64_text,
    utf8_text,
};
use vstd::prelude::*;
use vstd::string::*;
use vstd::utf8::*;

verus! {

// ---------------------------------------------------------------------------------------------
// Modes
// ---------------------------------------------------------------------------------------------

/// What kind of file a mode is of.
pub open spec fn file_type(mode: u32) -> Seq<char> {
    if mode & 0o170000 == 0o040000 {
        "directory"@
    } else if mode & 0o170000 == 0o120000 {
        "link"@
    } else {
        "file"@
    }
}

/// What kind of file a mode is of.
pub fn file_type_from_perm(mode: u32) -> (r: &'static str)
    ensures
        r@ == file_type(mode),
{
    let kind: u32 = mode & 0o170000;
    if kind == 0o040000 {
        "directory"
    } else if kind == 0o120000 {
        "link"
    } else {
        "file"
    }
}

/// The letter of a permission, or a hyphen where it is not given.
pub open spec fn permission(mode: u32, bit: u32, letter: char) -> char {
    if mode & bit != 0 {
        letter
    } else {
        '-'
    }
}

/// A mode in the notation of `ls -l`.
pub open spec fn permissions(mode: u32) -> Seq<char> {
    seq![
        if mode & 0o170000 == 0o040000 {
            'd'
        } else if mode & 0o170000 == 0o120000 {
            'l'
        } else {
            '-'
        },
        permission(mode, 0o400, 'r'),
        permission(mode, 0o200, 'w'),
        permission(mode, 0o100, 'x'),
        permission(mode, 0o040, 'r'),
        permission(mode, 0o020, 'w'),
        permission(mode, 0o010, 'x'),
        permission(mode, 0o004, 'r'),
        permission(mode, 0o002, 'w'),
        permission(mode, 0o001, 'x'),
    ]
}

fn permission_letter(mode: u32, bit: u32, letter: char) -> (r: char)
    ensures
        r == permission(mode, bit, letter),
{
    if mode & bit != 0 {
        letter
    } else {
        '-'
    }
}

/// A mode in the notation of `ls -l`.
pub fn mode_to_permissions(mode: u32) -> (r: String)
    ensures
        r@ == permissions(mode),
{
    let kind: u32 = mode & 0o170000;
    let mut out = String::new();
    out.push(
        if kind == 0o040000 {
            'd'
        } else if kind == 0o120000 {
            'l'
        } else {
            '-'
        },
    );
    out.push(permission_letter(mode, 0o400, 'r'));
    out.push(permission_letter(mode, 0o200, 'w'));
    out.push(permission_letter(mode, 0o100, 'x'));
    out.push(permission_letter(mode, 0o040, 'r'));
    out.push(permission_letter(mode, 0o020, 'w'));
    out.push(permission_letter(mode, 0o010, 'x'));
    out.push(permission_letter(mode, 0o004, 'r'));
    out.push(permission_letter(mode, 0o002, 'w'));
    out.push(permission_letter(mode, 0o001, 'x'));
    proof {
        assert(out@ =~= permissions(mode));
    }
    out
}

/// Whether a byte of a text is an `x`.
pub open spec fn x_at(text: Seq<char>, i: int) -> bool {
    let bytes = encode_utf8(text);
    i < bytes.len() && bytes[i] == 'x' as u8
}

/// Whether permissions let anybody execute a file.
pub open spec fn marked_executable(text: Seq<char>) -> bool {
    x_at(text, 3) || x_at(text, 6) || x_at(text, 9)
}

/// The extensions of files that can be executed.
pub open spec fn executable_extensions() -> Seq<Seq<char>> {
    seq![
        ".sh"@,
        ".py"@,
        ".pl"@,
        ".rb"@,
        ".js"@,
        ".php"@,
        ".bash"@,
        ".zsh"@,
        ".fish"@,
        ".bin"@,
        ".exe"@,
        ".out"@,
    ]
}

/// Whether a file may be executed by its name: it has no extension, or one of those, given its
/// name in small letters.
pub open spec fn executable_name(name: Seq<char>, lowered: Seq<char>) -> bool {
    !name.contains('.') || exists|i: int|
        0 <= i < executable_extensions().len()
            && #[trigger] executable_extensions()[i].is_suffix_of(lowered)
}

/// Whether a file may be executed by its name, given its name in small letters.
pub fn has_executable_name(name: &str, lowered: &str) -> (r: bool)
    ensures
        r == executable_name(name@, lowered@),
{
    if !has_char(name, '.') {
        return true;
    }
    let extensions: Vec<&str> = vec![
        ".sh",
        ".py",
        ".pl",
        ".rb",
        ".js",
        ".php",
        ".bash",
        ".zsh",
        ".fish",
        ".bin",
        ".exe",
        ".out",
    ];
    proof {
        assert(extensions@.map_values(|e: &str| e@) =~= executable_extensions());
    }
    for i in 0..extensions.len()
        invariant
            extensions@.map_values(|e: &str| e@) == executable_extensions(),
            name@.contains('.'),
            forall|j: int|
                0 <= j < i ==> !#[trigger] executable_extensions()[j].is_suffix_of(lowered@),
    {
        proof {
            assert(executable_extensions()[i as int] == extensions@[i as int]@);
        }
        if ends_with(lowered, extensions[i]) {
            return true;
        }
    }
    false
}

fn byte_is_x(text: &str, i: usize) -> (r: bool)
    ensures
        r == x_at(text@, i as int),
{
    let bytes = text.as_bytes();
    i < bytes.len() && bytes[i] == 'x' as u8
}

/// Whether a file can be executed, by its permissions and its name.
pub fn is_executable_permissions(permissions: &str, file_name: &str) -> (r: bool)
    ensures
        r == (marked_executable(permissions@) && executable_name(
            file_name@,
            crate::text::lowered(file_name@),
        )),
        is_ascii_chars(file_name@) ==> r == (marked_executable(permissions@) && executable_name(
            file_name@,
            file_name@.map_values(|c: char| crate::text::ascii_lowercase(c)),
        )),
{
    let has_execute: bool = byte_is_x(permissions, 3) || byte_is_x(permissions, 6) || byte_is_x(
        permissions,
        9,
    );
    has_execute && has_executable_name(file_name, lowercase(file_name).as_str())
}

/// The notation of a mode lets anybody execute the file just where one of the three bits does.
pub proof fn executable_marks_are_the_bits(mode: u32)
    ensures
        marked_executable(permissions(mode)) <==> mode & 0o111 != 0,
{
    let text = permissions(mode);
    assert(is_ascii_chars(text));
    is_ascii_chars_encode_utf8(text);
    let bytes = encode_utf8(text);
    assert(bytes[3] == text[3] as u8);
    assert(bytes[6] == text[6] as u8);
    assert(bytes[9] == text[9] as u8);
    assert(mode & 0o111 != 0 <==> mode & 0o100 != 0 || mode & 0o010 != 0 || mode & 0o001 != 0)
        by (bit_vector);
}

// ---------------------------------------------------------------------------------------------
// Requests
// ---------------------------------------------------------------------------------------------

/// A request about a path in a session.
#[derive(Debug)]
pub struct SessionPathQuery {
    pub session_id: String,
    pub path: Option<String>,
}

/// A request that brings the content of a file.
#[derive(Debug)]
pub struct FileContentRequest {
    pub session_id: String,
    pub path: String,
    pub content: String,
    pub file_name: Option<String>,
}

/// A request for a new folder.
#[derive(Debug)]
pub struct CreateFolderRequest {
    pub session_id: String,
    pub path: String,
    pub folder_name: String,
}

/// A request to delete a file or a folder.
#[derive(Debug)]
pub struct DeleteItemRequest {
    pub session_id: String,
    pub path: String,
    pub is_directory: Option<bool>,
}

/// A request for a new name in the same place.
#[derive(Debug)]
pub struct RenameItemRequest {
    pub session_id: String,
    pub old_path: String,
    pub new_name: String,
}

/// A request for a new place.
#[derive(Debug)]
pub struct MoveItemRequest {
    pub session_id: String,
    pub old_path: String,
    pub new_path: String,
}

/// A request for the content of a file.
#[derive(Debug)]
pub struct DownloadRequest {
    pub session_id: String,
    pub path: String,
}

/// What is to be done on the remote host.
#[derive(Debug)]
pub enum RemoteAction {
    List { path: String },
    Read { path: String },
    Write { path: String, bytes: Vec<u8> },
    MakeDir { path: String, mode: i32 },
    RemoveDir { path: String },
    RemoveFile { path: String },
    Rename { from: String, to: String },
}

/// What is to be done on the remote host, with its texts as characters.
pub enum ActionView {
    List { path: Seq<char> },
    Read { path: Seq<char> },
    Write { path: Seq<char>, bytes: Seq<u8> },
    MakeDir { path: Seq<char>, mode: int },
    RemoveDir { path: Seq<char> },
    RemoveFile { path: Seq<char> },
    Rename { from: Seq<char>, to: Seq<char> },
}

impl View for RemoteAction {
    type V = ActionView;

    open spec fn view(&self) -> ActionView {
        match *self {
            RemoteAction::List { path } => ActionView::List { path: path@ },
            RemoteAction::Read { path } => ActionView::Read { path: path@ },
            RemoteAction::Write { path, bytes } => ActionView::Write {
                path: path@,
                bytes: bytes@,
            },
            RemoteAction::MakeDir { path, mode } => ActionView::MakeDir {
                path: path@,
                mode: mode as int,
            },
            RemoteAction::RemoveDir { path } => ActionView::RemoveDir { path: path@ },
            RemoteAction::RemoveFile { path } => ActionView::RemoveFile { path: path@ },
            RemoteAction::Rename { from, to } => ActionView::Rename { from: from@, to: to@ },
        }
    }
}

/// What a request leads to as views.
pub open spec fn action_view(r: Result<RemoteAction, ApiError>) -> Result<ActionView, ErrorView> {
    match r {
        Ok(action) => Ok(action@),
        Err(error) => Err(error@),
    }
}

/// The directory that a list is asked of: the root where none is named.
pub open spec fn listed_path(path: Option<Seq<char>>) -> Seq<char> {
    match path {
        Some(text) => text,
        None => "/"@,
    }
}

/// The directory that a list is asked of.
pub fn list_path(query: &SessionPathQuery) -> (r: String)
    ensures
        r@ == listed_path(crate::json::string_view(query.path)),
{
    match &query.path {
        Some(path) => path.clone(),
        None => "/".to_owned(),
    }
}

/// Lists a directory.
pub fn file_list(query: &SessionPathQuery) -> (r: RemoteAction)
    ensures
        r@ == (ActionView::List { path: listed_path(crate::json::string_view(query.path)) }),
{
    RemoteAction::List { path: list_path(query) }
}

/// Reads a file; the request has to name it.
pub fn file_read(query: &SessionPathQuery) -> (r: Result<RemoteAction, ApiError>)
    ensures
        action_view(r) == match query.path {
            Some(path) => Ok::<ActionView, ErrorView>(ActionView::Read { path: path@ }),
            None => Err(crate::error::bad_request("path is required"@)),
        },
{
    match &query.path {
        Some(path) => Ok(RemoteAction::Read { path: path.clone() }),
        None => Err(ApiError::bad_request("path is required")),
    }
}

/// What writes a text to a file.
pub open spec fn write_view(path: Seq<char>, content: Seq<char>) -> ActionView {
    ActionView::Write { path, bytes: encode_utf8(content) }
}

/// Writes the content of a request as it stands.
pub fn file_write(request: &FileContentRequest) -> (r: RemoteAction)
    ensures
        r@ == write_view(request.path@, request.content@),
{
    RemoteAction::Write {
        path: request.path.clone(),
        bytes: request.content.as_str().as_bytes_vec(),
    }
}

/// The base64 text of an upload: what follows the first comma, or everything where there is
/// none.
pub open spec fn upload_text(content: Seq<char>) -> Seq<char> {
    if content.contains(',') {
        content.skip(crate::text::first_index(content, ',') + 1)
    } else {
        content
    }
}

/// The base64 text of an upload.
pub fn upload_data(content: &str) -> (r: &str)
    ensures
        r@ == upload_text(content@),
{
    let all = chars_of(content);
    let count: usize = all.len();
    let at = find_char(&all, 0, ',');
    proof {
        assert(all@.subrange(0, all@.len() as int) =~= content@);
        crate::text::lemma_first_index_bounds(content@, ',');
    }
    if at < count {
        proof {
            assert(content@.subrange(at + 1, count as int) =~= content@.skip(at + 1));
        }
        content.substring_char(at + 1, count)
    } else {
        content
    }
}

/// What an upload brings: the bytes that its text decodes as, or an error where it does not.
pub open spec fn upload_outcome(decoded: Result<Seq<u8>, Seq<char>>) -> Result<
    Seq<u8>,
    ErrorView,
> {
    match decoded {
        Ok(bytes) => Ok(bytes),
        Err(message) => Err(crate::error::bad_request("Invalid upload content: "@ + message)),
    }
}

/// The bytes of an upload as views.
pub open spec fn bytes_view(r: Result<Vec<u8>, ApiError>) -> Result<Seq<u8>, ErrorView> {
    match r {
        Ok(bytes) => Ok(bytes@),
        Err(error) => Err(error@),
    }
}

/// The bytes of an upload, given what its text decodes as.
pub fn uploaded_bytes(decoded: Result<Vec<u8>, String>) -> (r: Result<Vec<u8>, ApiError>)
    ensures
        bytes_view(r) == upload_outcome(
            match decoded {
                Ok(bytes) => Ok(bytes@),
                Err(message) => Err(message@),
            },
        ),
{
    match decoded {
        Ok(bytes) => Ok(bytes),
        Err(message) => Err(
            ApiError::bad_request(joined("Invalid upload content: ", message.as_str()).as_str()),
        ),
    }
}

/// The bytes of an upload.
pub fn decode_upload_content(content: &str) -> (r: Result<Vec<u8>, ApiError>)
    ensures
        bytes_view(r) == upload_outcome(
            crate::base64_text::base64_decoded(upload_text(content@)),
        ),
{
    uploaded_bytes(decode_text(upload_data(content)))
}

/// What an upload leads to.
pub open spec fn upload_action(
    path: Seq<char>,
    file_name: Option<Seq<char>>,
    bytes: Result<Seq<u8>, ErrorView>,
) -> Result<ActionView, ErrorView> {
    match file_name {
        Some(name) => match bytes {
            Ok(content) => Ok(
                ActionView::Write {
                    path: crate::remote_path::joined_path(path, name),
                    bytes: content,
                },
            ),
            Err(error) => Err(error),
        },
        None => Err(crate::error::bad_request("fileName is required"@)),
    }
}

/// Writes the decoded content of a request to a file in a directory.
pub fn file_upload(request: &FileContentRequest) -> (r: Result<RemoteAction, ApiError>)
    ensures
        action_view(r) == upload_action(
            request.path@,
            crate::json::string_view(request.file_name),
            upload_outcome(crate::base64_text::base64_decoded(upload_text(request.content@))),
        ),
{
    let name: &str = match &request.file_name {
        Some(name) => name.as_str(),
        None => return Err(ApiError::bad_request("fileName is required")),
    };
    let path = join_remote_path(request.path.as_str(), name);
    match decode_upload_content(request.content.as_str()) {
        Ok(bytes) => Ok(RemoteAction::Write { path, bytes }),
        Err(error) => Err(error),
    }
}

/// Reads a file for download.
pub fn file_download(request: &DownloadRequest) -> (r: RemoteAction)
    ensures
        r@ == (ActionView::Read { path: request.path@ }),
{
    RemoteAction::Read { path: request.path.clone() }
}

/// What a request for a new file leads to.
pub open spec fn create_view(
    path: Seq<char>,
    file_name: Option<Seq<char>>,
    content: Seq<char>,
) -> Result<ActionView, ErrorView> {
    upload_action(path, file_name, Ok(encode_utf8(content)))
}

/// Writes the content of a request as it stands to a file in a directory.
pub fn file_create(request: &FileContentRequest) -> (r: Result<RemoteAction, ApiError>)
    ensures
        action_view(r) == create_view(
            request.path@,
            crate::json::string_view(request.file_name),
            request.content@,
        ),
{
    match &request.file_name {
        Some(name) => Ok(
            RemoteAction::Write {
                path: join_remote_path(request.path.as_str(), name.as_str()),
                bytes: request.content.as_str().as_bytes_vec(),
            },
        ),
        None => Err(ApiError::bad_request("fileName is required")),
    }
}

/// What makes a folder in a directory.
pub open spec fn folder_view(path: Seq<char>, folder_name: Seq<char>) -> ActionView {
    ActionView::MakeDir {
        path: crate::remote_path::joined_path(path, folder_name),
        mode: 0o755,
    }
}

/// Makes a folder in a directory.
pub fn file_mkdir(request: &CreateFolderRequest) -> (r: RemoteAction)
    ensures
        r@ == folder_view(request.path@, request.folder_name@),
{
    RemoteAction::MakeDir {
        path: join_remote_path(request.path.as_str(), request.folder_name.as_str()),
        mode: 0o755,
    }
}

/// What deletes an item.
pub open spec fn delete_view(path: Seq<char>, is_directory: Option<bool>) -> ActionView {
    if is_directory == Some(true) {
        ActionView::RemoveDir { path }
    } else {
        ActionView::RemoveFile { path }
    }
}

/// Deletes a folder where the request says that it is one, and a file otherwise.
pub fn file_delete(request: &DeleteItemRequest) -> (r: RemoteAction)
    ensures
        r@ == delete_view(request.path@, request.is_directory),
{
    if request.is_directory.unwrap_or(false) {
        RemoteAction::RemoveDir { path: request.path.clone() }
    } else {
        RemoteAction::RemoveFile { path: request.path.clone() }
    }
}

/// The path of a new name in a place; without a place, it is in the root.
pub open spec fn renamed_path(parent: Option<Seq<char>>, new_name: Seq<char>) -> Seq<char> {
    crate::remote_path::joined_path(
        match parent {
            Some(place) => place,
            None => "/"@,
        },
        new_name,
    )
}

/// What gives an item a new name, given the place of its old path.
pub open spec fn rename_view(
    old_path: Seq<char>,
    parent: Option<Seq<char>>,
    new_name: Seq<char>,
) -> ActionView {
    ActionView::Rename { from: old_path, to: renamed_path(parent, new_name) }
}

/// Gives an item a new name, given the place of its old path.
pub fn rename_action(request: &RenameItemRequest, parent: Option<String>) -> (r: RemoteAction)
    ensures
        r@ == rename_view(request.old_path@, crate::json::string_view(parent), request.new_name@),
{
    let place: String = match parent {
        Some(place) => place,
        None => "/".to_owned(),
    };
    RemoteAction::Rename {
        from: request.old_path.clone(),
        to: join_remote_path(place.as_str(), request.new_name.as_str()),
    }
}

/// Gives an item a new name in the same place. Where the place is the same text on every
/// machine, the item stays there; otherwise the machine says what the place is.
pub fn file_rename(request: &RenameItemRequest) -> (r: RemoteAction)
    ensures
        exists|parent: Option<Seq<char>>| #[trigger]
            crate::remote_path::parent_fits(request.old_path@, parent) && r@ == rename_view(
                request.old_path@,
                parent,
                request.new_name@,
            ),
        crate::remote_path::plainly_placed(request.old_path@) ==> r@ == rename_view(
            request.old_path@,
            crate::remote_path::parent_path(request.old_path@),
            request.new_name@,
        ),
{
    let parent = path_parent(request.old_path.as_str());
    proof {
        assert(crate::remote_path::parent_fits(
            request.old_path@,
            crate::json::string_view(parent),
        ));
    }
    rename_action(request, parent)
}

/// What gives an item a new place.
pub open spec fn move_view(old_path: Seq<char>, new_path: Seq<char>) -> ActionView {
    ActionView::Rename { from: old_path, to: new_path }
}

/// Gives an item a new place.
pub fn file_move(request: &MoveItemRequest) -> (r: RemoteAction)
    ensures
        r@ == move_view(request.old_path@, request.new_path@),
{
    RemoteAction::Rename { from: request.old_path.clone(), to: request.new_path.clone() }
}

// ---------------------------------------------------------------------------------------------
// Answers
// ---------------------------------------------------------------------------------------------

/// An entry of a directory: its path, and what the host says of it.
#[derive(Debug)]
pub struct RemoteEntry {
    pub path: String,
    pub perm: Option<u32>,
    pub size: Option<u64>,
    pub mtime: Option<u64>,
    pub uid: Option<u32>,
    pub gid: Option<u32>,
}

/// A number in decimal, empty where there is none.
pub open spec fn number_or_empty(n: Option<u32>) -> Seq<char> {
    match n {
        Some(value) => crate::text::decimal(value as int),
        None => ""@,
    }
}

fn number_text(n: Option<u32>) -> (r: String)
    ensures
        r@ == number_or_empty(n),
{
    match n {
        Some(value) => u64_text(value as u64),
        None => "".to_owned(),
    }
}

/// The value, or zero where there is none.
pub open spec fn or_zero(n: Option<u64>) -> int {
    match n {
        Some(value) => value as int,
        None => 0,
    }
}

/// The mode of an entry, zero where the host says nothing.
pub open spec fn entry_mode(entry: RemoteEntry) -> u32 {
    match entry.perm {
        Some(mode) => mode,
        None => 0,
    }
}

/// How an entry is shown in the list of a directory, given whether its permissions and its name
/// make it one that can be executed.
pub open spec fn shown_entry(
    directory: Seq<char>,
    name: Seq<char>,
    runnable: bool,
    entry: RemoteEntry,
) -> JsonView {
    let mode = entry_mode(entry);
    JsonView::Object(
        map![
            "name"@ => JsonView::Text(name),
            "type"@ => JsonView::Text(file_type(mode)),
            "size"@ => if mode & 0o170000 == 0o040000 {
                JsonView::Null
            } else {
                JsonView::Number(NumberView::Integer(or_zero(entry.size)))
            },
            "modified"@ => JsonView::Text(crate::text::decimal(or_zero(entry.mtime))),
            "permissions"@ => JsonView::Text(permissions(mode)),
            "owner"@ => JsonView::Text(number_or_empty(entry.uid)),
            "group"@ => JsonView::Text(number_or_empty(entry.gid)),
            "path"@ => JsonView::Text(crate::remote_path::joined_path(directory, name)),
            "executable"@ => JsonView::Bool(
                mode & 0o170000 != 0o040000 && mode & 0o170000 != 0o120000 && runnable,
            ),
        ],
    )
}

/// Shows an entry of a directory under its name, given whether its permissions and its name
/// make it one that can be executed.
pub fn entry_json(directory: &str, name: &str, runnable: bool, entry: &RemoteEntry) -> (r: Json)
    ensures
        r@ == shown_entry(directory@, name@, runnable, *entry),
{
    let mode: u32 = entry.perm.unwrap_or(0);
    let kind: u32 = mode & 0o170000;
    let size: Json = if kind == 0o040000 {
        Json::Null
    } else {
        Json::from_u64(entry.size.unwrap_or(0))
    };
    let executable: bool = kind != 0o040000 && kind != 0o120000 && runnable;
    Json::Object(
        JsonObject::new().with("name", Json::from_text(name)).with(
            "type",
            Json::from_text(file_type_from_perm(mode)),
        ).with("size", size).with("modified", Json::Text(u64_text(entry.mtime.unwrap_or(0)))).with(
            "permissions",
            Json::Text(mode_to_permissions(mode)),
        ).with("owner", Json::Text(number_text(entry.uid))).with(
            "group",
            Json::Text(number_text(entry.gid)),
        ).with("path", Json::Text(join_remote_path(directory, name))).with(
            "executable",
            Json::Bool(executable),
        ),
    )
}

/// Whether the permissions and the name of an entry make it one that can be executed.
pub open spec fn entry_runnable(name: Seq<char>, entry: RemoteEntry) -> bool {
    marked_executable(permissions(entry_mode(entry))) && executable_name(
        name,
        crate::text::lowered(name),
    )
}

/// How an entry is listed under a name, where it is: an entry without a name is not, and neither
/// is a directory itself or the one above it.
pub open spec fn listed_entry(
    directory: Seq<char>,
    name: Option<Seq<char>>,
    entry: RemoteEntry,
) -> Option<JsonView> {
    match name {
        Some(known) => if known == "."@ || known == ".."@ {
            None
        } else {
            Some(shown_entry(directory, known, entry_runnable(known, entry), entry))
        },
        None => None,
    }
}

/// Lists an entry under a name.
pub fn list_entry(directory: &str, name: Option<String>, entry: &RemoteEntry) -> (r: Option<Json>)
    ensures
        match listed_entry(directory@, crate::json::string_view(name), *entry) {
            Some(shown) => r matches Some(listed) && listed@ == shown,
            None => r is None,
        },
{
    let known = match name {
        Some(known) => known,
        None => return None,
    };
    if same_text(known.as_str(), ".") || same_text(known.as_str(), "..") {
        return None;
    }
    let letters = mode_to_permissions(entry.perm.unwrap_or(0));
    let runnable: bool = is_executable_permissions(letters.as_str(), known.as_str());
    Some(entry_json(directory, known.as_str(), runnable, entry))
}

/// The entries of a directory as they are shown under their names, in their order.
pub open spec fn shown_entries(
    directory: Seq<char>,
    entries: Seq<RemoteEntry>,
    names: Seq<Option<Seq<char>>>,
) -> Seq<JsonView>
    decreases entries.len(),
{
    if entries.len() == 0 {
        Seq::empty()
    } else {
        let before = shown_entries(directory, entries.drop_last(), names.drop_last());
        match listed_entry(directory, names.last(), entries.last()) {
            Some(shown) => before.push(shown),
            None => before,
        }
    }
}

/// How a directory is shown, given the names of its entries.
pub open spec fn list_body(
    directory: Seq<char>,
    entries: Seq<RemoteEntry>,
    names: Seq<Option<Seq<char>>>,
) -> JsonView {
    JsonView::Object(
        map![
            "files"@ => JsonView::Array(shown_entries(directory, entries, names)),
            "path"@ => JsonView::Text(directory),
        ],
    )
}

/// Whether names can be those of the entries of a directory.
pub open spec fn names_fit(entries: Seq<RemoteEntry>, names: Seq<Option<Seq<char>>>) -> bool {
    names.len() == entries.len() && forall|i: int|
        0 <= i < entries.len() ==> crate::remote_path::name_fits(
            (#[trigger] entries[i]).path@,
            names[i],
        )
}

/// The names of entries that have the same names on every machine.
pub open spec fn plain_names(entries: Seq<RemoteEntry>) -> Seq<Option<Seq<char>>> {
    entries.map_values(|entry: RemoteEntry| crate::remote_path::file_name(entry.path@))
}

/// The items of an array as views.
pub open spec fn items_view(items: Seq<Json>) -> Seq<JsonView> {
    items.map_values(|item: Json| item@)
}

/// Shows a directory, given its entries. Where their names are the same on every machine, they
/// are shown under these; otherwise the machine says what the names are.
pub fn file_list_reply(directory: &str, entries: &Vec<RemoteEntry>) -> (r: Json)
    ensures
        exists|names: Seq<Option<Seq<char>>>| #[trigger]
            names_fit(entries@, names) && r@ == list_body(directory@, entries@, names),
        (forall|i: int|
            0 <= i < entries@.len() ==> crate::remote_path::plainly_named(
                (#[trigger] entries@[i]).path@,
            )) ==> r@ == list_body(directory@, entries@, plain_names(entries@)),
{
    let mut files: Vec<Json> = Vec::new();
    let ghost mut names: Seq<Option<Seq<char>>> = Seq::empty();
    proof {
        assert(entries@.take(0) =~= Seq::empty());
        assert(items_view(files@) =~= Seq::empty());
    }
    for i in 0..entries.len()
        invariant
            names.len() == i,
            forall|j: int|
                0 <= j < i ==> crate::remote_path::name_fits(
                    (#[trigger] entries@[j]).path@,
                    names[j],
                ),
            items_view(files@) == shown_entries(directory@, entries@.take(i as int), names),
    {
        let entry = &entries[i];
        let ghost before = files@;
        let name = path_name(entry.path.as_str());
        proof {
            let earlier = names;
            names = names.push(crate::json::string_view(name));
            assert(names.drop_last() =~= earlier);
            assert(entries@.take(i + 1).drop_last() =~= entries@.take(i as int));
        }
        if let Some(shown) = list_entry(directory, name, entry) {
            files.push(shown);
            proof {
                assert(items_view(files@) =~= items_view(before).push(shown@));
            }
        }
    }
    let ghost items = files@;
    let listed = Json::Array(files);
    proof {
        assert(entries@.take(entries@.len() as int) =~= entries@);
        assert(listed@->Array_0 =~= items_view(items));
        assert(names_fit(entries@, names));
        if forall|i: int|
            0 <= i < entries@.len() ==> crate::remote_path::plainly_named(
                (#[trigger] entries@[i]).path@,
            ) {
            assert(names =~= plain_names(entries@));
        }
    }
    Json::Object(
        JsonObject::new().with("files", listed).with("path", Json::from_text(directory)),
    )
}

/// How the content of a file is shown: as text where it is UTF-8, and in base64 otherwise.
pub open spec fn read_body(path: Seq<char>, bytes: Seq<u8>) -> JsonView {
    JsonView::Object(
        map![
            "content"@ => JsonView::Text(
                if valid_utf8(bytes) {
                    decode_utf8(bytes)
                } else {
                    crate::base64_text::base64_encoded(bytes)
                },
            ),
            "path"@ => JsonView::Text(path),
            "encoding"@ => JsonView::Text(
                if valid_utf8(bytes) {
                    "utf8"@
                } else {
                    "base64"@
                },
            ),
        ],
    )
}

/// The body that shows the content of a file.
pub open spec fn content_body(
    path: Seq<char>,
    content: Seq<char>,
    encoding: Seq<char>,
) -> JsonView {
    JsonView::Object(
        map![
            "content"@ => JsonView::Text(content),
            "path"@ => JsonView::Text(path),
            "encoding"@ => JsonView::Text(encoding),
        ],
    )
}

/// Shows the content of a file, given it as text or in base64.
pub fn read_json(path: &str, content: String, encoding: &str) -> (r: Json)
    ensures
        r@ == content_body(path@, content@, encoding@),
        r@ == JsonView::Object(
            map![
                "content"@ => JsonView::Text(content@),
                "path"@ => JsonView::Text(path@),
                "encoding"@ => JsonView::Text(encoding@),
            ],
        ),
{
    Json::Object(
        JsonObject::new().with("content", Json::Text(content)).with(
            "path",
            Json::from_text(path),
        ).with("encoding", Json::from_text(encoding)),
    )
}

/// Shows the content of a file.
pub fn file_read_reply(path: &str, bytes: Vec<u8>) -> (r: Json)
    requires
        valid_utf8(bytes@) || crate::base64_text::encodable(bytes@.len()),
    ensures
        r@ == read_body(path@, bytes@),
{
    match utf8_text(bytes) {
        Ok(text) => read_json(path, text, "utf8"),
        Err(back) => read_json(path, encode_bytes(back.as_slice()), "base64"),
    }
}

/// How a file is handed out for download, given its content in base64 and the name of its path.
/// A path without a name is downloaded as `download`.
pub open spec fn download_body(
    path: Seq<char>,
    content: Seq<char>,
    name: Option<Seq<char>>,
) -> JsonView {
    JsonView::Object(
        map![
            "content"@ => JsonView::Text(content),
            "path"@ => JsonView::Text(path),
            "fileName"@ => JsonView::Text(
                match name {
                    Some(known) => known,
                    None => "download"@,
                },
            ),
            "encoding"@ => JsonView::Text("base64"@),
            "mimeType"@ => JsonView::Text("application/octet-stream"@),
        ],
    )
}

/// Hands a file out for download, given its content in base64 and the name of its path.
pub fn download_json(path: &str, content: String, name: Option<String>) -> (r: Json)
    ensures
        r@ == download_body(path@, content@, crate::json::string_view(name)),
{
    let known: String = match name {
        Some(known) => known,
        None => "download".to_owned(),
    };
    Json::Object(
        JsonObject::new().with("content", Json::Text(content)).with(
            "path",
            Json::from_text(path),
        ).with("fileName", Json::Text(known)).with("encoding", Json::from_text("base64")).with(
            "mimeType",
            Json::from_text("application/octet-stream"),
        ),
    )
}

/// Hands a file out for download. The content is base64 that decodes as the bytes of the file.
/// Where the name of the path is the same on every machine, the file goes by it; otherwise the
/// machine says what the name is.
pub fn file_download_reply(path: &str, bytes: &[u8]) -> (r: Json)
    requires
        crate::base64_text::encodable(bytes@.len()),
    ensures
        exists|name: Option<Seq<char>>| #[trigger]
            crate::remote_path::name_fits(path@, name) && r@ == download_body(
                path@,
                crate::base64_text::base64_encoded(bytes@),
                name,
            ),
        crate::remote_path::plainly_named(path@) ==> r@ == download_body(
            path@,
            crate::base64_text::base64_encoded(bytes@),
            crate::remote_path::file_name(path@),
        ),
        decodes_whole(crate::base64_text::base64_encoded(bytes@), bytes@),
{
    let name = path_name(path);
    proof {
        assert(crate::remote_path::name_fits(path@, crate::json::string_view(name)));
    }
    download_json(path, encode_bytes(bytes), name)
}

/// Whether a text is base64 throughout and decodes as bytes.
pub open spec fn decodes_whole(text: Seq<char>, bytes: Seq<u8>) -> bool {
    &&& crate::base64_text::decodes_as(text, bytes)
    &&& forall|i: int|
        0 <= i < text.len() ==> crate::base64_text::base64_char(#[trigger] text[i])
}

/// The body of an action that was done.
pub open spec fn done_body(message: Seq<char>) -> JsonView {
    JsonView::Object(
        map!["success"@ => JsonView::Bool(true), "message"@ => JsonView::Text(message)],
    )
}

/// What a request was that is done.
#[derive(Clone, Copy, Debug, PartialEq, Eq, Structural)]
pub enum DoneAction {
    Written,
    Uploaded,
    FileCreated,
    FolderCreated,
    Deleted,
    Renamed,
    Moved,
}

/// The words for what was done.
pub open spec fn done_words(done: DoneAction) -> Seq<char> {
    match done {
        DoneAction::Written => "File written successfully"@,
        DoneAction::Uploaded => "File uploaded successfully"@,
        DoneAction::FileCreated => "File created successfully"@,
        DoneAction::FolderCreated => "Folder created successfully"@,
        DoneAction::Deleted => "Item deleted successfully"@,
        DoneAction::Renamed => "Item renamed successfully"@,
        DoneAction::Moved => "Item moved successfully"@,
    }
}

/// Answers a request that is done.
pub fn done_reply(done: DoneAction) -> (r: Json)
    ensures
        r@ == done_body(done_words(done)),
{
    let words: &str = match done {
        DoneAction::Written => "File written successfully",
        DoneAction::Uploaded => "File uploaded successfully",
        DoneAction::FileCreated => "File created successfully",
        DoneAction::FolderCreated => "Folder created successfully",
        DoneAction::Deleted => "Item deleted successfully",
        DoneAction::Renamed => "Item renamed successfully",
        DoneAction::Moved => "Item moved successfully",
    };
    Json::Object(
        JsonObject::new().with("success", Json::Bool(true)).with("message", Json::from_text(words)),
    )
}

/// A step on the remote host that can fail.
#[derive(Clone, Copy, Debug, PartialEq, Eq, Structural)]
pub enum RemoteStep {
    OpenSftp,
    List,
    Open,
    Read,
    Create,
    Write,
    MakeDir,
    Remove,
    Rename,
}

/// The error of a step on the remote host that failed, with the path that it was about.
pub open spec fn remote_error(step: RemoteStep, path: Seq<char>, message: Seq<char>) -> ErrorView {
    match step {
        RemoteStep::OpenSftp => crate::error::internal("Failed to open SFTP: "@ + message),
        RemoteStep::List => crate::error::bad_request(
            "Failed to list "@ + path + ": "@ + message,
        ),
        RemoteStep::Open => crate::error::not_found("Failed to open "@ + path + ": "@ + message),
        RemoteStep::Read => crate::error::internal("Failed to read "@ + path + ": "@ + message),
        RemoteStep::Create => crate::error::bad_request("Failed to open remote file: "@ + message),
        RemoteStep::Write => crate::error::internal("Failed to write remote file: "@ + message),
        RemoteStep::MakeDir => crate::error::bad_request("Failed to create folder: "@ + message),
        RemoteStep::Remove => crate::error::bad_request("Failed to delete item: "@ + message),
        RemoteStep::Rename => crate::error::bad_request("Failed to rename item: "@ + message),
    }
}

/// The error of a step on the remote host that failed.
pub fn remote_failure(step: RemoteStep, path: &str, message: &str) -> (r: ApiError)
    ensures
        r@ == remote_error(step, path@, message@),
{
    match step {
        RemoteStep::OpenSftp => ApiError::internal(
            joined("Failed to open SFTP: ", message).as_str(),
        ),
        RemoteStep::List => ApiError::bad_request(
            joined(joined3("Failed to list ", path, ": ").as_str(), message).as_str(),
        ),
        RemoteStep::Open => ApiError::not_found(
            joined(joined3("Failed to open ", path, ": ").as_str(), message).as_str(),
        ),
        RemoteStep::Read => ApiError::internal(
            joined(joined3("Failed to read ", path, ": ").as_str(), message).as_str(),
        ),
        RemoteStep::Create => ApiError::bad_request(
            joined("Failed to open remote file: ", message).as_str(),
        ),
        RemoteStep::Write => ApiError::internal(
            joined("Failed to write remote file: ", message).as_str(),
        ),
        RemoteStep::MakeDir => ApiError::bad_request(
            joined("Failed to create folder: ", message).as_str(),
        ),
        RemoteStep::Remove => ApiError::bad_request(
            joined("Failed to delete item: ", message).as_str(),
        ),
        RemoteStep::Rename => ApiError::bad_request(
            joined("Failed to rename item: ", message).as_str(),
        ),
    }
}

// ---------------------------------------------------------------------------------------------
// Laws
// ---------------------------------------------------------------------------------------------

/// A file that is downloaded and uploaded again comes out as it was: the content of a download
/// decodes as the bytes of the file, alone and behind the head of a data URL.
pub proof fn downloads_can_be_uploaded(content: Seq<char>, bytes: Seq<u8>, head: Seq<char>)
    requires
        decodes_whole(content, bytes),
        !head.contains(','),
    ensures
        upload_outcome(crate::base64_text::base64_decoded(upload_text(content))) == Ok::<
            Seq<u8>,
            ErrorView,
        >(bytes),
        upload_outcome(
            crate::base64_text::base64_decoded(upload_text(head + seq![','] + content)),
        ) == Ok::<Seq<u8>, ErrorView>(bytes),
{
    if content.contains(',') {
        let i = choose|i: int| 0 <= i < content.len() && content[i] == ',';
        assert(crate::base64_text::base64_char(content[i]));
    }
    let whole = head + seq![','] + content;
    assert(whole[head.len() as int] == ',');
    assert forall|j: int| 0 <= j < head.len() implies whole[j] != ',' by {
        assert(whole[j] == head[j]);
        assert(head.contains(head[j]));
    }
    crate::text::lemma_first_index(whole, ',', head.len() as int);
    assert(whole.contains(','));
    assert(whole.skip(head.len() as int + 1) =~= content);
}

/// A text file that is read and written again comes out as it was.
pub proof fn texts_can_be_written_back(path: Seq<char>, bytes: Seq<u8>)
    requires
        valid_utf8(bytes),
    ensures
        read_body(path, bytes).text_at("content"@) == Some(decode_utf8(bytes)),
        encode_utf8(decode_utf8(bytes)) == bytes,
{
    reveal_strlit("content");
    reveal_strlit("path");
    reveal_strlit("encoding");
    assert("content"@.len() == 7);
    assert("path"@.len() == 4);
    assert("encoding"@.len() == 8);
    decode_utf8_encode_utf8(bytes);
}

/// An item that is renamed has its new name, and stays where it was: on any machine, whatever
/// is the place of the old path, the new path has the new name and the same place.
pub proof fn renaming_stays_in_place(
    old_path: Seq<char>,
    new_name: Seq<char>,
    old_parent: Option<Seq<char>>,
    name: Option<Seq<char>>,
    parent: Option<Seq<char>>,
)
    requires
        crate::remote_path::plainly_placed(old_path),
        crate::remote_path::plain_name(new_name),
        crate::remote_path::portable(new_name),
        crate::remote_path::parent_fits(old_path, old_parent),
        old_parent matches Some(place) && place.len() > 0,
        crate::remote_path::name_fits(renamed_path(old_parent, new_name), name),
        crate::remote_path::parent_fits(renamed_path(old_parent, new_name), parent),
    ensures
        name == Some(new_name),
        parent == old_parent,
{
    let place = old_parent->0;
    crate::remote_path::lemma_renamed_path_is_placed(old_path, new_name);
    crate::remote_path::lemma_joined_path_is_named(place, new_name);
    crate::remote_path::joined_path_ends_in_its_name(place, new_name);
    crate::remote_path::joined_path_lies_in_its_parent(place, new_name);
    crate::remote_path::lemma_parent_has_no_tail(old_path);
}

/// An entry is listed under a path that leads back to its name.
pub proof fn listed_paths_end_in_their_names(
    directory: Seq<char>,
    path: Seq<char>,
    name: Seq<char>,
    name_again: Option<Seq<char>>,
)
    requires
        crate::remote_path::plainly_named(path),
        crate::remote_path::name_fits(path, Some(name)),
        crate::remote_path::portable(crate::remote_path::joined_path(directory, name)),
        crate::remote_path::name_fits(
            crate::remote_path::joined_path(directory, name),
            name_again,
        ),
    ensures
        name_again == Some(name),
{
    crate::remote_path::lemma_file_names_are_plain(path);
    crate::remote_path::lemma_joined_path_is_named(directory, name);
    crate::remote_path::joined_path_ends_in_its_name(directory, name);
}

/// Whether a bit of a mode is set.
pub open spec fn bit_set(mode: u32, bit: int) -> bool {
    (mode >> (bit as u32)) & 1 == 1
}

/// The notation of a mode has ten characters, the last nine of which are the nine low bits, from
/// the highest to the lowest: a hyphen where the bit is not set, and else the letter of its place
/// among `r`, `w` and `x`.
pub proof fn notations_show_every_bit(mode: u32, i: int)
    requires
        0 <= i < 9,
    ensures
        permissions(mode).len() == 10,
        !bit_set(mode, 8 - i) ==> permissions(mode)[i + 1] == '-',
        bit_set(mode, 8 - i) ==> permissions(mode)[i + 1] == "rwx"@[i % 3],
{
    reveal_strlit("rwx");
    assert(((mode & 0o400 != 0) == ((mode >> 8u32) & 1 == 1))
        && ((mode & 0o200 != 0) == ((mode >> 7u32) & 1 == 1))
        && ((mode & 0o100 != 0) == ((mode >> 6u32) & 1 == 1))
        && ((mode & 0o040 != 0) == ((mode >> 5u32) & 1 == 1))
        && ((mode & 0o020 != 0) == ((mode >> 4u32) & 1 == 1))
        && ((mode & 0o010 != 0) == ((mode >> 3u32) & 1 == 1))
        && ((mode & 0o004 != 0) == ((mode >> 2u32) & 1 == 1))
        && ((mode & 0o002 != 0) == ((mode >> 1u32) & 1 == 1))
        && ((mode & 0o001 != 0) == ((mode >> 0u32) & 1 == 1)))
        by (bit_vector);
    assert(i == 0 || i == 1 || i == 2 || i == 3 || i == 4 || i == 5 || i == 6 || i == 7 || i == 8);
}

/// The letters of a notation, one by one.
proof fn lemma_letters(mode: u32, shown: Seq<char>)
    requires
        shown == permissions(mode),
    ensures
        shown[1] == permission(mode, 0o400, 'r'),
        shown[2] == permission(mode, 0o200, 'w'),
        shown[3] == permission(mode, 0o100, 'x'),
        shown[4] == permission(mode, 0o040, 'r'),
        shown[5] == permission(mode, 0o020, 'w'),
        shown[6] == permission(mode, 0o010, 'x'),
        shown[7] == permission(mode, 0o004, 'r'),
        shown[8] == permission(mode, 0o002, 'w'),
        shown[9] == permission(mode, 0o001, 'x'),
{
}

/// Two modes whose letters are the same have the same nine low bits.
proof fn lemma_same_bits(a: u32, b: u32)
    requires
        permission(a, 0o400, 'r') == permission(b, 0o400, 'r'),
        permission(a, 0o200, 'w') == permission(b, 0o200, 'w'),
        permission(a, 0o100, 'x') == permission(b, 0o100, 'x'),
        permission(a, 0o040, 'r') == permission(b, 0o040, 'r'),
        permission(a, 0o020, 'w') == permission(b, 0o020, 'w'),
        permission(a, 0o010, 'x') == permission(b, 0o010, 'x'),
        permission(a, 0o004, 'r') == permission(b, 0o004, 'r'),
        permission(a, 0o002, 'w') == permission(b, 0o002, 'w'),
        permission(a, 0o001, 'x') == permission(b, 0o001, 'x'),
    ensures
        a & 0o777 == b & 0o777,
{
    assert(a & 0o777 == b & 0o777) by (bit_vector)
        requires
            (a & 0o400 != 0) == (b & 0o400 != 0),
            (a & 0o200 != 0) == (b & 0o200 != 0),
            (a & 0o100 != 0) == (b & 0o100 != 0),
            (a & 0o040 != 0) == (b & 0o040 != 0),
            (a & 0o020 != 0) == (b & 0o020 != 0),
            (a & 0o010 != 0) == (b & 0o010 != 0),
            (a & 0o004 != 0) == (b & 0o004 != 0),
            (a & 0o002 != 0) == (b & 0o002 != 0),
            (a & 0o001 != 0) == (b & 0o001 != 0),
    ;
}

/// The nine low bits of a mode can be read back from its notation: two modes that are shown alike
/// have the same ones.
pub proof fn notations_tell_modes_apart(a: u32, b: u32)
    requires
        permissions(a) == permissions(b),
    ensures
        a & 0o777 == b & 0o777,
{
    lemma_letters(a, permissions(a));
    lemma_letters(b, permissions(a));
    lemma_same_bits(a, b);
}

/// The kind of a file is the number in the four bits above the low twelve: 4 is a directory, 10
/// a link, and all else a file. The notation begins with it.
pub proof fn modes_tell_the_kind(mode: u32)
    ensures
        ({
            let kind = (mode / 4096) % 16;
            &&& file_type(mode) == if kind == 4 {
                "directory"@
            } else if kind == 10 {
                "link"@
            } else {
                "file"@
            }
            &&& permissions(mode)[0] == if kind == 4 {
                'd'
            } else if kind == 10 {
                'l'
            } else {
                '-'
            }
        }),
{
    assert((mode & 0o170000 == 0o040000) == ((mode / 4096) % 16 == 4) && (mode & 0o170000
        == 0o120000) == ((mode / 4096) % 16 == 10)) by (bit_vector);
}

/// A file can be executed by its name where the name has no dot, or ends, in letters of any size,
/// in one of twelve extensions; and by nothing else.
pub proof fn executable_names_end_like_this(name: Seq<char>, lowered: Seq<char>)
    ensures
        executable_name(name, lowered) <==> {
            ||| !name.contains('.')
            ||| ".sh"@.is_suffix_of(lowered)
            ||| ".py"@.is_suffix_of(lowered)
            ||| ".pl"@.is_suffix_of(lowered)
            ||| ".rb"@.is_suffix_of(lowered)
            ||| ".js"@.is_suffix_of(lowered)
            ||| ".php"@.is_suffix_of(lowered)
            ||| ".bash"@.is_suffix_of(lowered)
            ||| ".zsh"@.is_suffix_of(lowered)
            ||| ".fish"@.is_suffix_of(lowered)
            ||| ".bin"@.is_suffix_of(lowered)
            ||| ".exe"@.is_suffix_of(lowered)
            ||| ".out"@.is_suffix_of(lowered)
        },
{
    let all = executable_extensions();
    if executable_name(name, lowered) && name.contains('.') {
        let i = choose|i: int| 0 <= i < all.len() && #[trigger] all[i].is_suffix_of(lowered);
        assert(all[i].is_suffix_of(lowered));
    }
    assert(all[0] == ".sh"@);
    assert(all[1] == ".py"@);
    assert(all[2] == ".pl"@);
    assert(all[3] == ".rb"@);
    assert(all[4] == ".js"@);
    assert(all[5] == ".php"@);
    assert(all[6] == ".bash"@);
    assert(all[7] == ".zsh"@);
    assert(all[8] == ".fish"@);
    assert(all[9] == ".bin"@);
    assert(all[10] == ".exe"@);
    assert(all[11] == ".out"@);
}

/// The names of the members of a shown entry are all different.
proof fn lemma_entry_names()
    ensures
        "name"@.len() == 4,
        "name"@[0] == 'n',
        "type"@.len() == 4,
        "type"@[0] == 't',
        "size"@.len() == 4,
        "size"@[0] == 's',
        "modified"@.len() == 8,
        "modified"@[2] == 'd',
        "permissions"@.len() == 11,
        "owner"@.len() == 5,
        "owner"@[0] == 'o',
        "group"@.len() == 5,
        "group"@[0] == 'g',
        "path"@.len() == 4,
        "path"@[0] == 'p',
        "executable"@.len() == 10,
        "files"@.len() == 5,
        "files"@[0] == 'f',
        "content"@.len() == 7,
        "encoding"@.len() == 8,
        "encoding"@[2] == 'c',
        "fileName"@.len() == 8,
        "fileName"@[2] == 'l',
        "mimeType"@.len() == 8,
        "mimeType"@[2] == 'm',
{
    reveal_strlit("name");
    reveal_strlit("type");
    reveal_strlit("size");
    reveal_strlit("modified");
    reveal_strlit("permissions");
    reveal_strlit("owner");
    reveal_strlit("group");
    reveal_strlit("path");
    reveal_strlit("executable");
    reveal_strlit("files");
    reveal_strlit("content");
    reveal_strlit("encoding");
    reveal_strlit("fileName");
    reveal_strlit("mimeType");
}

/// An entry is shown under its name and the path of that name in the directory, with the kind
/// and the notation of its mode; the size of all but directories, and the time, as the host
/// says, or zero; and the numbers of its owner and group, or nothing. Only a file is executable.
pub proof fn entries_show_what_the_host_says(
    directory: Seq<char>,
    name: Seq<char>,
    runnable: bool,
    entry: RemoteEntry,
)
    ensures
        ({
            let shown = shown_entry(directory, name, runnable, entry);
            let mode = match entry.perm {
                Some(perm) => perm,
                None => 0,
            };
            &&& shown.text_at("name"@) == Some(name)
            &&& shown.text_at("path"@) == Some(crate::remote_path::joined_path(directory, name))
            &&& shown.text_at("type"@) == Some(file_type(mode))
            &&& shown.text_at("permissions"@) == Some(permissions(mode))
            &&& file_type(mode) == "directory"@ ==> shown.member("size"@) == Some(JsonView::Null)
            &&& file_type(mode) != "directory"@ ==> shown.integer_at("size"@) == Some(
                match entry.size {
                    Some(size) => size as int,
                    None => 0,
                },
            )
            &&& shown.text_at("modified"@) == Some(
                crate::text::decimal(
                    match entry.mtime {
                        Some(mtime) => mtime as int,
                        None => 0,
                    },
                ),
            )
            &&& entry.uid matches Some(uid) ==> shown.text_at("owner"@) == Some(
                crate::text::decimal(uid as int),
            )
            &&& entry.uid is None ==> shown.text_at("owner"@) == Some(""@)
            &&& entry.gid matches Some(gid) ==> shown.text_at("group"@) == Some(
                crate::text::decimal(gid as int),
            )
            &&& entry.gid is None ==> shown.text_at("group"@) == Some(""@)
            &&& shown.bool_at("executable"@) == Some(runnable && file_type(mode) == "file"@)
        }),
{
    lemma_entry_names();
    reveal_strlit("directory");
    reveal_strlit("link");
    reveal_strlit("file");
    let mode = entry_mode(entry);
    assert("directory"@.len() == 9);
    assert("link"@[0] == 'l');
    assert("file"@[0] == 'f');
}

/// An entry is executable by its mode and its name: one of the three bits for executing is set,
/// and the name, in small letters, is one of a file that can be executed.
pub proof fn entries_are_runnable_by_mode_and_name(name: Seq<char>, entry: RemoteEntry)
    ensures
        entry_runnable(name, entry) <==> (bit_set(entry_mode(entry), 0) || bit_set(
            entry_mode(entry),
            3,
        ) || bit_set(entry_mode(entry), 6)) && executable_name(name, crate::text::lowered(name)),
{
    let mode = entry_mode(entry);
    executable_marks_are_the_bits(mode);
    assert((mode & 0o111 != 0) == ((mode >> 0u32) & 1 == 1 || (mode >> 3u32) & 1 == 1 || (mode
        >> 6u32) & 1 == 1)) by (bit_vector);
}

/// Every entry that has a name is listed under it, but for the directory itself and the one
/// above it.
pub proof fn named_entries_are_listed(directory: Seq<char>, name: Seq<char>, entry: RemoteEntry)
    ensures
        listed_entry(directory, None, entry) is None,
        listed_entry(directory, Some(name), entry) is None <==> name == seq!['.'] || name
            == seq!['.', '.'],
        listed_entry(directory, Some(name), entry) matches Some(shown) ==> shown.text_at("name"@)
            == Some(name),
{
    reveal_strlit(".");
    reveal_strlit("..");
    assert("."@ =~= seq!['.']);
    assert(".."@ =~= seq!['.', '.']);
    entries_show_what_the_host_says(directory, name, entry_runnable(name, entry), entry);
}

/// The entries of a directory are listed one by one in their order: a list of two parts is the
/// lists of the parts, one after the other.
pub proof fn entries_are_listed_in_order(
    directory: Seq<char>,
    first: Seq<RemoteEntry>,
    names: Seq<Option<Seq<char>>>,
    second: Seq<RemoteEntry>,
    other_names: Seq<Option<Seq<char>>>,
)
    requires
        names.len() == first.len(),
        other_names.len() == second.len(),
    ensures
        shown_entries(directory, first + second, names + other_names) == shown_entries(
            directory,
            first,
            names,
        ) + shown_entries(directory, second, other_names),
    decreases second.len(),
{
    if second.len() == 0 {
        assert(first + second =~= first);
        assert(names + other_names =~= names);
        assert(shown_entries(directory, first, names) + shown_entries(
            directory,
            second,
            other_names,
        ) =~= shown_entries(directory, first, names));
    } else {
        entries_are_listed_in_order(
            directory,
            first,
            names,
            second.drop_last(),
            other_names.drop_last(),
        );
        assert((first + second).drop_last() =~= first + second.drop_last());
        assert((names + other_names).drop_last() =~= names + other_names.drop_last());
        assert((first + second).last() == second.last());
        assert((names + other_names).last() == other_names.last());
        assert(shown_entries(directory, first + second, names + other_names) =~= shown_entries(
            directory,
            first,
            names,
        ) + shown_entries(directory, second, other_names));
    }
}

/// A list of one entry shows that entry, and a list of none nothing.
pub proof fn lists_of_one_entry(directory: Seq<char>, entry: RemoteEntry, name: Option<Seq<char>>)
    ensures
        shown_entries(directory, Seq::empty(), Seq::empty()) == Seq::<JsonView>::empty(),
        shown_entries(directory, seq![entry], seq![name]) == match listed_entry(
            directory,
            name,
            entry,
        ) {
            Some(shown) => seq![shown],
            None => Seq::empty(),
        },
{
    assert(seq![entry].drop_last() =~= Seq::empty());
    assert(seq![name].drop_last() =~= Seq::empty());
    assert(shown_entries(directory, seq![entry].drop_last(), seq![name].drop_last())
        == Seq::<JsonView>::empty());
    assert(shown_entries(directory, seq![entry], seq![name]) =~= match listed_entry(
        directory,
        name,
        entry,
    ) {
        Some(shown) => seq![shown],
        None => Seq::empty(),
    });
}

/// A list tells the directory that it is of, and holds the entries.
pub proof fn lists_tell_their_directory(
    directory: Seq<char>,
    entries: Seq<RemoteEntry>,
    names: Seq<Option<Seq<char>>>,
)
    ensures
        ({
            let body = list_body(directory, entries, names);
            &&& body.text_at("path"@) == Some(directory)
            &&& body.member("files"@) == Some(
                JsonView::Array(shown_entries(directory, entries, names)),
            )
        }),
        listed_path(Some(directory)) == directory,
        listed_path(None) == seq!['/'],
{
    lemma_entry_names();
    reveal_strlit("/");
    assert("/"@ =~= seq!['/']);
}

/// A file is read as its text where its bytes are UTF-8, and in base64 otherwise; the answer says
/// which, and the path.
pub proof fn files_are_read_whole(path: Seq<char>, bytes: Seq<u8>)
    ensures
        ({
            let body = read_body(path, bytes);
            &&& body.text_at("path"@) == Some(path)
            &&& valid_utf8(bytes) ==> body.text_at("encoding"@) == Some("utf8"@) && (body.text_at(
                "content"@,
            ) matches Some(text) && encode_utf8(text) == bytes)
            &&& !valid_utf8(bytes) ==> body.text_at("encoding"@) == Some("base64"@)
                && body.text_at("content"@) == Some(crate::base64_text::base64_encoded(bytes))
        }),
{
    lemma_entry_names();
    if valid_utf8(bytes) {
        decode_utf8_encode_utf8(bytes);
    }
}

/// A download carries the path, the content that it is given, and the name, which is `download`
/// where there is none; it is always base64, and bytes of no particular kind.
pub proof fn downloads_carry_their_content(
    path: Seq<char>,
    content: Seq<char>,
    name: Option<Seq<char>>,
)
    ensures
        ({
            let body = download_body(path, content, name);
            &&& body.text_at("path"@) == Some(path)
            &&& body.text_at("content"@) == Some(content)
            &&& name matches Some(known) ==> body.text_at("fileName"@) == Some(known)
            &&& name is None ==> body.text_at("fileName"@) == Some("download"@)
            &&& body.text_at("encoding"@) == Some("base64"@)
            &&& body.text_at("mimeType"@) == Some("application/octet-stream"@)
        }),
{
    lemma_entry_names();
}

/// The text of an upload is what follows the first comma, and all of it where there is none.
pub proof fn uploads_follow_the_first_comma(content: Seq<char>)
    ensures
        !content.contains(',') ==> upload_text(content) == content,
        content.contains(',') ==> exists|head: Seq<char>|
            !head.contains(',') && content == #[trigger] (head + seq![',']) + upload_text(content),
{
    if content.contains(',') {
        crate::text::lemma_first_index_bounds(content, ',');
        let at = crate::text::first_index(content, ',');
        let head = content.take(at);
        if head.contains(',') {
            let i = choose|i: int| 0 <= i < head.len() && head[i] == ',';
            assert(content[i] == ',');
        }
        assert(content =~= (head + seq![',']) + upload_text(content));
    }
}

/// An upload writes the bytes that it brings under its name in the directory, and is refused with
/// status 400 where it has no name or its text cannot be decoded.
pub proof fn uploads_write_what_they_bring(
    path: Seq<char>,
    name: Seq<char>,
    bytes: Seq<u8>,
    message: Seq<char>,
)
    ensures
        upload_action(path, Some(name), upload_outcome(Ok(bytes))) matches Ok(
            ActionView::Write { path: target, bytes: written },
        ) && target == crate::remote_path::joined_path(path, name) && written == bytes,
        upload_action(path, Some(name), upload_outcome(Err(message))) matches Err(error)
            && error.status == 400,
        upload_action(path, None, upload_outcome(Ok(bytes))) matches Err(error) && error.status
            == 400,
{
}

/// Renaming moves from the old path to the new name in the given place, or in the root.
pub proof fn renaming_starts_from_the_old_path(
    old_path: Seq<char>,
    place: Seq<char>,
    new_name: Seq<char>,
)
    ensures
        rename_view(old_path, Some(place), new_name) matches ActionView::Rename { from, to } && from
            == old_path && to == crate::remote_path::joined_path(place, new_name),
        rename_view(old_path, None, new_name) matches ActionView::Rename { from, to } && from
            == old_path && to == seq!['/'] + new_name,
{
    reveal_strlit("/");
    assert("/"@ =~= seq!['/']);
}

/// A step on the remote host that fails is told in words that end in the message of its error: a
/// file that cannot be opened with status 404, what the server could not do with 500, and the
/// rest with 400. The words name the path where the step is about listing, opening or reading.
pub proof fn failed_steps_keep_their_message(
    step: RemoteStep,
    path: Seq<char>,
    message: Seq<char>,
)
    ensures
        message.is_suffix_of(remote_error(step, path, message).message),
        step == RemoteStep::List || step == RemoteStep::Open || step == RemoteStep::Read
            ==> crate::text::has_part(remote_error(step, path, message).message, path),
        remote_error(step, path, message).status == if step == RemoteStep::Open {
            404int
        } else if step == RemoteStep::OpenSftp || step == RemoteStep::Read || step
            == RemoteStep::Write {
            500
        } else {
            400
        },
{
    let text = remote_error(step, path, message).message;
    assert(text.subrange(text.len() - message.len(), text.len() as int) =~= message);
    if step == RemoteStep::List || step == RemoteStep::Open || step == RemoteStep::Read {
        let head = match step {
            RemoteStep::List => "Failed to list "@,
            RemoteStep::Open => "Failed to open "@,
            _ => "Failed to read "@,
        };
        assert(text =~= head + path + (": "@ + message));
        crate::text::parts_stand_in_their_text(text, path);
    }
}

/// A text that is written or created as a file is read back as that text, from the place that it
/// was written to.
pub proof fn written_texts_are_read_back(
    path: Seq<char>,
    directory: Seq<char>,
    name: Seq<char>,
    content: Seq<char>,
)
    ensures
        write_view(path, content) matches ActionView::Write { path: target, bytes } && target
            == path && read_body(target, bytes).text_at("content"@) == Some(content),
        create_view(directory, Some(name), content) matches Ok(
            ActionView::Write { path: target, bytes },
        ) && target == crate::remote_path::joined_path(directory, name) && read_body(
            target,
            bytes,
        ).text_at("content"@) == Some(content),
        create_view(directory, None, content) matches Err(error) && error.status == 400,
{
    lemma_entry_names();
    encode_utf8_valid_utf8(content);
    encode_utf8_decode_utf8(content);
}

/// A folder is made under its name in the directory, for its owner to change and for everybody
/// to look into.
pub proof fn folders_are_made_in_their_directory(path: Seq<char>, folder_name: Seq<char>)
    ensures
        folder_view(path, folder_name) matches ActionView::MakeDir { path: target, mode } && target
            == crate::remote_path::joined_path(path, folder_name) && mode == 7 * 64 + 5 * 8 + 5,
{
}

/// Just the item that is named is deleted: as a folder where the request says that it is one, and
/// as a file otherwise. An item is moved from its old path to its new one, and moving it back
/// undoes that.
pub proof fn items_are_deleted_and_moved_by_their_path(path: Seq<char>, other: Seq<char>)
    ensures
        delete_view(path, Some(true)) matches ActionView::RemoveDir { path: gone } && gone == path,
        delete_view(path, Some(false)) matches ActionView::RemoveFile { path: gone } && gone
            == path,
        delete_view(path, None) matches ActionView::RemoveFile { path: gone } && gone == path,
        move_view(path, other) matches ActionView::Rename { from, to } && from == path && to
            == other && move_view(other, path) == (ActionView::Rename { from: to, to: from }),
{
}

/// What is done is told with its words and that it succeeded.
pub proof fn done_requests_are_told(message: Seq<char>)
    ensures
        done_body(message).bool_at("success"@) == Some(true),
        done_body(message).text_at("message"@) == Some(message),
{
    reveal_strlit("success");
    reveal_strlit("message");
    assert("success"@[0] != "message"@[0]);
}

/// An action is seen with its own paths, bytes and mode, and a request as its action or its
/// refusal.
pub proof fn actions_are_seen_whole(
    path: String,
    other: String,
    bytes: Vec<u8>,
    mode: i32,
    action: RemoteAction,
    error: ApiError,
)
    ensures
        (RemoteAction::List { path })@ == (ActionView::List { path: path@ }),
        (RemoteAction::Read { path })@ == (ActionView::Read { path: path@ }),
        (RemoteAction::Write { path, bytes })@ == (ActionView::Write {
            path: path@,
            bytes: bytes@,
        }),
        (RemoteAction::MakeDir { path, mode })@ == (ActionView::MakeDir {
            path: path@,
            mode: mode as int,
        }),
        (RemoteAction::RemoveDir { path })@ == (ActionView::RemoveDir { path: path@ }),
        (RemoteAction::RemoveFile { path })@ == (ActionView::RemoveFile { path: path@ }),
        (RemoteAction::Rename { from: path, to: other })@ == (ActionView::Rename {
            from: path@,
            to: other@,
        }),
        action_view(Ok(action)) == Ok::<ActionView, ErrorView>(action@),
        action_view(Err(error)) == Err::<ActionView, ErrorView>(error@),
        bytes_view(Ok(bytes)) == Ok::<Seq<u8>, ErrorView>(bytes@),
        bytes_view(Err(error)) == Err::<Seq<u8>, ErrorView>(error@),
{
}

/// In a notation that is all ASCII, what anybody may execute is marked by an `x` at one of three
/// places: the fourth, the seventh and the tenth character.
pub proof fn executable_marks_stand_at_three_places(text: Seq<char>)
    requires
        is_ascii_chars(text),
    ensures
        marked_executable(text) <==> (text.len() > 3 && text[3] == 'x') || (text.len() > 6
            && text[6] == 'x') || (text.len() > 9 && text[9] == 'x'),
{
    is_ascii_chars_encode_utf8(text);
    let bytes = encode_utf8(text);
    assert(bytes.len() == text.len());
    assert(text.len() > 3 ==> bytes[3] == text[3] as u8);
    assert(text.len() > 6 ==> bytes[6] == text[6] as u8);
    assert(text.len() > 9 ==> bytes[9] == text[9] as u8);
}

/// A file is shown with its path, its content and how that is encoded, each under its name.
pub proof fn contents_are_shown_as_they_are(
    path: Seq<char>,
    content: Seq<char>,
    encoding: Seq<char>,
)
    ensures
        content_body(path, content, encoding).text_at("path"@) == Some(path),
        content_body(path, content, encoding).text_at("content"@) == Some(content),
        content_body(path, content, encoding).text_at("encoding"@) == Some(encoding),
{
    reveal_strlit("path");
    reveal_strlit("content");
    reveal_strlit("encoding");
    assert("path"@.len() == 4);
    assert("content"@.len() == 7);
    assert("encoding"@.len() == 8);
}

} // verus!
