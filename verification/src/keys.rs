//! SSH keys: what type a key is of, and how keys are made with `ssh-keygen`.

use crate::accounts::fresh_uuid;
use crate::base64_text::decode_text;
use crate::error::{ApiError, ErrorView};
use crate::json::{Json, JsonObject, JsonView};
use crate::text::{
    chars_of, contains, find_char, joined, same_text, starts_with, trim, utf8_lossy, utf8_text,
    word_at_start,
};
use vstd::prelude::*;
use vstd::string::*;
use vstd::utf8::*;

verus! {

// ---------------------------------------------------------------------------------------------
// The type of a key
// ---------------------------------------------------------------------------------------------

/// The types that a public key can begin with.
pub open spec fn known_key_type(name: Seq<char>) -> bool {
    ||| name == "ssh-rsa"@
    ||| name == "ssh-ed25519"@
    ||| name == "ecdsa-sha2-nistp256"@
    ||| name == "ecdsa-sha2-nistp384"@
    ||| name == "ecdsa-sha2-nistp521"@
    ||| name == "ssh-dss"@
    ||| name == "rsa-sha2-256"@
    ||| name == "rsa-sha2-512"@
}

/// The type of a name that is one.
pub fn normalize_ssh_key_type(key_type: &str) -> (r: Option<&'static str>)
    ensures
        crate::json::chars_view(r) == if known_key_type(key_type@) {
            Some(key_type@)
        } else {
            None
        },
{
    if same_text(key_type, "ssh-rsa") {
        Some("ssh-rsa")
    } else if same_text(key_type, "ssh-ed25519") {
        Some("ssh-ed25519")
    } else if same_text(key_type, "ecdsa-sha2-nistp256") {
        Some("ecdsa-sha2-nistp256")
    } else if same_text(key_type, "ecdsa-sha2-nistp384") {
        Some("ecdsa-sha2-nistp384")
    } else if same_text(key_type, "ecdsa-sha2-nistp521") {
        Some("ecdsa-sha2-nistp521")
    } else if same_text(key_type, "ssh-dss") {
        Some("ssh-dss")
    } else if same_text(key_type, "rsa-sha2-256") {
        Some("rsa-sha2-256")
    } else if same_text(key_type, "rsa-sha2-512") {
        Some("rsa-sha2-512")
    } else {
        None
    }
}

/// What a line gives to the body of an armored key: nothing where it is one of the frame.
pub open spec fn body_line(line: Seq<char>) -> Seq<char> {
    if "-----"@.is_prefix_of(line) {
        Seq::empty()
    } else {
        line
    }
}

/// A line without the carriage return before its end.
pub open spec fn without_return(line: Seq<char>) -> Seq<char> {
    if line.len() > 0 && line.last() == '\r' {
        line.drop_last()
    } else {
        line
    }
}

/// The body of an armored key: its lines without their ends, but for those of the frame.
pub open spec fn key_body(key: Seq<char>) -> Seq<char>
    decreases key.len(),
    via key_body_shrinks
{
    let end = crate::text::first_index(key, '\n');
    if end < key.len() {
        body_line(without_return(key.take(end))) + key_body(key.skip(end + 1))
    } else {
        body_line(key)
    }
}

#[via_fn]
proof fn key_body_shrinks(key: Seq<char>) {
    crate::text::lemma_first_index_bounds(key, '\n');
}

/// Appends what a line gives to the body of an armored key.
fn append_line(body: &mut String, line: &str)
    ensures
        final(body)@ == old(body)@ + body_line(line@),
{
    if !starts_with(line, "-----") {
        body.append(line);
    } else {
        proof {
            assert(body@ + body_line(line@) =~= body@);
        }
    }
}

/// The body of an armored key.
pub fn armored_body(key: &str) -> (r: String)
    ensures
        r@ == key_body(key@),
{
    let all = chars_of(key);
    let count: usize = all.len();
    let mut body = String::new();
    let mut from: usize = 0;
    proof {
        assert(key@.skip(0) =~= key@);
        assert(body@ + key_body(key@.skip(0)) =~= key_body(key@));
    }
    loop
        invariant
            from <= count,
            count == all@.len(),
            all@ == key@,
            key_body(key@) == body@ + key_body(key@.skip(from as int)),
        decreases count - from,
    {
        let ghost rest = key@.skip(from as int);
        let ghost before = body@;
        let end = find_char(&all, from, '\n');
        proof {
            assert(all@.subrange(from as int, all@.len() as int) =~= rest);
        }
        if end >= count {
            proof {
                assert(rest =~= key@.subrange(from as int, count as int));
            }
            append_line(&mut body, key.substring_char(from, count));
            return body;
        }
        let stop: usize = if end > from && all[end - 1] == '\r' {
            end - 1
        } else {
            end
        };
        proof {
            let line = rest.take(end - from);
            assert(line =~= key@.subrange(from as int, end as int));
            if end > from {
                assert(line.last() == all@[end - 1]);
            }
            assert(without_return(line) =~= key@.subrange(from as int, stop as int));
            assert(rest.skip(end - from + 1) =~= key@.skip(end + 1));
        }
        append_line(&mut body, key.substring_char(from, stop));
        proof {
            let line = body_line(key@.subrange(from as int, stop as int));
            let tail = key_body(key@.skip(end + 1));
            assert(before + (line + tail) =~= before + line + tail);
        }
        from = end + 1;
    }
}

/// The text of the decoded body of a key: empty where it is no base64, or no UTF-8.
pub open spec fn decoded_body(decoded: Result<Seq<u8>, Seq<char>>) -> Seq<char> {
    match decoded {
        Ok(bytes) => if valid_utf8(bytes) {
            decode_utf8(bytes)
        } else {
            Seq::empty()
        },
        Err(_) => Seq::empty(),
    }
}

/// Whether a name stands in the key or in its decoded body.
pub open spec fn names_type(key: Seq<char>, body: Seq<char>, name: Seq<char>) -> bool {
    crate::text::has_part(body, name) || crate::text::has_part(key, name)
}

/// The type of a key in the format of OpenSSH: the first of these names that stands in the key
/// or in its decoded body.
pub open spec fn openssh_type(key: Seq<char>, body: Seq<char>) -> Seq<char> {
    if names_type(key, body, "ssh-ed25519"@) {
        "ssh-ed25519"@
    } else if names_type(key, body, "ecdsa-sha2-nistp521"@) {
        "ecdsa-sha2-nistp521"@
    } else if names_type(key, body, "ecdsa-sha2-nistp384"@) {
        "ecdsa-sha2-nistp384"@
    } else if names_type(key, body, "ecdsa-sha2-nistp256"@) {
        "ecdsa-sha2-nistp256"@
    } else if names_type(key, body, "ssh-rsa"@) {
        "ssh-rsa"@
    } else if names_type(key, body, "ssh-dss"@) {
        "ssh-dss"@
    } else {
        "unknown"@
    }
}

fn type_is_named(key: &str, body: &str, name: &str) -> (r: bool)
    ensures
        r == names_type(key@, body@, name@),
{
    contains(body, name) || contains(key, name)
}

/// The type of a key in the format of OpenSSH, given what its body decodes as.
pub fn openssh_key_type(key: &str, decoded: Result<Vec<u8>, String>) -> (r: &'static str)
    ensures
        r@ == openssh_type(
            key@,
            decoded_body(
                match decoded {
                    Ok(bytes) => Ok(bytes@),
                    Err(message) => Err(message@),
                },
            ),
        ),
{
    let body: String = match decoded {
        Ok(bytes) => match utf8_text(bytes) {
            Ok(text) => text,
            Err(_) => String::new(),
        },
        Err(_) => String::new(),
    };
    proof {
        assert(body@ =~= decoded_body(
            match decoded {
                Ok(bytes) => Ok(bytes@),
                Err(message) => Err(message@),
            },
        ));
    }
    let body = body.as_str();
    if type_is_named(key, body, "ssh-ed25519") {
        "ssh-ed25519"
    } else if type_is_named(key, body, "ecdsa-sha2-nistp521") {
        "ecdsa-sha2-nistp521"
    } else if type_is_named(key, body, "ecdsa-sha2-nistp384") {
        "ecdsa-sha2-nistp384"
    } else if type_is_named(key, body, "ecdsa-sha2-nistp256") {
        "ecdsa-sha2-nistp256"
    } else if type_is_named(key, body, "ssh-rsa") {
        "ssh-rsa"
    } else if type_is_named(key, body, "ssh-dss") {
        "ssh-dss"
    } else {
        "unknown"
    }
}

/// The type of a key: the name that it begins with, else what its frame says, else what a key
/// in the format of OpenSSH holds.
pub open spec fn key_type(key: Seq<char>) -> Option<Seq<char>> {
    let trimmed = crate::text::trimmed(key);
    let first = crate::text::first_word(trimmed);
    if trimmed.len() == 0 {
        None
    } else if known_key_type(first) {
        Some(first)
    } else if crate::text::has_part(trimmed, "BEGIN RSA PRIVATE KEY"@) {
        Some("ssh-rsa"@)
    } else if crate::text::has_part(trimmed, "BEGIN DSA PRIVATE KEY"@) {
        Some("ssh-dss"@)
    } else if crate::text::has_part(trimmed, "BEGIN EC PRIVATE KEY"@) {
        Some("ecdsa-sha2-nistp256"@)
    } else if crate::text::has_part(trimmed, "BEGIN OPENSSH PRIVATE KEY"@) {
        Some(
            openssh_type(
                trimmed,
                decoded_body(crate::base64_text::base64_decoded(key_body(trimmed))),
            ),
        )
    } else {
        None
    }
}

/// Finds the type of a key.
pub fn detect_key_type_value(key: &str) -> (r: Option<&'static str>)
    ensures
        crate::json::chars_view(r) == key_type(key@),
{
    let trimmed = trim(key);
    if trimmed.is_empty() {
        return None;
    }
    let first = word_at_start(trimmed);
    if let Some(name) = normalize_ssh_key_type(first) {
        return Some(name);
    }
    if contains(trimmed, "BEGIN RSA PRIVATE KEY") {
        return Some("ssh-rsa");
    }
    if contains(trimmed, "BEGIN DSA PRIVATE KEY") {
        return Some("ssh-dss");
    }
    if contains(trimmed, "BEGIN EC PRIVATE KEY") {
        return Some("ecdsa-sha2-nistp256");
    }
    if contains(trimmed, "BEGIN OPENSSH PRIVATE KEY") {
        let decoded = decode_text(armored_body(trimmed).as_str());
        return Some(openssh_key_type(trimmed, decoded));
    }
    None
}

/// What is told of the type of a key.
pub open spec fn detection_body(found: Option<Seq<char>>) -> JsonView {
    match found {
        Some(name) => JsonView::Object(
            map!["success"@ => JsonView::Bool(true), "keyType"@ => JsonView::Text(name)],
        ),
        None => JsonView::Object(
            map![
                "success"@ => JsonView::Bool(false),
                "keyType"@ => JsonView::Text("invalid"@),
                "error"@ => JsonView::Text("Unsupported or invalid SSH key"@),
            ],
        ),
    }
}

/// Tells the type of a key, or that it has none.
pub fn key_detection_response(key: &str) -> (r: Json)
    ensures
        r@ == detection_body(key_type(key@)),
{
    match detect_key_type_value(key) {
        Some(name) => Json::Object(
            JsonObject::new().with("success", Json::Bool(true)).with(
                "keyType",
                Json::from_text(name),
            ),
        ),
        None => Json::Object(
            JsonObject::new().with("success", Json::Bool(false)).with(
                "keyType",
                Json::from_text("invalid"),
            ).with("error", Json::from_text("Unsupported or invalid SSH key")),
        ),
    }
}

/// The text under a key of a payload, empty where there is none.
pub open spec fn text_or_empty(payload: JsonView, key: Seq<char>) -> Seq<char> {
    match payload.text_at(key) {
        Some(text) => text,
        None => Seq::empty(),
    }
}

fn payload_text<'a>(payload: &'a Json, key: &str) -> (r: &'a str)
    ensures
        r@ == text_or_empty(payload@, key@),
{
    match payload.text_at(key) {
        Some(text) => text,
        None => {
            proof {
                reveal_strlit("");
                assert(""@ =~= Seq::<char>::empty());
            }
            ""
        },
    }
}

/// Tells the type of the private key of a payload.
pub fn detect_key_type(payload: &Json) -> (r: Json)
    ensures
        r@ == detection_body(key_type(text_or_empty(payload@, "privateKey"@))),
{
    key_detection_response(payload_text(payload, "privateKey"))
}

/// Tells the type of the public key of a payload.
pub fn detect_public_key_type(payload: &Json) -> (r: Json)
    ensures
        r@ == detection_body(key_type(text_or_empty(payload@, "publicKey"@))),
{
    key_detection_response(payload_text(payload, "publicKey"))
}

// ---------------------------------------------------------------------------------------------
// Making keys
// ---------------------------------------------------------------------------------------------

/// An argument of `ssh-keygen`: a word, or the path of the key file.
#[derive(Debug)]
pub enum KeygenArg {
    Word(String),
    KeyPath,
}

/// An argument with its word as characters.
pub enum KeygenArgView {
    Word(Seq<char>),
    KeyPath,
}

impl View for KeygenArg {
    type V = KeygenArgView;

    open spec fn view(&self) -> KeygenArgView {
        match *self {
            KeygenArg::Word(word) => KeygenArgView::Word(word@),
            KeygenArg::KeyPath => KeygenArgView::KeyPath,
        }
    }
}

/// The views of arguments.
pub open spec fn args_view(args: Seq<KeygenArg>) -> Seq<KeygenArgView> {
    args.map_values(|arg: KeygenArg| arg@)
}

fn word(text: &str) -> (r: KeygenArg)
    ensures
        r@ == KeygenArgView::Word(text@),
{
    KeygenArg::Word(text.to_owned())
}

/// What `ssh-keygen` left behind: whether it succeeded, and what it wrote.
#[derive(Debug)]
pub struct KeygenOutput {
    pub success: bool,
    pub stdout: String,
    pub stderr: String,
}

/// What `ssh-keygen` left behind, as texts: what it wrote, and what it complained about.
pub open spec fn keygen_texts(stdout: Seq<u8>, stderr: Seq<u8>) -> (Seq<char>, Seq<char>) {
    (crate::text::lossy(stdout), crate::text::lossy(stderr))
}

/// Reads what `ssh-keygen` wrote as text.
pub fn keygen_output(success: bool, stdout: &[u8], stderr: &[u8]) -> (r: KeygenOutput)
    ensures
        (r.stdout@, r.stderr@) == keygen_texts(stdout@, stderr@),
        r.success == success,
        r.stdout@ == crate::text::lossy_text(stdout@),
        r.stderr@ == crate::text::lossy_text(stderr@),
        valid_utf8(stdout@) ==> r.stdout@ == decode_utf8(stdout@),
        valid_utf8(stderr@) ==> r.stderr@ == decode_utf8(stderr@),
{
    KeygenOutput { success, stdout: utf8_lossy(stdout), stderr: utf8_lossy(stderr) }
}

/// Sets the mode of a private key file: its owner may read and write it, and nobody else may do
/// anything with it.
pub fn set_private_key_permissions(mode: &mut u32)
    ensures
        *final(mode) == 0o600,
        *final(mode) & 0o077 == 0,
{
    *mode = 0o600;
    proof {
        assert(0o600u32 & 0o077 == 0) by (bit_vector);
    }
}

/// A step with a key file that can fail.
#[derive(Clone, Copy, Debug, PartialEq, Eq, Structural)]
pub enum KeyFileStep {
    Write,
    Stat,
    Chmod,
    ReadPrivate,
    ReadPublic,
}

/// The words for a step that failed.
pub open spec fn key_file_words(step: KeyFileStep) -> Seq<char> {
    match step {
        KeyFileStep::Write => "Failed to write temp key: "@,
        KeyFileStep::Stat => "Failed to stat temp key: "@,
        KeyFileStep::Chmod => "Failed to chmod temp key: "@,
        KeyFileStep::ReadPrivate => "Failed to read private key: "@,
        KeyFileStep::ReadPublic => "Failed to read public key: "@,
    }
}

/// The error of a step with a key file that failed.
pub fn key_file_error(step: KeyFileStep, message: &str) -> (r: ApiError)
    ensures
        r@ == crate::error::internal(key_file_words(step) + message@),
{
    let words: &str = match step {
        KeyFileStep::Write => "Failed to write temp key: ",
        KeyFileStep::Stat => "Failed to stat temp key: ",
        KeyFileStep::Chmod => "Failed to chmod temp key: ",
        KeyFileStep::ReadPrivate => "Failed to read private key: ",
        KeyFileStep::ReadPublic => "Failed to read public key: ",
    };
    ApiError::internal(joined(words, message).as_str())
}

/// A fresh name for the file of a private key.
pub fn temp_private_key_name() -> (r: String)
    ensures
        exists|id: Seq<char>| #[trigger]
            crate::accounts::uuid_text(id) && r@ == "termix-private-key-"@ + id,
{
    let id = fresh_uuid();
    let name = joined("termix-private-key-", id.as_str());
    proof {
        assert(crate::accounts::uuid_text(id@));
    }
    name
}

/// A fresh name for the file of a key pair.
pub fn key_pair_name() -> (r: String)
    ensures
        exists|id: Seq<char>| #[trigger]
            crate::accounts::uuid_text(id) && r@ == "termix-keygen-"@ + id,
{
    let id = fresh_uuid();
    let name = joined("termix-keygen-", id.as_str());
    proof {
        assert(crate::accounts::uuid_text(id@));
    }
    name
}

// ---------------------------------------------------------------------------------------------
// The public key of a private key
// ---------------------------------------------------------------------------------------------

/// A request for the public key of a private key: the key, and the arguments of `ssh-keygen`.
#[derive(Debug)]
pub struct PublicKeyJob {
    pub private_key: String,
    pub args: Vec<KeygenArg>,
}

/// The arguments that print the public key of a key file, with its passphrase where it has one.
pub open spec fn public_key_args(passphrase: Option<Seq<char>>) -> Seq<KeygenArgView> {
    let args = seq![
        KeygenArgView::Word("-y"@),
        KeygenArgView::Word("-f"@),
        KeygenArgView::KeyPath,
    ];
    match passphrase {
        Some(phrase) => if phrase.len() > 0 {
            args + seq![KeygenArgView::Word("-P"@), KeygenArgView::Word(phrase)]
        } else {
            args
        },
        None => args,
    }
}

/// What a request for a public key asks for: the private key and the passphrase that it holds.
pub open spec fn public_key_request(payload: JsonView) -> Result<
    (Seq<char>, Seq<KeygenArgView>),
    ErrorView,
> {
    match payload.text_at("privateKey"@) {
        Some(key) => Ok((key, public_key_args(payload.text_at("keyPassword"@)))),
        None => Err(crate::error::bad_request("privateKey is required"@)),
    }
}

/// Takes a request for a public key; it has to hold the private key.
pub fn generate_public_key(payload: &Json) -> (r: Result<PublicKeyJob, ApiError>)
    ensures
        match payload@.text_at("privateKey"@) {
            Some(key) => r matches Ok(job) && job.private_key@ == key && args_view(job.args@)
                == public_key_args(payload@.text_at("keyPassword"@)),
            None => r matches Err(error) && error@ == crate::error::bad_request(
                "privateKey is required"@,
            ),
        },
        (match r {
            Ok(job) => Ok((job.private_key@, args_view(job.args@))),
            Err(error) => Err(error@),
        }) == public_key_request(payload@),
{
    let private_key: String = match payload.text_at("privateKey") {
        Some(key) => key.to_owned(),
        None => return Err(ApiError::bad_request("privateKey is required")),
    };
    let mut args: Vec<KeygenArg> = vec![word("-y"), word("-f"), KeygenArg::KeyPath];
    if let Some(phrase) = payload.text_at("keyPassword") {
        if !phrase.is_empty() {
            args.push(word("-P"));
            args.push(word(phrase));
        }
    }
    proof {
        assert(args_view(args@) =~= public_key_args(payload@.text_at("keyPassword"@)));
    }
    Ok(PublicKeyJob { private_key, args })
}

/// What printing a public key comes to.
pub open spec fn public_key_outcome(output: Result<KeygenOutput, Seq<char>>) -> Result<
    Seq<char>,
    ErrorView,
> {
    match output {
        Ok(written) => if written.success {
            Ok(crate::text::trimmed(written.stdout@))
        } else {
            Err(
                crate::error::bad_request(
                    "Failed to generate public key: "@ + crate::text::trimmed(written.stderr@),
                ),
            )
        },
        Err(message) => Err(crate::error::internal("Failed to run ssh-keygen: "@ + message)),
    }
}

/// What running `ssh-keygen` gave, its error as characters.
pub open spec fn run_view(output: Result<KeygenOutput, String>) -> Result<KeygenOutput, Seq<char>> {
    match output {
        Ok(written) => Ok(written),
        Err(message) => Err(message@),
    }
}

/// The public key, given what `ssh-keygen` left behind or the error of running it.
pub fn ssh_keygen_public_key(output: Result<KeygenOutput, String>) -> (r: Result<String, ApiError>)
    ensures
        (match r {
            Ok(key) => Ok(key@),
            Err(error) => Err(error@),
        }) == public_key_outcome(run_view(output)),
{
    match output {
        Ok(written) => if written.success {
            Ok(trim(written.stdout.as_str()).to_owned())
        } else {
            Err(
                ApiError::bad_request(
                    joined(
                        "Failed to generate public key: ",
                        trim(written.stderr.as_str()),
                    ).as_str(),
                ),
            )
        },
        Err(message) => Err(
            ApiError::internal(joined("Failed to run ssh-keygen: ", message.as_str()).as_str()),
        ),
    }
}

/// The body that gives a public key, with its type.
pub open spec fn public_key_body(key: Seq<char>) -> JsonView {
    JsonView::Object(
        map![
            "success"@ => JsonView::Bool(true),
            "publicKey"@ => JsonView::Text(key),
            "keyType"@ => JsonView::Text(
                match key_type(key) {
                    Some(name) => name,
                    None => "unknown"@,
                },
            ),
        ],
    )
}

/// Answers a request for a public key.
pub fn generate_public_key_reply(made: Result<String, ApiError>) -> (r: Result<Json, ApiError>)
    ensures
        crate::error::outcome(r) == match made {
            Ok(key) => Ok::<JsonView, ErrorView>(public_key_body(key@)),
            Err(error) => Err(error@),
        },
{
    match made {
        Ok(key) => {
            let name: &str = match detect_key_type_value(key.as_str()) {
                Some(name) => name,
                None => "unknown",
            };
            Ok(
                Json::Object(
                    JsonObject::new().with("success", Json::Bool(true)).with(
                        "publicKey",
                        Json::from_text(key.as_str()),
                    ).with("keyType", Json::from_text(name)),
                ),
            )
        },
        Err(error) => Err(error),
    }
}

// ---------------------------------------------------------------------------------------------
// Key pairs
// ---------------------------------------------------------------------------------------------

/// A request for a key pair: the type that was asked for, and the arguments of `ssh-keygen`.
#[derive(Debug)]
pub struct KeyPairJob {
    pub key_type: String,
    pub args: Vec<KeygenArg>,
}

/// How `ssh-keygen` calls a type that it can make, and the size that it is given.
pub open spec fn keygen_type(key_type: Seq<char>) -> Option<(Seq<char>, Option<Seq<char>>)> {
    if key_type == "ssh-ed25519"@ {
        Some(("ed25519"@, None))
    } else if key_type == "ssh-rsa"@ {
        Some(("rsa"@, Some("2048"@)))
    } else if key_type == "ecdsa-sha2-nistp256"@ {
        Some(("ecdsa"@, Some("256"@)))
    } else {
        None
    }
}

/// The arguments that make a key pair.
pub open spec fn key_pair_args(
    name: Seq<char>,
    size: Option<Seq<char>>,
    passphrase: Seq<char>,
) -> Seq<KeygenArgView> {
    let args = seq![
        KeygenArgView::Word("-q"@),
        KeygenArgView::Word("-t"@),
        KeygenArgView::Word(name),
        KeygenArgView::Word("-N"@),
        KeygenArgView::Word(passphrase),
        KeygenArgView::Word("-f"@),
        KeygenArgView::KeyPath,
    ];
    match size {
        Some(bits) => args + seq![KeygenArgView::Word("-b"@), KeygenArgView::Word(bits)],
        None => args,
    }
}

/// The type that a request for a key pair asks for.
pub open spec fn requested_type(payload: JsonView) -> Seq<char> {
    match payload.text_at("keyType"@) {
        Some(name) => name,
        None => "ssh-ed25519"@,
    }
}

/// What a request for a key pair asks for: the type, and the passphrase that it holds.
pub open spec fn key_pair_request(payload: JsonView) -> Option<(Seq<char>, Seq<KeygenArgView>)> {
    match keygen_type(requested_type(payload)) {
        Some((name, size)) => Some(
            (
                requested_type(payload),
                key_pair_args(name, size, text_or_empty(payload, "passphrase"@)),
            ),
        ),
        None => None,
    }
}

/// Takes a request for a key pair; it has to ask for a type that `ssh-keygen` can make here.
pub fn generate_key_pair(payload: &Json) -> (r: Result<KeyPairJob, ApiError>)
    ensures
        match keygen_type(requested_type(payload@)) {
            Some((name, size)) => r matches Ok(job) && job.key_type@ == requested_type(payload@)
                && args_view(job.args@) == key_pair_args(
                name,
                size,
                text_or_empty(payload@, "passphrase"@),
            ),
            None => r matches Err(error) && error@ == crate::error::bad_request(
                "Unsupported key type"@,
            ),
        },
        (match r {
            Ok(job) => Some((job.key_type@, args_view(job.args@))),
            Err(_) => None,
        }) == key_pair_request(payload@),
{
    let key_type: &str = match payload.text_at("keyType") {
        Some(name) => name,
        None => "ssh-ed25519",
    };
    let passphrase = payload_text(payload, "passphrase");
    let (name, size): (&str, Option<&str>) = if same_text(key_type, "ssh-ed25519") {
        ("ed25519", None)
    } else if same_text(key_type, "ssh-rsa") {
        ("rsa", Some("2048"))
    } else if same_text(key_type, "ecdsa-sha2-nistp256") {
        ("ecdsa", Some("256"))
    } else {
        return Err(ApiError::bad_request("Unsupported key type"));
    };
    let mut args: Vec<KeygenArg> = vec![
        word("-q"),
        word("-t"),
        word(name),
        word("-N"),
        word(passphrase),
        word("-f"),
        KeygenArg::KeyPath,
    ];
    if let Some(bits) = size {
        args.push(word("-b"));
        args.push(word(bits));
    }
    proof {
        assert(args_view(args@) =~= key_pair_args(
            name@,
            crate::json::chars_view(size),
            passphrase@,
        ));
    }
    Ok(KeyPairJob { key_type: key_type.to_owned(), args })
}

/// Checks what `ssh-keygen` left behind after it made a key pair. Where it ran and failed, what
/// there is of the key files is to be removed; where it could not be run, there is nothing to
/// remove.
pub fn check_key_pair(output: Result<KeygenOutput, String>) -> (r: Result<(), ApiError>)
    ensures
        match output {
            Ok(written) => if written.success {
                r is Ok
            } else {
                r matches Err(error) && error@ == crate::error::bad_request(
                    "Failed to generate key pair: "@ + crate::text::trimmed(written.stderr@),
                )
            },
            Err(message) => r matches Err(error) && error@ == crate::error::internal(
                "Failed to run ssh-keygen: "@ + message@,
            ),
        },
{
    match output {
        Ok(written) => if written.success {
            Ok(())
        } else {
            Err(
                ApiError::bad_request(
                    joined("Failed to generate key pair: ", trim(written.stderr.as_str())).as_str(),
                ),
            )
        },
        Err(message) => Err(
            ApiError::internal(joined("Failed to run ssh-keygen: ", message.as_str()).as_str()),
        ),
    }
}

/// The body that gives a key pair: the private key as it is, the public key without the white
/// space around it, and its type, which is the one that was asked for where it cannot be told.
pub open spec fn key_pair_body(
    asked: Seq<char>,
    private_key: Seq<char>,
    public_key: Seq<char>,
) -> JsonView {
    let public = crate::text::trimmed(public_key);
    JsonView::Object(
        map![
            "success"@ => JsonView::Bool(true),
            "privateKey"@ => JsonView::Text(private_key),
            "publicKey"@ => JsonView::Text(public),
            "keyType"@ => JsonView::Text(
                match key_type(public) {
                    Some(name) => name,
                    None => asked,
                },
            ),
        ],
    )
}

/// Gives a key pair, once its files are read.
pub fn generate_key_pair_reply(asked: &str, private_key: &str, public_key: &str) -> (r: Json)
    ensures
        r@ == key_pair_body(asked@, private_key@, public_key@),
{
    let public = trim(public_key);
    let name: &str = match detect_key_type_value(public) {
        Some(name) => name,
        None => asked,
    };
    Json::Object(
        JsonObject::new().with("success", Json::Bool(true)).with(
            "privateKey",
            Json::from_text(private_key),
        ).with("publicKey", Json::from_text(public)).with("keyType", Json::from_text(name)),
    )
}

// ---------------------------------------------------------------------------------------------
// Laws
// ---------------------------------------------------------------------------------------------

/// A key that begins with the name of a type is of that type, whatever follows the name.
pub proof fn named_keys_are_of_their_type(name: Seq<char>, rest: Seq<char>)
    requires
        known_key_type(name),
        rest.len() > 0 ==> crate::text::white_space(rest[0]),
    ensures
        key_type(name + rest) == Some(name),
{
    lemma_known_names_are_words(name);
    let key = name + rest;
    lemma_trimmed_keeps_word(name, rest);
    let trimmed = crate::text::trimmed(key);
    let tail = choose|tail: Seq<char>|
        trimmed == #[trigger] (name + tail) && (tail.len() > 0 ==> crate::text::white_space(
            tail[0],
        ));
    lemma_first_word_of(name, tail);
}

proof fn lemma_known_names_are_words(name: Seq<char>)
    requires
        known_key_type(name),
    ensures
        name.len() > 0,
        forall|i: int| 0 <= i < name.len() ==> !crate::text::white_space(#[trigger] name[i]),
{
    reveal_strlit("ssh-rsa");
    reveal_strlit("ssh-ed25519");
    reveal_strlit("ecdsa-sha2-nistp256");
    reveal_strlit("ecdsa-sha2-nistp384");
    reveal_strlit("ecdsa-sha2-nistp521");
    reveal_strlit("ssh-dss");
    reveal_strlit("rsa-sha2-256");
    reveal_strlit("rsa-sha2-512");
}

/// Trimming takes nothing from a word that a text begins with.
proof fn lemma_trimmed_keeps_word(name: Seq<char>, rest: Seq<char>)
    requires
        name.len() > 0,
        forall|i: int| 0 <= i < name.len() ==> !crate::text::white_space(#[trigger] name[i]),
        rest.len() > 0 ==> crate::text::white_space(rest[0]),
    ensures
        exists|tail: Seq<char>|
            crate::text::trimmed(name + rest) == #[trigger] (name + tail) && (tail.len() > 0
                ==> crate::text::white_space(tail[0])),
    decreases rest.len(),
{
    let key = name + rest;
    assert(key[0] == name[0]);
    if rest.len() > 0 && crate::text::white_space(rest.last()) {
        assert(key.last() == rest.last());
        assert(key.drop_last() =~= name + rest.drop_last());
        lemma_trimmed_keeps_word(name, rest.drop_last());
    } else {
        if rest.len() > 0 {
            assert(key.last() == rest.last());
        } else {
            assert(key.last() == name.last());
            assert(name.last() == name[name.len() - 1]);
        }
        assert(crate::text::trimmed(key) == name + rest);
    }
}

/// The first word of a text that begins with a word is that word.
proof fn lemma_first_word_of(name: Seq<char>, tail: Seq<char>)
    requires
        name.len() > 0,
        forall|i: int| 0 <= i < name.len() ==> !crate::text::white_space(#[trigger] name[i]),
        tail.len() > 0 ==> crate::text::white_space(tail[0]),
    ensures
        crate::text::first_word(name + tail) == name,
{
    let text = name + tail;
    assert(text[0] == name[0]);
    lemma_first_space_at(name, tail);
    assert(text.take(name.len() as int) =~= name);
}

proof fn lemma_first_space_at(name: Seq<char>, tail: Seq<char>)
    requires
        forall|i: int| 0 <= i < name.len() ==> !crate::text::white_space(#[trigger] name[i]),
        tail.len() > 0 ==> crate::text::white_space(tail[0]),
    ensures
        crate::text::first_space(name + tail) == name.len(),
    decreases name.len(),
{
    let text = name + tail;
    if name.len() > 0 {
        assert(text[0] == name[0]);
        assert(text.drop_first() =~= name.drop_first() + tail);
        assert forall|i: int| 0 <= i < name.drop_first().len() implies !crate::text::white_space(
            #[trigger] name.drop_first()[i],
        ) by {
            assert(name.drop_first()[i] == name[i + 1]);
        }
        lemma_first_space_at(name.drop_first(), tail);
    } else {
        assert(text =~= tail);
    }
}

/// White space around a key does not change its type.
pub proof fn surrounding_space_does_not_matter(key: Seq<char>)
    ensures
        key_type(crate::text::trimmed(key)) == key_type(key),
{
    crate::text::trimming_settles(key);
}

/// The types of keys are all different.
proof fn lemma_type_names()
    ensures
        "ssh-rsa"@.len() == 7,
        "ssh-rsa"@[4] == 'r',
        "ssh-ed25519"@.len() == 11,
        "ecdsa-sha2-nistp256"@.len() == 19,
        "ecdsa-sha2-nistp256"@[16] == '2',
        "ecdsa-sha2-nistp384"@.len() == 19,
        "ecdsa-sha2-nistp384"@[16] == '3',
        "ecdsa-sha2-nistp521"@.len() == 19,
        "ecdsa-sha2-nistp521"@[16] == '5',
        "ssh-dss"@.len() == 7,
        "ssh-dss"@[4] == 'd',
        "rsa-sha2-256"@.len() == 12,
        "rsa-sha2-256"@[9] == '2',
        "rsa-sha2-512"@.len() == 12,
        "rsa-sha2-512"@[9] == '5',
        "unknown"@.len() == 7,
        "unknown"@[4] == 'o',
        "rsa"@.len() == 3,
        "ecdsa"@.len() == 5,
        "ed25519"@.len() == 7,
        "ed25519"@[4] == '5',
{
    reveal_strlit("ssh-rsa");
    reveal_strlit("ssh-ed25519");
    reveal_strlit("ecdsa-sha2-nistp256");
    reveal_strlit("ecdsa-sha2-nistp384");
    reveal_strlit("ecdsa-sha2-nistp521");
    reveal_strlit("ssh-dss");
    reveal_strlit("rsa-sha2-256");
    reveal_strlit("rsa-sha2-512");
    reveal_strlit("unknown");
    reveal_strlit("rsa");
    reveal_strlit("ecdsa");
    reveal_strlit("ed25519");
}

/// A public key is of the type whose name it begins with, for each of the eight types.
pub proof fn public_keys_are_told_by_their_name(rest: Seq<char>)
    requires
        rest.len() > 0 ==> crate::text::white_space(rest[0]),
    ensures
        key_type("ssh-rsa"@ + rest) == Some("ssh-rsa"@),
        key_type("ssh-ed25519"@ + rest) == Some("ssh-ed25519"@),
        key_type("ecdsa-sha2-nistp256"@ + rest) == Some("ecdsa-sha2-nistp256"@),
        key_type("ecdsa-sha2-nistp384"@ + rest) == Some("ecdsa-sha2-nistp384"@),
        key_type("ecdsa-sha2-nistp521"@ + rest) == Some("ecdsa-sha2-nistp521"@),
        key_type("ssh-dss"@ + rest) == Some("ssh-dss"@),
        key_type("rsa-sha2-256"@ + rest) == Some("rsa-sha2-256"@),
        key_type("rsa-sha2-512"@ + rest) == Some("rsa-sha2-512"@),
{
    named_keys_are_of_their_type("ssh-rsa"@, rest);
    named_keys_are_of_their_type("ssh-ed25519"@, rest);
    named_keys_are_of_their_type("ecdsa-sha2-nistp256"@, rest);
    named_keys_are_of_their_type("ecdsa-sha2-nistp384"@, rest);
    named_keys_are_of_their_type("ecdsa-sha2-nistp521"@, rest);
    named_keys_are_of_their_type("ssh-dss"@, rest);
    named_keys_are_of_their_type("rsa-sha2-256"@, rest);
    named_keys_are_of_their_type("rsa-sha2-512"@, rest);
}

/// No key is told to be of a type but one of the eight, or of an unknown one where its frame says
/// that it is a key in the format of OpenSSH.
pub proof fn only_these_types_are_told(key: Seq<char>)
    ensures
        key_type(key) matches Some(name) ==> {
            ||| name == "ssh-rsa"@
            ||| name == "ssh-ed25519"@
            ||| name == "ecdsa-sha2-nistp256"@
            ||| name == "ecdsa-sha2-nistp384"@
            ||| name == "ecdsa-sha2-nistp521"@
            ||| name == "ssh-dss"@
            ||| name == "rsa-sha2-256"@
            ||| name == "rsa-sha2-512"@
            ||| name == "unknown"@ && crate::text::has_part(
                crate::text::trimmed(key),
                "BEGIN OPENSSH PRIVATE KEY"@,
            )
        },
        key_type(Seq::empty()) is None,
{
}

/// A private key is told by its frame, unless it begins with the name of a type: RSA, DSA and EC
/// frames name theirs, a frame of OpenSSH leaves it to the key, and without any of the four there
/// is no type.
pub proof fn private_keys_are_told_by_their_frame(key: Seq<char>)
    requires
        crate::text::trimmed(key).len() > 0,
        !known_key_type(crate::text::first_word(crate::text::trimmed(key))),
    ensures
        ({
            let text = crate::text::trimmed(key);
            let framed = |words: Seq<char>| crate::text::has_part(text, words);
            let rsa = framed("BEGIN RSA PRIVATE KEY"@);
            let dsa = framed("BEGIN DSA PRIVATE KEY"@);
            let ec = framed("BEGIN EC PRIVATE KEY"@);
            &&& rsa ==> key_type(key) == Some("ssh-rsa"@)
            &&& dsa && !rsa ==> key_type(key) == Some("ssh-dss"@)
            &&& ec && !rsa && !dsa ==> key_type(key) == Some("ecdsa-sha2-nistp256"@)
            &&& !rsa && !dsa && !ec ==> (key_type(key) is Some <==> framed(
                "BEGIN OPENSSH PRIVATE KEY"@,
            ))
        }),
{
}

/// A key in the format of OpenSSH is of a type that it names, in itself or in its decoded body,
/// and of an unknown one only where it names none of the six. Of several it is of the first in
/// this order: Ed25519, ECDSA from the largest to the smallest, RSA, DSS.
pub proof fn openssh_keys_are_of_a_type_they_name(key: Seq<char>, body: Seq<char>)
    ensures
        ({
            let named = |wanted: Seq<char>|
                crate::text::has_part(key, wanted) || crate::text::has_part(body, wanted);
            let told = openssh_type(key, body);
            let ed = named("ssh-ed25519"@);
            let p521 = named("ecdsa-sha2-nistp521"@);
            let p384 = named("ecdsa-sha2-nistp384"@);
            let p256 = named("ecdsa-sha2-nistp256"@);
            let rsa = named("ssh-rsa"@);
            &&& told != "unknown"@ ==> named(told)
            &&& told == "unknown"@ <==> !named("ssh-ed25519"@) && !named("ecdsa-sha2-nistp521"@)
                && !named("ecdsa-sha2-nistp384"@) && !named("ecdsa-sha2-nistp256"@) && !named(
                "ssh-rsa"@,
            ) && !named("ssh-dss"@)
            &&& ed ==> told == "ssh-ed25519"@
            &&& p521 && !ed ==> told == "ecdsa-sha2-nistp521"@
            &&& p384 && !ed && !p521 ==> told == "ecdsa-sha2-nistp384"@
            &&& p256 && !ed && !p521 && !p384 ==> told == "ecdsa-sha2-nistp256"@
            &&& rsa && !ed && !p521 && !p384 && !p256 ==> told == "ssh-rsa"@
        }),
{
    lemma_type_names();
}

/// The decoded body of a key is the text that its bytes encode where they are UTF-8, and nothing
/// otherwise.
pub proof fn bodies_are_decoded_whole(bytes: Seq<u8>, message: Seq<char>)
    ensures
        valid_utf8(bytes) ==> encode_utf8(decoded_body(Ok(bytes))) == bytes,
        !valid_utf8(bytes) ==> decoded_body(Ok(bytes)).len() == 0,
        decoded_body(Err(message)).len() == 0,
{
    if valid_utf8(bytes) {
        decode_utf8_encode_utf8(bytes);
    }
}

/// The body of an armored key is its lines, one after the other without their ends: a line that
/// begins with five hyphens gives nothing, and a carriage return before the end of a line goes
/// with it.
pub proof fn armored_bodies_join_their_lines(line: Seq<char>, rest: Seq<char>)
    requires
        !line.contains('\n'),
    ensures
        "-----"@.is_prefix_of(line) ==> key_body(line + seq!['\n'] + rest) == key_body(rest),
        !"-----"@.is_prefix_of(line) && (line.len() > 0 ==> line.last() != '\r') ==> key_body(
            line + seq!['\n'] + rest,
        ) == line + key_body(rest),
        !"-----"@.is_prefix_of(line) ==> key_body(line + seq!['\r', '\n'] + rest) == line + key_body(
            rest,
        ),
        !"-----"@.is_prefix_of(line) ==> key_body(line) == line,
        "-----"@.is_prefix_of(line) ==> key_body(line).len() == 0,
{
    reveal_strlit("-----");
    let ended = line + seq!['\n'] + rest;
    let at = line.len() as int;
    assert forall|j: int| 0 <= j < at implies line[j] != '\n' by {
        assert(line.contains(line[j]));
    }
    crate::text::lemma_first_index(line, '\n', at);
    assert forall|j: int| 0 <= j < at implies ended[j] != '\n' by {
        assert(ended[j] == line[j]);
    }
    crate::text::lemma_first_index(ended, '\n', at);
    assert(ended.take(at) =~= line);
    assert(ended.skip(at + 1) =~= rest);
    if "-----"@.is_prefix_of(line) {
        assert(line.subrange(0, 5)[4] == '-');
        if line.last() == '\r' {
            assert(line.len() > 5);
            assert(line.drop_last().subrange(0, 5) =~= line.subrange(0, 5));
            assert("-----"@.is_prefix_of(line.drop_last()));
        }
        assert(Seq::<char>::empty() + key_body(rest) =~= key_body(rest));
    }
    let returned = line + seq!['\r', '\n'] + rest;
    assert forall|j: int| 0 <= j < at + 1 implies returned[j] != '\n' by {
        if j < at {
            assert(returned[j] == line[j]);
        }
    }
    crate::text::lemma_first_index(returned, '\n', at + 1);
    assert(returned.take(at + 1) =~= line.push('\r'));
    assert(line.push('\r').drop_last() =~= line);
    assert(returned.skip(at + 2) =~= rest);
}

/// The names of the members of an answer are all different.
proof fn lemma_member_names()
    ensures
        "success"@.len() == 7,
        "success"@[0] == 's',
        "keyType"@.len() == 7,
        "keyType"@[0] == 'k',
        "error"@.len() == 5,
        "publicKey"@.len() == 9,
        "privateKey"@.len() == 10,
{
    reveal_strlit("success");
    reveal_strlit("keyType");
    reveal_strlit("error");
    reveal_strlit("publicKey");
    reveal_strlit("privateKey");
}

/// The type of a key is told where there is one, and otherwise that there is none.
pub proof fn detections_tell_the_type(name: Seq<char>)
    ensures
        detection_body(Some(name)).bool_at("success"@) == Some(true),
        detection_body(Some(name)).text_at("keyType"@) == Some(name),
        detection_body(None).bool_at("success"@) == Some(false),
        detection_body(None).text_at("keyType"@) == Some("invalid"@),
        detection_body(None).member("error"@) is Some,
{
    lemma_member_names();
}

/// The public key of a private key is printed from the key file with its passphrase: `-y`, `-f`
/// and the file, and then `-P` and the passphrase just where it is not empty.
pub proof fn public_keys_are_made_from_the_file(phrase: Seq<char>)
    ensures
        ({
            let plain = public_key_args(None);
            &&& plain.len() == 3
            &&& plain[0] == KeygenArgView::Word("-y"@)
            &&& plain[1] == KeygenArgView::Word("-f"@)
            &&& plain[2] == KeygenArgView::KeyPath
            &&& public_key_args(Some(phrase)) == if phrase.len() == 0 {
                plain
            } else {
                plain.push(KeygenArgView::Word("-P"@)).push(KeygenArgView::Word(phrase))
            }
        }),
{
    let plain = public_key_args(None);
    assert(plain + seq![KeygenArgView::Word("-P"@), KeygenArgView::Word(phrase)] =~= plain.push(
        KeygenArgView::Word("-P"@),
    ).push(KeygenArgView::Word(phrase)));
}

/// A key pair is made quietly, of the type that was asked for, with the passphrase and in the
/// file: each option has its value behind it, and the size comes last where there is one.
pub proof fn key_pairs_are_made_as_asked(
    name: Seq<char>,
    bits: Seq<char>,
    passphrase: Seq<char>,
    size: Option<Seq<char>>,
)
    ensures
        ({
            let args = key_pair_args(name, size, passphrase);
            &&& args[0] == KeygenArgView::Word("-q"@)
            &&& args[1] == KeygenArgView::Word("-t"@) && args[2] == KeygenArgView::Word(name)
            &&& args[3] == KeygenArgView::Word("-N"@) && args[4] == KeygenArgView::Word(passphrase)
            &&& args[5] == KeygenArgView::Word("-f"@) && args[6] == KeygenArgView::KeyPath
            &&& size is None ==> args.len() == 7
            &&& size == Some(bits) ==> args.len() == 9 && args[7] == KeygenArgView::Word("-b"@)
                && args[8] == KeygenArgView::Word(bits)
        }),
{
}

/// The types that can be made are three: Ed25519, which has no size, RSA with 2048 bits, and
/// ECDSA with 256; a request that names none asks for Ed25519.
pub proof fn these_key_pairs_can_be_made(asked: Seq<char>, payload: JsonView)
    ensures
        keygen_type("ssh-ed25519"@) == Some(("ed25519"@, None::<Seq<char>>)),
        keygen_type("ssh-rsa"@) == Some(("rsa"@, Some("2048"@))),
        keygen_type("ecdsa-sha2-nistp256"@) == Some(("ecdsa"@, Some("256"@))),
        keygen_type(asked) is Some <==> asked == "ssh-ed25519"@ || asked == "ssh-rsa"@ || asked
            == "ecdsa-sha2-nistp256"@,
        payload.member("keyType"@) == Some(JsonView::Text(asked)) ==> requested_type(payload)
            == asked,
        !(payload.member("keyType"@) matches Some(JsonView::Text(_))) ==> requested_type(payload)
            == "ssh-ed25519"@,
{
    lemma_type_names();
}

/// A public key is what `ssh-keygen` wrote without the white space around it; where it failed the
/// request is refused with status 400 and what it wrote of the error, and where it could not be
/// run with status 500.
pub proof fn printed_keys_are_taken_over(written: KeygenOutput, message: Seq<char>)
    ensures
        written.success ==> public_key_outcome(Ok(written)) == Ok::<Seq<char>, ErrorView>(
            crate::text::trimmed(written.stdout@),
        ),
        !written.success ==> (public_key_outcome(Ok(written)) matches Err(error) && error.status
            == 400 && crate::text::trimmed(written.stderr@).is_suffix_of(error.message)),
        public_key_outcome(Err(message)) matches Err(error) && error.status == 500
            && message.is_suffix_of(error.message),
{
    let reason = crate::text::trimmed(written.stderr@);
    let failed = "Failed to generate public key: "@ + reason;
    let not_run = "Failed to run ssh-keygen: "@ + message;
    assert(failed.subrange(failed.len() - reason.len(), failed.len() as int) =~= reason);
    assert(not_run.subrange(not_run.len() - message.len(), not_run.len() as int) =~= message);
}

/// A public key is given as it is, and a key pair with the private key as it is and the public
/// key without the white space around it; each with the type that the public key tells, or else
/// as unknown or as it was asked for.
pub proof fn made_keys_are_given_whole(
    asked: Seq<char>,
    private_key: Seq<char>,
    public_key: Seq<char>,
)
    ensures
        ({
            let alone = public_key_body(public_key);
            let pair = key_pair_body(asked, private_key, public_key);
            let public = crate::text::trimmed(public_key);
            &&& alone.bool_at("success"@) == Some(true)
            &&& alone.text_at("publicKey"@) == Some(public_key)
            &&& key_type(public_key) matches Some(name) ==> alone.text_at("keyType"@) == Some(name)
            &&& key_type(public_key) is None ==> alone.text_at("keyType"@) == Some("unknown"@)
            &&& pair.bool_at("success"@) == Some(true)
            &&& pair.text_at("privateKey"@) == Some(private_key)
            &&& pair.text_at("publicKey"@) == Some(public)
            &&& key_type(public) matches Some(name) ==> pair.text_at("keyType"@) == Some(name)
            &&& key_type(public) is None ==> pair.text_at("keyType"@) == Some(asked)
        }),
{
    lemma_member_names();
}

/// A text that a payload lacks counts as empty, and one that it has as it is.
pub proof fn missing_texts_count_as_empty(payload: JsonView, key: Seq<char>, text: Seq<char>)
    ensures
        payload.member(key) == Some(JsonView::Text(text)) ==> text_or_empty(payload, key) == text,
        !(payload.member(key) matches Some(JsonView::Text(_))) ==> text_or_empty(payload, key).len()
            == 0,
{
}

/// A public key is made of the private key that a request holds under `privateKey`, with the
/// passphrase under `keyPassword`; without a private key the request is refused with status 400.
pub proof fn public_keys_are_made_of_the_key_that_is_sent(
    payload: JsonView,
    key: Seq<char>,
    phrase: Seq<char>,
)
    ensures
        payload.member("privateKey"@) == Some(JsonView::Text(key)) ==> (public_key_request(payload)
            matches Ok((used, args)) && used == key && (payload.member("keyPassword"@) == Some(
            JsonView::Text(phrase),
        ) && phrase.len() > 0 ==> args.len() == 5 && args[3] == KeygenArgView::Word("-P"@)
            && args[4] == KeygenArgView::Word(phrase)) && (!(payload.member("keyPassword"@) matches
            Some(JsonView::Text(_))) ==> args.len() == 3)),
        !(payload.member("privateKey"@) matches Some(JsonView::Text(_))) ==> (public_key_request(
            payload,
        ) matches Err(error) && error.status == 400),
{
}

/// A key pair is made of the type under `keyType` with the passphrase under `passphrase`: the
/// word behind `-N` is that passphrase, and empty where there is none.
pub proof fn key_pairs_are_made_with_their_passphrase(
    payload: JsonView,
    asked: Seq<char>,
    phrase: Seq<char>,
)
    requires
        payload.member("keyType"@) == Some(JsonView::Text(asked)),
        payload.member("passphrase"@) == Some(JsonView::Text(phrase)),
    ensures
        key_pair_request(payload) is Some <==> asked == "ssh-ed25519"@ || asked == "ssh-rsa"@
            || asked == "ecdsa-sha2-nistp256"@,
        key_pair_request(payload) matches Some((kind, args)) ==> kind == asked && args[3]
            == KeygenArgView::Word("-N"@) && args[4] == KeygenArgView::Word(phrase) && args[5]
            == KeygenArgView::Word("-f"@) && args[6] == KeygenArgView::KeyPath && args[1]
            == KeygenArgView::Word("-t"@) && args[2] == KeygenArgView::Word(
            if asked == "ssh-ed25519"@ {
                "ed25519"@
            } else if asked == "ssh-rsa"@ {
                "rsa"@
            } else {
                "ecdsa"@
            },
        ),
{
    lemma_type_names();
}

/// Arguments are seen one by one as they are.
pub proof fn arguments_are_seen_whole(args: Seq<KeygenArg>, i: int, text: String)
    requires
        0 <= i < args.len(),
    ensures
        args_view(args).len() == args.len(),
        args_view(args)[i] == args[i]@,
        KeygenArg::Word(text)@ == KeygenArgView::Word(text@),
        KeygenArg::KeyPath@ == KeygenArgView::KeyPath,
{
}

/// What running `ssh-keygen` gave is seen as what it wrote, or as the message of the error.
pub proof fn runs_are_seen_whole(written: KeygenOutput, message: String)
    ensures
        run_view(Ok(written)) == Ok::<KeygenOutput, Seq<char>>(written),
        run_view(Err(message)) == Err::<KeygenOutput, Seq<char>>(message@),
{
}

/// What `ssh-keygen` writes in UTF-8 is read as the text that encodes as it, each of its two
/// outputs on its own.
pub proof fn written_keys_are_read_unchanged(stdout: Seq<u8>, stderr: Seq<u8>)
    ensures
        valid_utf8(stdout) ==> encode_utf8(keygen_texts(stdout, stderr).0) == stdout,
        valid_utf8(stderr) ==> encode_utf8(keygen_texts(stdout, stderr).1) == stderr,
{
    if valid_utf8(stdout) {
        decode_utf8_encode_utf8(stdout);
    }
    if valid_utf8(stderr) {
        decode_utf8_encode_utf8(stderr);
    }
}

} // verus!
