//! Sharing and fetching content: decoding what is to be shared, and the JSON that
//! reports shares and fetched content.
use vstd::prelude::*;
use crate::command::opt_view;
use crate::json::{
    array_text, decimal_text, json_opt_string, json_string, json_string_text, json_u64,
    object_text, opt_string_text, pair_views, render_array, render_object, string_views,
};

verus! {

#[verifier::external_type_specification]
#[verifier::external_body]
pub struct ExDecodeError(base64::DecodeError);

/// The bytes that standard, padded base64 text decodes to; `None` if it is not such text.
pub uninterp spec fn base64_decoded(s: Seq<char>) -> Option<Seq<u8>>;

/// The standard, padded base64 text of the bytes.
pub uninterp spec fn base64_text(b: Seq<u8>) -> Seq<char>;

/// The text that the bytes encode in UTF-8; `None` if they are not UTF-8.
pub uninterp spec fn utf8_text(b: Seq<u8>) -> Option<Seq<char>>;

/// Relies on base64's `STANDARD.decode`: the bytes that the text decodes to, or an
/// error, depending on the text alone.
#[verifier::external_body]
fn base64_decode(s: &str) -> (r: Result<Vec<u8>, base64::DecodeError>)
    ensures
        match r {
            Ok(b) => base64_decoded(s@) == Some(b@),
            Err(_) => base64_decoded(s@) is None,
        },
{
    base64::Engine::decode(&base64::engine::general_purpose::STANDARD, s)
}

/// Relies on base64's `STANDARD.encode`, which panics only where the length of the
/// encoding overflows `usize`.
#[verifier::external_body]
fn base64_encode(b: &Vec<u8>) -> (r: String)
    requires
        b@.len() <= usize::MAX / 2,
    ensures
        r@ == base64_text(b@),
{
    base64::Engine::encode(&base64::engine::general_purpose::STANDARD, b)
}

/// Relies on std's `String::from_utf8`: the text, if the bytes are UTF-8.
#[verifier::external_body]
fn utf8_decode(b: Vec<u8>) -> (r: Option<String>)
    ensures
        opt_view(r) == utf8_text(b@),
{
    String::from_utf8(b).ok()
}

/// Decodes the base64 text that `share_bytes` carries.
pub fn decode_share_bytes(data: &str) -> (r: Result<Vec<u8>, String>)
    ensures
        match r {
            Ok(b) => base64_decoded(data@) == Some(b@),
            Err(e) => base64_decoded(data@) is None && e@ == "invalid base64"@,
        },
{
    match base64_decode(data) {
        Ok(b) => Ok(b),
        Err(_) => Err("invalid base64".to_string()),
    }
}

pub open spec fn share_data_text(ticket: Seq<char>, hash: Seq<char>, format: Seq<char>) -> Seq<char> {
    object_text(
        seq![
            ("format"@, json_string_text(format)),
            ("hash"@, json_string_text(hash)),
            ("ticket"@, json_string_text(ticket)),
        ],
    )
}

/// The data of `share_bytes`: the ticket, the content hash and the blob format.
pub fn share_data(ticket: &str, hash: &str, format: &str) -> (r: String)
    ensures
        r@ == share_data_text(ticket@, hash@, format@),
{
    let mut members: Vec<(String, String)> = Vec::new();
    members.push(("format".to_string(), json_string(format)));
    members.push(("hash".to_string(), json_string(hash)));
    members.push(("ticket".to_string(), json_string(ticket)));
    let r = render_object(&members);
    assert(pair_views(members@) =~= seq![
        ("format"@, json_string_text(format@)),
        ("hash"@, json_string_text(hash@)),
        ("ticket"@, json_string_text(ticket@)),
    ]);
    r
}

/// How sharing one file went.
pub enum ShareOutcome {
    Shared { ticket: String, hash: String },
    Failed { error: String },
}

/// One entry of `share_files`.
pub struct SharedFile {
    pub path: String,
    pub outcome: ShareOutcome,
}

impl SharedFile {
    /// The entry for a path where no file exists.
    pub fn missing(path: String) -> (r: SharedFile)
        ensures
            r.path == path,
            r.outcome matches ShareOutcome::Failed { error } && error@ == "file not found"@,
    {
        SharedFile { path, outcome: ShareOutcome::Failed { error: "file not found".to_string() } }
    }
}

pub open spec fn shared_file_text(f: SharedFile) -> Seq<char> {
    match f.outcome {
        ShareOutcome::Shared { ticket, hash } => object_text(
            seq![
                ("hash"@, json_string_text(hash@)),
                ("path"@, json_string_text(f.path@)),
                ("ticket"@, json_string_text(ticket@)),
            ],
        ),
        ShareOutcome::Failed { error } => object_text(
            seq![("error"@, json_string_text(error@)), ("path"@, json_string_text(f.path@))],
        ),
    }
}

pub open spec fn share_files_data_text(items: Seq<SharedFile>) -> Seq<char> {
    object_text(seq![("shared"@, array_text(items.map_values(|f: SharedFile| shared_file_text(f))))])
}

fn shared_file_json(f: &SharedFile) -> (r: String)
    ensures
        r@ == shared_file_text(*f),
{
    let mut members: Vec<(String, String)> = Vec::new();
    match &f.outcome {
        ShareOutcome::Shared { ticket, hash } => {
            members.push(("hash".to_string(), json_string(hash.as_str())));
            members.push(("path".to_string(), json_string(f.path.as_str())));
            members.push(("ticket".to_string(), json_string(ticket.as_str())));
        },
        ShareOutcome::Failed { error } => {
            members.push(("error".to_string(), json_string(error.as_str())));
            members.push(("path".to_string(), json_string(f.path.as_str())));
        },
    }
    let r = render_object(&members);
    assert(pair_views(members@) =~= match f.outcome {
        ShareOutcome::Shared { ticket, hash } => seq![
            ("hash"@, json_string_text(hash@)),
            ("path"@, json_string_text(f.path@)),
            ("ticket"@, json_string_text(ticket@)),
        ],
        ShareOutcome::Failed { error } => seq![
            ("error"@, json_string_text(error@)),
            ("path"@, json_string_text(f.path@)),
        ],
    });
    r
}

/// The data of `share_files`: one entry per path, in order. A path that could not
/// be shared is reported in its entry and does not make the command fail.
pub fn share_files_data(items: &Vec<SharedFile>) -> (r: String)
    ensures
        r@ == share_files_data_text(items@),
{
    let mut texts: Vec<String> = Vec::new();
    let mut i: usize = 0;
    while i < items.len()
        invariant
            i <= items.len(),
            string_views(texts@) =~= items@.take(i as int).map_values(|f: SharedFile| shared_file_text(f)),
        decreases items.len() - i,
    {
        let t = shared_file_json(&items[i]);
        let ghost before = texts@;
        texts.push(t);
        proof {
            assert(string_views(texts@) =~= string_views(before).push(t@));
            assert(items@.take(i as int + 1) =~= items@.take(i as int).push(items@[i as int]));
        }
        i = i + 1;
    }
    assert(items@.take(items.len() as int) =~= items@);
    let arr = render_array(&texts);
    let mut members: Vec<(String, String)> = Vec::new();
    members.push(("shared".to_string(), arr));
    let r = render_object(&members);
    assert(pair_views(members@) =~= seq![
        ("shared"@, array_text(items@.map_values(|f: SharedFile| shared_file_text(f)))),
    ]);
    r
}

pub open spec fn fetch_data_text(hash: Seq<char>, data: Seq<u8>) -> Seq<char> {
    object_text(
        seq![
            ("data_b64"@, json_string_text(base64_text(data))),
            ("hash"@, json_string_text(hash)),
            ("size"@, decimal_text(data.len())),
            ("text"@, opt_string_text(utf8_text(data))),
        ],
    )
}

/// The data of `fetch`: the content as base64, and as text where it is UTF-8
/// (`null` where it is not), with its hash and size.
pub fn fetch_data(hash: &str, data: Vec<u8>) -> (r: String)
    requires
        data@.len() <= usize::MAX / 2,
    ensures
        r@ == fetch_data_text(hash@, data@),
{
    let b64 = base64_encode(&data);
    let size: usize = data.len();
    let ghost bytes = data@;
    let text = utf8_decode(data);
    let mut members: Vec<(String, String)> = Vec::new();
    members.push(("data_b64".to_string(), json_string(b64.as_str())));
    members.push(("hash".to_string(), json_string(hash)));
    members.push(("size".to_string(), json_u64(size as u64)));
    members.push(("text".to_string(), json_opt_string(&text)));
    let r = render_object(&members);
    assert(pair_views(members@) =~= seq![
        ("data_b64"@, json_string_text(base64_text(bytes))),
        ("hash"@, json_string_text(hash@)),
        ("size"@, decimal_text(bytes.len())),
        ("text"@, opt_string_text(utf8_text(bytes))),
    ]);
    r
}

} // verus!
