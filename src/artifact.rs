//! Naming of result artifacts and construction of the URL handed back.

use vstd::prelude::*;
use vstd::string::*;
use crate::error::AppError;

verus! {

/// A character of a token: a lowercase hexadecimal digit or a hyphen.
pub open spec fn is_token_char(c: char) -> bool {
    ('0' <= c && c <= '9') || ('a' <= c && c <= 'f') || c == '-'
}

/// A token in the hyphenated form of a UUID: 36 token characters.
pub open spec fn is_token(t: Seq<char>) -> bool {
    t.len() == 36 && forall|i: int| 0 <= i < t.len() ==> is_token_char(#[trigger] t[i])
}

/// The file name under the asset root of the artifact with token `t`.
pub open spec fn file_name_of(t: Seq<char>) -> Seq<char> {
    t + ".png"@
}

/// The path, relative to the public root, under which the artifact is served.
pub open spec fn relative_path_of(t: Seq<char>) -> Seq<char> {
    "assets/"@ + file_name_of(t)
}

/// Relies on `uuid::Uuid::new_v4` and its `Display`, which writes the
/// hyphenated lowercase form: 36 characters, each a lowercase hex digit or '-'.
/// The value itself is random.
#[verifier::external_body]
fn fresh_token() -> (r: String)
    ensures
        is_token(r@),
{
    uuid::Uuid::new_v4().to_string()
}

/// A difference image ready to be stored: its PNG bytes and its names.
pub struct Artifact {
    pub token: String,
    pub file_name: String,
    pub relative_path: String,
    pub png: Vec<u8>,
}

impl Artifact {
    /// The names of the artifact all derive from its token.
    pub open spec fn wf(&self) -> bool {
        &&& self.file_name@ == file_name_of(self.token@)
        &&& self.relative_path@ == relative_path_of(self.token@)
    }

    /// Names `png` after `token`.
    pub fn named(token: &str, png: Vec<u8>) -> (r: Artifact)
        ensures
            r.wf(),
            r.token@ == token@,
            r.png == png,
    {
        let file_name = String::from_str(token).concat(".png");
        let relative_path = String::from_str("assets/").concat(file_name.as_str());
        Artifact { token: String::from_str(token), file_name, relative_path, png }
    }

    /// Names `png` after a freshly generated random token.
    pub fn fresh(png: Vec<u8>) -> (r: Artifact)
        ensures
            r.wf(),
            is_token(r.token@),
            r.png == png,
    {
        let token = fresh_token();
        Artifact::named(token.as_str(), png)
    }

    /// Where the artifact is written: its file name joined to the asset root.
    pub fn stored_path(&self, asset_root: &str) -> (r: String)
        ensures
            r@ == asset_root@ + "/"@ + self.file_name@,
    {
        String::from_str(asset_root).concat("/").concat(self.file_name.as_str())
    }
}

/// A result URL names the file that was stored: for a well-formed artifact with
/// a token, the URL built from any base is that base, then `assets/`, then the
/// artifact's file name; and the file name holds no '/', so the stored path
/// (asset root, '/', file name) puts the file directly under the asset root,
/// with the file name as its last component.
pub proof fn lemma_url_names_stored_file(base: Seq<char>, asset_root: Seq<char>, a: Artifact)
    requires
        a.wf(),
        is_token(a.token@),
    ensures
        base + a.relative_path@ == base + "assets/"@ + a.file_name@,
        forall|i: int| 0 <= i < a.file_name@.len() ==> #[trigger] a.file_name@[i] != '/',
        (asset_root + "/"@ + a.file_name@).subrange(
            asset_root.len() + 1 as int,
            asset_root.len() + 1 + a.file_name@.len() as int,
        ) == a.file_name@,
{
    reveal_strlit(".png");
    reveal_strlit("/");
    let t = a.token@;
    let f = a.file_name@;
    assert(base + a.relative_path@ =~= base + "assets/"@ + f);
    assert forall|i: int| 0 <= i < f.len() implies #[trigger] f[i] != '/' by {
        if i < 36 {
            assert(f[i] == t[i]);
            assert(is_token_char(t[i]));
        } else {
            assert(f[i] == ".png"@[i - 36]);
        }
    }
    assert((asset_root + "/"@ + f).subrange(asset_root.len() + 1 as int, asset_root.len() + 1 + f.len() as int) =~= f);
}

/// Service settings read once at start-up.
pub struct ServiceConfig {
    /// Prefix of every result URL; the artifact's relative path follows it.
    pub base_url: String,
}

impl ServiceConfig {
    /// The settings for a configured base URL, or the local default where none is set.
    pub fn from_host_info(host_info: Option<String>) -> (r: ServiceConfig)
        ensures
            match host_info {
                Some(h) => r.base_url == h,
                None => r.base_url@ == "http://localhost:8080/"@,
            },
    {
        match host_info {
            Some(h) => ServiceConfig { base_url: h },
            None => ServiceConfig { base_url: String::from_str("http://localhost:8080/") },
        }
    }
}

/// The answer to a successful request.
pub struct DiffResponse {
    pub result_url: String,
}

/// The URL under which `artifact` is served.
pub fn result_url(config: &ServiceConfig, artifact: &Artifact) -> (r: String)
    ensures
        r@ == config.base_url@ + artifact.relative_path@,
{
    config.base_url.clone().concat(artifact.relative_path.as_str())
}

/// The answer once the store has reported whether `artifact` was written: its
/// URL where it was, an internal failure where it was not.
pub fn respond(config: &ServiceConfig, artifact: &Artifact, stored: bool) -> (r: Result<DiffResponse, AppError>)
    ensures
        stored ==> r is Ok && r->Ok_0.result_url@ == config.base_url@ + artifact.relative_path@,
        !stored ==> r == Err::<DiffResponse, AppError>(AppError::UnknownError),
{
    if stored {
        Ok(DiffResponse { result_url: result_url(config, artifact) })
    } else {
        Err(AppError::UnknownError)
    }
}

} // verus!
